use ilujo::options::parse_option;
use ilujo::{Config, Options};

fn pair(key: &str, value: &str) -> Option<(String, String)> {
    Some((key.to_string(), value.to_string()))
}

fn args(words: &[&str]) -> Vec<String> {
    words.iter().map(|w| w.to_string()).collect()
}

#[test]
fn parse_option_reads_key_and_value() {
    assert_eq!(parse_option("--dir=src/components"), pair("--dir", "src/components"));
    assert_eq!(parse_option("--x=1"), pair("--x", "1"));
}

#[test]
fn parse_option_keeps_the_dashes_in_the_key() {
    let (key, _) = parse_option("--dir=src").unwrap();
    assert_eq!(key, "--dir");
}

#[test]
fn parse_option_stops_the_value_at_a_second_sign() {
    assert_eq!(parse_option("--a=b=c"), pair("--a", "b"));
    assert_eq!(parse_option("--a==c"), pair("--a", ""));
}

#[test]
fn parse_option_accepts_empty_key_and_value() {
    assert_eq!(parse_option("--a="), pair("--a", ""));
    assert_eq!(parse_option("--=x"), pair("--", "x"));
    assert_eq!(parse_option("--="), pair("--", ""));
    assert_eq!(parse_option("---=-"), pair("---", "-"));
}

#[test]
fn parse_option_refuses_arguments_without_sign() {
    assert_eq!(parse_option("--dir"), None);
    assert_eq!(parse_option("--"), None);
}

#[test]
fn parse_option_refuses_arguments_without_two_dashes() {
    assert_eq!(parse_option("-d=src"), None);
    assert_eq!(parse_option("dir=src"), None);
    assert_eq!(parse_option("=--"), None);
    assert_eq!(parse_option("ui"), None);
    assert_eq!(parse_option(""), None);
    assert_eq!(parse_option("-"), None);
}

#[test]
fn parse_option_counts_characters_not_bytes() {
    assert_eq!(parse_option("--clé=valeur√=x"), pair("--clé", "valeur√"));
}

#[test]
fn new_options_hold_nothing() {
    let options = Options::new();
    assert_eq!(options.len(), 0);
    assert_eq!(options.get("--dir"), None);
}

#[test]
fn insert_then_get_gives_the_value() {
    let mut options = Options::new();
    options.insert("--dir".to_string(), "src".to_string());
    options.insert("--x".to_string(), "1".to_string());
    assert_eq!(options.len(), 2);
    assert_eq!(options.get("--dir"), Some(&"src".to_string()));
    assert_eq!(options.get("--x"), Some(&"1".to_string()));
    assert_eq!(options.get("--y"), None);
    assert_eq!(options.get("--di"), None);
}

#[test]
fn insert_replaces_the_value_of_a_key() {
    let mut options = Options::new();
    options.insert("--dir".to_string(), "src".to_string());
    options.insert("--x".to_string(), "1".to_string());
    options.insert("--dir".to_string(), "lib".to_string());
    assert_eq!(options.len(), 2);
    assert_eq!(options.get("--dir"), Some(&"lib".to_string()));
    assert_eq!(options.get("--x"), Some(&"1".to_string()));
}

#[test]
fn options_are_collected_from_all_arguments() {
    let options = Config::options(&args(&["ilujo", "ui", "Button", "--dir=src", "--x=1", "-y=2"]));
    assert_eq!(options.len(), 2);
    assert_eq!(options.get("--dir"), Some(&"src".to_string()));
    assert_eq!(options.get("--x"), Some(&"1".to_string()));
    assert_eq!(options.get("-y"), None);
    assert_eq!(options.get("ui"), None);
}

#[test]
fn last_assignment_of_an_option_stands() {
    let options = Config::options(&args(&["--dir=a", "--dir=b", "--x=1", "--dir=c"]));
    assert_eq!(options.len(), 2);
    assert_eq!(options.get("--dir"), Some(&"c".to_string()));
}

#[test]
fn no_arguments_give_no_options() {
    let options = Config::options(&args(&[]));
    assert_eq!(options.len(), 0);
}
