use ilujo::{Config, ConfigError, Environment};

fn environment() -> Environment {
    Environment {
        args: vec!["ilujo".to_string(), "ui".to_string(), "Button".to_string()],
        current_exe: "/usr/local/bin/ilujo".to_string(),
        current_dir: "/work/project".to_string(),
        app_dir: None,
        home: Some("/home/me".to_string()),
        debug_mode: None,
    }
}

#[test]
fn build_keeps_what_the_driver_found() {
    let config = Config::build(environment()).unwrap();
    assert_eq!(config.current_exe, "/usr/local/bin/ilujo");
    assert_eq!(config.current_dir, "/work/project");
    assert_eq!(config.args, vec!["ilujo", "ui", "Button"]);
    assert_eq!(config.options.len(), 0);
}

#[test]
fn app_dir_defaults_to_a_directory_under_home() {
    let config = Config::build(environment()).unwrap();
    assert_eq!(config.app_dir, "/home/me/.ilujo");
}

#[test]
fn app_dir_variable_overrides_the_default() {
    let mut env = environment();
    env.app_dir = Some("/opt/ilujo".to_string());
    let config = Config::build(env).unwrap();
    assert_eq!(config.app_dir, "/opt/ilujo");
}

#[test]
fn empty_home_gives_a_relative_default() {
    let mut env = environment();
    env.home = Some(String::new());
    let config = Config::build(env).unwrap();
    assert_eq!(config.app_dir, "/.ilujo");
}

#[test]
fn missing_home_is_refused() {
    let mut env = environment();
    env.home = None;
    assert_eq!(Config::build(env).unwrap_err(), ConfigError::HomeNotSet);
}

#[test]
fn missing_home_is_no_obstacle_with_app_dir() {
    let mut env = environment();
    env.home = None;
    env.app_dir = Some("/opt/ilujo".to_string());
    let config = Config::build(env).unwrap();
    assert_eq!(config.app_dir, "/opt/ilujo");
    assert_eq!(config.current_dir, "/work/project");
}

#[test]
fn home_is_not_part_of_an_overridden_app_dir() {
    let mut env = environment();
    env.home = Some("/home/other".to_string());
    env.app_dir = Some("/opt/ilujo".to_string());
    assert_eq!(Config::build(env).unwrap().app_dir, "/opt/ilujo");
}

#[test]
fn empty_app_dir_variable_still_overrides() {
    let mut env = environment();
    env.app_dir = Some(String::new());
    assert_eq!(Config::build(env).unwrap().app_dir, "");
}

#[test]
fn debug_mode_is_off_by_default() {
    let config = Config::build(environment()).unwrap();
    assert!(!config.debug_mode);
}

#[test]
fn debug_mode_is_on_for_true_only() {
    let inputs = [
        ("true", true),
        ("false", false),
        ("TRUE", false),
        ("True", false),
        ("1", false),
        ("yes", false),
        ("", false),
        (" true", false),
        ("true ", false),
    ];
    for (text, expected) in inputs {
        let mut env = environment();
        env.debug_mode = Some(text.to_string());
        assert_eq!(Config::build(env).unwrap().debug_mode, expected);
    }
}

#[test]
fn build_collects_the_options_of_the_arguments() {
    let mut env = environment();
    env.args.push("--dir=src/components".to_string());
    env.args.push("--dir=lib".to_string());
    let config = Config::build(env).unwrap();
    assert_eq!(config.args.len(), 5);
    assert_eq!(config.options.len(), 1);
    assert_eq!(config.options.get("--dir"), Some(&"lib".to_string()));
}

#[test]
fn variable_names_are_those_of_the_tool() {
    assert_eq!(ilujo::config::APP_DIR_VARIABLE, "ILUJO_APP_DIR");
    assert_eq!(ilujo::config::HOME_VARIABLE, "HOME");
    assert_eq!(ilujo::config::DEBUG_MODE_VARIABLE, "ILUJO_DEBUG_MODE");
}
