use ilujo::{Action, CreateError, CreateUi, Event};
use std::collections::{BTreeMap, BTreeSet};

/// A file system held in memory, on which the requests of a creation are
/// carried out.
struct Disk {
    dirs: BTreeSet<String>,
    files: BTreeMap<String, String>,
    written: Vec<String>,
}

fn parent(path: &str) -> &str {
    match path.rfind('/') {
        Some(at) => &path[..at],
        None => "",
    }
}

impl Disk {
    fn new() -> Disk {
        let mut disk = Disk { dirs: BTreeSet::new(), files: BTreeMap::new(), written: Vec::new() };
        disk.dirs.insert("/work".to_string());
        disk.dirs.insert("/app".to_string());
        disk
    }

    fn with_templates() -> Disk {
        let mut disk = Disk::new();
        disk.dirs.insert("/app/templates".to_string());
        for (name, text) in [
            ("component.tmpl", "export const {{component_name}} = () => null;\n"),
            ("types.tmpl", "export type {{component_name}}Props = {};\n"),
            ("stories.tmpl", "import { {{component_name}} } from './{{component_name}}';\n"),
            ("index.tmpl", "export * from './{{component_name}}';\n"),
        ] {
            disk.files.insert(format!("/app/templates/{name}"), text.to_string());
        }
        disk
    }

    fn perform(&mut self, action: &Action) -> Event {
        match action {
            Action::ListDir { path } => {
                if !self.dirs.contains(path) {
                    return Event::Failed;
                }
                let under = |p: &&String| parent(p.as_str()) == path;
                let mut entries: Vec<String> = self.dirs.iter().filter(under).cloned().collect();
                entries.extend(self.files.keys().filter(under).cloned());
                Event::Listed(entries)
            }
            Action::CreateDir { path } => {
                if self.dirs.contains(path) || !self.dirs.contains(parent(path)) {
                    return Event::Failed;
                }
                self.dirs.insert(path.clone());
                Event::Done
            }
            Action::ReadFile { path } => match self.files.get(path) {
                Some(text) => Event::Loaded(text.clone()),
                None => Event::Failed,
            },
            Action::WriteFile { path, contents } => {
                if !self.dirs.contains(parent(path)) {
                    return Event::Failed;
                }
                self.files.insert(path.clone(), contents.clone());
                self.written.push(path.clone());
                Event::Done
            }
            Action::AppendFile { path, contents } => match self.files.get_mut(path) {
                Some(text) => {
                    text.push_str(contents);
                    Event::Done
                }
                None => Event::Failed,
            },
            Action::Finish { .. } | Action::Abort(_) => unreachable!(),
        }
    }

    /// Runs a creation to its end and gives the last answer.
    fn create(&mut self, name: &str) -> Action {
        let job = CreateUi {
            component_name: name.to_string(),
            target_dir: "/work".to_string(),
            app_dir: "/app".to_string(),
        };
        let (mut progress, mut action) = job.start();
        for _ in 0..100 {
            if matches!(action, Action::Finish { .. } | Action::Abort(_)) {
                return action;
            }
            let event = self.perform(&action);
            (progress, action) = job.step(progress, event);
        }
        panic!("the creation does not end");
    }
}

#[test]
fn fresh_directory_gets_four_files_and_the_component_dir() {
    let mut disk = Disk::with_templates();
    let dirs_before = disk.dirs.len();
    let files_before = disk.files.len();
    assert_eq!(disk.create("Button"), Action::Finish { index_updated: false });
    assert_eq!(disk.dirs.len(), dirs_before + 1);
    assert!(disk.dirs.contains("/work/Button"));
    assert_eq!(disk.files.len(), files_before + 4);
    assert_eq!(
        disk.written,
        vec![
            "/work/Button/Button.tsx",
            "/work/Button/Button.types.ts",
            "/work/Button/Button.stories.tsx",
            "/work/Button/index.ts",
        ]
    );
    assert_eq!(disk.files["/work/Button/Button.tsx"], "export const Button = () => null;\n");
    assert_eq!(disk.files["/work/Button/Button.types.ts"], "export type ButtonProps = {};\n");
    assert_eq!(
        disk.files["/work/Button/Button.stories.tsx"],
        "import { Button } from './Button';\n"
    );
    assert_eq!(disk.files["/work/Button/index.ts"], "export * from './Button';\n");
    for path in &disk.written {
        assert!(!disk.files[path].contains("{{component_name}}"));
    }
}

#[test]
fn existing_index_gets_the_export_line() {
    let mut disk = Disk::with_templates();
    disk.files.insert("/work/index.ts".to_string(), "export * from './Card'\n".to_string());
    assert_eq!(disk.create("Button"), Action::Finish { index_updated: true });
    assert_eq!(disk.files["/work/index.ts"], "export * from './Card'\nexport * from './Button'\n");
}

#[test]
fn missing_index_is_not_created() {
    let mut disk = Disk::with_templates();
    assert_eq!(disk.create("Button"), Action::Finish { index_updated: false });
    assert!(!disk.files.contains_key("/work/index.ts"));
}

#[test]
fn second_creation_of_the_same_name_is_refused() {
    let mut disk = Disk::with_templates();
    assert_eq!(disk.create("Button"), Action::Finish { index_updated: false });
    let files = disk.files.clone();
    let dirs = disk.dirs.clone();
    assert_eq!(disk.create("Button"), Action::Abort(CreateError::AlreadyExists));
    assert_eq!(disk.files, files);
    assert_eq!(disk.dirs, dirs);
    assert_eq!(disk.written.len(), 4);
}

#[test]
fn existing_longer_name_blocks_its_ending() {
    let mut disk = Disk::with_templates();
    assert_eq!(disk.create("MyButton"), Action::Finish { index_updated: false });
    assert_eq!(disk.create("Button"), Action::Abort(CreateError::AlreadyExists));
    assert!(!disk.dirs.contains("/work/Button"));
}

#[test]
fn existing_file_blocks_like_a_directory() {
    let mut disk = Disk::with_templates();
    disk.files.insert("/work/notes-Button".to_string(), String::new());
    assert_eq!(disk.create("Button"), Action::Abort(CreateError::AlreadyExists));
}

#[test]
fn other_names_do_not_block() {
    let mut disk = Disk::with_templates();
    assert_eq!(disk.create("Button"), Action::Finish { index_updated: false });
    assert_eq!(disk.create("MyButton"), Action::Finish { index_updated: false });
    assert_eq!(disk.create("Buttons"), Action::Finish { index_updated: false });
    assert_eq!(disk.written.len(), 12);
}

#[test]
fn missing_template_dir_fails_before_any_file_is_written() {
    let mut disk = Disk::new();
    let files_before = disk.files.len();
    assert_eq!(disk.create("Button"), Action::Abort(CreateError::TemplateUnreadable(0)));
    assert!(disk.written.is_empty());
    assert_eq!(disk.files.len(), files_before);
    assert!(disk.dirs.contains("/work/Button"));
}

#[test]
fn missing_later_template_leaves_the_earlier_files() {
    let mut disk = Disk::with_templates();
    disk.files.remove("/app/templates/stories.tmpl");
    assert_eq!(disk.create("Button"), Action::Abort(CreateError::TemplateUnreadable(2)));
    assert_eq!(disk.written, vec!["/work/Button/Button.tsx", "/work/Button/Button.types.ts"]);
}

#[test]
fn missing_target_dir_fails_at_once() {
    let mut disk = Disk::with_templates();
    disk.dirs.remove("/work");
    assert_eq!(disk.create("Button"), Action::Abort(CreateError::TargetDirUnreadable));
    assert!(disk.written.is_empty());
    assert!(!disk.dirs.contains("/work/Button"));
}

#[test]
fn name_with_missing_parent_fails_at_the_component_dir() {
    let mut disk = Disk::with_templates();
    assert_eq!(disk.create("forms/Button"), Action::Abort(CreateError::ComponentDirNotCreated));
    assert!(disk.written.is_empty());
}
