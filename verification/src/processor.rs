//! From a command to the task that the driver carries out.

use crate::command::{Command, CommandView, CreateTarget, CreateTargetView};
use crate::component::{CreateComponent, CreateUi, CreateUiView, PLACEHOLDER_NAME, TEMPLATES};
use crate::config::{Config, ConfigView};
use vstd::prelude::*;

verus! {

/// The option that names the directory to create a component under.
pub const TARGET_DIR_OPTION: &'static str = "--dir";

/// The program that opens a directory with the system's file manager.
pub const OPEN_PROGRAM: &'static str = "open";

/// What the tool says when asked for help, or when asked for nothing.
pub const HELP_MESSAGE: &'static str = r#"
    Welcome to `ilujo` (the word for toolbox in esperanto)

    Commands:

    ui [name]   Create a UI component boilerplate called [name] in the current directory
                e.g. `ilujo ui HelloWorld`

    app-dir     Open the app directory installation with the default window manager
                e.g. `ilujo open-dir`

    help        Show this message
"#;

/// Carries out commands against a configuration.
#[derive(Debug)]
pub struct CommandProcessor {
    pub config: Config,
}

/// What is left for the driver to do for a command.
#[derive(Debug, PartialEq, Eq)]
pub enum Task {
    /// Create a component, request by request.
    CreateUi(CreateUi),
    /// Replace the process by `program`, started with `path` as its only
    /// argument.
    OpenAppDir { program: String, path: String },
    /// Print [`HELP_MESSAGE`].
    PrintHelp,
}

/// A task, and whether configuration and command are to be printed first.
#[derive(Debug, PartialEq, Eq)]
pub struct Dispatch {
    pub debug: bool,
    pub task: Task,
}

/// Mathematical content of a [`Task`].
pub enum TaskView {
    CreateUi(CreateUiView),
    OpenAppDir { program: Seq<char>, path: Seq<char> },
    PrintHelp,
}

/// Mathematical content of a [`Dispatch`].
pub struct DispatchView {
    pub debug: bool,
    pub task: TaskView,
}

impl View for Task {
    type V = TaskView;

    open spec fn view(&self) -> TaskView {
        match self {
            Task::CreateUi(job) => TaskView::CreateUi(job@),
            Task::OpenAppDir { program, path } => TaskView::OpenAppDir {
                program: program@,
                path: path@,
            },
            Task::PrintHelp => TaskView::PrintHelp,
        }
    }
}

impl View for Dispatch {
    type V = DispatchView;

    open spec fn view(&self) -> DispatchView {
        DispatchView { debug: self.debug, task: self.task@ }
    }
}

/// The directory that a component is created under: the one that the
/// directory option names, else the working directory.
pub open spec fn target_dir(config: ConfigView) -> Seq<char> {
    if config.options.contains_key(TARGET_DIR_OPTION@) {
        config.options[TARGET_DIR_OPTION@]
    } else {
        config.current_dir
    }
}

/// The creation of the component `component_name` under `config`.
pub open spec fn creation(config: ConfigView, component_name: Seq<char>) -> CreateUiView {
    CreateUiView { component_name, target_dir: target_dir(config), app_dir: config.app_dir }
}

/// The task that `command` comes to under `config`.
pub open spec fn task_of(config: ConfigView, command: CommandView) -> TaskView {
    match command {
        CommandView::Create(CreateTargetView::UiComponent(name)) => TaskView::CreateUi(
            creation(config, name),
        ),
        CommandView::OpenAppDir => TaskView::OpenAppDir {
            program: OPEN_PROGRAM@,
            path: config.app_dir,
        },
        CommandView::Help => TaskView::PrintHelp,
    }
}

impl CommandProcessor {
    /// A processor that works against `config`.
    pub fn new(config: Config) -> (processor: CommandProcessor)
        ensures
            processor.config == config,
    {
        CommandProcessor { config }
    }

    /// Turns `command` into the task that carries it out, to be preceded by
    /// debug output exactly when the configuration says so.
    pub fn process(&self, command: Command) -> (dispatch: Dispatch)
        ensures
            dispatch@ == (DispatchView {
                debug: self.config.debug_mode,
                task: task_of(self.config@, command@),
            }),
    {
        let task = match command {
            Command::Create(target) => match target {
                CreateTarget::UiComponent(component_name) => Task::CreateUi(
                    self.create_ui(component_name.as_str()),
                ),
            },
            Command::OpenAppDir => Task::OpenAppDir {
                program: String::from_str(OPEN_PROGRAM),
                path: self.config.app_dir.clone(),
            },
            Command::Help => Task::PrintHelp,
        };
        Dispatch { debug: self.config.debug_mode, task }
    }
}

impl CreateComponent for CommandProcessor {
    const PLACEHOLDER_NAME: &'static str = PLACEHOLDER_NAME;

    const TEMPLATES: [(&'static str, &'static str); 4] = TEMPLATES;

    fn create_ui(&self, component_name: &str) -> (job: CreateUi)
        ensures
            job@ == creation(self.config@, component_name@),
    {
        let target_dir = match self.config.options.get(TARGET_DIR_OPTION) {
            Some(dir) => dir.clone(),
            None => self.config.current_dir.clone(),
        };
        CreateUi {
            component_name: String::from_str(component_name),
            target_dir,
            app_dir: self.config.app_dir.clone(),
        }
    }
}

} // verus!
