//! What the tool knows of its surroundings before it runs a command.

use crate::options::{options_of, parse_option, Options};
use vstd::prelude::*;

verus! {

/// Name of the environment variable that overrides the application directory.
pub const APP_DIR_VARIABLE: &'static str = "ILUJO_APP_DIR";

/// Name of the environment variable that holds the user's home directory.
pub const HOME_VARIABLE: &'static str = "HOME";

/// Name of the environment variable that switches debug output on.
pub const DEBUG_MODE_VARIABLE: &'static str = "ILUJO_DEBUG_MODE";

/// What follows the home directory in the default application directory.
pub const DEFAULT_APP_DIR_SUFFIX: &'static str = "/.ilujo";

/// The one text that switches debug output on.
pub const DEBUG_MODE_ON: &'static str = "true";

/// The raw facts about the process, as its driver found them. A variable that
/// is unset is `None`.
#[derive(Debug, PartialEq, Eq)]
pub struct Environment {
    pub args: Vec<String>,
    pub current_exe: String,
    pub current_dir: String,
    pub app_dir: Option<String>,
    pub home: Option<String>,
    pub debug_mode: Option<String>,
}

/// The resolved configuration. It is not changed once built.
#[derive(Debug)]
pub struct Config {
    pub current_exe: String,
    pub current_dir: String,
    pub app_dir: String,
    pub args: Vec<String>,
    pub debug_mode: bool,
    pub options: Options,
}

/// Why a configuration could not be built.
#[derive(Debug, Clone, Copy, PartialEq, Eq, Structural)]
pub enum ConfigError {
    /// The application directory is not overridden, and the home directory
    /// that its default lies under is not known.
    HomeNotSet,
}

/// Mathematical content of a [`Config`].
pub struct ConfigView {
    pub current_exe: Seq<char>,
    pub current_dir: Seq<char>,
    pub app_dir: Seq<char>,
    pub args: Seq<Seq<char>>,
    pub debug_mode: bool,
    pub options: Map<Seq<char>, Seq<char>>,
}

impl View for Config {
    type V = ConfigView;

    open spec fn view(&self) -> ConfigView {
        ConfigView {
            current_exe: self.current_exe@,
            current_dir: self.current_dir@,
            app_dir: self.app_dir@,
            args: self.args.deep_view(),
            debug_mode: self.debug_mode,
            options: self.options@,
        }
    }
}

/// The application directory: the override if there is one, else the default
/// under the home directory. Without either there is none.
pub open spec fn resolved_app_dir(app_dir: Option<String>, home: Option<String>) -> Option<
    Seq<char>,
> {
    match app_dir {
        Some(dir) => Some(dir@),
        None => match home {
            Some(home) => Some(home@ + DEFAULT_APP_DIR_SUFFIX@),
            None => None,
        },
    }
}

/// Debug output is on exactly when the variable is set to [`DEBUG_MODE_ON`].
pub open spec fn resolved_debug_mode(debug_mode: Option<String>) -> bool {
    debug_mode matches Some(text) && text@ == DEBUG_MODE_ON@
}

/// The configuration that an environment resolves to, given the application
/// directory that it resolves to.
pub open spec fn resolved(env: Environment, app_dir: Seq<char>) -> ConfigView {
    ConfigView {
        current_exe: env.current_exe@,
        current_dir: env.current_dir@,
        app_dir,
        args: env.args.deep_view(),
        debug_mode: resolved_debug_mode(env.debug_mode),
        options: options_of(env.args.deep_view()),
    }
}

impl Config {
    /// Resolves the configuration from the environment.
    ///
    /// The home directory is only the fallback: it is looked at where the
    /// application directory is not overridden, and only there can its
    /// absence fail the build.
    pub fn build(env: Environment) -> (built: Result<Config, ConfigError>)
        ensures
            match resolved_app_dir(env.app_dir, env.home) {
                Some(app_dir) => built matches Ok(config) && config@ == resolved(env, app_dir),
                None => built == Err::<Config, ConfigError>(ConfigError::HomeNotSet),
            },
    {
        let Environment { args, current_exe, current_dir, app_dir, home, debug_mode } = env;
        let app_dir = match app_dir {
            Some(dir) => dir,
            None => match home {
                Some(home) => home.concat(DEFAULT_APP_DIR_SUFFIX),
                None => {
                    return Err(ConfigError::HomeNotSet);
                },
            },
        };
        let debug_mode = match debug_mode {
            Some(text) => text == String::from_str(DEBUG_MODE_ON),
            None => false,
        };
        let options = Config::options(&args);
        Ok(Config { current_exe, current_dir, app_dir, args, debug_mode, options })
    }

    /// Collects the options that the arguments assign, the last assignment of
    /// a key standing.
    pub fn options(args: &Vec<String>) -> (options: Options)
        ensures
            options@ == options_of(args.deep_view()),
    {
        let mut options = Options::new();
        let mut at: usize = 0;
        while at < args.len()
            invariant
                at <= args@.len(),
                options@ == options_of(args.deep_view().take(at as int)),
            decreases args@.len() - at,
        {
            let ghost next = args.deep_view().take(at + 1);
            assert(next.drop_last() =~= args.deep_view().take(at as int));
            match parse_option(args[at].as_str()) {
                Some(pair) => {
                    options.insert(pair.0, pair.1);
                },
                None => {},
            }
            at += 1;
        }
        assert(args.deep_view().take(at as int) =~= args.deep_view());
        options
    }
}

} // verus!
