//! Creation of a UI component from templates, as a conversation with a driver.
//!
//! The library decides; the driver acts. [`CreateUi::start`] names the first
//! thing to do, and [`CreateUi::step`] takes what came of the last request and
//! names the next one, until it answers [`Action::Finish`] or
//! [`Action::Abort`].

use crate::path::{join_path, joined};
use crate::text::{ends_with, replace_all, replaced};
use vstd::prelude::*;

verus! {

/// The token that stands for the component's name in templates and in the
/// names of the files made from them.
pub const PLACEHOLDER_NAME: &'static str = "{{component_name}}";

/// Each template's file name, and the pattern of the name of the file that is
/// made from it.
pub const TEMPLATES: [(&'static str, &'static str); 4] = [
    ("component.tmpl", "{{component_name}}.tsx"),
    ("types.tmpl", "{{component_name}}.types.ts"),
    ("stories.tmpl", "{{component_name}}.stories.tsx"),
    ("index.tmpl", "index.ts"),
];

/// The directory, under the application directory, that holds the templates.
pub const TEMPLATES_DIR: &'static str = "templates";

/// The file, in the target directory, that gathers the exports.
pub const INDEX_FILE: &'static str = "index.ts";

/// What the export line holds before the component's name.
pub const EXPORT_OPENING: &'static str = "export * from './";

/// What the export line holds after the component's name.
pub const EXPORT_CLOSING: &'static str = "'\n";

/// Something that can lay out a UI component.
pub trait CreateComponent {
    /// The token that a component's name takes the place of.
    const PLACEHOLDER_NAME: &'static str;

    /// Template file names with the patterns of their destination file names.
    const TEMPLATES: [(&'static str, &'static str); 4];

    /// Prepares the creation of the component called `component_name`.
    fn create_ui(&self, component_name: &str) -> CreateUi;
}

/// The creation of one component: its name, the directory it goes under, and
/// the application directory whose templates it is made from.
#[derive(Debug, PartialEq, Eq)]
pub struct CreateUi {
    pub component_name: String,
    pub target_dir: String,
    pub app_dir: String,
}

/// Why a component was not created.
#[derive(Debug, Clone, Copy, PartialEq, Eq, Structural)]
pub enum CreateError {
    /// The target directory could not be listed.
    TargetDirUnreadable,
    /// An entry of the target directory already ends with the component's name.
    AlreadyExists,
    /// The component's directory could not be made.
    ComponentDirNotCreated,
    /// The template of this index could not be read.
    TemplateUnreadable(usize),
    /// The file made from the template of this index could not be written.
    FileNotWritten(usize),
    /// The driver reported something that the pending request cannot lead to,
    /// or the progress names a template that does not exist.
    Unexpected,
}

/// How far a creation has come: what the driver was last asked to do.
#[derive(Debug, Clone, Copy, PartialEq, Eq, Structural)]
pub enum Progress {
    /// The target directory is being listed.
    Listing,
    /// The component's directory is being made.
    CreatingDir,
    /// The template of this index is being read.
    Reading(usize),
    /// The file made from the template of this index is being written.
    Writing(usize),
    /// The export line is being appended to the index file.
    UpdatingIndex,
    /// The component stands; the index file was updated or not.
    Finished { index_updated: bool },
    /// The creation was given up.
    Failed(CreateError),
}

/// What came of the last request.
#[derive(Debug, PartialEq, Eq)]
pub enum Event {
    /// The directory was listed; these are the paths of its entries.
    Listed(Vec<String>),
    /// The file was read; this is its text.
    Loaded(String),
    /// The directory was made, or the file was written or appended to.
    Done,
    /// The request could not be carried out.
    Failed,
}

/// What the driver is to do next.
#[derive(Debug, PartialEq, Eq)]
pub enum Action {
    /// List the entries of the directory.
    ListDir { path: String },
    /// Make this one directory, none of its parents.
    CreateDir { path: String },
    /// Read the file as text.
    ReadFile { path: String },
    /// Create the file with these contents.
    WriteFile { path: String, contents: String },
    /// Append these contents to the file, which is not made if it is missing.
    AppendFile { path: String, contents: String },
    /// Nothing is left to do: the component was created.
    Finish { index_updated: bool },
    /// Nothing more is to be done: the creation failed.
    Abort(CreateError),
}

/// Mathematical content of a [`CreateUi`].
pub struct CreateUiView {
    pub component_name: Seq<char>,
    pub target_dir: Seq<char>,
    pub app_dir: Seq<char>,
}

/// Mathematical content of an [`Event`].
pub enum EventView {
    Listed(Seq<Seq<char>>),
    Loaded(Seq<char>),
    Done,
    Failed,
}

/// Mathematical content of an [`Action`].
pub enum ActionView {
    ListDir { path: Seq<char> },
    CreateDir { path: Seq<char> },
    ReadFile { path: Seq<char> },
    WriteFile { path: Seq<char>, contents: Seq<char> },
    AppendFile { path: Seq<char>, contents: Seq<char> },
    Finish { index_updated: bool },
    Abort(CreateError),
}

impl View for CreateUi {
    type V = CreateUiView;

    open spec fn view(&self) -> CreateUiView {
        CreateUiView {
            component_name: self.component_name@,
            target_dir: self.target_dir@,
            app_dir: self.app_dir@,
        }
    }
}

impl View for Event {
    type V = EventView;

    open spec fn view(&self) -> EventView {
        match self {
            Event::Listed(entries) => EventView::Listed(entries.deep_view()),
            Event::Loaded(text) => EventView::Loaded(text@),
            Event::Done => EventView::Done,
            Event::Failed => EventView::Failed,
        }
    }
}

impl View for Action {
    type V = ActionView;

    open spec fn view(&self) -> ActionView {
        match self {
            Action::ListDir { path } => ActionView::ListDir { path: path@ },
            Action::CreateDir { path } => ActionView::CreateDir { path: path@ },
            Action::ReadFile { path } => ActionView::ReadFile { path: path@ },
            Action::WriteFile { path, contents } => ActionView::WriteFile {
                path: path@,
                contents: contents@,
            },
            Action::AppendFile { path, contents } => ActionView::AppendFile {
                path: path@,
                contents: contents@,
            },
            Action::Finish { index_updated } => ActionView::Finish {
                index_updated: *index_updated,
            },
            Action::Abort(error) => ActionView::Abort(*error),
        }
    }
}

/// The file name of the template of index `i`.
pub open spec fn template_source(i: int) -> Seq<char> {
    TEMPLATES[i].0@
}

/// The pattern of the name of the file made from the template of index `i`.
pub open spec fn template_pattern(i: int) -> Seq<char> {
    TEMPLATES[i].1@
}

/// `text` with the placeholder replaced by `component_name` throughout.
pub open spec fn rendered(text: Seq<char>, component_name: Seq<char>) -> Seq<char> {
    replaced(text, PLACEHOLDER_NAME@, component_name)
}

/// Some entry's path ends with `component_name`. The match is on the text of
/// the path: an entry whose name merely ends with the component's name counts.
pub open spec fn taken(entries: Seq<Seq<char>>, component_name: Seq<char>) -> bool {
    exists|i: int| 0 <= i < entries.len() && component_name.is_suffix_of(#[trigger] entries[i])
}

impl CreateUiView {
    /// The directory that holds the component's files.
    pub open spec fn component_dir(self) -> Seq<char> {
        joined(self.target_dir, self.component_name)
    }

    /// Where the template of index `i` is read from.
    pub open spec fn template_path(self, i: int) -> Seq<char> {
        joined(joined(self.app_dir, TEMPLATES_DIR@), template_source(i))
    }

    /// Where the file made from the template of index `i` is written.
    pub open spec fn destination_path(self, i: int) -> Seq<char> {
        joined(self.component_dir(), rendered(template_pattern(i), self.component_name))
    }

    /// The index file of the target directory.
    pub open spec fn index_path(self) -> Seq<char> {
        joined(self.target_dir, INDEX_FILE@)
    }

    /// The line that exports the component.
    pub open spec fn export_statement(self) -> Seq<char> {
        EXPORT_OPENING@ + self.component_name + EXPORT_CLOSING@
    }

    /// The sentence that tells the user why the creation failed on `error`.
    pub open spec fn failure_text(self, error: CreateError) -> Seq<char> {
        match error {
            CreateError::TargetDirUnreadable => "Fails reading the target dir"@,
            CreateError::AlreadyExists => "Directory "@ + self.component_name
                + " already exists!"@,
            CreateError::ComponentDirNotCreated => "Fails creating component dir"@,
            CreateError::TemplateUnreadable(_) => "Fails reading the template file"@,
            CreateError::FileNotWritten(_) => "Fails writing the destination file"@,
            CreateError::Unexpected => "Fails following the driver"@,
        }
    }

    /// The first request of a creation.
    pub open spec fn first_action(self) -> ActionView {
        ActionView::ListDir { path: self.target_dir }
    }

    /// The request to read the template of index `i`.
    pub open spec fn read_template(self, i: int) -> (Progress, ActionView) {
        (Progress::Reading(i as usize), ActionView::ReadFile { path: self.template_path(i) })
    }

    /// What follows `progress` when the driver reports `event`.
    ///
    /// Any failure but that of the index update ends the creation. What was
    /// made before it stays as it is. A creation that has ended answers every
    /// further event as it answered the last.
    pub open spec fn next(self, progress: Progress, event: EventView) -> (Progress, ActionView) {
        match progress {
            Progress::Listing => match event {
                EventView::Listed(entries) => if taken(entries, self.component_name) {
                    given_up(CreateError::AlreadyExists)
                } else {
                    (Progress::CreatingDir, ActionView::CreateDir { path: self.component_dir() })
                },
                EventView::Failed => given_up(CreateError::TargetDirUnreadable),
                _ => given_up(CreateError::Unexpected),
            },
            Progress::CreatingDir => match event {
                EventView::Done => self.read_template(0),
                EventView::Failed => given_up(CreateError::ComponentDirNotCreated),
                _ => given_up(CreateError::Unexpected),
            },
            Progress::Reading(i) => if i >= TEMPLATES@.len() {
                given_up(CreateError::Unexpected)
            } else {
                match event {
                    EventView::Loaded(text) => (
                        Progress::Writing(i),
                        ActionView::WriteFile {
                            path: self.destination_path(i as int),
                            contents: rendered(text, self.component_name),
                        },
                    ),
                    EventView::Failed => given_up(CreateError::TemplateUnreadable(i)),
                    _ => given_up(CreateError::Unexpected),
                }
            },
            Progress::Writing(i) => if i >= TEMPLATES@.len() {
                given_up(CreateError::Unexpected)
            } else {
                match event {
                    EventView::Done => if i + 1 < TEMPLATES@.len() {
                        self.read_template(i + 1)
                    } else {
                        (
                            Progress::UpdatingIndex,
                            ActionView::AppendFile {
                                path: self.index_path(),
                                contents: self.export_statement(),
                            },
                        )
                    },
                    EventView::Failed => given_up(CreateError::FileNotWritten(i)),
                    _ => given_up(CreateError::Unexpected),
                }
            },
            Progress::UpdatingIndex => match event {
                EventView::Done => finished(true),
                EventView::Failed => finished(false),
                _ => given_up(CreateError::Unexpected),
            },
            Progress::Finished { index_updated } => finished(index_updated),
            Progress::Failed(error) => given_up(error),
        }
    }
}

impl CreateUiView {
    /// The requests made in answer to `events`, one for each in turn, from
    /// `progress` on.
    pub open spec fn answers(self, progress: Progress, events: Seq<EventView>) -> Seq<ActionView>
        decreases events.len(),
    {
        if events.len() == 0 {
            Seq::empty()
        } else {
            let (then, action) = self.next(progress, events.first());
            seq![action] + self.answers(then, events.drop_first())
        }
    }

    /// Every request of a creation whose driver reports `events` in turn: the
    /// first one, then the answer to each event.
    pub open spec fn requests(self, events: Seq<EventView>) -> Seq<ActionView> {
        seq![self.first_action()] + self.answers(Progress::Listing, events)
    }
}

/// An upper bound on the requests that a creation at `progress` still makes
/// before it ends; zero exactly when it has ended.
pub open spec fn requests_left(progress: Progress) -> nat {
    match progress {
        Progress::Listing => 11,
        Progress::CreatingDir => 10,
        Progress::Reading(i) => if i < TEMPLATES@.len() {
            (9 - 2 * i) as nat
        } else {
            1
        },
        Progress::Writing(i) => if i < TEMPLATES@.len() {
            (8 - 2 * i) as nat
        } else {
            1
        },
        Progress::UpdatingIndex => 1,
        Progress::Finished { .. } => 0,
        Progress::Failed(_) => 0,
    }
}

/// What a driver reports to whom nothing fails before the index update: the
/// listing, the new directory, and for each template its text and the file
/// written; then `index`, what came of the index update.
pub open spec fn smooth_events(
    entries: Seq<Seq<char>>,
    texts: Seq<Seq<char>>,
    index: EventView,
) -> Seq<EventView> {
    seq![
        EventView::Listed(entries),
        EventView::Done,
        EventView::Loaded(texts[0]),
        EventView::Done,
        EventView::Loaded(texts[1]),
        EventView::Done,
        EventView::Loaded(texts[2]),
        EventView::Done,
        EventView::Loaded(texts[3]),
        EventView::Done,
        index,
    ]
}

/// The end of a creation that failed.
pub open spec fn given_up(error: CreateError) -> (Progress, ActionView) {
    (Progress::Failed(error), ActionView::Abort(error))
}

/// The end of a creation that succeeded.
pub open spec fn finished(index_updated: bool) -> (Progress, ActionView) {
    (Progress::Finished { index_updated }, ActionView::Finish { index_updated })
}

/// Replaces the placeholder in `text` by `component_name`.
pub fn render(text: &str, component_name: &str) -> (out: String)
    ensures
        out@ == rendered(text@, component_name@),
{
    replace_all(text, PLACEHOLDER_NAME, component_name)
}

/// Whether the path of some entry ends with `component_name`.
pub fn component_exists(entries: &Vec<String>, component_name: &str) -> (yes: bool)
    ensures
        yes == taken(entries.deep_view(), component_name@),
{
    let mut at: usize = 0;
    while at < entries.len()
        invariant
            at <= entries@.len(),
            forall|j: int|
                0 <= j < at ==> !component_name@.is_suffix_of(#[trigger] entries.deep_view()[j]),
        decreases entries@.len() - at,
    {
        assert(entries.deep_view()[at as int] == entries@[at as int]@);
        if ends_with(entries[at].as_str(), component_name) {
            return true;
        }
        at += 1;
    }
    false
}

impl CreateUi {
    /// The directory that holds the component's files.
    pub fn component_dir(&self) -> (path: String)
        ensures
            path@ == self@.component_dir(),
    {
        join_path(self.target_dir.as_str(), self.component_name.as_str())
    }

    /// Where the template of index `i` is read from.
    fn template_path(&self, i: usize) -> (path: String)
        requires
            i < TEMPLATES@.len(),
        ensures
            path@ == self@.template_path(i as int),
    {
        let dir = join_path(self.app_dir.as_str(), TEMPLATES_DIR);
        join_path(dir.as_str(), TEMPLATES[i].0)
    }

    /// Where the file made from the template of index `i` is written.
    fn destination_path(&self, i: usize) -> (path: String)
        requires
            i < TEMPLATES@.len(),
        ensures
            path@ == self@.destination_path(i as int),
    {
        let dir = self.component_dir();
        let name = render(TEMPLATES[i].1, self.component_name.as_str());
        join_path(dir.as_str(), name.as_str())
    }

    /// The index file of the target directory.
    pub fn index_path(&self) -> (path: String)
        ensures
            path@ == self@.index_path(),
    {
        join_path(self.target_dir.as_str(), INDEX_FILE)
    }

    /// The line that exports the component.
    pub fn export_statement(&self) -> (line: String)
        ensures
            line@ == self@.export_statement(),
    {
        let mut line = String::from_str(EXPORT_OPENING);
        line.append(self.component_name.as_str());
        line.append(EXPORT_CLOSING);
        line
    }

    /// Tells the user why the creation failed on `error`.
    pub fn failure_message(&self, error: CreateError) -> (text: String)
        ensures
            text@ == self@.failure_text(error),
    {
        match error {
            CreateError::TargetDirUnreadable => String::from_str("Fails reading the target dir"),
            CreateError::AlreadyExists => {
                let mut text = String::from_str("Directory ");
                text.append(self.component_name.as_str());
                text.append(" already exists!");
                text
            },
            CreateError::ComponentDirNotCreated => String::from_str(
                "Fails creating component dir",
            ),
            CreateError::TemplateUnreadable(_) => String::from_str(
                "Fails reading the template file",
            ),
            CreateError::FileNotWritten(_) => String::from_str(
                "Fails writing the destination file",
            ),
            CreateError::Unexpected => String::from_str("Fails following the driver"),
        }
    }

    /// Begins the creation: the progress to keep and the first request.
    pub fn start(&self) -> (first: (Progress, Action))
        ensures
            first.0 == Progress::Listing,
            first.1@ == self@.first_action(),
    {
        (Progress::Listing, Action::ListDir { path: self.target_dir.clone() })
    }

    /// Takes what came of the last request and names the next one.
    pub fn step(&self, progress: Progress, event: Event) -> (next: (Progress, Action))
        ensures
            (next.0, next.1@) == self@.next(progress, event@),
    {
        match progress {
            Progress::Listing => match event {
                Event::Listed(entries) => {
                    if component_exists(&entries, self.component_name.as_str()) {
                        give_up(CreateError::AlreadyExists)
                    } else {
                        (Progress::CreatingDir, Action::CreateDir { path: self.component_dir() })
                    }
                },
                Event::Failed => give_up(CreateError::TargetDirUnreadable),
                _ => give_up(CreateError::Unexpected),
            },
            Progress::CreatingDir => match event {
                Event::Done => self.read(0),
                Event::Failed => give_up(CreateError::ComponentDirNotCreated),
                _ => give_up(CreateError::Unexpected),
            },
            Progress::Reading(i) => {
                if i >= TEMPLATES.len() {
                    return give_up(CreateError::Unexpected);
                }
                match event {
                    Event::Loaded(text) => (
                        Progress::Writing(i),
                        Action::WriteFile {
                            path: self.destination_path(i),
                            contents: render(text.as_str(), self.component_name.as_str()),
                        },
                    ),
                    Event::Failed => give_up(CreateError::TemplateUnreadable(i)),
                    _ => give_up(CreateError::Unexpected),
                }
            },
            Progress::Writing(i) => {
                if i >= TEMPLATES.len() {
                    return give_up(CreateError::Unexpected);
                }
                match event {
                    Event::Done => {
                        if i + 1 < TEMPLATES.len() {
                            self.read(i + 1)
                        } else {
                            (
                                Progress::UpdatingIndex,
                                Action::AppendFile {
                                    path: self.index_path(),
                                    contents: self.export_statement(),
                                },
                            )
                        }
                    },
                    Event::Failed => give_up(CreateError::FileNotWritten(i)),
                    _ => give_up(CreateError::Unexpected),
                }
            },
            Progress::UpdatingIndex => match event {
                Event::Done => finish(true),
                Event::Failed => finish(false),
                _ => give_up(CreateError::Unexpected),
            },
            Progress::Finished { index_updated } => finish(index_updated),
            Progress::Failed(error) => give_up(error),
        }
    }

    /// The request to read the template of index `i`.
    fn read(&self, i: usize) -> (next: (Progress, Action))
        requires
            i < TEMPLATES@.len(),
        ensures
            (next.0, next.1@) == self@.read_template(i as int),
    {
        (Progress::Reading(i), Action::ReadFile { path: self.template_path(i) })
    }
}

/// Ends a creation that failed.
fn give_up(error: CreateError) -> (next: (Progress, Action))
    ensures
        (next.0, next.1@) == given_up(error),
{
    (Progress::Failed(error), Action::Abort(error))
}

/// Ends a creation that succeeded.
fn finish(index_updated: bool) -> (next: (Progress, Action))
    ensures
        (next.0, next.1@) == finished(index_updated),
{
    (Progress::Finished { index_updated }, Action::Finish { index_updated })
}

} // verus!
