//! A build session: the decisions of a build, one event at a time.
//!
//! The caller performs each `Action` (file checks, the registry, CMake) and
//! answers with the `Event` it observed; `Config::step` decides what comes
//! next.
use vstd::prelude::*;

use crate::config::{absorbed, ConfigView, LinkType};
use crate::descriptor::{descriptor_text, pair_views};
use crate::paths::{join, views};
use crate::registry::{entry_views, EntryView, RegistryEntry};

verus! {

/// The file name under which CMake looks for a project description.
pub const DESCRIPTOR_FILE: &'static str = "CMakeLists.txt";

/// The CMake variable that carries the build profile.
pub const PROFILE_VARIABLE: &'static str = "CMAKE_BUILD_TYPE";

/// The directory, under a build output, that holds the built libraries.
pub const LIB_DIR: &'static str = "lib";

/// Opens the directive that adds a native library search path.
pub const LINK_SEARCH_DIRECTIVE: &'static str = "cargo:rustc-link-search=native=";

/// Opens the directive that links a static library.
pub const LINK_LIB_DIRECTIVE: &'static str = "cargo:rustc-link-lib=static=";

/// Where a build session stands: which answer it waits for.
#[derive(Debug, Clone, Copy, PartialEq, Eq, Structural)]
pub enum Phase {
    /// No build has started.
    Idle,
    /// Waits to learn whether a hand-written description stands at the project root.
    RootChecked,
    /// Waits for the entries of the registry.
    RegistryScanned,
    /// Waits to learn whether a description stands in the output directory.
    OutputChecked,
    /// Waits until the generated description has been written.
    DescriptorWritten,
    /// Waits until CMake has built the package.
    ToolFinished,
    /// Waits until this package's entry stands in the registry.
    Published,
    /// The build is over.
    Done,
}

/// One run of CMake: the project directory, the profile, and the variables
/// defined on its command line, in order.
#[derive(Debug)]
pub struct ToolInvocation {
    pub project_dir: String,
    pub profile: String,
    pub bindings: Vec<(String, String)>,
}

/// The model of a `ToolInvocation`.
pub struct InvocationView {
    pub project_dir: Seq<char>,
    pub profile: Seq<char>,
    pub bindings: Seq<(Seq<char>, Seq<char>)>,
}

impl View for ToolInvocation {
    type V = InvocationView;

    open spec fn view(&self) -> InvocationView {
        InvocationView {
            project_dir: self.project_dir@,
            profile: self.profile@,
            bindings: pair_views(self.bindings@),
        }
    }
}

/// What the session asks its caller to do next.
#[derive(Debug)]
pub enum Action {
    /// Tell whether the file `path` exists (answer: `Found`).
    CheckRootDescriptor { path: String },
    /// Tell whether the file `path` exists (answer: `Found`).
    CheckOutputDescriptor { path: String },
    /// List the registry under `dir`, or nothing if it does not exist (answer: `Scanned`).
    ScanRegistry { dir: String },
    /// Create the file `path` holding `text` (answer: `Written`).
    WriteDescriptor { path: String, text: String },
    /// Run CMake (answer: `ToolFinished`).
    RunTool { invocation: ToolInvocation },
    /// Create `dir` if needed and record `entry` in it (answer: `Published`).
    Publish { dir: String, entry: RegistryEntry },
    /// Hand these lines to the enclosing build; the session is over.
    Finish { directives: Vec<String> },
}

/// The model of an `Action`.
pub enum ActionView {
    CheckRootDescriptor(Seq<char>),
    CheckOutputDescriptor(Seq<char>),
    ScanRegistry(Seq<char>),
    WriteDescriptor(Seq<char>, Seq<char>),
    RunTool(InvocationView),
    Publish(Seq<char>, EntryView),
    Finish(Seq<Seq<char>>),
}

impl View for Action {
    type V = ActionView;

    open spec fn view(&self) -> ActionView {
        match self {
            Action::CheckRootDescriptor { path } => ActionView::CheckRootDescriptor(path@),
            Action::CheckOutputDescriptor { path } => ActionView::CheckOutputDescriptor(path@),
            Action::ScanRegistry { dir } => ActionView::ScanRegistry(dir@),
            Action::WriteDescriptor { path, text } => ActionView::WriteDescriptor(path@, text@),
            Action::RunTool { invocation } => ActionView::RunTool(invocation@),
            Action::Publish { dir, entry } => ActionView::Publish(dir@, entry@),
            Action::Finish { directives } => ActionView::Finish(views(directives@)),
        }
    }
}

/// What the caller observed while performing an action.
#[derive(Debug)]
pub enum Event {
    /// Whether the file asked about exists.
    Found(bool),
    /// The records of the registry.
    Scanned(Vec<RegistryEntry>),
    /// The description was written.
    Written,
    /// CMake succeeded.
    ToolFinished,
    /// The entry was recorded.
    Published,
}

/// The model of an `Event`.
pub enum EventView {
    Found(bool),
    Scanned(Seq<EntryView>),
    Written,
    ToolFinished,
    Published,
}

impl View for Event {
    type V = EventView;

    open spec fn view(&self) -> EventView {
        match self {
            Event::Found(b) => EventView::Found(*b),
            Event::Scanned(es) => EventView::Scanned(entry_views(es@)),
            Event::Written => EventView::Written,
            Event::ToolFinished => EventView::ToolFinished,
            Event::Published => EventView::Published,
        }
    }
}

/// An event that does not answer what the session waits for.
#[derive(Debug, Clone, Copy, PartialEq, Eq, Structural)]
pub enum SessionError {
    UnexpectedEvent,
}

/// The run of CMake on the project in `dir`: the profile, then the profile
/// again as `CMAKE_BUILD_TYPE`, then every definition in order.
pub open spec fn invocation(v: ConfigView, dir: Seq<char>) -> InvocationView {
    InvocationView {
        project_dir: dir,
        profile: v.profile,
        bindings: seq![(PROFILE_VARIABLE@, v.profile)] + v.defines,
    }
}

/// The lines handed to the enclosing build: none for a program, else the
/// search path of the package's own `lib` directory and the package itself
/// as a static library.
pub open spec fn directives(v: ConfigView) -> Seq<Seq<char>> {
    if v.kind == LinkType::Executables {
        Seq::empty()
    } else {
        seq![LINK_SEARCH_DIRECTIVE@ + join(v.out_dir, LIB_DIR@), LINK_LIB_DIRECTIVE@ + v.name]
    }
}

/// The record this package leaves in the registry.
pub open spec fn own_entry(v: ConfigView) -> EntryView {
    EntryView { name: v.name, location: v.out_dir }
}

/// The path at which a description is generated.
pub open spec fn generated_descriptor_path(v: ConfigView) -> Seq<char> {
    join(v.out_dir, DESCRIPTOR_FILE@)
}

/// The path at which a hand-written description is looked for.
pub open spec fn root_descriptor_path(v: ConfigView) -> Seq<char> {
    join(v.root, DESCRIPTOR_FILE@)
}

/// The configuration after `e` has answered the session of `v`; unchanged
/// where `e` is no such answer.
pub open spec fn next_config(v: ConfigView, e: EventView) -> ConfigView {
    match (v.phase, e) {
        (Phase::RootChecked, EventView::Found(true)) => ConfigView { phase: Phase::ToolFinished, ..v },
        (Phase::RootChecked, EventView::Found(false)) => ConfigView {
            phase: Phase::RegistryScanned,
            ..v
        },
        (Phase::RegistryScanned, EventView::Scanned(es)) => ConfigView {
            phase: Phase::OutputChecked,
            ..absorbed(v, es)
        },
        (Phase::OutputChecked, EventView::Found(true)) => ConfigView {
            phase: Phase::ToolFinished,
            ..v
        },
        (Phase::OutputChecked, EventView::Found(false)) => ConfigView {
            phase: Phase::DescriptorWritten,
            ..v
        },
        (Phase::DescriptorWritten, EventView::Written) => ConfigView {
            phase: Phase::ToolFinished,
            ..v
        },
        (Phase::ToolFinished, EventView::ToolFinished) => ConfigView {
            phase: Phase::Published,
            ..v
        },
        (Phase::Published, EventView::Published) => ConfigView { phase: Phase::Done, ..v },
        _ => v,
    }
}

/// The action that follows when `e` answers the session of `v`; `None` where
/// `e` is no such answer.
pub open spec fn next_action(v: ConfigView, e: EventView) -> Option<ActionView> {
    match (v.phase, e) {
        (Phase::RootChecked, EventView::Found(true)) => Some(
            ActionView::RunTool(invocation(v, v.root)),
        ),
        (Phase::RootChecked, EventView::Found(false)) => Some(
            ActionView::ScanRegistry(v.registry_dir),
        ),
        (Phase::RegistryScanned, EventView::Scanned(_)) => Some(
            ActionView::CheckOutputDescriptor(generated_descriptor_path(v)),
        ),
        (Phase::OutputChecked, EventView::Found(true)) => Some(
            ActionView::RunTool(invocation(v, v.out_dir)),
        ),
        (Phase::OutputChecked, EventView::Found(false)) => Some(
            ActionView::WriteDescriptor(generated_descriptor_path(v), descriptor_text(v)),
        ),
        (Phase::DescriptorWritten, EventView::Written) => Some(
            ActionView::RunTool(invocation(v, v.out_dir)),
        ),
        (Phase::ToolFinished, EventView::ToolFinished) => Some(
            ActionView::Publish(v.registry_dir, own_entry(v)),
        ),
        (Phase::Published, EventView::Published) => Some(ActionView::Finish(directives(v))),
        _ => None,
    }
}

/// The actions that a session in `v` answers with, one per event of
/// `events` in turn.
pub open spec fn session_actions(v: ConfigView, events: Seq<EventView>) -> Seq<Option<ActionView>>
    decreases events.len(),
{
    if events.len() == 0 {
        Seq::empty()
    } else {
        seq![next_action(v, events[0])] + session_actions(
            next_config(v, events[0]),
            events.drop_first(),
        )
    }
}

} // verus!
