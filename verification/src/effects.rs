//! What an activation asks of its caller, and what the caller reports back.
use vstd::prelude::*;

verus! {

/// One effect on the outside world that an activation asks its caller for.
#[derive(Clone, Debug, PartialEq, Eq)]
pub enum Action {
    /// Find out whether a file exists at `path`.
    ProbeBinary { path: String },
    /// Create the directory `path` and its missing parents.
    CreateDirectory { path: String },
    /// Replace whatever is at `path` by a file that holds `content`.
    WriteFile { path: String, content: String },
    /// Retrieve the certificate of `server` from its port `port`.
    FetchCertificate { server: String, port: String },
    /// Start `command` as a child process and do not wait for it.
    Spawn { command: String },
    /// Run `command` and wait until it has ended.
    Run { command: String },
}

/// The mathematical content of an [`Action`].
pub enum ActionView {
    ProbeBinary { path: Seq<char> },
    CreateDirectory { path: Seq<char> },
    WriteFile { path: Seq<char>, content: Seq<char> },
    FetchCertificate { server: Seq<char>, port: Seq<char> },
    Spawn { command: Seq<char> },
    Run { command: Seq<char> },
}

impl View for Action {
    type V = ActionView;

    open spec fn view(&self) -> ActionView {
        match *self {
            Action::ProbeBinary { path } => ActionView::ProbeBinary { path: path@ },
            Action::CreateDirectory { path } => ActionView::CreateDirectory { path: path@ },
            Action::WriteFile { path, content } => ActionView::WriteFile {
                path: path@,
                content: content@,
            },
            Action::FetchCertificate { server, port } => ActionView::FetchCertificate {
                server: server@,
                port: port@,
            },
            Action::Spawn { command } => ActionView::Spawn { command: command@ },
            Action::Run { command } => ActionView::Run { command: command@ },
        }
    }
}

impl ActionView {
    /// The action changes the file system.
    pub open spec fn writes(self) -> bool {
        self is CreateDirectory || self is WriteFile
    }

    /// The action starts a program.
    pub open spec fn launches(self) -> bool {
        self is Spawn || self is Run
    }
}

/// What the caller reports to an activation. `H` is the caller's handle on a
/// child process; the library stores such handles and never looks into them.
#[derive(Debug)]
pub enum Event<H> {
    /// An activation is asked for. Nothing has been done yet.
    Requested,
    /// The probed file exists, or does not.
    Probed { present: bool },
    /// The directory was created, the file written or the command run.
    Succeeded,
    /// The certificate was retrieved; `pem` is its text.
    Certificate { pem: String },
    /// The child process was started; `handle` stands for it.
    Spawned { handle: H },
    /// What was asked for failed, for the reason `cause`.
    Failed { cause: String },
}

/// The mathematical content of an [`Event`].
pub enum EventView<H> {
    Requested,
    Probed { present: bool },
    Succeeded,
    Certificate { pem: Seq<char> },
    Spawned { handle: H },
    Failed { cause: Seq<char> },
}

impl<H> View for Event<H> {
    type V = EventView<H>;

    open spec fn view(&self) -> EventView<H> {
        match *self {
            Event::Requested => EventView::Requested,
            Event::Probed { present } => EventView::Probed { present },
            Event::Succeeded => EventView::Succeeded,
            Event::Certificate { pem } => EventView::Certificate { pem: pem@ },
            Event::Spawned { handle } => EventView::Spawned { handle },
            Event::Failed { cause } => EventView::Failed { cause: cause@ },
        }
    }
}

impl<H> EventView<H> {
    /// The reason that the event gives for a failure, if it reports one.
    pub open spec fn cause(self) -> Option<Seq<char>> {
        match self {
            EventView::Failed { cause } => Some(cause),
            _ => None,
        }
    }
}

impl<H> EventView<H> {
    /// The certificate that the event carries, if it carries one.
    pub open spec fn certificate(self) -> Option<Seq<char>> {
        match self {
            EventView::Certificate { pem } => Some(pem),
            _ => None,
        }
    }
}

impl<H> Event<H> {
    /// The reason that the event gives for a failure, if it reports one.
    pub fn cause(self) -> (cause: Option<String>)
        ensures
            cause.deep_view() == self@.cause(),
    {
        match self {
            Event::Failed { cause } => Some(cause),
            _ => None,
        }
    }
}

} // verus!
