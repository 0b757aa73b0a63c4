//! Runtime aggregates beside the settings: the two status registers, the
//! runtime state with its dirty flag, and what the process controller is asked
//! to do.

use vstd::prelude::*;

verus! {

/// The value of a status register: the outcome of the task of its kind that
/// was started last. A register holds one value; a new task overwrites it.
#[derive(Debug, Clone, Copy, PartialEq, Eq, Structural)]
pub enum DownloadStatus {
    /// No task was started yet.
    Idle,
    /// A task is under way.
    Downloading,
    /// The task ran to its end.
    Success,
    /// The content that was fetched is no valid configuration, or it could
    /// not be given a place.
    Error,
    /// The transport failed.
    Failed,
}

impl DownloadStatus {
    /// The name a front end reads when it polls the register.
    pub open spec fn name(self) -> Seq<char> {
        match self {
            DownloadStatus::Idle => "Idle"@,
            DownloadStatus::Downloading => "Downloading"@,
            DownloadStatus::Success => "Success"@,
            DownloadStatus::Error => "Error"@,
            DownloadStatus::Failed => "Failed"@,
        }
    }

    /// The register's value as text.
    pub fn to_string(&self) -> (text: String)
        ensures
            text@ == self.name(),
    {
        match self {
            DownloadStatus::Idle => String::from_str("Idle"),
            DownloadStatus::Downloading => String::from_str("Downloading"),
            DownloadStatus::Success => String::from_str("Success"),
            DownloadStatus::Error => String::from_str("Error"),
            DownloadStatus::Failed => String::from_str("Failed"),
        }
    }
}

/// How a fetch ended, as far as the decisions here depend on it.
#[derive(Debug, Clone, Copy, PartialEq, Eq, Structural)]
pub enum Fetched {
    /// The transport failed: no answer, or none in time.
    Failed,
    /// Content came, and it is no valid configuration.
    Invalid,
    /// Content came, and it is a valid configuration.
    Valid,
}

/// Something that happens to the update register or beside it.
pub enum UpdateEvent {
    /// An update call came in.
    Started,
    /// The refresh of one subscription ended, in this way.
    Refreshed(Fetched),
    /// The supervising task has spawned a refresh for every subscription.
    Spawned,
}

/// The update register after one event. The end of a single refresh is not
/// reported to it.
pub open spec fn update_step(status: DownloadStatus, event: UpdateEvent) -> DownloadStatus {
    match event {
        UpdateEvent::Started => DownloadStatus::Downloading,
        UpdateEvent::Refreshed(_) => status,
        UpdateEvent::Spawned => DownloadStatus::Success,
    }
}

/// What the runtime state holds, over sequences.
pub struct RuntimeStateView {
    pub home: Seq<char>,
    pub dirty: bool,
}

impl RuntimeStateView {
    /// The state once the settings have changed in a way that must be
    /// persisted.
    pub open spec fn marked(self) -> RuntimeStateView {
        RuntimeStateView { dirty: true, ..self }
    }
}

/// State that lives as long as the process: the base directory, and the flag
/// that tells the persistence side that the settings in memory differ from
/// those on disk. Nothing in this crate clears the flag.
#[derive(Debug, PartialEq, Eq)]
pub struct RuntimeState {
    pub home: String,
    pub dirty: bool,
}

impl View for RuntimeState {
    type V = RuntimeStateView;

    open spec fn view(&self) -> RuntimeStateView {
        RuntimeStateView { home: self.home@, dirty: self.dirty }
    }
}

impl RuntimeState {
    /// The state at process start: nothing to persist yet.
    pub fn new(home: String) -> (state: Self)
        ensures
            state@.home == home@,
            !state@.dirty,
    {
        RuntimeState { home, dirty: false }
    }
}

/// What the process controller is asked to do, over sequences.
pub enum ProcessActionView {
    Keep,
    Start(Seq<char>),
    Stop,
}

/// What the caller has the process controller do after a toggle.
#[derive(Debug, PartialEq, Eq)]
pub enum ProcessAction {
    /// Leave the process as it is.
    Keep,
    /// Start the proxy with the configuration at this path. The path is empty
    /// when no profile could be found; the controller is expected to fail
    /// then.
    Start(String),
    /// Stop the proxy.
    Stop,
}

impl View for ProcessAction {
    type V = ProcessActionView;

    open spec fn view(&self) -> ProcessActionView {
        match self {
            ProcessAction::Keep => ProcessActionView::Keep,
            ProcessAction::Start(path) => ProcessActionView::Start(path@),
            ProcessAction::Stop => ProcessActionView::Stop,
        }
    }
}

} // verus!
