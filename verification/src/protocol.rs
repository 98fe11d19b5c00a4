//! What the resolver asks of its surroundings, what it is told in return,
//! and what it hands out in the end.
//!
//! The resolver itself reads no file and runs no command. A step of it ends in
//! a [`Step`]: either a [`Request`], which the caller carries out to come back
//! with an [`Event`], or the result. Where the work goes on past a source
//! that gave nothing, the step comes with the reason, so that it is not lost.

use vstd::prelude::*;

verus! {

/// The view of an optional string.
pub open spec fn text_of(o: Option<String>) -> Option<Seq<char>> {
    match o {
        Some(s) => Some(s@),
        None => None,
    }
}

/// Where the answer file is to be fetched, and the fingerprint of the
/// certificate that its server has to show, if one is pinned.
#[derive(Debug, Clone, PartialEq, Eq)]
pub struct AnswerLocation {
    pub url: String,
    pub fingerprint: Option<String>,
}

/// An answer location, its strings taken as sequences of characters.
pub struct AnswerLocationView {
    pub url: Seq<char>,
    pub fingerprint: Option<Seq<char>>,
}

impl View for AnswerLocation {
    type V = AnswerLocationView;

    open spec fn view(&self) -> AnswerLocationView {
        AnswerLocationView { url: self.url@, fingerprint: text_of(self.fingerprint) }
    }
}

/// Something that the caller is to do before the next step.
#[derive(Debug, Clone, PartialEq, Eq)]
pub enum Request {
    /// Read the file at `path` as text.
    ReadFile { path: String },
    /// Find out whether anything exists at `path`.
    ProbePath { path: String },
    /// Create the directory `path`, and those above it.
    CreateDir { path: String },
    /// Mount `device` at `target`, for reading only.
    MountReadOnly { device: String, target: String },
    /// Ask the name service for the TXT record of `name`, in short form.
    QueryTxt { name: String },
    /// Write `contents` to the file at `path`.
    WriteFile { path: String, contents: String },
}

/// A request, its strings taken as sequences of characters.
pub enum RequestView {
    ReadFile { path: Seq<char> },
    ProbePath { path: Seq<char> },
    CreateDir { path: Seq<char> },
    MountReadOnly { device: Seq<char>, target: Seq<char> },
    QueryTxt { name: Seq<char> },
    WriteFile { path: Seq<char>, contents: Seq<char> },
}

impl View for Request {
    type V = RequestView;

    open spec fn view(&self) -> RequestView {
        match *self {
            Request::ReadFile { path } => RequestView::ReadFile { path: path@ },
            Request::ProbePath { path } => RequestView::ProbePath { path: path@ },
            Request::CreateDir { path } => RequestView::CreateDir { path: path@ },
            Request::MountReadOnly { device, target } => RequestView::MountReadOnly {
                device: device@,
                target: target@,
            },
            Request::QueryTxt { name } => RequestView::QueryTxt { name: name@ },
            Request::WriteFile { path, contents } => RequestView::WriteFile {
                path: path@,
                contents: contents@,
            },
        }
    }
}

/// What came of a request, or that a resolution begins.
#[derive(Debug, Clone, PartialEq, Eq)]
pub enum Event {
    /// Nothing was asked yet.
    Started,
    /// The file was read and holds this text.
    Contents(String),
    /// Something exists at the path.
    Found,
    /// Nothing exists at the path.
    Absent,
    /// The directory stands, or the file was written.
    Done,
    /// The command ran and ended.
    Exited { success: bool, stdout: Vec<u8>, stderr: Vec<u8> },
    /// The request could not be carried out; the text says why.
    Failed(String),
}

/// An event, its strings and bytes taken as sequences.
pub enum EventView {
    Started,
    Contents(Seq<char>),
    Found,
    Absent,
    Done,
    Exited { success: bool, stdout: Seq<u8>, stderr: Seq<u8> },
    Failed(Seq<char>),
}

impl View for Event {
    type V = EventView;

    open spec fn view(&self) -> EventView {
        match *self {
            Event::Started => EventView::Started,
            Event::Contents(text) => EventView::Contents(text@),
            Event::Found => EventView::Found,
            Event::Absent => EventView::Absent,
            Event::Done => EventView::Done,
            Event::Exited { success, stdout, stderr } => EventView::Exited {
                success,
                stdout: stdout@,
                stderr: stderr@,
            },
            Event::Failed(detail) => EventView::Failed(detail@),
        }
    }
}

/// Why a source gave nothing, or why the resolution failed.
#[derive(Debug, Clone, PartialEq, Eq)]
pub enum FetchError {
    /// No partition carries the label, in upper case or in lower case.
    LabelNotFound { label: String },
    /// The mount point could not be created.
    MountPoint { detail: String },
    /// The mount command could not be run.
    MountNotRun { detail: String },
    /// A command printed what is not UTF-8.
    OutputNotText,
    /// The partition holds no fingerprint file.
    FingerprintFileMissing { path: String },
    /// A file could not be read.
    Unreadable { detail: String },
    /// The lease file names no URL.
    NoUrlOption,
    /// The value of an option in the lease file is not quoted as it has to be.
    MalformedOption,
    /// The resolver configuration names no search domain.
    NoSearchDomain,
    /// The name service answered with nothing.
    EmptyResponse,
    /// The query command ended in failure.
    QueryFailed { query: String, detail: String },
    /// The query command could not be run.
    QueryNotRun { query: String, detail: String },
    /// The event does not answer what was asked.
    UnexpectedEvent,
}

/// An error, its strings taken as sequences of characters.
pub enum FetchErrorView {
    LabelNotFound { label: Seq<char> },
    MountPoint { detail: Seq<char> },
    MountNotRun { detail: Seq<char> },
    OutputNotText,
    FingerprintFileMissing { path: Seq<char> },
    Unreadable { detail: Seq<char> },
    NoUrlOption,
    MalformedOption,
    NoSearchDomain,
    EmptyResponse,
    QueryFailed { query: Seq<char>, detail: Seq<char> },
    QueryNotRun { query: Seq<char>, detail: Seq<char> },
    UnexpectedEvent,
}

impl View for FetchError {
    type V = FetchErrorView;

    open spec fn view(&self) -> FetchErrorView {
        match *self {
            FetchError::LabelNotFound { label } => FetchErrorView::LabelNotFound { label: label@ },
            FetchError::MountPoint { detail } => FetchErrorView::MountPoint { detail: detail@ },
            FetchError::MountNotRun { detail } => FetchErrorView::MountNotRun { detail: detail@ },
            FetchError::OutputNotText => FetchErrorView::OutputNotText,
            FetchError::FingerprintFileMissing { path } => FetchErrorView::FingerprintFileMissing {
                path: path@,
            },
            FetchError::Unreadable { detail } => FetchErrorView::Unreadable { detail: detail@ },
            FetchError::NoUrlOption => FetchErrorView::NoUrlOption,
            FetchError::MalformedOption => FetchErrorView::MalformedOption,
            FetchError::NoSearchDomain => FetchErrorView::NoSearchDomain,
            FetchError::EmptyResponse => FetchErrorView::EmptyResponse,
            FetchError::QueryFailed { query, detail } => FetchErrorView::QueryFailed {
                query: query@,
                detail: detail@,
            },
            FetchError::QueryNotRun { query, detail } => FetchErrorView::QueryNotRun {
                query: query@,
                detail: detail@,
            },
            FetchError::UnexpectedEvent => FetchErrorView::UnexpectedEvent,
        }
    }
}

/// The text of the message for `e`.
pub open spec fn message_of(e: FetchErrorView) -> Seq<char> {
    match e {
        FetchErrorView::LabelNotFound { label } => {
            "Could not detect upper or lower case labels for '"@ + label + "'"@
        },
        FetchErrorView::MountPoint { detail } => detail,
        FetchErrorView::MountNotRun { detail } => "Error mounting: "@ + detail,
        FetchErrorView::OutputNotText => "Command output is not valid UTF-8."@,
        FetchErrorView::FingerprintFileMissing { path } => {
            "could not find cert fingerprint file expected at: "@ + path
        },
        FetchErrorView::Unreadable { detail } => detail,
        FetchErrorView::NoUrlOption => "No DHCP option found for fetch URL."@,
        FetchErrorView::MalformedOption => "DHCP option value is not quoted."@,
        FetchErrorView::NoSearchDomain => "Could not find search domain in resolv.conf."@,
        FetchErrorView::EmptyResponse => "Got empty response."@,
        FetchErrorView::QueryFailed { query, detail } => {
            "Error querying DNS record '"@ + query + "' : "@ + detail
        },
        FetchErrorView::QueryNotRun { query, detail } => {
            "Error querying DNS record '"@ + query + "': "@ + detail
        },
        FetchErrorView::UnexpectedEvent => "The event does not answer the request."@,
    }
}

impl FetchError {
    /// The message for this error.
    pub fn message(&self) -> (text: String)
        ensures
            text@ == message_of(self@),
    {
        match self {
            FetchError::LabelNotFound { label } => {
                "Could not detect upper or lower case labels for '".to_owned().concat(
                    label.as_str(),
                ).concat("'")
            },
            FetchError::MountPoint { detail } => detail.clone(),
            FetchError::MountNotRun { detail } => "Error mounting: ".to_owned().concat(
                detail.as_str(),
            ),
            FetchError::OutputNotText => "Command output is not valid UTF-8.".to_owned(),
            FetchError::FingerprintFileMissing { path } => {
                "could not find cert fingerprint file expected at: ".to_owned().concat(
                    path.as_str(),
                )
            },
            FetchError::Unreadable { detail } => detail.clone(),
            FetchError::NoUrlOption => "No DHCP option found for fetch URL.".to_owned(),
            FetchError::MalformedOption => "DHCP option value is not quoted.".to_owned(),
            FetchError::NoSearchDomain => "Could not find search domain in resolv.conf.".to_owned(),
            FetchError::EmptyResponse => "Got empty response.".to_owned(),
            FetchError::QueryFailed { query, detail } => {
                "Error querying DNS record '".to_owned().concat(query.as_str()).concat(
                    "' : ",
                ).concat(detail.as_str())
            },
            FetchError::QueryNotRun { query, detail } => {
                "Error querying DNS record '".to_owned().concat(query.as_str()).concat(
                    "': ",
                ).concat(detail.as_str())
            },
            FetchError::UnexpectedEvent => "The event does not answer the request.".to_owned(),
        }
    }
}

/// How a step ended. `S` says where the work stands while a request is out,
/// `T` is what the work yields.
#[derive(Debug, Clone, PartialEq, Eq)]
pub enum Step<S, T> {
    /// The caller carries out the request and comes back with its event.
    Perform(S, Request),
    /// The work is done.
    Ready(T),
    /// The work has failed.
    Failed(FetchError),
}

/// The end of a step, seen through the views of its parts.
pub enum StepView<S, T> {
    Perform(S, RequestView),
    Ready(T),
    Failed(FetchErrorView),
}

impl<S: View, T: View> View for Step<S, T> {
    type V = StepView<S::V, T::V>;

    open spec fn view(&self) -> StepView<S::V, T::V> {
        match *self {
            Step::Perform(stage, request) => StepView::Perform(stage@, request@),
            Step::Ready(value) => StepView::Ready(value@),
            Step::Failed(error) => StepView::Failed(error@),
        }
    }
}

/// The view of a reason that may have been handed out.
pub open spec fn reason_of(o: Option<FetchError>) -> Option<FetchErrorView> {
    match o {
        Some(error) => Some(error@),
        None => None,
    }
}

/// A copy of `o`.
pub fn copy_text(o: &Option<String>) -> (r: Option<String>)
    ensures
        text_of(r) == text_of(*o),
{
    o.clone()
}

} // verus!
