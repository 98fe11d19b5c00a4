//! Finding out where the answer file is: the fingerprint file on the
//! partition, the DHCP lease and the name service, in this order.

use crate::dhcp::{lease_answer, DHCP_LEASE_FILE};
use crate::dns::{dns_skipped, dns_step, DnsStage, DnsStageView};
use crate::protocol::{
    copy_text, reason_of, text_of, AnswerLocation, AnswerLocationView, Event, EventView, FetchError,
    FetchErrorView, Request, RequestView, Step, StepView,
};
use crate::text::{to_chars, to_string, trim, trimmed};
use crate::utils::{join, joined, mount_proxmoxinst_part, mount_step, MountStage, MountStageView};
use vstd::prelude::*;

verus! {

/// The file on the partition that holds the fingerprint.
pub const CERT_FINGERPRINT_FILE: &'static str = "cert_fingerprint.txt";

/// The file that the fingerprint is written to once it is known.
pub const FINGERPRINT_OUT: &'static str = "/tmp/cert_fingerprint";

/// The search for the answer file that is fetched over HTTP. Where the file
/// is, DHCP or the name service tells; the fingerprint of the server's
/// certificate may be pinned in a file on the partition, by DHCP or by the
/// name service, and the file comes first.
pub struct FetchFromHTTP;

/// How far the reading of the fingerprint file has come.
#[derive(Debug, Clone, PartialEq, Eq)]
pub enum FileStage {
    /// Nothing was asked.
    Start,
    /// The partition is being mounted.
    Mount(MountStage),
    /// The probe for the file at `path` is out.
    Probe { path: String },
    /// The file is being read.
    Read,
}

/// A stage of reading the fingerprint file, its strings taken as sequences of characters.
pub enum FileStageView {
    Start,
    Mount(MountStageView),
    Probe { path: Seq<char> },
    Read,
}

impl View for FileStage {
    type V = FileStageView;

    open spec fn view(&self) -> FileStageView {
        match *self {
            FileStage::Start => FileStageView::Start,
            FileStage::Mount(stage) => FileStageView::Mount(stage@),
            FileStage::Probe { path } => FileStageView::Probe { path: path@ },
            FileStage::Read => FileStageView::Read,
        }
    }
}

/// How the reading goes on after a step of the mounting: once the partition
/// is mounted at `mount_path`, the file is probed for below it. A mounting
/// that failed ends the reading.
pub open spec fn file_after_mount(step: StepView<MountStageView, Seq<char>>) -> StepView<
    FileStageView,
    Seq<char>,
> {
    match step {
        StepView::Perform(stage, request) => StepView::Perform(FileStageView::Mount(stage), request),
        StepView::Ready(mount_path) => {
            let path = joined(mount_path, CERT_FINGERPRINT_FILE@);
            StepView::Perform(FileStageView::Probe { path }, RequestView::ProbePath { path })
        },
        StepView::Failed(error) => StepView::Failed(error),
    }
}

/// One step of reading the fingerprint from its file on the partition. The
/// partition is mounted, the file probed for and read; the fingerprint is
/// what it holds without the white space around it.
pub open spec fn file_step(stage: FileStageView, event: EventView) -> StepView<
    FileStageView,
    Seq<char>,
> {
    match stage {
        FileStageView::Start => match event {
            EventView::Started => file_after_mount(
                mount_step(MountStageView::Start, EventView::Started),
            ),
            _ => StepView::Failed(FetchErrorView::UnexpectedEvent),
        },
        FileStageView::Mount(mount) => file_after_mount(mount_step(mount, event)),
        FileStageView::Probe { path } => match event {
            EventView::Found => StepView::Perform(
                FileStageView::Read,
                RequestView::ReadFile { path },
            ),
            EventView::Absent | EventView::Failed(_) => StepView::Failed(
                FetchErrorView::FingerprintFileMissing { path },
            ),
            _ => StepView::Failed(FetchErrorView::UnexpectedEvent),
        },
        FileStageView::Read => match event {
            EventView::Contents(text) => StepView::Ready(trimmed(text)),
            EventView::Failed(detail) => StepView::Failed(FetchErrorView::Unreadable { detail }),
            _ => StepView::Failed(FetchErrorView::UnexpectedEvent),
        },
    }
}

/// How far the resolution has come.
#[derive(Debug, Clone, PartialEq, Eq)]
pub enum Stage {
    /// Nothing was asked.
    Start,
    /// The fingerprint file is being read.
    File(FileStage),
    /// The lease file is being read; `fingerprint` is what the file has pinned.
    Dhcp { fingerprint: Option<String> },
    /// The name service is being asked; `fingerprint` is what the file has pinned.
    Dns { fingerprint: Option<String>, stage: DnsStage },
    /// The fingerprint is being written out; `location` is the result.
    Persist { location: AnswerLocation },
}

/// A stage of the resolution, its strings taken as sequences of characters.
pub enum StageView {
    Start,
    File(FileStageView),
    Dhcp { fingerprint: Option<Seq<char>> },
    Dns { fingerprint: Option<Seq<char>>, stage: DnsStageView },
    Persist { location: AnswerLocationView },
}

impl View for Stage {
    type V = StageView;

    open spec fn view(&self) -> StageView {
        match *self {
            Stage::Start => StageView::Start,
            Stage::File(stage) => StageView::File(stage@),
            Stage::Dhcp { fingerprint } => StageView::Dhcp { fingerprint: text_of(fingerprint) },
            Stage::Dns { fingerprint, stage } => StageView::Dns {
                fingerprint: text_of(fingerprint),
                stage: stage@,
            },
            Stage::Persist { location } => StageView::Persist { location: location@ },
        }
    }
}

/// How the resolution goes on after a step of reading the fingerprint file:
/// with the lease file, whether the file has given a fingerprint or not.
pub open spec fn answer_after_file(step: StepView<FileStageView, Seq<char>>) -> StepView<
    StageView,
    AnswerLocationView,
> {
    match step {
        StepView::Perform(stage, request) => StepView::Perform(StageView::File(stage), request),
        StepView::Ready(fingerprint) => StepView::Perform(
            StageView::Dhcp { fingerprint: Some(fingerprint) },
            RequestView::ReadFile { path: DHCP_LEASE_FILE@ },
        ),
        StepView::Failed(_) => StepView::Perform(
            StageView::Dhcp { fingerprint: None },
            RequestView::ReadFile { path: DHCP_LEASE_FILE@ },
        ),
    }
}

/// What the lease file yields, going by the event that came of reading it,
/// where `fingerprint` is what is pinned.
pub open spec fn lease_outcome(event: EventView, fingerprint: Option<Seq<char>>) -> Result<
    AnswerLocationView,
    FetchErrorView,
> {
    match event {
        EventView::Contents(leases) => lease_answer(leases, fingerprint),
        EventView::Failed(detail) => Err(FetchErrorView::Unreadable { detail }),
        _ => Err(FetchErrorView::UnexpectedEvent),
    }
}

/// How the resolution goes on after a step of asking the name service.
pub open spec fn answer_after_dns(
    fingerprint: Option<Seq<char>>,
    step: StepView<DnsStageView, AnswerLocationView>,
) -> StepView<StageView, AnswerLocationView> {
    match step {
        StepView::Perform(stage, request) => StepView::Perform(
            StageView::Dns { fingerprint, stage },
            request,
        ),
        StepView::Ready(location) => found(location),
        StepView::Failed(error) => StepView::Failed(error),
    }
}

/// How the resolution ends once `location` is found: a fingerprint is
/// written out first.
pub open spec fn found(location: AnswerLocationView) -> StepView<StageView, AnswerLocationView> {
    match location.fingerprint {
        Some(fingerprint) => StepView::Perform(
            StageView::Persist { location },
            RequestView::WriteFile { path: FINGERPRINT_OUT@, contents: fingerprint },
        ),
        None => StepView::Ready(location),
    }
}

/// One step of the resolution.
///
/// The fingerprint file is read first; what it gives is pinned, and that it
/// gives nothing is no failure. Then the lease file is read. Where it yields
/// a URL, the resolution is done. Only where it cannot be read or yields
/// none, the name service is asked, and if that fails too, the resolution
/// fails. A fingerprint that was found is written out before the result is
/// handed over, and whether that succeeds does not matter.
pub open spec fn answer_step(stage: StageView, event: EventView) -> StepView<
    StageView,
    AnswerLocationView,
> {
    match stage {
        StageView::Start => match event {
            EventView::Started => answer_after_file(
                file_step(FileStageView::Start, EventView::Started),
            ),
            _ => StepView::Failed(FetchErrorView::UnexpectedEvent),
        },
        StageView::File(file) => answer_after_file(file_step(file, event)),
        StageView::Dhcp { fingerprint } => match lease_outcome(event, fingerprint) {
            Ok(location) => found(location),
            Err(_) => answer_after_dns(
                fingerprint,
                dns_step(fingerprint, DnsStageView::Start, EventView::Started),
            ),
        },
        StageView::Dns { fingerprint, stage } => answer_after_dns(
            fingerprint,
            dns_step(fingerprint, stage, event),
        ),
        StageView::Persist { location } => StepView::Ready(location),
    }
}

/// Why the work of `step` has failed, where it has.
pub open spec fn failure_of<S, T>(step: StepView<S, T>) -> Option<FetchErrorView> {
    match step {
        StepView::Failed(error) => Some(error),
        _ => None,
    }
}

/// Why a source gives nothing on `event`, where the resolution goes on
/// without it: why the reading of the fingerprint file has failed, why the
/// lease file yields no URL, or why the name service gives no fingerprint.
/// `None` where no source has given up on `event`, and where the resolution
/// itself fails, which has its reason in the step.
pub open spec fn skipped(stage: StageView, event: EventView) -> Option<FetchErrorView> {
    match stage {
        StageView::Start => None,
        StageView::File(file) => failure_of(file_step(file, event)),
        StageView::Dhcp { fingerprint } => match lease_outcome(event, fingerprint) {
            Ok(_) => None,
            Err(error) => Some(error),
        },
        StageView::Dns { fingerprint, stage } => dns_skipped(fingerprint, stage, event),
        StageView::Persist { .. } => None,
    }
}

/// A source that gives nothing fails no resolution by that: where a reason
/// is handed out beside a step, the step is not the failure of the
/// resolution. The resolution goes on, or it ends with the URL.
pub proof fn lemma_skipped_source_is_not_fatal(stage: StageView, event: EventView)
    requires
        skipped(stage, event) is Some,
    ensures
        !(answer_step(stage, event) is Failed),
{
}

/// Goes on with the reading after a step of the mounting.
fn after_mount(step: Step<MountStage, String>) -> (next: Step<FileStage, String>)
    ensures
        next@ == file_after_mount(step@),
{
    match step {
        Step::Perform(stage, request) => Step::Perform(FileStage::Mount(stage), request),
        Step::Ready(mount_path) => {
            let path = join(mount_path.as_str(), CERT_FINGERPRINT_FILE);
            Step::Perform(FileStage::Probe { path: path.clone() }, Request::ProbePath { path })
        },
        Step::Failed(error) => Step::Failed(error),
    }
}

/// Goes on with the resolution after a step of reading the fingerprint
/// file, and hands out why the reading failed, where it did.
fn after_file(step: Step<FileStage, String>) -> (next: (
    Step<Stage, AnswerLocation>,
    Option<FetchError>,
))
    ensures
        next.0@ == answer_after_file(step@),
        reason_of(next.1) == failure_of(step@),
{
    match step {
        Step::Perform(stage, request) => (Step::Perform(Stage::File(stage), request), None),
        Step::Ready(fingerprint) => (
            Step::Perform(
                Stage::Dhcp { fingerprint: Some(fingerprint) },
                Request::ReadFile { path: DHCP_LEASE_FILE.to_owned() },
            ),
            None,
        ),
        Step::Failed(error) => (
            Step::Perform(
                Stage::Dhcp { fingerprint: None },
                Request::ReadFile { path: DHCP_LEASE_FILE.to_owned() },
            ),
            Some(error),
        ),
    }
}

/// Ends the resolution with `location`.
fn finish(location: AnswerLocation) -> (next: Step<Stage, AnswerLocation>)
    ensures
        next@ == found(location@),
{
    match copy_text(&location.fingerprint) {
        Some(fingerprint) => Step::Perform(
            Stage::Persist { location },
            Request::WriteFile { path: FINGERPRINT_OUT.to_owned(), contents: fingerprint },
        ),
        None => Step::Ready(location),
    }
}

/// Goes on with the resolution after a step of asking the name service.
fn after_dns(fingerprint: Option<String>, step: Step<DnsStage, AnswerLocation>) -> (next: Step<
    Stage,
    AnswerLocation,
>)
    ensures
        next@ == answer_after_dns(text_of(fingerprint), step@),
{
    match step {
        Step::Perform(stage, request) => Step::Perform(Stage::Dns { fingerprint, stage }, request),
        Step::Ready(location) => finish(location),
        Step::Failed(error) => Step::Failed(error),
    }
}

impl FetchFromHTTP {
    /// Reads the fingerprint of the certificate from its file on the
    /// partition: one step of it.
    pub fn get_cert_fingerprint_from_file(stage: FileStage, event: Event) -> (step: Step<
        FileStage,
        String,
    >)
        ensures
            step@ == file_step(stage@, event@),
    {
        match stage {
            FileStage::Start => match event {
                Event::Started => after_mount(
                    mount_proxmoxinst_part(MountStage::Start, Event::Started),
                ),
                _ => Step::Failed(FetchError::UnexpectedEvent),
            },
            FileStage::Mount(mount) => after_mount(mount_proxmoxinst_part(mount, event)),
            FileStage::Probe { path } => match event {
                Event::Found => Step::Perform(FileStage::Read, Request::ReadFile { path }),
                Event::Absent | Event::Failed(_) => Step::Failed(
                    FetchError::FingerprintFileMissing { path },
                ),
                _ => Step::Failed(FetchError::UnexpectedEvent),
            },
            FileStage::Read => match event {
                Event::Contents(text) => {
                    let chars = to_chars(text.as_str());
                    Step::Ready(to_string(trim(chars.as_slice())))
                },
                Event::Failed(detail) => Step::Failed(FetchError::Unreadable { detail }),
                _ => Step::Failed(FetchError::UnexpectedEvent),
            },
        }
    }

    /// Finds out where the answer file is and which fingerprint is pinned:
    /// one step of it. The caller begins with `Stage::Start` and
    /// `Event::Started`, carries out each request it is handed and comes back
    /// with the stage it was handed and the event that came of the request.
    ///
    /// Beside the step it hands out why a source gave nothing, where the
    /// event has shown that one gives nothing and the resolution goes on
    /// without it.
    pub fn get_answer(stage: Stage, event: Event) -> (out: (
        Step<Stage, AnswerLocation>,
        Option<FetchError>,
    ))
        ensures
            out.0@ == answer_step(stage@, event@),
            reason_of(out.1) == skipped(stage@, event@),
    {
        match stage {
            Stage::Start => match event {
                Event::Started => after_file(
                    Self::get_cert_fingerprint_from_file(FileStage::Start, Event::Started),
                ),
                _ => (Step::Failed(FetchError::UnexpectedEvent), None),
            },
            Stage::File(file) => after_file(Self::get_cert_fingerprint_from_file(file, event)),
            Stage::Dhcp { fingerprint } => {
                let found = match event {
                    Event::Contents(leases) => Self::fetch_dhcp(
                        leases.as_str(),
                        copy_text(&fingerprint),
                    ),
                    Event::Failed(detail) => Err(FetchError::Unreadable { detail }),
                    _ => Err(FetchError::UnexpectedEvent),
                };
                match found {
                    Ok(location) => (finish(location), None),
                    Err(error) => {
                        let (step, _) = Self::fetch_dns(
                            copy_text(&fingerprint),
                            DnsStage::Start,
                            Event::Started,
                        );
                        (after_dns(fingerprint, step), Some(error))
                    },
                }
            },
            Stage::Dns { fingerprint, stage } => {
                let (step, reason) = Self::fetch_dns(copy_text(&fingerprint), stage, event);
                (after_dns(fingerprint, step), reason)
            },
            Stage::Persist { location } => (Step::Ready(location), None),
        }
    }
}

} // verus!
