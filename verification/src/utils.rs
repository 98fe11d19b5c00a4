//! The partition that carries the installer's configuration: finding it by
//! its label and mounting it; and the network interfaces worth using.

use crate::protocol::{Event, EventView, FetchError, FetchErrorView, Request, RequestView, Step, StepView};
use crate::text::{
    contents, from_utf8, lines, same, second_field, split_lines, take_second_field, to_chars,
};
use vstd::prelude::*;
use vstd::utf8::valid_utf8;

verus! {

/// Where the partition is mounted.
pub const ANSWER_MP: &'static str = "/mnt/answer";

/// The label of the partition.
pub const PARTLABEL: &'static str = "proxmoxinst";

/// The directory that holds a link for each labelled partition.
pub const SEARCH_PATH: &'static str = "/dev/disk/by-label";

/// The table of what is mounted.
pub const MOUNT_TABLE: &'static str = "/proc/mounts";

/// The name of the loopback interface.
pub const LOOPBACK: &'static str = "lo";

/// `s` in upper case, as Unicode maps it.
pub uninterp spec fn uppercase(s: Seq<char>) -> Seq<char>;

/// `s` in lower case, as Unicode maps it.
pub uninterp spec fn lowercase(s: Seq<char>) -> Seq<char>;

/// `str::to_uppercase`: a new string, `s` in upper case.
#[verifier::external_body]
fn to_uppercase(s: &str) -> (r: String)
    ensures
        r@ == uppercase(s@),
{
    s.to_uppercase()
}

/// `str::to_lowercase`: a new string, `s` in lower case.
#[verifier::external_body]
fn to_lowercase(s: &str) -> (r: String)
    ensures
        r@ == lowercase(s@),
{
    s.to_lowercase()
}

/// The path of `name` below `base`, as paths are joined on Unix: a `name`
/// that begins at the root stands for itself, and a separator is set between
/// the two unless `base` is empty or ends with one.
pub open spec fn joined(base: Seq<char>, name: Seq<char>) -> Seq<char> {
    if name.len() > 0 && name[0] == '/' {
        name
    } else if base.len() == 0 || base.last() == '/' {
        base + name
    } else {
        base + seq!['/'] + name
    }
}

/// The path of `name` below `base`.
pub fn join(base: &str, name: &str) -> (path: String)
    ensures
        path@ == joined(base@, name@),
{
    let b = to_chars(base);
    let n = to_chars(name);
    if n.len() > 0 && n[0] == '/' {
        name.to_owned()
    } else if b.len() == 0 || b[b.len() - 1] == '/' {
        base.to_owned().concat(name)
    } else {
        proof {
            reveal_strlit("/");
        }
        base.to_owned().concat("/").concat(name)
    }
}

/// How far the search for a label has come.
#[derive(Debug, Clone, Copy, PartialEq, Eq)]
pub enum ScanStage {
    /// Nothing was probed.
    Start,
    /// The probe for the upper-case name is out.
    Upper,
    /// The probe for the lower-case name is out.
    Lower,
}

impl View for ScanStage {
    type V = ScanStage;

    open spec fn view(&self) -> ScanStage {
        *self
    }
}

/// One step of the search for the partition labelled `label` under
/// `search_path`. The upper-case name is probed first; the lower-case name
/// only if nothing was found under the upper-case one.
pub open spec fn scan_step(
    label: Seq<char>,
    search_path: Seq<char>,
    stage: ScanStage,
    event: EventView,
) -> StepView<ScanStage, Seq<char>> {
    let upper = joined(search_path, uppercase(label));
    let lower = joined(search_path, lowercase(label));
    match stage {
        ScanStage::Start => match event {
            EventView::Started => StepView::Perform(
                ScanStage::Upper,
                RequestView::ProbePath { path: upper },
            ),
            _ => StepView::Failed(FetchErrorView::UnexpectedEvent),
        },
        ScanStage::Upper => match event {
            EventView::Found => StepView::Ready(upper),
            EventView::Absent | EventView::Failed(_) => StepView::Perform(
                ScanStage::Lower,
                RequestView::ProbePath { path: lower },
            ),
            _ => StepView::Failed(FetchErrorView::UnexpectedEvent),
        },
        ScanStage::Lower => match event {
            EventView::Found => StepView::Ready(lower),
            EventView::Absent | EventView::Failed(_) => StepView::Failed(
                FetchErrorView::LabelNotFound { label },
            ),
            _ => StepView::Failed(FetchErrorView::UnexpectedEvent),
        },
    }
}

/// Searches `search_path` for the partition labelled `partlabel_source`, in
/// upper case and then in lower case: one step of it. It yields the path of
/// the first name under which something was found.
pub fn scan_partlabels(
    partlabel_source: &str,
    search_path: &str,
    stage: ScanStage,
    event: Event,
) -> (step: Step<ScanStage, String>)
    ensures
        step@ == scan_step(partlabel_source@, search_path@, stage, event@),
{
    match stage {
        ScanStage::Start => match event {
            Event::Started => {
                let upper = join(search_path, to_uppercase(partlabel_source).as_str());
                Step::Perform(ScanStage::Upper, Request::ProbePath { path: upper })
            },
            _ => Step::Failed(FetchError::UnexpectedEvent),
        },
        ScanStage::Upper => match event {
            Event::Found => Step::Ready(join(search_path, to_uppercase(partlabel_source).as_str())),
            Event::Absent | Event::Failed(_) => {
                let lower = join(search_path, to_lowercase(partlabel_source).as_str());
                Step::Perform(ScanStage::Lower, Request::ProbePath { path: lower })
            },
            _ => Step::Failed(FetchError::UnexpectedEvent),
        },
        ScanStage::Lower => match event {
            Event::Found => Step::Ready(join(search_path, to_lowercase(partlabel_source).as_str())),
            Event::Absent | Event::Failed(_) => Step::Failed(
                FetchError::LabelNotFound { label: partlabel_source.to_owned() },
            ),
            _ => Step::Failed(FetchError::UnexpectedEvent),
        },
    }
}

/// Whether the mount table `mounts` names `target` as a mount point: whether
/// the second field of one of its lines is `target`.
pub open spec fn mounted(mounts: Seq<char>, target: Seq<char>) -> bool {
    exists|i: int|
        0 <= i < lines(mounts).len() && second_field(#[trigger] lines(mounts)[i], ' ') == Some(
            target,
        )
}

/// Whether something is mounted at `target_path`, going by the mount table `mounts`.
pub fn check_if_mounted(target_path: &str, mounts: &str) -> (found: bool)
    ensures
        found == mounted(mounts@, target_path@),
{
    let table = to_chars(mounts);
    let target = to_chars(target_path);
    let rows = split_lines(table.as_slice());
    let mut i: usize = 0;
    while i < rows.len()
        invariant
            0 <= i <= rows.len(),
            contents(rows@) == lines(mounts@),
            target@ == target_path@,
            forall|j: int| 0 <= j < i ==> second_field(#[trigger] lines(mounts@)[j], ' ') != Some(target@),
        decreases rows.len() - i,
    {
        assert(lines(mounts@)[i as int] == rows@[i as int]@);
        match take_second_field(rows[i], ' ') {
            Some(field) => {
                if same(field, target.as_slice()) {
                    return true;
                }
            },
            None => {},
        }
        i += 1;
    }
    false
}

/// How far the mounting of the partition has come.
#[derive(Debug, Clone, PartialEq, Eq)]
pub enum MountStage {
    /// Nothing was asked.
    Start,
    /// The mount table is being read.
    Table,
    /// The partition is being searched.
    Scan(ScanStage),
    /// The mount point is being created; `device` is the partition that was found.
    Directory { device: String },
    /// The mount command is running.
    Command,
}

/// A stage of the mounting, its strings taken as sequences of characters.
pub enum MountStageView {
    Start,
    Table,
    Scan(ScanStage),
    Directory { device: Seq<char> },
    Command,
}

impl View for MountStage {
    type V = MountStageView;

    open spec fn view(&self) -> MountStageView {
        match *self {
            MountStage::Start => MountStageView::Start,
            MountStage::Table => MountStageView::Table,
            MountStage::Scan(stage) => MountStageView::Scan(stage),
            MountStage::Directory { device } => MountStageView::Directory { device: device@ },
            MountStage::Command => MountStageView::Command,
        }
    }
}

/// How the mounting goes on after a step of the search: with the next probe,
/// or, once the partition is found, with the creation of the mount point. A
/// search that failed ends the mounting.
pub open spec fn mount_after_scan(step: StepView<ScanStage, Seq<char>>) -> StepView<
    MountStageView,
    Seq<char>,
> {
    match step {
        StepView::Perform(stage, request) => StepView::Perform(MountStageView::Scan(stage), request),
        StepView::Ready(device) => StepView::Perform(
            MountStageView::Directory { device },
            RequestView::CreateDir { path: ANSWER_MP@ },
        ),
        StepView::Failed(error) => StepView::Failed(error),
    }
}

/// One step of mounting the partition at `ANSWER_MP`. Where the mount table
/// names the mount point already, nothing more is asked and the mount point
/// is the result. Else the partition is searched, the mount point created and
/// the mount command run; the mount point is the result also where that
/// command ended in failure.
pub open spec fn mount_step(stage: MountStageView, event: EventView) -> StepView<
    MountStageView,
    Seq<char>,
> {
    match stage {
        MountStageView::Start => match event {
            EventView::Started => StepView::Perform(
                MountStageView::Table,
                RequestView::ReadFile { path: MOUNT_TABLE@ },
            ),
            _ => StepView::Failed(FetchErrorView::UnexpectedEvent),
        },
        MountStageView::Table => match event {
            EventView::Contents(table) => if mounted(table, ANSWER_MP@) {
                StepView::Ready(ANSWER_MP@)
            } else {
                mount_after_scan(
                    scan_step(PARTLABEL@, SEARCH_PATH@, ScanStage::Start, EventView::Started),
                )
            },
            EventView::Failed(_) => mount_after_scan(
                scan_step(PARTLABEL@, SEARCH_PATH@, ScanStage::Start, EventView::Started),
            ),
            _ => StepView::Failed(FetchErrorView::UnexpectedEvent),
        },
        MountStageView::Scan(scan) => mount_after_scan(
            scan_step(PARTLABEL@, SEARCH_PATH@, scan, event),
        ),
        MountStageView::Directory { device } => match event {
            EventView::Done => StepView::Perform(
                MountStageView::Command,
                RequestView::MountReadOnly { device, target: ANSWER_MP@ },
            ),
            EventView::Failed(detail) => StepView::Failed(FetchErrorView::MountPoint { detail }),
            _ => StepView::Failed(FetchErrorView::UnexpectedEvent),
        },
        MountStageView::Command => match event {
            EventView::Exited { success, stderr, .. } => if success || valid_utf8(stderr) {
                StepView::Ready(ANSWER_MP@)
            } else {
                StepView::Failed(FetchErrorView::OutputNotText)
            },
            EventView::Failed(detail) => StepView::Failed(FetchErrorView::MountNotRun { detail }),
            _ => StepView::Failed(FetchErrorView::UnexpectedEvent),
        },
    }
}

/// Goes on with the mounting after a step of the search.
fn after_scan(step: Step<ScanStage, String>) -> (next: Step<MountStage, String>)
    ensures
        next@ == mount_after_scan(step@),
{
    match step {
        Step::Perform(stage, request) => Step::Perform(MountStage::Scan(stage), request),
        Step::Ready(device) => Step::Perform(
            MountStage::Directory { device },
            Request::CreateDir { path: ANSWER_MP.to_owned() },
        ),
        Step::Failed(error) => Step::Failed(error),
    }
}

/// Searches the partition labelled `PARTLABEL`, in upper or lower case, and
/// mounts it read-only at `ANSWER_MP`: one step of it. It yields the mount point.
pub fn mount_proxmoxinst_part(stage: MountStage, event: Event) -> (step: Step<MountStage, String>)
    ensures
        step@ == mount_step(stage@, event@),
{
    match stage {
        MountStage::Start => match event {
            Event::Started => Step::Perform(
                MountStage::Table,
                Request::ReadFile { path: MOUNT_TABLE.to_owned() },
            ),
            _ => Step::Failed(FetchError::UnexpectedEvent),
        },
        MountStage::Table => match event {
            Event::Contents(table) => {
                if check_if_mounted(ANSWER_MP, table.as_str()) {
                    Step::Ready(ANSWER_MP.to_owned())
                } else {
                    after_scan(
                        scan_partlabels(PARTLABEL, SEARCH_PATH, ScanStage::Start, Event::Started),
                    )
                }
            },
            Event::Failed(_) => after_scan(
                scan_partlabels(PARTLABEL, SEARCH_PATH, ScanStage::Start, Event::Started),
            ),
            _ => Step::Failed(FetchError::UnexpectedEvent),
        },
        MountStage::Scan(scan) => after_scan(scan_partlabels(PARTLABEL, SEARCH_PATH, scan, event)),
        MountStage::Directory { device } => match event {
            Event::Done => Step::Perform(
                MountStage::Command,
                Request::MountReadOnly { device, target: ANSWER_MP.to_owned() },
            ),
            Event::Failed(detail) => Step::Failed(FetchError::MountPoint { detail }),
            _ => Step::Failed(FetchError::UnexpectedEvent),
        },
        MountStage::Command => match event {
            Event::Exited { success, stderr, .. } => {
                if success {
                    Step::Ready(ANSWER_MP.to_owned())
                } else {
                    match from_utf8(stderr) {
                        Some(_) => Step::Ready(ANSWER_MP.to_owned()),
                        None => Step::Failed(FetchError::OutputNotText),
                    }
                }
            },
            Event::Failed(detail) => Step::Failed(FetchError::MountNotRun { detail }),
            _ => Step::Failed(FetchError::UnexpectedEvent),
        },
    }
}

/// What the listing of network interfaces says of one of them.
#[derive(Debug, Clone, PartialEq, Eq)]
pub struct IpLinksUdevInfo {
    pub ifname: String,
}

/// The names of `links` but for the loopback interface, in their order.
pub open spec fn usable_names(links: Seq<IpLinksUdevInfo>) -> Seq<Seq<char>>
    decreases links.len(),
{
    if links.len() == 0 {
        Seq::empty()
    } else if links.last().ifname@ == LOOPBACK@ {
        usable_names(links.drop_last())
    } else {
        usable_names(links.drop_last()).push(links.last().ifname@)
    }
}

/// The view of each string of `names`.
pub open spec fn texts(names: Seq<String>) -> Seq<Seq<char>> {
    names.map_values(|name: String| name@)
}

/// The network interfaces that can be used: those of `parsed_links` that are
/// not the loopback interface.
pub fn get_nic_list(parsed_links: Vec<IpLinksUdevInfo>) -> (links: Vec<String>)
    ensures
        texts(links@) == usable_names(parsed_links@),
{
    let loopback = to_chars(LOOPBACK);
    let mut links: Vec<String> = Vec::new();
    let mut i: usize = 0;
    while i < parsed_links.len()
        invariant
            0 <= i <= parsed_links.len(),
            loopback@ == LOOPBACK@,
            texts(links@) == usable_names(parsed_links@.take(i as int)),
        decreases parsed_links.len() - i,
    {
        proof {
            assert(parsed_links@.take(i + 1).drop_last() == parsed_links@.take(i as int));
        }
        let name = to_chars(parsed_links[i].ifname.as_str());
        if !same(name.as_slice(), loopback.as_slice()) {
            links.push(parsed_links[i].ifname.clone());
        }
        i += 1;
    }
    proof {
        assert(parsed_links@.take(parsed_links.len() as int) == parsed_links@);
    }
    links
}

} // verus!
