//! Whole resolutions, from the first request to the result.
//!
//! The surroundings are taken as a function from requests to events: what
//! comes of a request whenever it is made. A resolution in such surroundings
//! is what the steps come to when each request is answered by them. It is
//! stated here what holds of every resolution, whatever the surroundings.

use crate::dhcp::DHCP_LEASE_FILE;
use crate::dns::{
    dns_step, query_name, search_domain, txt_record, DnsStageView, ANSWER_SUBDOMAIN, RESOLV_CONF,
};
use crate::http::{
    answer_step, file_step, found, lease_outcome, FileStageView, StageView, FINGERPRINT_OUT,
};
use crate::protocol::{AnswerLocationView, EventView, FetchErrorView, RequestView, StepView};
use crate::utils::{
    joined, lowercase, mount_step, mounted, scan_step, uppercase, MountStageView, ScanStage,
    ANSWER_MP, MOUNT_TABLE,
};
use vstd::prelude::*;

verus! {

/// A bound on the requests that a search for the label still makes.
pub open spec fn scan_rank(stage: ScanStage) -> nat {
    match stage {
        ScanStage::Start => 3,
        ScanStage::Upper => 2,
        ScanStage::Lower => 1,
    }
}

/// A bound on the requests that a mounting still makes.
pub open spec fn mount_rank(stage: MountStageView) -> nat {
    match stage {
        MountStageView::Start => 6,
        MountStageView::Table => 5,
        MountStageView::Scan(scan) => 2 + scan_rank(scan),
        MountStageView::Directory { .. } => 2,
        MountStageView::Command => 1,
    }
}

/// A bound on the requests that a reading of the fingerprint file still makes.
pub open spec fn file_rank(stage: FileStageView) -> nat {
    match stage {
        FileStageView::Start => 9,
        FileStageView::Mount(mount) => 2 + mount_rank(mount),
        FileStageView::Probe { .. } => 2,
        FileStageView::Read => 1,
    }
}

/// A bound on the requests that an asking of the name service still makes.
pub open spec fn dns_rank(stage: DnsStageView) -> nat {
    match stage {
        DnsStageView::Start => 4,
        DnsStageView::Config => 3,
        DnsStageView::Url { .. } => 2,
        DnsStageView::Fingerprint { .. } => 1,
    }
}

/// A bound on the requests that a resolution still makes.
pub open spec fn rank(stage: StageView) -> nat {
    match stage {
        StageView::Start => 15,
        StageView::File(file) => 5 + file_rank(file),
        StageView::Dhcp { .. } => 5,
        StageView::Dns { stage, .. } => 1 + dns_rank(stage),
        StageView::Persist { .. } => 1,
    }
}

/// Each step of reading the fingerprint file brings it nearer to its end.
pub proof fn lemma_file_step_descends(stage: FileStageView, event: EventView)
    ensures
        file_step(stage, event) matches StepView::Perform(next, _) ==> file_rank(next) < file_rank(
            stage,
        ),
{
}

/// Each step of asking the name service brings it nearer to its end.
pub proof fn lemma_dns_step_descends(
    fingerprint: Option<Seq<char>>,
    stage: DnsStageView,
    event: EventView,
)
    ensures
        dns_step(fingerprint, stage, event) matches StepView::Perform(next, _) ==> dns_rank(next)
            < dns_rank(stage),
{
}

/// Each step of a resolution brings it nearer to its end.
pub proof fn lemma_step_descends(stage: StageView, event: EventView)
    ensures
        answer_step(stage, event) matches StepView::Perform(next, _) ==> rank(next) < rank(stage),
{
    match stage {
        StageView::File(file) => {
            lemma_file_step_descends(file, event);
        },
        StageView::Dns { fingerprint, stage } => {
            lemma_dns_step_descends(fingerprint, stage, event);
        },
        _ => {},
    }
}

/// What the reading of the fingerprint file comes to in `world`, from the
/// stage `stage` with `request` asked.
pub open spec fn file_run(
    world: spec_fn(RequestView) -> EventView,
    stage: FileStageView,
    request: RequestView,
) -> Result<Seq<char>, FetchErrorView>
    decreases file_rank(stage),
{
    match file_step(stage, world(request)) {
        StepView::Perform(next, asked) => {
            proof {
                lemma_file_step_descends(stage, world(request));
            }
            file_run(world, next, asked)
        },
        StepView::Ready(fingerprint) => Ok(fingerprint),
        StepView::Failed(error) => Err(error),
    }
}

/// The fingerprint that the file on the partition pins in `world`, if the
/// reading of it gives one.
pub open spec fn pinned(world: spec_fn(RequestView) -> EventView) -> Option<Seq<char>> {
    match file_step(FileStageView::Start, EventView::Started) {
        StepView::Perform(stage, request) => match file_run(world, stage, request) {
            Ok(fingerprint) => Some(fingerprint),
            Err(_) => None,
        },
        _ => None,
    }
}

/// What the lease file yields in `world`, under the fingerprint that the
/// file pins.
pub open spec fn from_lease(world: spec_fn(RequestView) -> EventView) -> Result<
    AnswerLocationView,
    FetchErrorView,
> {
    lease_outcome(world(RequestView::ReadFile { path: DHCP_LEASE_FILE@ }), pinned(world))
}

/// What the asking of the name service comes to in `world`, from the stage
/// `stage` with `request` asked, where `fingerprint` is what is pinned.
pub open spec fn dns_run(
    world: spec_fn(RequestView) -> EventView,
    fingerprint: Option<Seq<char>>,
    stage: DnsStageView,
    request: RequestView,
) -> Result<AnswerLocationView, FetchErrorView>
    decreases dns_rank(stage),
{
    match dns_step(fingerprint, stage, world(request)) {
        StepView::Perform(next, asked) => {
            proof {
                lemma_dns_step_descends(fingerprint, stage, world(request));
            }
            dns_run(world, fingerprint, next, asked)
        },
        StepView::Ready(location) => Ok(location),
        StepView::Failed(error) => Err(error),
    }
}

/// What the name service yields in `world`, under the fingerprint that the
/// file pins.
pub open spec fn from_name_service(world: spec_fn(RequestView) -> EventView) -> Result<
    AnswerLocationView,
    FetchErrorView,
> {
    match dns_step(pinned(world), DnsStageView::Start, EventView::Started) {
        StepView::Perform(stage, request) => dns_run(world, pinned(world), stage, request),
        StepView::Ready(location) => Ok(location),
        StepView::Failed(error) => Err(error),
    }
}

/// What a resolution comes to in `world`, from the stage `stage` with
/// `request` asked.
pub open spec fn run(
    world: spec_fn(RequestView) -> EventView,
    stage: StageView,
    request: RequestView,
) -> Result<AnswerLocationView, FetchErrorView>
    decreases rank(stage),
{
    match answer_step(stage, world(request)) {
        StepView::Perform(next, asked) => {
            proof {
                lemma_step_descends(stage, world(request));
            }
            run(world, next, asked)
        },
        StepView::Ready(location) => Ok(location),
        StepView::Failed(error) => Err(error),
    }
}

/// The requests that a resolution makes in `world`, from the stage `stage`
/// with `request` asked: `request` first.
pub open spec fn asked(
    world: spec_fn(RequestView) -> EventView,
    stage: StageView,
    request: RequestView,
) -> Seq<RequestView>
    decreases rank(stage),
{
    match answer_step(stage, world(request)) {
        StepView::Perform(next, then) => {
            proof {
                lemma_step_descends(stage, world(request));
            }
            seq![request] + asked(world, next, then)
        },
        _ => seq![request],
    }
}

/// What the resolution comes to in `world`.
pub open spec fn resolution(world: spec_fn(RequestView) -> EventView) -> Result<
    AnswerLocationView,
    FetchErrorView,
> {
    match answer_step(StageView::Start, EventView::Started) {
        StepView::Perform(stage, request) => run(world, stage, request),
        StepView::Ready(location) => Ok(location),
        StepView::Failed(error) => Err(error),
    }
}

/// The requests that the resolution makes in `world`, in their order.
pub open spec fn requests(world: spec_fn(RequestView) -> EventView) -> Seq<RequestView> {
    match answer_step(StageView::Start, EventView::Started) {
        StepView::Perform(stage, request) => asked(world, stage, request),
        _ => Seq::empty(),
    }
}

/// What is pinned when the reading of the fingerprint file has come to `end`.
pub open spec fn pin_of(end: Result<Seq<char>, FetchErrorView>) -> Option<Seq<char>> {
    match end {
        Ok(fingerprint) => Some(fingerprint),
        Err(_) => None,
    }
}

/// What the sources other than the file yield in `world` where `fingerprint`
/// is pinned: what the lease file yields, and where it yields nothing, what
/// the name service yields.
pub open spec fn after_file(
    world: spec_fn(RequestView) -> EventView,
    fingerprint: Option<Seq<char>>,
) -> Result<AnswerLocationView, FetchErrorView> {
    match lease_outcome(world(RequestView::ReadFile { path: DHCP_LEASE_FILE@ }), fingerprint) {
        Ok(location) => Ok(location),
        Err(_) => match dns_step(fingerprint, DnsStageView::Start, EventView::Started) {
            StepView::Perform(stage, request) => dns_run(world, fingerprint, stage, request),
            StepView::Ready(location) => Ok(location),
            StepView::Failed(error) => Err(error),
        },
    }
}

/// A resolution that has found `location` ends with it, whether there is a
/// fingerprint to write out or not.
proof fn lemma_found_ends(world: spec_fn(RequestView) -> EventView, location: AnswerLocationView)
    ensures
        match found(location) {
            StepView::Perform(stage, request) => run(world, stage, request) == Ok::<
                AnswerLocationView,
                FetchErrorView,
            >(location),
            StepView::Ready(end) => end == location,
            StepView::Failed(_) => false,
        },
{
}

/// A resolution that asks the name service ends as the asking does.
proof fn lemma_run_of_dns(
    world: spec_fn(RequestView) -> EventView,
    fingerprint: Option<Seq<char>>,
    stage: DnsStageView,
    request: RequestView,
)
    ensures
        run(world, StageView::Dns { fingerprint, stage }, request) == dns_run(
            world,
            fingerprint,
            stage,
            request,
        ),
    decreases dns_rank(stage),
{
    match dns_step(fingerprint, stage, world(request)) {
        StepView::Perform(next, then) => {
            lemma_dns_step_descends(fingerprint, stage, world(request));
            lemma_run_of_dns(world, fingerprint, next, then);
        },
        StepView::Ready(location) => {
            lemma_found_ends(world, location);
        },
        StepView::Failed(_) => {},
    }
}

/// A resolution that reads the lease file ends as the lease file and the
/// name service have it.
proof fn lemma_run_of_dhcp(world: spec_fn(RequestView) -> EventView, fingerprint: Option<Seq<char>>)
    ensures
        run(
            world,
            StageView::Dhcp { fingerprint },
            RequestView::ReadFile { path: DHCP_LEASE_FILE@ },
        ) == after_file(world, fingerprint),
{
    let event = world(RequestView::ReadFile { path: DHCP_LEASE_FILE@ });
    match lease_outcome(event, fingerprint) {
        Ok(location) => {
            lemma_found_ends(world, location);
        },
        Err(_) => {
            match dns_step(fingerprint, DnsStageView::Start, EventView::Started) {
                StepView::Perform(stage, request) => {
                    lemma_run_of_dns(world, fingerprint, stage, request);
                },
                _ => {},
            }
        },
    }
}

/// A resolution that reads the fingerprint file goes on with the lease file,
/// with what the file has given pinned.
proof fn lemma_run_of_file(
    world: spec_fn(RequestView) -> EventView,
    stage: FileStageView,
    request: RequestView,
)
    ensures
        run(world, StageView::File(stage), request) == after_file(
            world,
            pin_of(file_run(world, stage, request)),
        ),
    decreases file_rank(stage),
{
    match file_step(stage, world(request)) {
        StepView::Perform(next, then) => {
            lemma_file_step_descends(stage, world(request));
            lemma_run_of_file(world, next, then);
        },
        StepView::Ready(fingerprint) => {
            lemma_run_of_dhcp(world, Some(fingerprint));
        },
        StepView::Failed(_) => {
            lemma_run_of_dhcp(world, None);
        },
    }
}

/// The sources are taken in their order. Whatever the surroundings, the
/// resolution comes to what the lease file yields under the fingerprint that
/// the file on the partition pins; and where the lease file yields nothing,
/// to what the name service yields under that fingerprint. That the file
/// pins nothing fails no resolution.
pub proof fn lemma_sources_in_order(world: spec_fn(RequestView) -> EventView)
    ensures
        resolution(world) == match from_lease(world) {
            Ok(location) => Ok::<AnswerLocationView, FetchErrorView>(location),
            Err(_) => from_name_service(world),
        },
{
    match file_step(FileStageView::Start, EventView::Started) {
        StepView::Perform(stage, request) => {
            lemma_run_of_file(world, stage, request);
        },
        _ => {},
    }
}

/// The name service is the fallback. Where the lease file yields nothing,
/// the resolution comes to what the name service yields; and where the
/// resolver configuration `conf` names a search domain and the query for the
/// URL below it is answered, the URL is that answer.
pub proof fn lemma_name_service_is_the_fallback(
    world: spec_fn(RequestView) -> EventView,
    conf: Seq<char>,
)
    requires
        from_lease(world) is Err,
        world(RequestView::ReadFile { path: RESOLV_CONF@ }) == EventView::Contents(conf),
    ensures
        resolution(world) == from_name_service(world),
        search_domain(conf) matches Some(domain) ==> {
            let name = query_name(ANSWER_SUBDOMAIN@, domain);
            txt_record(name, world(RequestView::QueryTxt { name })) matches Ok(url)
                ==> resolution(world) matches Ok(location) && location.url == url
        },
{
    lemma_sources_in_order(world);
    match search_domain(conf) {
        Some(domain) => {
            let name = query_name(ANSWER_SUBDOMAIN@, domain);
            let config = RequestView::ReadFile { path: RESOLV_CONF@ };
            let query = RequestView::QueryTxt { name };
            let fingerprint = pinned(world);
            assert(dns_run(world, fingerprint, DnsStageView::Config, config) == dns_run(
                world,
                fingerprint,
                DnsStageView::Url { domain },
                query,
            ));
            match dns_step(fingerprint, DnsStageView::Url { domain }, world(query)) {
                StepView::Perform(next, then) => {
                    assert(dns_run(world, fingerprint, next, then) is Ok);
                },
                _ => {},
            }
        },
        None => {},
    }
}

/// Without a URL there is no answer. Where the lease file yields nothing and
/// the name service yields nothing, the resolution fails, whatever the
/// partition holds.
pub proof fn lemma_no_source_no_answer(world: spec_fn(RequestView) -> EventView)
    requires
        from_lease(world) is Err,
        from_name_service(world) is Err,
    ensures
        resolution(world) is Err,
{
    lemma_sources_in_order(world);
}

/// An asking of the name service that finds the answer leaves a pinned
/// fingerprint as it is.
proof fn lemma_dns_keeps_pin(
    world: spec_fn(RequestView) -> EventView,
    fingerprint: Seq<char>,
    stage: DnsStageView,
    request: RequestView,
)
    ensures
        dns_run(world, Some(fingerprint), stage, request) matches Ok(location)
            ==> location.fingerprint == Some(fingerprint),
    decreases dns_rank(stage),
{
    match dns_step(Some(fingerprint), stage, world(request)) {
        StepView::Perform(next, then) => {
            lemma_dns_step_descends(Some(fingerprint), stage, world(request));
            lemma_dns_keeps_pin(world, fingerprint, next, then);
        },
        _ => {},
    }
}

/// What the file on the partition pins is never replaced. Where the file
/// gives a fingerprint, a resolution that finds the answer hands out this
/// fingerprint, whatever the lease file and the name service hold; and where
/// the lease file yields a URL, that URL.
pub proof fn lemma_pinned_fingerprint_stays(world: spec_fn(RequestView) -> EventView)
    requires
        pinned(world) is Some,
    ensures
        resolution(world) matches Ok(location) ==> location.fingerprint == pinned(world),
        from_lease(world) matches Ok(leased) ==> resolution(world) matches Ok(location)
            && location.url == leased.url,
{
    lemma_sources_in_order(world);
    match dns_step(pinned(world), DnsStageView::Start, EventView::Started) {
        StepView::Perform(stage, request) => {
            lemma_dns_keeps_pin(world, pinned(world)->0, stage, request);
        },
        _ => {},
    }
}

/// Whether no request of `made` is a query to the name service.
pub open spec fn without_query(made: Seq<RequestView>) -> bool {
    forall|i: int| 0 <= i < made.len() ==> !(#[trigger] made[i] is QueryTxt)
}

/// A resolution that reads the fingerprint file, in surroundings whose lease
/// file yields a URL, makes no query to the name service.
proof fn lemma_file_and_lease_make_no_query(
    world: spec_fn(RequestView) -> EventView,
    stage: FileStageView,
    request: RequestView,
)
    requires
        !(request is QueryTxt),
        lease_outcome(
            world(RequestView::ReadFile { path: DHCP_LEASE_FILE@ }),
            pin_of(file_run(world, stage, request)),
        ) is Ok,
    ensures
        without_query(asked(world, StageView::File(stage), request)),
    decreases file_rank(stage),
{
    match file_step(stage, world(request)) {
        StepView::Perform(next, then) => {
            lemma_file_step_descends(stage, world(request));
            lemma_file_and_lease_make_no_query(world, next, then);
        },
        StepView::Ready(fingerprint) => {
            lemma_lease_makes_no_query(world, Some(fingerprint));
        },
        StepView::Failed(_) => {
            lemma_lease_makes_no_query(world, None);
        },
    }
}

/// A resolution that reads a lease file which yields a URL makes no query to
/// the name service.
proof fn lemma_lease_makes_no_query(
    world: spec_fn(RequestView) -> EventView,
    fingerprint: Option<Seq<char>>,
)
    requires
        lease_outcome(world(RequestView::ReadFile { path: DHCP_LEASE_FILE@ }), fingerprint) is Ok,
    ensures
        without_query(
            asked(
                world,
                StageView::Dhcp { fingerprint },
                RequestView::ReadFile { path: DHCP_LEASE_FILE@ },
            ),
        ),
{
    let lease = RequestView::ReadFile { path: DHCP_LEASE_FILE@ };
    match answer_step(StageView::Dhcp { fingerprint }, world(lease)) {
        StepView::Perform(next, then) => {
            assert(asked(world, next, then) == seq![then]);
        },
        _ => {},
    }
}

/// A URL in the lease file ends the search. Where the lease file yields a
/// URL, the resolution comes to what the lease file yields, and not one of
/// its requests is a query to the name service.
pub proof fn lemma_lease_url_ends_search(world: spec_fn(RequestView) -> EventView)
    requires
        from_lease(world) is Ok,
    ensures
        resolution(world) == from_lease(world),
        without_query(requests(world)),
{
    lemma_sources_in_order(world);
    match file_step(FileStageView::Start, EventView::Started) {
        StepView::Perform(stage, request) => {
            lemma_file_and_lease_make_no_query(world, stage, request);
        },
        _ => {},
    }
}

/// Each step of a search for the label brings it nearer to its end.
pub proof fn lemma_scan_step_descends(
    label: Seq<char>,
    search_path: Seq<char>,
    stage: ScanStage,
    event: EventView,
)
    ensures
        scan_step(label, search_path, stage, event) matches StepView::Perform(next, _)
            ==> scan_rank(next) < scan_rank(stage),
{
}

/// Each step of a mounting brings it nearer to its end.
pub proof fn lemma_mount_step_descends(stage: MountStageView, event: EventView)
    ensures
        mount_step(stage, event) matches StepView::Perform(next, _) ==> mount_rank(next)
            < mount_rank(stage),
{
}

/// What the search for the partition labelled `label` under `search_path`
/// comes to in `world`, from the stage `stage` with `request` asked.
pub open spec fn scan_run(
    world: spec_fn(RequestView) -> EventView,
    label: Seq<char>,
    search_path: Seq<char>,
    stage: ScanStage,
    request: RequestView,
) -> Result<Seq<char>, FetchErrorView>
    decreases scan_rank(stage),
{
    match scan_step(label, search_path, stage, world(request)) {
        StepView::Perform(next, asked) => {
            proof {
                lemma_scan_step_descends(label, search_path, stage, world(request));
            }
            scan_run(world, label, search_path, next, asked)
        },
        StepView::Ready(device) => Ok(device),
        StepView::Failed(error) => Err(error),
    }
}

/// What the search for the partition labelled `label` under `search_path`
/// comes to in `world`.
pub open spec fn scanning(
    world: spec_fn(RequestView) -> EventView,
    label: Seq<char>,
    search_path: Seq<char>,
) -> Result<Seq<char>, FetchErrorView> {
    match scan_step(label, search_path, ScanStage::Start, EventView::Started) {
        StepView::Perform(stage, request) => scan_run(world, label, search_path, stage, request),
        StepView::Ready(device) => Ok(device),
        StepView::Failed(error) => Err(error),
    }
}

/// The upper-case name comes first. Where something exists under the
/// upper-case name, the search yields its path, whether anything exists
/// under the lower-case name or not.
pub proof fn lemma_upper_case_comes_first(
    world: spec_fn(RequestView) -> EventView,
    label: Seq<char>,
    search_path: Seq<char>,
)
    requires
        world(RequestView::ProbePath { path: joined(search_path, uppercase(label)) }) is Found,
    ensures
        scanning(world, label, search_path) == Ok::<Seq<char>, FetchErrorView>(
            joined(search_path, uppercase(label)),
        ),
{
}

/// The lower-case name comes second. Where nothing is found under the
/// upper-case name, the search yields the path of the lower-case name if
/// something exists there, and else fails with the label.
pub proof fn lemma_lower_case_comes_second(
    world: spec_fn(RequestView) -> EventView,
    label: Seq<char>,
    search_path: Seq<char>,
)
    requires
        ({
            let upper = world(RequestView::ProbePath { path: joined(search_path, uppercase(label)) });
            upper is Absent || upper is Failed
        }),
    ensures
        ({
            let lower = world(RequestView::ProbePath { path: joined(search_path, lowercase(label)) });
            &&& lower is Found ==> scanning(world, label, search_path) == Ok::<
                Seq<char>,
                FetchErrorView,
            >(joined(search_path, lowercase(label)))
            &&& lower is Absent || lower is Failed ==> scanning(world, label, search_path) == Err::<
                Seq<char>,
                FetchErrorView,
            >(FetchErrorView::LabelNotFound { label })
        }),
{
    let first = RequestView::ProbePath { path: joined(search_path, uppercase(label)) };
    let second = RequestView::ProbePath { path: joined(search_path, lowercase(label)) };
    assert(scan_run(world, label, search_path, ScanStage::Upper, first) == scan_run(
        world,
        label,
        search_path,
        ScanStage::Lower,
        second,
    ));
}

/// What the mounting of the partition comes to in `world`, from the stage
/// `stage` with `request` asked.
pub open spec fn mount_run(
    world: spec_fn(RequestView) -> EventView,
    stage: MountStageView,
    request: RequestView,
) -> Result<Seq<char>, FetchErrorView>
    decreases mount_rank(stage),
{
    match mount_step(stage, world(request)) {
        StepView::Perform(next, asked) => {
            proof {
                lemma_mount_step_descends(stage, world(request));
            }
            mount_run(world, next, asked)
        },
        StepView::Ready(mount_path) => Ok(mount_path),
        StepView::Failed(error) => Err(error),
    }
}

/// The requests that the mounting of the partition makes in `world`, from
/// the stage `stage` with `request` asked: `request` first.
pub open spec fn mount_asked(
    world: spec_fn(RequestView) -> EventView,
    stage: MountStageView,
    request: RequestView,
) -> Seq<RequestView>
    decreases mount_rank(stage),
{
    match mount_step(stage, world(request)) {
        StepView::Perform(next, then) => {
            proof {
                lemma_mount_step_descends(stage, world(request));
            }
            seq![request] + mount_asked(world, next, then)
        },
        _ => seq![request],
    }
}

/// What the mounting of the partition comes to in `world`.
pub open spec fn mounting(world: spec_fn(RequestView) -> EventView) -> Result<
    Seq<char>,
    FetchErrorView,
> {
    match mount_step(MountStageView::Start, EventView::Started) {
        StepView::Perform(stage, request) => mount_run(world, stage, request),
        StepView::Ready(mount_path) => Ok(mount_path),
        StepView::Failed(error) => Err(error),
    }
}

/// The requests that the mounting of the partition makes in `world`.
pub open spec fn mounting_requests(world: spec_fn(RequestView) -> EventView) -> Seq<RequestView> {
    match mount_step(MountStageView::Start, EventView::Started) {
        StepView::Perform(stage, request) => mount_asked(world, stage, request),
        _ => Seq::empty(),
    }
}

/// What is mounted is not mounted again. Where the mount table names the
/// mount point, the mounting yields the mount point, and to read the mount
/// table is all that it asks: no partition is searched and no mount command run.
pub proof fn lemma_mounted_is_not_mounted_again(
    world: spec_fn(RequestView) -> EventView,
    table: Seq<char>,
)
    requires
        world(RequestView::ReadFile { path: MOUNT_TABLE@ }) == EventView::Contents(table),
        mounted(table, ANSWER_MP@),
    ensures
        mounting(world) == Ok::<Seq<char>, FetchErrorView>(ANSWER_MP@),
        mounting_requests(world) == seq![RequestView::ReadFile { path: MOUNT_TABLE@ }],
{
}

/// A mount command that ends in failure fails no mounting: where the
/// command ran, and what it printed as its complaint is text, the mounting
/// yields the mount point.
pub proof fn lemma_failed_mount_yields_mount_point(stdout: Seq<u8>, stderr: Seq<u8>)
    requires
        vstd::utf8::valid_utf8(stderr),
    ensures
        mount_step(
            MountStageView::Command,
            EventView::Exited { success: false, stdout, stderr },
        ) == StepView::<MountStageView, Seq<char>>::Ready(ANSWER_MP@),
{
}

/// Whether `request` is what `stage` waits for, as far as the writing out of
/// the fingerprint goes: a resolution that has found a location with a
/// fingerprint waits for that fingerprint to be written out.
pub open spec fn writes_out(stage: StageView, request: RequestView) -> bool {
    stage matches StageView::Persist { location } ==> location.fingerprint matches Some(fingerprint)
        && request == (RequestView::WriteFile { path: FINGERPRINT_OUT@, contents: fingerprint })
}

/// Whether no request of `made` is to write a file.
pub open spec fn without_write(made: Seq<RequestView>) -> bool {
    forall|i: int| 0 <= i < made.len() ==> !(#[trigger] made[i] is WriteFile)
}

/// A resolution that ends with a fingerprint ends by writing it out, and one
/// that ends without writes nothing, from whatever stage it goes on.
proof fn lemma_run_writes_out(
    world: spec_fn(RequestView) -> EventView,
    stage: StageView,
    request: RequestView,
)
    requires
        writes_out(stage, request),
        !(stage is Persist) ==> !(request is WriteFile),
    ensures
        run(world, stage, request) matches Ok(location) ==> match location.fingerprint {
            Some(fingerprint) => asked(world, stage, request).last() == (RequestView::WriteFile {
                path: FINGERPRINT_OUT@,
                contents: fingerprint,
            }),
            None => without_write(asked(world, stage, request)),
        },
    decreases rank(stage),
{
    match answer_step(stage, world(request)) {
        StepView::Perform(next, then) => {
            lemma_step_descends(stage, world(request));
            lemma_run_writes_out(world, next, then);
        },
        _ => {},
    }
}

/// A fingerprint that is handed out was written out. The last request of a
/// resolution that ends with a fingerprint is to write this fingerprint to
/// `FINGERPRINT_OUT`; a resolution that ends without a fingerprint writes
/// nothing.
pub proof fn lemma_fingerprint_is_written_out(world: spec_fn(RequestView) -> EventView)
    ensures
        resolution(world) matches Ok(location) ==> match location.fingerprint {
            Some(fingerprint) => requests(world).last() == (RequestView::WriteFile {
                path: FINGERPRINT_OUT@,
                contents: fingerprint,
            }),
            None => without_write(requests(world)),
        },
{
    match answer_step(StageView::Start, EventView::Started) {
        StepView::Perform(stage, request) => {
            lemma_run_writes_out(world, stage, request);
        },
        _ => {},
    }
}

/// A resolution ends. It makes at most as many requests as the rank of its
/// stage says, from whatever stage it goes on.
proof fn lemma_asked_is_bounded(
    world: spec_fn(RequestView) -> EventView,
    stage: StageView,
    request: RequestView,
)
    ensures
        1 <= asked(world, stage, request).len() <= rank(stage),
    decreases rank(stage),
{
    match answer_step(stage, world(request)) {
        StepView::Perform(next, then) => {
            lemma_step_descends(stage, world(request));
            lemma_asked_is_bounded(world, next, then);
        },
        _ => {},
    }
}

/// Every resolution ends after twelve requests at most, whatever the
/// surroundings answer.
pub proof fn lemma_resolution_ends(world: spec_fn(RequestView) -> EventView)
    ensures
        1 <= requests(world).len() <= 12,
{
    match answer_step(StageView::Start, EventView::Started) {
        StepView::Perform(stage, request) => {
            lemma_asked_is_bounded(world, stage, request);
        },
        _ => {},
    }
}

} // verus!
