//! The name service as a source: the search domain of the resolver
//! configuration, and the TXT records below it that hold the URL of the
//! answer file and the fingerprint of the certificate.

use crate::http::FetchFromHTTP;
use crate::protocol::{
    reason_of, text_of, AnswerLocation, AnswerLocationView, Event, EventView, FetchError,
    FetchErrorView, Request, RequestView, Step, StepView,
};
use crate::text::{
    after_first_word, contents, first_word, from_utf8, lemma_trimmed_stays_trimmed, lines,
    remove_all, same,
    split_first_word, split_lines, to_chars, to_string, trim, trimmed, without,
};
use vstd::prelude::*;
use vstd::utf8::{decode_utf8, valid_utf8};

verus! {

/// The subdomain whose TXT record holds the URL of the answer file.
pub const ANSWER_SUBDOMAIN: &'static str = "proxmoxinst";

/// The subdomain whose TXT record holds the fingerprint of the certificate.
pub const ANSWER_SUBDOMAIN_FP: &'static str = "proxmoxinst-fp";

/// The resolver configuration.
pub const RESOLV_CONF: &'static str = "/etc/resolv.conf";

/// The keyword of the line that names the search domain.
pub const SEARCH_KEYWORD: &'static str = "search";

/// Whether `line` names the search domain: whether its first word is
/// `search` and the line goes on behind that word. White space before the
/// word does not count, and any white space may follow it. A line that holds
/// the keyword and nothing behind it names no domain.
pub open spec fn names_search_domain(line: Seq<char>) -> bool {
    first_word(line) == SEARCH_KEYWORD@ && after_first_word(line).len() > 0
}

/// Index of the first of `rows` at or after `from` that names the search
/// domain; the number of rows where none does.
pub open spec fn search_row(rows: Seq<Seq<char>>, from: int) -> int
    decreases rows.len() - from,
{
    if 0 <= from < rows.len() && !names_search_domain(rows[from]) {
        search_row(rows, from + 1)
    } else {
        from
    }
}

/// The search domain that the resolver configuration `conf` names: what
/// follows the keyword in the first line that names one, without the white
/// space around it. `None` where no line names one.
pub open spec fn search_domain(conf: Seq<char>) -> Option<Seq<char>> {
    let rows = lines(conf);
    let at = search_row(rows, 0);
    if at < rows.len() {
        Some(trimmed(after_first_word(rows[at])))
    } else {
        None
    }
}

/// The name to ask for: `subdomain` below `domain`.
pub open spec fn query_name(subdomain: Seq<char>, domain: Seq<char>) -> Seq<char> {
    subdomain + seq!['.'] + domain
}

/// What the output `stdout` of a query that succeeded answers: its text
/// without any double quote and without the white space around it. Output
/// that is not UTF-8 is an error, and so is an answer that is empty.
pub open spec fn txt_answer(stdout: Seq<u8>) -> Result<Seq<char>, FetchErrorView> {
    if !valid_utf8(stdout) {
        Err(FetchErrorView::OutputNotText)
    } else {
        let answer = trimmed(without(decode_utf8(stdout), '"'));
        if answer.len() == 0 {
            Err(FetchErrorView::EmptyResponse)
        } else {
            Ok(answer)
        }
    }
}

/// What the query for `query` has given, going by the event that came of it.
/// A command that ended in failure is an error that holds what it printed as
/// its complaint; a command that could not be run is an error that holds why.
pub open spec fn txt_record(query: Seq<char>, event: EventView) -> Result<
    Seq<char>,
    FetchErrorView,
> {
    match event {
        EventView::Exited { success, stdout, stderr } => if success {
            txt_answer(stdout)
        } else if valid_utf8(stderr) {
            Err(FetchErrorView::QueryFailed { query, detail: decode_utf8(stderr) })
        } else {
            Err(FetchErrorView::OutputNotText)
        },
        EventView::Failed(detail) => Err(FetchErrorView::QueryNotRun { query, detail }),
        _ => Err(FetchErrorView::UnexpectedEvent),
    }
}

/// The view of an outcome that is a text.
pub open spec fn text_outcome_of(r: Result<String, FetchError>) -> Result<
    Seq<char>,
    FetchErrorView,
> {
    match r {
        Ok(text) => Ok(text@),
        Err(error) => Err(error@),
    }
}

/// How far the asking of the name service has come.
#[derive(Debug, Clone, PartialEq, Eq)]
pub enum DnsStage {
    /// Nothing was asked.
    Start,
    /// The resolver configuration is being read.
    Config,
    /// The query for the URL is out; `domain` is the search domain.
    Url { domain: String },
    /// The query for the fingerprint is out; `url` is what the first query gave.
    Fingerprint { domain: String, url: String },
}

/// A stage of asking the name service, its strings taken as sequences of characters.
pub enum DnsStageView {
    Start,
    Config,
    Url { domain: Seq<char> },
    Fingerprint { domain: Seq<char>, url: Seq<char> },
}

impl View for DnsStage {
    type V = DnsStageView;

    open spec fn view(&self) -> DnsStageView {
        match *self {
            DnsStage::Start => DnsStageView::Start,
            DnsStage::Config => DnsStageView::Config,
            DnsStage::Url { domain } => DnsStageView::Url { domain: domain@ },
            DnsStage::Fingerprint { domain, url } => DnsStageView::Fingerprint {
                domain: domain@,
                url: url@,
            },
        }
    }
}

/// One step of asking the name service, where `fingerprint` is the
/// fingerprint that is pinned already, if one is.
///
/// The search domain is read from the resolver configuration, and the URL is
/// asked for below it: without either nothing is found. The fingerprint is
/// asked for only where none is pinned, and the URL stands also where that
/// query gives nothing.
pub open spec fn dns_step(
    fingerprint: Option<Seq<char>>,
    stage: DnsStageView,
    event: EventView,
) -> StepView<DnsStageView, AnswerLocationView> {
    match stage {
        DnsStageView::Start => match event {
            EventView::Started => StepView::Perform(
                DnsStageView::Config,
                RequestView::ReadFile { path: RESOLV_CONF@ },
            ),
            _ => StepView::Failed(FetchErrorView::UnexpectedEvent),
        },
        DnsStageView::Config => match event {
            EventView::Contents(conf) => match search_domain(conf) {
                Some(domain) => StepView::Perform(
                    DnsStageView::Url { domain },
                    RequestView::QueryTxt { name: query_name(ANSWER_SUBDOMAIN@, domain) },
                ),
                None => StepView::Failed(FetchErrorView::NoSearchDomain),
            },
            EventView::Failed(detail) => StepView::Failed(FetchErrorView::Unreadable { detail }),
            _ => StepView::Failed(FetchErrorView::UnexpectedEvent),
        },
        DnsStageView::Url { domain } => match txt_record(
            query_name(ANSWER_SUBDOMAIN@, domain),
            event,
        ) {
            Ok(url) => if fingerprint is Some {
                StepView::Ready(AnswerLocationView { url, fingerprint })
            } else {
                StepView::Perform(
                    DnsStageView::Fingerprint { domain, url },
                    RequestView::QueryTxt { name: query_name(ANSWER_SUBDOMAIN_FP@, domain) },
                )
            },
            Err(error) => StepView::Failed(error),
        },
        DnsStageView::Fingerprint { domain, url } => if fingerprint is Some {
            StepView::Ready(AnswerLocationView { url, fingerprint })
        } else {
            match txt_record(query_name(ANSWER_SUBDOMAIN_FP@, domain), event) {
                Ok(found) => StepView::Ready(AnswerLocationView { url, fingerprint: Some(found) }),
                Err(_) => StepView::Ready(AnswerLocationView { url, fingerprint: None }),
            }
        },
    }
}

/// Why the name service gives no fingerprint on `event`, where the asking
/// goes on without one: the error of the query for the fingerprint, where
/// that query was out, none is pinned and the query gave nothing.
pub open spec fn dns_skipped(
    fingerprint: Option<Seq<char>>,
    stage: DnsStageView,
    event: EventView,
) -> Option<FetchErrorView> {
    match stage {
        DnsStageView::Fingerprint { domain, .. } => if fingerprint is Some {
            None
        } else {
            match txt_record(query_name(ANSWER_SUBDOMAIN_FP@, domain), event) {
                Ok(_) => None,
                Err(error) => Some(error),
            }
        },
        _ => None,
    }
}

/// The first line counts. `search_row` gives the first of `rows` from `from`
/// on that names the search domain: no row between `from` and the index it
/// gives names one, and the row at that index does unless the index is the
/// number of rows.
pub proof fn lemma_search_row_is_first(rows: Seq<Seq<char>>, from: int)
    requires
        0 <= from <= rows.len(),
    ensures
        from <= search_row(rows, from) <= rows.len(),
        forall|i: int| from <= i < search_row(rows, from) ==> !names_search_domain(rows[i]),
        search_row(rows, from) < rows.len() ==> names_search_domain(rows[search_row(rows, from)]),
    decreases rows.len() - from,
{
    if from < rows.len() && !names_search_domain(rows[from]) {
        lemma_search_row_is_first(rows, from + 1);
    }
}

/// The search domain is that of the first line whose first word is the
/// keyword. A resolver configuration names no search domain exactly where
/// none of its lines names one; and the domain it names is what follows the
/// keyword in the first line that names one, with no white space around it.
pub proof fn lemma_search_domain_is_of_first_search_line(conf: Seq<char>)
    ensures
        search_domain(conf) is None <==> forall|i: int|
            0 <= i < lines(conf).len() ==> !names_search_domain(#[trigger] lines(conf)[i]),
        search_domain(conf) matches Some(domain) ==> {
            let at = search_row(lines(conf), 0);
            &&& 0 <= at < lines(conf).len()
            &&& names_search_domain(lines(conf)[at])
            &&& forall|i: int| 0 <= i < at ==> !names_search_domain(#[trigger] lines(conf)[i])
            &&& domain == trimmed(after_first_word(lines(conf)[at]))
            &&& trimmed(domain) == domain
        },
{
    let rows = lines(conf);
    lemma_search_row_is_first(rows, 0);
    let at = search_row(rows, 0);
    if at < rows.len() {
        lemma_trimmed_stays_trimmed(after_first_word(rows[at]));
    }
}

/// A pinned fingerprint is not asked for, and it stays. Under a pinned
/// fingerprint no step of asking the name service leads to the query for the
/// fingerprint, and a step that ends the asking hands out what is pinned.
pub proof fn lemma_pinned_fingerprint_is_not_asked_for(
    fingerprint: Seq<char>,
    stage: DnsStageView,
    event: EventView,
)
    ensures
        match dns_step(Some(fingerprint), stage, event) {
            StepView::Perform(next, _) => !(next is Fingerprint),
            StepView::Ready(location) => location.fingerprint == Some(fingerprint),
            StepView::Failed(_) => true,
        },
{
}

/// The name to ask for: `subdomain` below `domain`.
fn name_below(subdomain: &str, domain: &str) -> (name: String)
    ensures
        name@ == query_name(subdomain@, domain@),
{
    proof {
        reveal_strlit(".");
    }
    subdomain.to_owned().concat(".").concat(domain)
}

impl FetchFromHTTP {
    /// The search domain that the resolver configuration `resolv_conf` names.
    pub fn get_search_domain(resolv_conf: &str) -> (domain: Result<String, FetchError>)
        ensures
            text_outcome_of(domain) == match search_domain(resolv_conf@) {
                Some(name) => Ok::<Seq<char>, FetchErrorView>(name),
                None => Err(FetchErrorView::NoSearchDomain),
            },
    {
        let text = to_chars(resolv_conf);
        let keyword = to_chars(SEARCH_KEYWORD);
        let rows = split_lines(text.as_slice());
        let mut i: usize = 0;
        while i < rows.len()
            invariant
                0 <= i <= rows.len(),
                keyword@ == SEARCH_KEYWORD@,
                contents(rows@) == lines(resolv_conf@),
                search_row(lines(resolv_conf@), 0) == search_row(lines(resolv_conf@), i as int),
            decreases rows.len() - i,
        {
            let (key, value) = split_first_word(rows[i]);
            if same(key, keyword.as_slice()) && value.len() > 0 {
                return Ok(to_string(trim(value)));
            }
            i += 1;
        }
        Err(FetchError::NoSearchDomain)
    }

    /// What the query for the TXT record of `query` has given, going by the
    /// event that came of it.
    pub fn query_txt_record(query: String, event: Event) -> (answer: Result<String, FetchError>)
        ensures
            text_outcome_of(answer) == txt_record(query@, event@),
    {
        match event {
            Event::Exited { success, stdout, stderr } => {
                if success {
                    match from_utf8(stdout) {
                        Some(text) => {
                            let chars = to_chars(text.as_str());
                            let bare = remove_all(chars.as_slice(), '"');
                            let answer = trim(bare.as_slice());
                            if answer.len() == 0 {
                                Err(FetchError::EmptyResponse)
                            } else {
                                Ok(to_string(answer))
                            }
                        },
                        None => Err(FetchError::OutputNotText),
                    }
                } else {
                    match from_utf8(stderr) {
                        Some(detail) => Err(FetchError::QueryFailed { query, detail }),
                        None => Err(FetchError::OutputNotText),
                    }
                }
            },
            Event::Failed(detail) => Err(FetchError::QueryNotRun { query, detail }),
            _ => Err(FetchError::UnexpectedEvent),
        }
    }

    /// Asks the name service for the URL of the answer file and, where no
    /// fingerprint is pinned, for the fingerprint: one step of it. Beside
    /// the step it hands out why the query for the fingerprint gave nothing,
    /// where it gave nothing.
    pub fn fetch_dns(fingerprint: Option<String>, stage: DnsStage, event: Event) -> (out: (
        Step<DnsStage, AnswerLocation>,
        Option<FetchError>,
    ))
        ensures
            out.0@ == dns_step(text_of(fingerprint), stage@, event@),
            reason_of(out.1) == dns_skipped(text_of(fingerprint), stage@, event@),
    {
        match stage {
            DnsStage::Start => match event {
                Event::Started => (
                    Step::Perform(
                        DnsStage::Config,
                        Request::ReadFile { path: RESOLV_CONF.to_owned() },
                    ),
                    None,
                ),
                _ => (Step::Failed(FetchError::UnexpectedEvent), None),
            },
            DnsStage::Config => match event {
                Event::Contents(conf) => match Self::get_search_domain(conf.as_str()) {
                    Ok(domain) => {
                        let name = name_below(ANSWER_SUBDOMAIN, domain.as_str());
                        (Step::Perform(DnsStage::Url { domain }, Request::QueryTxt { name }), None)
                    },
                    Err(error) => (Step::Failed(error), None),
                },
                Event::Failed(detail) => (Step::Failed(FetchError::Unreadable { detail }), None),
                _ => (Step::Failed(FetchError::UnexpectedEvent), None),
            },
            DnsStage::Url { domain } => {
                let query = name_below(ANSWER_SUBDOMAIN, domain.as_str());
                match Self::query_txt_record(query, event) {
                    Ok(url) => match fingerprint {
                        Some(pinned) => (
                            Step::Ready(AnswerLocation { url, fingerprint: Some(pinned) }),
                            None,
                        ),
                        None => {
                            let name = name_below(ANSWER_SUBDOMAIN_FP, domain.as_str());
                            (
                                Step::Perform(
                                    DnsStage::Fingerprint { domain, url },
                                    Request::QueryTxt { name },
                                ),
                                None,
                            )
                        },
                    },
                    Err(error) => (Step::Failed(error), None),
                }
            },
            DnsStage::Fingerprint { domain, url } => match fingerprint {
                Some(pinned) => (
                    Step::Ready(AnswerLocation { url, fingerprint: Some(pinned) }),
                    None,
                ),
                None => {
                    let query = name_below(ANSWER_SUBDOMAIN_FP, domain.as_str());
                    match Self::query_txt_record(query, event) {
                        Ok(found) => (
                            Step::Ready(AnswerLocation { url, fingerprint: Some(found) }),
                            None,
                        ),
                        Err(error) => (
                            Step::Ready(AnswerLocation { url, fingerprint: None }),
                            Some(error),
                        ),
                    }
                },
            },
        }
    }
}

} // verus!
