use proxmox_auto_installer::dns::DnsStage;
use proxmox_auto_installer::http::FetchFromHTTP;
use proxmox_auto_installer::protocol::{AnswerLocation, Event, FetchError, Request, Step};

fn location(url: &str, fingerprint: Option<&str>) -> AnswerLocation {
    AnswerLocation { url: url.to_string(), fingerprint: fingerprint.map(String::from) }
}

fn answered(stdout: &str) -> Event {
    Event::Exited { success: true, stdout: stdout.as_bytes().to_vec(), stderr: Vec::new() }
}

fn complained(stderr: &str) -> Event {
    Event::Exited { success: false, stdout: Vec::new(), stderr: stderr.as_bytes().to_vec() }
}

fn step(
    fingerprint: Option<String>,
    stage: DnsStage,
    event: Event,
) -> Step<DnsStage, AnswerLocation> {
    FetchFromHTTP::fetch_dns(fingerprint, stage, event).0
}

fn reason(fingerprint: Option<String>, stage: DnsStage, event: Event) -> Option<FetchError> {
    FetchFromHTTP::fetch_dns(fingerprint, stage, event).1
}

fn query(name: &str) -> Request {
    Request::QueryTxt { name: name.to_string() }
}

#[test]
fn search_domain_is_the_value_of_the_first_search_line() {
    let conf = "# Generated by dhclient\ndomain lan\nsearch example.com\nnameserver 10.0.0.1\nsearch other.org\n";
    assert_eq!(FetchFromHTTP::get_search_domain(conf), Ok("example.com".to_string()));
}

#[test]
fn search_domain_loses_the_white_space_around_it() {
    assert_eq!(
        FetchFromHTTP::get_search_domain("search   example.com \t\r\n"),
        Ok("example.com".to_string())
    );
    assert_eq!(FetchFromHTTP::get_search_domain("search a.org b.org"), Ok("a.org b.org".to_string()));
    assert_eq!(FetchFromHTTP::get_search_domain("search "), Ok(String::new()));
    assert_eq!(FetchFromHTTP::get_search_domain("search\t\n"), Ok(String::new()));
}

#[test]
fn search_domain_follows_the_keyword_behind_any_white_space() {
    assert_eq!(
        FetchFromHTTP::get_search_domain("search\texample.com\n"),
        Ok("example.com".to_string())
    );
    assert_eq!(
        FetchFromHTTP::get_search_domain("nameserver 10.0.0.1\nsearch \t example.com\tother.org\n"),
        Ok("example.com\tother.org".to_string())
    );
    assert_eq!(
        FetchFromHTTP::get_search_domain("search\u{a0}example.com"),
        Ok("example.com".to_string())
    );
}

#[test]
fn search_domain_allows_white_space_before_the_keyword() {
    assert_eq!(
        FetchFromHTTP::get_search_domain(" search example.com\n"),
        Ok("example.com".to_string())
    );
    assert_eq!(
        FetchFromHTTP::get_search_domain("\t  search\texample.com\r\n"),
        Ok("example.com".to_string())
    );
}

#[test]
fn search_domain_skips_a_keyword_with_nothing_behind_it() {
    assert_eq!(
        FetchFromHTTP::get_search_domain("search\nsearch example.com\n"),
        Ok("example.com".to_string())
    );
    assert_eq!(
        FetchFromHTTP::get_search_domain("  search\r\nsearch\texample.org\n"),
        Ok("example.org".to_string())
    );
}

#[test]
fn search_domain_needs_a_search_line() {
    for conf in [
        "",
        "\n",
        "nameserver 10.0.0.1\n",
        "search\n",
        "search",
        "  search",
        "searching example.com\n",
        "Search example.com\n",
        "#search example.com\n",
        "domain search example.com\n",
        "search.example.com x\n",
    ] {
        assert_eq!(
            FetchFromHTTP::get_search_domain(conf),
            Err(FetchError::NoSearchDomain),
            "{:?}",
            conf
        );
    }
    assert_eq!(
        FetchError::NoSearchDomain.message(),
        "Could not find search domain in resolv.conf."
    );
}

#[test]
fn txt_record_loses_quotes_and_white_space() {
    let name = "proxmoxinst.example.com".to_string();
    assert_eq!(
        FetchFromHTTP::query_txt_record(name.clone(), answered("\"http://cfg.example.com/a.toml\"\n")),
        Ok("http://cfg.example.com/a.toml".to_string())
    );
    assert_eq!(
        FetchFromHTTP::query_txt_record(name.clone(), answered(" \"ab\" \"cd\" \n")),
        Ok("ab cd".to_string())
    );
    assert_eq!(
        FetchFromHTTP::query_txt_record(name, answered("plain")),
        Ok("plain".to_string())
    );
}

#[test]
fn txt_record_refuses_an_empty_answer() {
    for stdout in ["", "\n", "  \t\n", "\"\"\n", "\" \"\n"] {
        assert_eq!(
            FetchFromHTTP::query_txt_record("n".to_string(), answered(stdout)),
            Err(FetchError::EmptyResponse),
            "{:?}",
            stdout
        );
    }
    assert_eq!(FetchError::EmptyResponse.message(), "Got empty response.");
}

#[test]
fn txt_record_hands_on_the_complaint_of_a_failed_query() {
    let error = FetchError::QueryFailed {
        query: "proxmoxinst.example.com".to_string(),
        detail: "dig: couldn't get address\n".to_string(),
    };
    assert_eq!(
        FetchFromHTTP::query_txt_record(
            "proxmoxinst.example.com".to_string(),
            complained("dig: couldn't get address\n")
        ),
        Err(error.clone())
    );
    assert_eq!(
        error.message(),
        "Error querying DNS record 'proxmoxinst.example.com' : dig: couldn't get address\n"
    );
}

#[test]
fn txt_record_ignores_the_output_of_a_failed_query() {
    let event = Event::Exited {
        success: false,
        stdout: b"\"http://x\"\n".to_vec(),
        stderr: Vec::new(),
    };
    assert_eq!(
        FetchFromHTTP::query_txt_record("n".to_string(), event),
        Err(FetchError::QueryFailed { query: "n".to_string(), detail: String::new() })
    );
}

#[test]
fn txt_record_says_why_a_query_was_not_run() {
    let error = FetchError::QueryNotRun {
        query: "proxmoxinst.example.com".to_string(),
        detail: "No such file or directory (os error 2)".to_string(),
    };
    assert_eq!(
        FetchFromHTTP::query_txt_record(
            "proxmoxinst.example.com".to_string(),
            Event::Failed("No such file or directory (os error 2)".to_string())
        ),
        Err(error.clone())
    );
    assert_eq!(
        error.message(),
        "Error querying DNS record 'proxmoxinst.example.com': No such file or directory (os error 2)"
    );
}

#[test]
fn txt_record_refuses_output_that_is_not_text() {
    let event = Event::Exited { success: true, stdout: vec![b'a', 0xff], stderr: Vec::new() };
    assert_eq!(
        FetchFromHTTP::query_txt_record("n".to_string(), event),
        Err(FetchError::OutputNotText)
    );
    let event = Event::Exited { success: false, stdout: Vec::new(), stderr: vec![0xc3] };
    assert_eq!(
        FetchFromHTTP::query_txt_record("n".to_string(), event),
        Err(FetchError::OutputNotText)
    );
    assert_eq!(FetchError::OutputNotText.message(), "Command output is not valid UTF-8.");
}

#[test]
fn txt_record_decodes_what_is_not_ascii() {
    assert_eq!(
        FetchFromHTTP::query_txt_record("n".to_string(), answered("\"http://b\u{fc}cher.example/\"\n")),
        Ok("http://b\u{fc}cher.example/".to_string())
    );
}

#[test]
fn txt_record_refuses_an_event_that_is_no_answer() {
    for event in [Event::Started, Event::Found, Event::Absent, Event::Done, Event::Contents("x".to_string())] {
        assert_eq!(
            FetchFromHTTP::query_txt_record("n".to_string(), event),
            Err(FetchError::UnexpectedEvent)
        );
    }
}

#[test]
fn dns_reads_the_resolver_configuration_first() {
    assert_eq!(
        step(None, DnsStage::Start, Event::Started),
        Step::Perform(DnsStage::Config, Request::ReadFile { path: "/etc/resolv.conf".to_string() })
    );
}

#[test]
fn dns_asks_for_the_url_below_the_search_domain() {
    assert_eq!(
        step(None, DnsStage::Config, Event::Contents("search example.com\n".to_string())),
        Step::Perform(
            DnsStage::Url { domain: "example.com".to_string() },
            query("proxmoxinst.example.com")
        )
    );
}

#[test]
fn dns_fails_without_a_search_domain() {
    assert_eq!(
        step(None, DnsStage::Config, Event::Contents("nameserver 10.0.0.1\n".to_string())),
        Step::Failed(FetchError::NoSearchDomain)
    );
    assert_eq!(
        step(None, DnsStage::Config, Event::Failed("permission denied".to_string())),
        Step::Failed(FetchError::Unreadable { detail: "permission denied".to_string() })
    );
}

#[test]
fn dns_asks_for_the_fingerprint_when_none_is_pinned() {
    let stage = DnsStage::Url { domain: "example.com".to_string() };
    assert_eq!(
        step(None, stage, answered("\"http://cfg.example.com/a.toml\"\n")),
        Step::Perform(
            DnsStage::Fingerprint {
                domain: "example.com".to_string(),
                url: "http://cfg.example.com/a.toml".to_string()
            },
            query("proxmoxinst-fp.example.com")
        )
    );
}

#[test]
fn dns_does_not_ask_for_the_fingerprint_when_one_is_pinned() {
    let stage = DnsStage::Url { domain: "example.com".to_string() };
    assert_eq!(
        step(Some("AA:BB".to_string()), stage, answered("\"http://cfg.example.com/a.toml\"\n")),
        Step::Ready(location("http://cfg.example.com/a.toml", Some("AA:BB")))
    );
}

#[test]
fn dns_fails_when_the_url_query_fails() {
    let stage = DnsStage::Url { domain: "example.com".to_string() };
    assert_eq!(
        step(None, stage.clone(), answered("\n")),
        Step::Failed(FetchError::EmptyResponse)
    );
    assert_eq!(
        step(None, stage, complained("timed out")),
        Step::Failed(FetchError::QueryFailed {
            query: "proxmoxinst.example.com".to_string(),
            detail: "timed out".to_string()
        })
    );
}

#[test]
fn dns_takes_the_fingerprint_that_the_query_gives() {
    let stage = DnsStage::Fingerprint { domain: "example.com".to_string(), url: "http://u".to_string() };
    assert_eq!(
        step(None, stage, answered("\"aa:bb:cc\"\n")),
        Step::Ready(location("http://u", Some("aa:bb:cc")))
    );
}

#[test]
fn dns_stands_without_a_fingerprint() {
    let stage = DnsStage::Fingerprint { domain: "example.com".to_string(), url: "http://u".to_string() };
    for event in [answered(""), complained("NXDOMAIN"), Event::Failed("not found".to_string())] {
        assert_eq!(
            step(None, stage.clone(), event),
            Step::Ready(location("http://u", None))
        );
    }
}

#[test]
fn dns_never_replaces_a_pinned_fingerprint() {
    let stage = DnsStage::Fingerprint { domain: "example.com".to_string(), url: "http://u".to_string() };
    assert_eq!(
        step(Some("AA".to_string()), stage, answered("\"bb\"\n")),
        Step::Ready(location("http://u", Some("AA")))
    );
}

#[test]
fn dns_says_why_the_fingerprint_query_gave_nothing() {
    let stage = DnsStage::Fingerprint { domain: "example.com".to_string(), url: "http://u".to_string() };
    assert_eq!(reason(None, stage.clone(), answered("")), Some(FetchError::EmptyResponse));
    assert_eq!(
        reason(None, stage.clone(), complained("NXDOMAIN")),
        Some(FetchError::QueryFailed {
            query: "proxmoxinst-fp.example.com".to_string(),
            detail: "NXDOMAIN".to_string()
        })
    );
    assert_eq!(
        reason(None, stage.clone(), Event::Failed("not found".to_string())),
        Some(FetchError::QueryNotRun {
            query: "proxmoxinst-fp.example.com".to_string(),
            detail: "not found".to_string()
        })
    );
    assert_eq!(reason(None, stage.clone(), answered("\"aa\"\n")), None);
    assert_eq!(reason(Some("AA".to_string()), stage, answered("")), None);
}

#[test]
fn dns_hands_out_no_reason_with_a_failure_of_its_own() {
    assert_eq!(reason(None, DnsStage::Start, Event::Started), None);
    assert_eq!(reason(None, DnsStage::Config, Event::Failed("denied".to_string())), None);
    assert_eq!(reason(None, DnsStage::Config, Event::Contents("search example.com\n".to_string())), None);
    let stage = DnsStage::Url { domain: "example.com".to_string() };
    assert_eq!(reason(None, stage.clone(), answered("")), None);
    assert_eq!(reason(None, stage, answered("\"http://u\"\n")), None);
}

#[test]
fn dns_takes_a_tab_separated_search_line() {
    assert_eq!(
        step(None, DnsStage::Config, Event::Contents("search\texample.com\n".to_string())),
        Step::Perform(
            DnsStage::Url { domain: "example.com".to_string() },
            query("proxmoxinst.example.com")
        )
    );
}
