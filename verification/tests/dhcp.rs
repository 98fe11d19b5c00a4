use proxmox_auto_installer::http::FetchFromHTTP;
use proxmox_auto_installer::protocol::{AnswerLocation, FetchError};

fn location(url: &str, fingerprint: Option<&str>) -> AnswerLocation {
    AnswerLocation { url: url.to_string(), fingerprint: fingerprint.map(String::from) }
}

const LEASES: &str = "lease {\n\
  interface \"eth0\";\n\
  fixed-address 10.0.0.17;\n\
  option subnet-mask 255.255.255.0;\n\
  option proxmoxinst-url \"http://10.0.0.5/answer.toml\";\n\
  option proxmoxinst-fp \"aa:bb:cc\";\n\
  renew 2 2024/01/02 03:04:05;\n\
}\n\
lease {\n\
  option proxmoxinst-url \"http://10.0.0.9/later.toml\";\n\
  option proxmoxinst-fp \"dd:ee:ff\";\n\
}\n";

#[test]
fn strip_takes_the_quoting_off() {
    assert_eq!(
        FetchFromHTTP::strip_dhcp_option(Some("\"http://x/y\";")),
        Some("http://x/y".to_string())
    );
    assert_eq!(FetchFromHTTP::strip_dhcp_option(Some("\"\";")), Some(String::new()));
    assert_eq!(FetchFromHTTP::strip_dhcp_option(Some("\"a\"b\";")), Some("a\"b".to_string()));
    assert_eq!(
        FetchFromHTTP::strip_dhcp_option(Some("\"\u{e9}t\u{e9}\";")),
        Some("\u{e9}t\u{e9}".to_string())
    );
}

#[test]
fn strip_gives_nothing_for_no_value() {
    assert_eq!(FetchFromHTTP::strip_dhcp_option(None), None);
}

#[test]
fn strip_refuses_what_is_not_quoted() {
    for token in [
        "",
        "\"",
        "\";",
        "x\";",
        "http://x/y",
        "\"http://x/y\"",
        "http://x/y\";",
        "\"http://x/y;",
        "'http://x/y';",
        "\"http://x/y\";;",
        "proxmoxinst-url",
    ] {
        assert_eq!(FetchFromHTTP::strip_dhcp_option(Some(token)), None, "{:?}", token);
    }
}

#[test]
fn dhcp_gives_the_url_and_no_fingerprint() {
    let leases = "option proxmoxinst-url \"http://10.0.0.5/answer.toml\";";
    assert_eq!(
        FetchFromHTTP::fetch_dhcp(leases, None),
        Ok(location("http://10.0.0.5/answer.toml", None))
    );
}

#[test]
fn dhcp_takes_the_first_line_of_each_option() {
    assert_eq!(
        FetchFromHTTP::fetch_dhcp(LEASES, None),
        Ok(location("http://10.0.0.5/answer.toml", Some("aa:bb:cc")))
    );
}

#[test]
fn dhcp_keeps_a_pinned_fingerprint() {
    assert_eq!(
        FetchFromHTTP::fetch_dhcp(LEASES, Some("AA:BB:CC".to_string())),
        Ok(location("http://10.0.0.5/answer.toml", Some("AA:BB:CC")))
    );
}

#[test]
fn dhcp_finds_options_whatever_stands_around_them() {
    let leases = "\t option proxmoxinst-fp   \"f0\";  \r\n\u{a0}option proxmoxinst-url\t\"u\";\t\r\n";
    assert_eq!(FetchFromHTTP::fetch_dhcp(leases, None), Ok(location("u", Some("f0"))));
}

#[test]
fn dhcp_needs_the_url() {
    for leases in [
        "",
        "lease {\n}\n",
        "option proxmoxinst-fp \"aa\";\n",
        "# option proxmoxinst-url \"u\";\n",
        "option  proxmoxinst-url \"u\";\n",
        "option proxmoxinst-ur \"u\";\n",
    ] {
        assert_eq!(
            FetchFromHTTP::fetch_dhcp(leases, None),
            Err(FetchError::NoUrlOption),
            "{:?}",
            leases
        );
    }
    assert_eq!(FetchError::NoUrlOption.message(), "No DHCP option found for fetch URL.");
}

#[test]
fn dhcp_refuses_a_value_that_is_not_quoted() {
    for leases in [
        "option proxmoxinst-url http://x/y;\n",
        "option proxmoxinst-url\n",
        "option proxmoxinst-url \"u\"\n",
        "option proxmoxinst-url \"u\";\noption proxmoxinst-fp aa;\n",
        "option proxmoxinst-fp aa;\n",
        "option proxmoxinst-url u\noption proxmoxinst-url \"u\";\n",
    ] {
        assert_eq!(
            FetchFromHTTP::fetch_dhcp(leases, None),
            Err(FetchError::MalformedOption),
            "{:?}",
            leases
        );
    }
}

#[test]
fn dhcp_does_not_look_at_the_fingerprint_option_when_one_is_pinned() {
    let leases = "option proxmoxinst-url \"u\";\noption proxmoxinst-fp aa;\n";
    assert_eq!(
        FetchFromHTTP::fetch_dhcp(leases, Some("f".to_string())),
        Ok(location("u", Some("f")))
    );
}
