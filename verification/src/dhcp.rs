//! The options that a DHCP lease file holds for the installer.
//!
//! The DHCP client is told to ask for two options, the URL of the answer file
//! and the fingerprint of the server's certificate, and writes what it got
//! into its lease file, one option to a line: the word `option`, the option's
//! name, and its value in double quotes with a semicolon behind it.

use crate::http::FetchFromHTTP;
use crate::protocol::{text_of, AnswerLocation, AnswerLocationView, FetchError, FetchErrorView};
use crate::text::{
    contents, last_token, last_word, lines, split_lines, starts_with, to_chars, to_string,
    trim_start, trimmed_start,
};
use vstd::prelude::*;
use vstd::slice::slice_subrange;

verus! {

/// The option that holds the URL of the answer file.
pub const DHCP_URL_OPTION: &'static str = "proxmoxinst-url";

/// The option that holds the fingerprint of the certificate.
pub const DHCP_FP_OPTION: &'static str = "proxmoxinst-fp";

/// The lease file of the DHCP client.
pub const DHCP_LEASE_FILE: &'static str = "/var/lib/dhcp/dhclient.leases";

/// What a line begins with that sets the option `name`.
pub open spec fn option_prefix(name: Seq<char>) -> Seq<char> {
    "option "@ + name
}

/// Whether `line` sets the option `name`: whether it begins with the
/// option's prefix once its leading white space is taken off.
pub open spec fn sets_option(line: Seq<char>, name: Seq<char>) -> bool {
    option_prefix(name).is_prefix_of(trimmed_start(line))
}

/// Index of the first of `rows` at or after `from` that sets the option
/// `name`; the number of rows where none does.
pub open spec fn option_row(rows: Seq<Seq<char>>, name: Seq<char>, from: int) -> int
    decreases rows.len() - from,
{
    if 0 <= from < rows.len() && !sets_option(rows[from], name) {
        option_row(rows, name, from + 1)
    } else {
        from
    }
}

/// The value of the option `name` as `leases` holds it, still quoted: the
/// last word of the first line that sets the option. `None` where no line does.
pub open spec fn option_token(leases: Seq<char>, name: Seq<char>) -> Option<Seq<char>> {
    let rows = lines(leases);
    let at = option_row(rows, name, 0);
    if at < rows.len() {
        Some(last_word(rows[at]))
    } else {
        None
    }
}

/// What stands between the quotes of `token`, where `token` is a double
/// quote, a value, a double quote and a semicolon; `None` where it is not.
pub open spec fn unquoted(token: Seq<char>) -> Option<Seq<char>> {
    let n = token.len() as int;
    if n >= 3 && token[0] == '"' && token[n - 2] == '"' && token[n - 1] == ';' {
        Some(token.subrange(1, n - 2))
    } else {
        None
    }
}

/// What stands between the quotes of `value`, where there is a value.
pub open spec fn stripped(value: Option<Seq<char>>) -> Option<Seq<char>> {
    match value {
        Some(token) => unquoted(token),
        None => None,
    }
}

/// What the lease file `leases` yields where `fingerprint` is the fingerprint
/// that is pinned already, if one is.
///
/// The URL is the value of the first line that sets the URL option, and
/// there has to be one. A pinned fingerprint stays; where none is pinned, the
/// fingerprint is the value of the first line that sets the fingerprint
/// option, if there is one. A value that is not quoted as it has to be fails
/// the whole; the fingerprint option is not looked at where a fingerprint is
/// pinned.
pub open spec fn lease_answer(leases: Seq<char>, fingerprint: Option<Seq<char>>) -> Result<
    AnswerLocationView,
    FetchErrorView,
> {
    let url = option_token(leases, DHCP_URL_OPTION@);
    let pin = if fingerprint is Some {
        None
    } else {
        option_token(leases, DHCP_FP_OPTION@)
    };
    if (url is Some && stripped(url) is None) || (pin is Some && stripped(pin) is None) {
        Err(FetchErrorView::MalformedOption)
    } else if url is None {
        Err(FetchErrorView::NoUrlOption)
    } else {
        Ok(
            AnswerLocationView {
                url: stripped(url)->0,
                fingerprint: if fingerprint is Some {
                    fingerprint
                } else {
                    stripped(pin)
                },
            },
        )
    }
}

/// The first line counts. `option_row` gives the first of `rows` from `from`
/// on that sets the option: no row between `from` and the index it gives sets
/// it, and the row at that index does unless the index is the number of rows.
pub proof fn lemma_option_row_is_first(rows: Seq<Seq<char>>, name: Seq<char>, from: int)
    requires
        0 <= from <= rows.len(),
    ensures
        from <= option_row(rows, name, from) <= rows.len(),
        forall|i: int| from <= i < option_row(rows, name, from) ==> !sets_option(rows[i], name),
        option_row(rows, name, from) < rows.len() ==> sets_option(
            rows[option_row(rows, name, from)],
            name,
        ),
    decreases rows.len() - from,
{
    if from < rows.len() && !sets_option(rows[from], name) {
        lemma_option_row_is_first(rows, name, from + 1);
    }
}

/// A pinned fingerprint stays. Whatever the lease file holds, what it yields
/// under a pinned fingerprint hands out that fingerprint.
pub proof fn lemma_lease_keeps_pinned(leases: Seq<char>, fingerprint: Seq<char>)
    ensures
        lease_answer(leases, Some(fingerprint)) matches Ok(location) ==> location.fingerprint
            == Some(fingerprint),
{
}

/// Stripping takes off what quoting puts on: every value, set between
/// double quotes and followed by a semicolon, is what stripping yields, with
/// no character more and none less.
pub proof fn lemma_strip_inverts_quoting(value: Seq<char>)
    ensures
        unquoted(seq!['"'] + value + seq!['"', ';']) == Some(value),
{
}

/// The view of an outcome.
pub open spec fn outcome_of(r: Result<AnswerLocation, FetchError>) -> Result<
    AnswerLocationView,
    FetchErrorView,
> {
    match r {
        Ok(location) => Ok(location@),
        Err(error) => Err(error@),
    }
}

/// The last word of the first of `rows` that sets the option `name`.
fn find_option<'a>(rows: &Vec<&'a [char]>, name: &str) -> (token: Option<&'a [char]>)
    ensures
        match token {
            Some(t) => {
                let at = option_row(contents(rows@), name@, 0);
                at < rows.len() && t@ == last_word(contents(rows@)[at])
            },
            None => option_row(contents(rows@), name@, 0) >= rows.len(),
        },
{
    let prefix = to_chars("option ".to_owned().concat(name).as_str());
    let mut i: usize = 0;
    while i < rows.len()
        invariant
            0 <= i <= rows.len(),
            prefix@ == option_prefix(name@),
            option_row(contents(rows@), name@, 0) == option_row(contents(rows@), name@, i as int),
        decreases rows.len() - i,
    {
        if starts_with(trim_start(rows[i]), prefix.as_slice()) {
            return Some(last_token(rows[i]));
        }
        i += 1;
    }
    None
}

impl FetchFromHTTP {
    /// Takes the quoting off the value of an option: the double quote in
    /// front and the double quote and the semicolon at the end. `None` where
    /// there is no value, or where it is not quoted in this way.
    pub fn strip_dhcp_option(value: Option<&str>) -> (raw: Option<String>)
        ensures
            text_of(raw) == match value {
                Some(token) => unquoted(token@),
                None => None,
            },
    {
        match value {
            Some(token) => {
                let chars = to_chars(token);
                let n = chars.len();
                if n >= 3 && chars[0] == '"' && chars[n - 2] == '"' && chars[n - 1] == ';' {
                    Some(to_string(slice_subrange(chars.as_slice(), 1, n - 2)))
                } else {
                    None
                }
            },
            None => None,
        }
    }

    /// What the lease file `leases` says of the URL of the answer file and of
    /// the fingerprint, where `fingerprint` is what is pinned already.
    pub fn fetch_dhcp(leases: &str, fingerprint: Option<String>) -> (found: Result<
        AnswerLocation,
        FetchError,
    >)
        ensures
            outcome_of(found) == lease_answer(leases@, text_of(fingerprint)),
    {
        let text = to_chars(leases);
        let rows = split_lines(text.as_slice());
        let url = match find_option(&rows, DHCP_URL_OPTION) {
            Some(token) => {
                match Self::strip_dhcp_option(Some(to_string(token).as_str())) {
                    Some(url) => Some(url),
                    None => {
                        return Err(FetchError::MalformedOption);
                    },
                }
            },
            None => None,
        };
        let fingerprint = match fingerprint {
            Some(pinned) => Some(pinned),
            None => match find_option(&rows, DHCP_FP_OPTION) {
                Some(token) => {
                    match Self::strip_dhcp_option(Some(to_string(token).as_str())) {
                        Some(fingerprint) => Some(fingerprint),
                        None => {
                            return Err(FetchError::MalformedOption);
                        },
                    }
                },
                None => None,
            },
        };
        match url {
            Some(url) => Ok(AnswerLocation { url, fingerprint }),
            None => Err(FetchError::NoUrlOption),
        }
    }
}

} // verus!
