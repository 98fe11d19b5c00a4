//! Finding the answer file of an unattended installation.
//!
//! Before an installer can fetch its answer file it has to learn where the
//! file is and which certificate the server is to show. Three sources may
//! tell: a file on a labelled partition of the installation medium, which can
//! pin the fingerprint of the certificate; the lease of the DHCP client; and
//! TXT records of the name service. This crate holds the rules by which the
//! three are read and weighed against each other.
//!
//! The crate does no input or output of its own. Each piece of work that
//! needs the surroundings is a function that makes one step: it takes the
//! stage that the work has come to and the event that came of the last
//! request, and hands out the next request or the result. The caller carries
//! the requests out.
//!
//! - [`text`]: white space, lines, words and fields of a text.
//! - [`protocol`]: requests, events, errors and the result.
//! - [`utils`]: the partition and its mounting, and the network interfaces.
//! - [`dhcp`]: the options of the lease file.
//! - [`dns`]: the search domain and the TXT records.
//! - [`http`]: the fingerprint file and the resolution as a whole.
//! - [`resolution`]: what holds of every resolution.

pub mod dhcp;
pub mod dns;
pub mod http;
pub mod protocol;
pub mod resolution;
pub mod text;
pub mod utils;
