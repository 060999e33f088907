//! The requests that the client sends: one line, the host, for a segment the
//! byte range, and the directive to close the connection after the response.

use vstd::prelude::*;
use vstd::string::*;
use crate::decimal::{decimal_string, decimal_text};

verus! {

/// The server that every request of a fetch goes to.
#[derive(Debug, Clone, PartialEq, Eq)]
pub struct ConnectionTarget {
    /// Host name or address.
    pub host: String,
    /// TCP port.
    pub port: u16,
}

/// A request for `path` without a range.
pub open spec fn plain_request_text(path: Seq<char>, host: Seq<char>) -> Seq<char> {
    "GET "@ + path + " HTTP/1.1\r\nHost: "@ + host + "\r\nConnection: close\r\n\r\n"@
}

/// A request for the bytes of the data endpoint from `start` to `end`.
pub open spec fn range_request_text(host: Seq<char>, start: nat, end: nat) -> Seq<char> {
    "GET / HTTP/1.1\r\nHost: "@ + host + "\r\nRange: bytes="@ + decimal_text(start) + "-"@
        + decimal_text(end) + "\r\nConnection: close\r\n\r\n"@
}

impl ConnectionTarget {
    /// Host and port, joined by a colon.
    pub open spec fn address_text(&self) -> Seq<char> {
        self.host@ + ":"@ + decimal_text(self.port as nat)
    }

    /// The address to connect to: host and port, joined by a colon.
    pub fn address(&self) -> (text: String)
        ensures
            text@ == self.address_text(),
    {
        let mut text = self.host.clone();
        text.append(":");
        let port = decimal_string(self.port as usize);
        text.append(port.as_str());
        text
    }

    /// A request for `path` without a range.
    fn plain_request(&self, path: &str) -> (text: String)
        ensures
            text@ == plain_request_text(path@, self.host@),
    {
        let mut text = String::from_str("GET ");
        text.append(path);
        text.append(" HTTP/1.1\r\nHost: ");
        text.append(self.host.as_str());
        text.append("\r\nConnection: close\r\n\r\n");
        text
    }

    /// The request sent to the metadata endpoint.
    pub fn metadata_request(&self) -> (text: String)
        ensures
            text@ == plain_request_text("/info"@, self.host@),
    {
        self.plain_request("/info")
    }

    /// The request sent to the data endpoint for the whole payload.
    pub fn data_request(&self) -> (text: String)
        ensures
            text@ == plain_request_text("/"@, self.host@),
    {
        self.plain_request("/")
    }

    /// The request sent to the data endpoint for one segment.
    pub fn range_request(&self, start: usize, end: usize) -> (text: String)
        ensures
            text@ == range_request_text(self.host@, start as nat, end as nat),
    {
        let mut text = String::from_str("GET / HTTP/1.1\r\nHost: ");
        text.append(self.host.as_str());
        text.append("\r\nRange: bytes=");
        let first = decimal_string(start);
        text.append(first.as_str());
        text.append("-");
        let last = decimal_string(end);
        text.append(last.as_str());
        text.append("\r\nConnection: close\r\n\r\n");
        text
    }
}

} // verus!
