//! Start by announcement: the child is told to pick its own port and says
//! on its standard output where it listens. The caller hands in what the
//! child writes and what becomes of it; what that means is decided here.

use crate::registry::{ServerInfo, ServerInfoView, ServiceStatus};
use crate::text::{
    contains_seq, contains_text, find_chars, last_position_of, parse_u16, parse_u16_text,
    position_of, rfind_char, texts, to_chars, trim_text, trimmed,
};
use vstd::prelude::*;
use vstd::string::*;

verus! {

/// The arguments that tell the service to pick a port of its own.
pub open spec fn self_assigning_args_text() -> Seq<Seq<char>> {
    seq!["--server.port"@, "0"@]
}

/// The arguments that tell the service to pick a port of its own.
pub fn self_assigning_args() -> (r: Vec<String>)
    ensures
        texts(r@) == self_assigning_args_text(),
{
    let mut args: Vec<String> = Vec::new();
    args.push(String::from_str("--server.port"));
    args.push(String::from_str("0"));
    assert(texts(args@) =~= self_assigning_args_text());
    args
}

/// The address that `chunk` announces: what stands between the first
/// "Running on " and the next line break, without the white space around
/// it. A chunk without the phrase, or without a line break after it,
/// announces nothing.
pub open spec fn announced_url_text(chunk: Seq<char>) -> Option<Seq<char>> {
    match position_of(chunk, "Running on "@) {
        Some(at) => {
            let rest = chunk.skip(at + "Running on "@.len());
            match position_of(rest, seq!['\n']) {
                Some(end) => Some(trimmed(rest.take(end))),
                None => None,
            }
        },
        None => None,
    }
}

/// The address that `chunk` announces, if it announces one.
pub fn announced_url(chunk: &str) -> (r: Option<String>)
    ensures
        match r {
            Some(url) => announced_url_text(chunk@) == Some(url@),
            None => announced_url_text(chunk@) is None,
        },
{
    let chars = to_chars(chunk);
    let phrase = to_chars("Running on ");
    match find_chars(&chars, &phrase) {
        None => None,
        Some(at) => {
            let total = chars.len();
            let width = phrase.len();
            assert(crate::text::occurs_at(chars@, phrase@, at as int));
            assert(at + width <= total);
            let rest = chunk.substring_char(at + width, total);
            let rest_chars = to_chars(rest);
            let mut line_break: Vec<char> = Vec::new();
            line_break.push('\n');
            assert(line_break@ =~= seq!['\n']);
            assert(rest@ =~= chunk@.skip(at + "Running on "@.len()));
            match find_chars(&rest_chars, &line_break) {
                None => None,
                Some(end) => {
                    let line = rest.substring_char(0, end);
                    assert(line@ =~= rest@.take(end as int));
                    Some(trim_text(line))
                },
            }
        },
    }
}

/// The port that an address names: the number written after its last
/// colon, or 0 where there is no colon or no 16-bit number after it.
pub open spec fn announced_port_text(url: Seq<char>) -> u16 {
    match last_position_of(url, ':') {
        Some(at) => match parse_u16_text(url.skip(at + 1)) {
            Some(port) => port,
            None => 0,
        },
        None => 0,
    }
}

/// The port that an address names.
pub fn announced_port(url: &str) -> (r: u16)
    ensures
        r == announced_port_text(url@),
{
    let chars = to_chars(url);
    match rfind_char(&chars, ':') {
        None => 0,
        Some(at) => {
            let total = chars.len();
            assert(crate::text::last_position(chars@, ':', at as int));
            assert(at < total);
            let tail = url.substring_char(at + 1, total);
            assert(tail@ =~= url@.skip(at + 1));
            match parse_u16(tail) {
                Some(port) => port,
                None => 0,
            }
        },
    }
}

/// Whether what the child wrote to its standard error speaks of an error.
pub open spec fn reports_error_text(chunk: Seq<char>) -> bool {
    contains_seq(chunk, "error"@) || contains_seq(chunk, "Error"@)
}

/// Whether what the child wrote to its standard error speaks of an error.
pub fn reports_error(chunk: &str) -> (r: bool)
    ensures
        r == reports_error_text(chunk@),
{
    contains_text(chunk, "error") || contains_text(chunk, "Error")
}

/// What the caller learns of the child while it waits for the
/// announcement.
#[derive(Debug)]
pub enum ChildEvent {
    /// The child wrote this to its standard output.
    Stdout(String),
    /// The child wrote this to its standard error.
    Stderr(String),
    /// The child has ended; how, in words.
    Terminated(String),
    /// Something else happened that says nothing about the start.
    Other,
    /// Nothing more will come.
    Closed,
}

/// A child event as a mathematical value.
pub ghost enum ChildEventView {
    Stdout(Seq<char>),
    Stderr(Seq<char>),
    Terminated(Seq<char>),
    Other,
    Closed,
}

impl View for ChildEvent {
    type V = ChildEventView;

    open spec fn view(&self) -> ChildEventView {
        match self {
            ChildEvent::Stdout(chunk) => ChildEventView::Stdout(chunk@),
            ChildEvent::Stderr(chunk) => ChildEventView::Stderr(chunk@),
            ChildEvent::Terminated(how) => ChildEventView::Terminated(how@),
            ChildEvent::Other => ChildEventView::Other,
            ChildEvent::Closed => ChildEventView::Closed,
        }
    }
}

/// Why a start by announcement failed.
#[derive(Debug)]
pub enum AnnounceError {
    /// The child spoke of an error; what it wrote.
    Reported(String),
    /// The child ended before it announced anything; how, in words.
    Terminated(String),
    /// The child's output ended, or its announcement was empty.
    Missing,
}

/// An announcement error as a mathematical value.
pub ghost enum AnnounceErrorView {
    Reported(Seq<char>),
    Terminated(Seq<char>),
    Missing,
}

impl View for AnnounceError {
    type V = AnnounceErrorView;

    open spec fn view(&self) -> AnnounceErrorView {
        match self {
            AnnounceError::Reported(chunk) => AnnounceErrorView::Reported(chunk@),
            AnnounceError::Terminated(how) => AnnounceErrorView::Terminated(how@),
            AnnounceError::Missing => AnnounceErrorView::Missing,
        }
    }
}

impl AnnounceErrorView {
    /// The message shown for this error.
    pub open spec fn message(self) -> Seq<char> {
        match self {
            AnnounceErrorView::Reported(chunk) => "Server startup error: "@ + chunk,
            AnnounceErrorView::Terminated(how) => "Server terminated unexpectedly: "@ + how,
            AnnounceErrorView::Missing => "Failed to get server URL from output"@,
        }
    }
}

impl AnnounceError {
    /// The message shown for this error.
    pub fn message(&self) -> (r: String)
        ensures
            r@ == self@.message(),
    {
        match self {
            AnnounceError::Reported(chunk) => {
                String::from_str("Server startup error: ").concat(chunk.as_str())
            },
            AnnounceError::Terminated(how) => {
                String::from_str("Server terminated unexpectedly: ").concat(how.as_str())
            },
            AnnounceError::Missing => String::from_str("Failed to get server URL from output"),
        }
    }
}

/// What an event means for the start.
#[derive(Debug)]
pub enum Heard {
    /// Nothing yet: go on listening.
    Nothing,
    /// The service has announced itself: it runs as described.
    Ready(ServerInfo),
    /// The start has failed.
    Failed(AnnounceError),
}

/// What was heard, as a mathematical value.
pub ghost enum HeardView {
    Nothing,
    Ready(ServerInfoView),
    Failed(AnnounceErrorView),
}

impl View for Heard {
    type V = HeardView;

    open spec fn view(&self) -> HeardView {
        match self {
            Heard::Nothing => HeardView::Nothing,
            Heard::Ready(info) => HeardView::Ready(info@),
            Heard::Failed(e) => HeardView::Failed(e@),
        }
    }
}

/// What an event means for the start. An announcement on standard output
/// ends it: with the service as announced, or as a failure where the
/// address is empty. Talk of an error on standard error, the child's end and
/// the end of its output are failures. Everything else is nothing yet.
pub open spec fn heard(event: ChildEventView) -> HeardView {
    match event {
        ChildEventView::Stdout(chunk) => match announced_url_text(chunk) {
            Some(url) => if url.len() == 0 {
                HeardView::Failed(AnnounceErrorView::Missing)
            } else {
                HeardView::Ready(
                    ServerInfoView {
                        url,
                        port: announced_port_text(url),
                        status: ServiceStatus::Running,
                    },
                )
            },
            None => HeardView::Nothing,
        },
        ChildEventView::Stderr(chunk) => if reports_error_text(chunk) {
            HeardView::Failed(AnnounceErrorView::Reported(chunk))
        } else {
            HeardView::Nothing
        },
        ChildEventView::Terminated(how) => HeardView::Failed(AnnounceErrorView::Terminated(how)),
        ChildEventView::Other => HeardView::Nothing,
        ChildEventView::Closed => HeardView::Failed(AnnounceErrorView::Missing),
    }
}

/// Says what an event means for the start.
pub fn hear(event: ChildEvent) -> (r: Heard)
    ensures
        r@ == heard(event@),
{
    match event {
        ChildEvent::Stdout(chunk) => match announced_url(chunk.as_str()) {
            Some(url) => {
                if url.as_str().unicode_len() == 0 {
                    Heard::Failed(AnnounceError::Missing)
                } else {
                    let port = announced_port(url.as_str());
                    Heard::Ready(ServerInfo { url, port, status: ServiceStatus::Running })
                }
            },
            None => Heard::Nothing,
        },
        ChildEvent::Stderr(chunk) => {
            if reports_error(chunk.as_str()) {
                Heard::Failed(AnnounceError::Reported(chunk))
            } else {
                Heard::Nothing
            }
        },
        ChildEvent::Terminated(how) => Heard::Failed(AnnounceError::Terminated(how)),
        ChildEvent::Other => Heard::Nothing,
        ChildEvent::Closed => Heard::Failed(AnnounceError::Missing),
    }
}

/// The port is read back from the address of a loopback endpoint.
pub proof fn law_endpoint_port_reads_back(port: u16)
    ensures
        announced_port_text(crate::launch::endpoint_url_text(port)) == port,
{
    reveal_strlit("http://127.0.0.1:");
    let head = "http://127.0.0.1:"@;
    let digits = crate::text::decimal_digits(port as nat);
    let url = crate::launch::endpoint_url_text(port);
    crate::text::lemma_decimal_round_trip(port as nat);
    crate::text::law_numeral_parses_back(port);
    assert(url[16] == ':');
    assert forall|j: int| 16 < j < url.len() implies url[j] != ':' by {
        assert(url[j] == digits[j - 17]);
        assert(crate::text::is_digit(digits[j - 17]));
    }
    assert(crate::text::last_position(url, ':', 16));
    crate::text::lemma_last_position_of(url, ':', 16);
    assert(url.skip(17) =~= digits);
}

} // verus!
