//! The two port queries: which ports of a range are in use, and which are
//! free.

use crate::decode::{decode_lossy, lossy_text};
use crate::grammar::listening;
use crate::listing::{lemma_listing, lemma_listing_agrees, list, listing, orderly};
use crate::range::PortRange;
use crate::scan::{characters, scan};
use vstd::prelude::*;
use vstd::utf8::{decode_utf8, valid_utf8};

verus! {

/// Which ports of a range a query lists.
#[derive(Clone, Copy, Debug, PartialEq, Eq, Structural)]
pub enum Mode {
    /// The ports that are listening.
    Used,
    /// The ports that are not listening.
    Free,
}

/// Why a query gave no answer.
#[derive(Clone, Copy, Debug, PartialEq, Eq)]
pub enum QueryError {
    /// The host tool could not be started.
    LaunchFailed,
    /// The host tool ran and reported failure. `code` is its exit code, or
    /// `None` where it ended without one.
    NonZeroExit { code: Option<i32> },
}

impl QueryError {
    /// The error in words.
    pub open spec fn spec_message(&self) -> Seq<char> {
        match self {
            QueryError::LaunchFailed => "the host tool could not be started"@,
            QueryError::NonZeroExit { .. } => "the host tool exited with a failure status"@,
        }
    }

    /// The error in words. The exit code of a failed run is not part of
    /// them: it is the field `code`.
    pub fn message(&self) -> (words: &'static str)
        ensures
            words@ == self.spec_message(),
    {
        match self {
            QueryError::LaunchFailed => "the host tool could not be started",
            QueryError::NonZeroExit { .. } => "the host tool exited with a failure status",
        }
    }
}

/// What came of one run of the host tool.
#[derive(Debug, PartialEq, Eq)]
pub enum Capture {
    /// The tool could not be started.
    NotStarted,
    /// The tool ran. `code` is its exit code, or `None` where it ended
    /// without one, and `output` is what it wrote to its standard output.
    Exited { code: Option<i32>, output: Vec<u8> },
}

impl Capture {
    /// Whether the tool ended with exit code 0 and wrote valid UTF-8.
    pub open spec fn wrote_utf8(&self) -> bool {
        &&& self matches Capture::Exited { code, output }
        &&& code == Some(0i32)
        &&& valid_utf8(output@)
    }

    /// The snapshot that the capture holds: the text of the output where
    /// the tool ended with exit code 0, and the error otherwise.
    pub open spec fn snapshot(&self) -> Result<Seq<char>, QueryError> {
        match self {
            Capture::NotStarted => Err(QueryError::LaunchFailed),
            Capture::Exited { code, output } => if *code == Some(0i32) {
                Ok(lossy_text(output@))
            } else {
                Err(QueryError::NonZeroExit { code: *code })
            },
        }
    }

    /// The snapshot that the capture holds, decoded: the text of the output
    /// where the tool ended with exit code 0, and the error otherwise.
    /// Bytes of the output that are not valid UTF-8 do not fail the
    /// decoding.
    pub fn text(&self) -> (decoded: Result<String, QueryError>)
        ensures
            match decoded {
                Ok(text) => self.snapshot() == Ok::<Seq<char>, QueryError>(text@),
                Err(error) => self.snapshot() == Err::<Seq<char>, QueryError>(error),
            },
            self.wrote_utf8() ==> (decoded matches Ok(text) && text@ == decode_utf8(
                self->output@,
            )),
    {
        match self {
            Capture::NotStarted => Err(QueryError::LaunchFailed),
            Capture::Exited { code, output } => {
                match code {
                    Some(0) => Ok(decode_lossy(output.as_slice())),
                    _ => Err(QueryError::NonZeroExit { code: *code }),
                }
            },
        }
    }
}

/// The ports of `range` that a query in `mode` lists for the snapshot
/// `text`, in ascending order.
pub open spec fn ports_of(text: Seq<char>, range: PortRange, mode: Mode) -> Seq<u16> {
    match mode {
        Mode::Used => listing(listening(text), range.low() as int, range.high() as int),
        Mode::Free => listing(
            listening(text).complement(),
            range.low() as int,
            range.high() as int,
        ),
    }
}

/// Whether `found` is how a query hands out `ports`: as they are where
/// there are any, and as `None`, never as an empty list, where there are
/// none.
pub open spec fn answers(found: Option<Vec<u16>>, ports: Seq<u16>) -> bool {
    match found {
        Some(list) => list@ == ports && ports.len() > 0,
        None => ports.len() == 0,
    }
}

/// Whether `result` hands out the ports that a query in `mode` lists for
/// the snapshot `text` and `range`.
pub open spec fn shows(
    result: Result<Option<Vec<u16>>, QueryError>,
    text: Seq<char>,
    range: PortRange,
    mode: Mode,
) -> bool {
    result matches Ok(found) && answers(found, ports_of(text, range, mode))
}

/// Whether `result` is what a query in `mode` for `range` owes for
/// `capture`: the ports of the snapshot, or the error that the capture
/// holds in place of one. Where the tool wrote valid UTF-8, the snapshot is
/// the text that its output encodes.
pub open spec fn settles(
    result: Result<Option<Vec<u16>>, QueryError>,
    capture: Capture,
    range: PortRange,
    mode: Mode,
) -> bool {
    &&& match capture.snapshot() {
        Ok(text) => shows(result, text, range, mode),
        Err(error) => result == Err::<Option<Vec<u16>>, QueryError>(error),
    }
    &&& capture.wrote_utf8() ==> shows(result, decode_utf8(capture->output@), range, mode)
}

/// The ports of `range` that the snapshot `text` shows as listening
/// (`Mode::Used`) or as not listening (`Mode::Free`), in ascending order
/// and each once; `None` where there is no such port.
pub fn ports_in_text(text: &str, range: PortRange, mode: Mode) -> (found: Option<Vec<u16>>)
    ensures
        answers(found, ports_of(text@, range, mode)),
        found matches Some(list) ==> orderly(list@, range),
{
    proof {
        lemma_listing(listening(text@), range.low() as int, range.high() as int);
        lemma_listing(listening(text@).complement(), range.low() as int, range.high() as int);
    }
    let chars = characters(text);
    let used = scan(chars.as_slice(), range);
    let ports = match mode {
        Mode::Used => {
            proof {
                lemma_listing_agrees(
                    used@,
                    listening(text@),
                    range.low() as int,
                    range.high() as int,
                );
            }
            list(&used, range, true)
        },
        Mode::Free => {
            proof {
                lemma_listing_agrees(
                    used@.complement(),
                    listening(text@).complement(),
                    range.low() as int,
                    range.high() as int,
                );
            }
            list(&used, range, false)
        },
    };
    if ports.len() == 0 {
        None
    } else {
        Some(ports)
    }
}

/// Answers a query in `mode` for `range` from `capture`.
fn query(capture: &Capture, range: PortRange, mode: Mode) -> (result: Result<
    Option<Vec<u16>>,
    QueryError,
>)
    ensures
        settles(result, *capture, range, mode),
        result matches Ok(Some(list)) ==> orderly(list@, range),
{
    match capture.text() {
        Ok(text) => Ok(ports_in_text(text.as_str(), range, mode)),
        Err(error) => Err(error),
    }
}

/// The ports of `range` that are listening according to `capture`, in
/// ascending order and each once. A capture of a run that could not be
/// started or that reported failure gives the error, never a partial
/// answer.
pub fn used_ports(capture: &Capture, range: PortRange) -> (result: Result<
    Option<Vec<u16>>,
    QueryError,
>)
    ensures
        settles(result, *capture, range, Mode::Used),
        result matches Ok(Some(list)) ==> orderly(list@, range),
{
    query(capture, range, Mode::Used)
}

/// The ports of `range` that are not listening according to `capture`, in
/// ascending order. A capture of a run that could not be started or that
/// reported failure gives the error, never a partial answer.
pub fn free_ports(capture: &Capture, range: PortRange) -> (result: Result<
    Option<Vec<u16>>,
    QueryError,
>)
    ensures
        settles(result, *capture, range, Mode::Free),
        result matches Ok(Some(list)) ==> orderly(list@, range),
{
    query(capture, range, Mode::Free)
}

} // verus!
