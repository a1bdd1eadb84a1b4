//! The two log streams of a task, and the cursor that follows each one
//! through the offset-based log endpoint.
use vstd::prelude::*;
use vstd::string::StringExecFns;

use crate::error::Error;
use crate::helper::{decoded_text, Base64};

verus! {

/// Which of a task's two streams.
#[derive(Clone, Copy, Debug, PartialEq, Eq, Structural)]
pub enum StdKind {
    Stdout,
    Stderr,
}

impl StdKind {
    pub open spec fn spec_name(self) -> Seq<char> {
        match self {
            StdKind::Stdout => "stdout"@,
            StdKind::Stderr => "stderr"@,
        }
    }

    /// The stream's name in a log request.
    pub fn name(&self) -> (r: &'static str)
        ensures
            r@ == self.spec_name(),
    {
        match self {
            StdKind::Stdout => "stdout",
            StdKind::Stderr => "stderr",
        }
    }
}

/// One answer of the log endpoint: where the stream now stands, and the
/// chunk read since the requested offset, in base64.
#[derive(Debug)]
pub struct StreamLog {
    pub offset: Option<i64>,
    pub data: Option<String>,
}

/// A log request's outcome. The endpoint answers with nothing readable while
/// a stream holds no data yet; that is an expected answer, not a failure.
#[derive(Debug)]
pub enum LogFetch {
    NoData,
    Chunk(StreamLog),
}

impl LogFetch {
    /// Reads the outcome of a log request: a failed one (the endpoint had
    /// nothing readable to say) means no data yet, never an error.
    pub fn from_outcome(outcome: Result<StreamLog, Error>) -> (r: LogFetch)
        ensures
            match outcome {
                Ok(log) => r == LogFetch::Chunk(log),
                Err(_) => r == LogFetch::NoData,
            },
    {
        match outcome {
            Ok(log) => LogFetch::Chunk(log),
            Err(_) => LogFetch::NoData,
        }
    }
}

/// The offset that a log request's outcome reports: zero when it reports none.
pub open spec fn reported_offset(fetch: LogFetch) -> i64 {
    match fetch {
        LogFetch::NoData => 0,
        LogFetch::Chunk(log) => match log.offset {
            Some(o) => o,
            None => 0,
        },
    }
}

/// Where one stream stands.
#[derive(Clone, Copy, Debug, PartialEq, Eq, Structural)]
pub struct StreamCursor {
    /// The offset to request next, as the server last reported it.
    pub next_offset: i64,
    /// The offset whose content was last shown, if any was.
    pub last_rendered_offset: Option<i64>,
}

impl StreamCursor {
    /// The cursor after a poll that reported `offset`, and whether the poll's
    /// content (if `has_content`) is shown: only when its offset differs from
    /// the last one shown.
    pub open spec fn advanced(self, offset: i64, has_content: bool) -> (StreamCursor, bool) {
        let render = has_content && self.last_rendered_offset != Some(offset);
        (
            StreamCursor {
                next_offset: offset,
                last_rendered_offset: if render {
                    Some(offset)
                } else {
                    self.last_rendered_offset
                },
            },
            render,
        )
    }

    /// A stream read from its start, with nothing shown yet.
    pub fn new() -> (r: StreamCursor)
        ensures
            r.next_offset == 0,
            r.last_rendered_offset is None,
    {
        StreamCursor { next_offset: 0, last_rendered_offset: None }
    }

    /// Takes the offset that a poll reported, and says whether its content is
    /// to be shown. The next offset is always the reported one; the last
    /// shown offset moves only when content is shown.
    pub fn advance(&mut self, offset: i64, has_content: bool) -> (render: bool)
        ensures
            (*final(self), render) == old(self).advanced(offset, has_content),
    {
        let render = has_content && match self.last_rendered_offset {
            Some(o) => o != offset,
            None => true,
        };
        self.next_offset = offset;
        if render {
            self.last_rendered_offset = Some(offset);
        }
        render
    }

    /// The cursor after a log request's outcome, and what it shows:
    /// `Some(None)` nothing, `Some(Some(t))` the text `t`, and `None` when the
    /// chunk cannot be decoded, which leaves the cursor as it was.
    pub open spec fn observed(self, fetch: LogFetch) -> (StreamCursor, Option<Option<Seq<char>>>) {
        match fetch {
            LogFetch::Chunk(StreamLog { data: Some(d), .. }) => match decoded_text(d@) {
                Some(t) => {
                    let (c, render) = self.advanced(reported_offset(fetch), true);
                    (
                        c,
                        Some(
                            if render {
                                Some(t)
                            } else {
                                None
                            },
                        ),
                    )
                },
                None => (self, None),
            },
            _ => (self.advanced(reported_offset(fetch), false).0, Some(None)),
        }
    }

    /// Takes a log request's outcome and returns the decoded text to show, if
    /// any. A request that got nothing readable counts as offset zero with no
    /// content and never fails; a chunk that is not base64 of UTF-8 text
    /// fails with `ScenarioErr` and leaves the cursor as it was.
    pub fn observe(&mut self, fetch: LogFetch) -> (r: Result<Option<String>, Error>)
        ensures
            *final(self) == old(self).observed(fetch).0,
            shown(r, old(self).observed(fetch).1),
    {
        match fetch {
            LogFetch::NoData => {
                self.advance(0, false);
                Ok(None)
            },
            LogFetch::Chunk(log) => {
                let offset = match log.offset {
                    Some(o) => o,
                    None => 0,
                };
                match log.data {
                    Some(d) => {
                        let text = String::from_base64(d)?;
                        if self.advance(offset, true) {
                            Ok(Some(text))
                        } else {
                            Ok(None)
                        }
                    },
                    None => {
                        self.advance(offset, false);
                        Ok(None)
                    },
                }
            },
        }
    }
}

/// `r` is what a cursor's outcome `o` says to show.
pub open spec fn shown(r: Result<Option<String>, Error>, o: Option<Option<Seq<char>>>) -> bool {
    match o {
        Some(None) => r matches Ok(None),
        Some(Some(t)) => r matches Ok(Some(s)) && s@ == t,
        None => r matches Err(Error::ScenarioErr(_)),
    }
}

/// Two consecutive polls that report the same offset never both show
/// content: once a poll has carried content, the next one at the same offset
/// shows nothing.
pub proof fn lemma_same_offset_renders_once(
    cursor: StreamCursor,
    offset: i64,
    first_has_content: bool,
    second_has_content: bool,
)
    ensures
        ({
            let (after_first, first) = cursor.advanced(offset, first_has_content);
            let (_, second) = after_first.advanced(offset, second_has_content);
            &&& !(first && second)
            &&& first_has_content ==> !second
        }),
{
}

/// A log request that got nothing readable does not stop a tail: it reads as
/// offset zero, shows nothing, and leaves the last shown offset as it was.
pub proof fn lemma_no_data_reads_as_offset_zero(cursor: StreamCursor)
    ensures
        cursor.observed(LogFetch::NoData) == (
            (StreamCursor { next_offset: 0, last_rendered_offset: cursor.last_rendered_offset }),
            Some(None::<Seq<char>>),
        ),
{
}

/// The character of a decimal digit.
pub open spec fn digit_char(d: int) -> char {
    if d == 0 {
        '0'
    } else if d == 1 {
        '1'
    } else if d == 2 {
        '2'
    } else if d == 3 {
        '3'
    } else if d == 4 {
        '4'
    } else if d == 5 {
        '5'
    } else if d == 6 {
        '6'
    } else if d == 7 {
        '7'
    } else if d == 8 {
        '8'
    } else {
        '9'
    }
}

/// The decimal digits of a natural number, without leading zeros.
pub open spec fn decimal_digits(n: nat) -> Seq<char>
    decreases n,
{
    if n < 10 {
        seq![digit_char(n as int)]
    } else {
        decimal_digits(n / 10).push(digit_char((n % 10) as int))
    }
}

/// The decimal text of an integer, with a leading minus when negative.
pub open spec fn decimal(n: int) -> Seq<char> {
    if n < 0 {
        seq!['-'] + decimal_digits((-n) as nat)
    } else {
        decimal_digits(n as nat)
    }
}

fn digit_text(d: u64) -> (r: &'static str)
    requires
        d < 10,
    ensures
        r@ == seq![digit_char(d as int)],
{
    proof {
        reveal_strlit("0");
        reveal_strlit("1");
        reveal_strlit("2");
        reveal_strlit("3");
        reveal_strlit("4");
        reveal_strlit("5");
        reveal_strlit("6");
        reveal_strlit("7");
        reveal_strlit("8");
        reveal_strlit("9");
    }
    if d == 0 {
        "0"
    } else if d == 1 {
        "1"
    } else if d == 2 {
        "2"
    } else if d == 3 {
        "3"
    } else if d == 4 {
        "4"
    } else if d == 5 {
        "5"
    } else if d == 6 {
        "6"
    } else if d == 7 {
        "7"
    } else if d == 8 {
        "8"
    } else {
        "9"
    }
}

fn digits_text(n: u64) -> (r: String)
    ensures
        r@ == decimal_digits(n as nat),
    decreases n,
{
    if n < 10 {
        String::from_str(digit_text(n))
    } else {
        let head = digits_text(n / 10);
        let r = head.concat(digit_text(n % 10));
        assert(r@ == decimal_digits(n as nat));
        r
    }
}

/// The decimal text of an integer.
pub fn decimal_text(n: i64) -> (r: String)
    ensures
        r@ == decimal(n as int),
{
    if n < 0 {
        let magnitude = (0i128 - n as i128) as u64;
        proof {
            reveal_strlit("-");
        }
        String::from_str("-").concat(digits_text(magnitude).as_str())
    } else {
        digits_text(n as u64)
    }
}

/// The log endpoint for one stream of a task, from an offset.
pub open spec fn spec_log_endpoint(
    alloc_id: Seq<char>,
    task_name: Seq<char>,
    kind: StdKind,
    offset: i64,
) -> Seq<char> {
    "v1/client/fs/logs/"@ + alloc_id + "?task="@ + task_name + "&type="@ + kind.spec_name()
        + "&offset="@ + decimal(offset as int)
}

/// Where to read one stream of a task from an offset.
pub fn log_endpoint(alloc_id: &str, task_name: &str, kind: StdKind, offset: i64) -> (r: String)
    ensures
        r@ == spec_log_endpoint(alloc_id@, task_name@, kind, offset),
{
    String::from_str("v1/client/fs/logs/").concat(alloc_id).concat("?task=").concat(
        task_name,
    ).concat("&type=").concat(kind.name()).concat("&offset=").concat(
        decimal_text(offset).as_str(),
    )
}

} // verus!
