//! Streaming the node's event log: the subscription request, the rendering
//! of each entry, and what to do on each event of the stream.

use vstd::prelude::*;
use crate::text::{decimal_of_i64, int_decimal, lemma_int_decimal_injective};

verus! {

/// Seconds between keep-alive pings while the log is streamed.
pub const PING_INTERVAL_SECS: u64 = 10;

/// The verbosity levels of the node's event log, from the most verbose.
#[derive(PartialEq, Eq, Structural, Clone, Copy, Debug)]
pub enum Verbosity {
    Keys,
    Debug,
    Info,
    Warn,
    Error,
    Critical,
}

/// The name of a level as the admin interface knows it.
pub open spec fn verbosity_name(v: Verbosity) -> Seq<char> {
    match v {
        Verbosity::Keys => "KEYS"@,
        Verbosity::Debug => "DEBUG"@,
        Verbosity::Info => "INFO"@,
        Verbosity::Warn => "WARN"@,
        Verbosity::Error => "ERROR"@,
        Verbosity::Critical => "CRITICAL"@,
    }
}

impl Verbosity {
    /// The level's name, in capitals.
    pub fn as_str(&self) -> (name: &'static str)
        ensures
            name@ == verbosity_name(*self),
    {
        match self {
            Verbosity::Keys => "KEYS",
            Verbosity::Debug => "DEBUG",
            Verbosity::Info => "INFO",
            Verbosity::Warn => "WARN",
            Verbosity::Error => "ERROR",
            Verbosity::Critical => "CRITICAL",
        }
    }
}

/// The optional arguments of a log subscription; each one that is `None` is left out.
#[derive(Debug)]
pub struct SubscribeRequest {
    pub level: Option<&'static str>,
    pub file: Option<String>,
    pub line: Option<i64>,
}

/// The line number as the admin interface takes it: the same bits, read as
/// a signed 64-bit integer.
pub open spec fn line_arg(line: Option<u64>) -> Option<i64> {
    match line {
        Some(l) => Some(l as i64),
        None => None,
    }
}

/// The subscription that keeps events at `verbosity` and above, from `file`
/// and `line`, each filter only when it is given.
pub fn subscribe_request(verbosity: Option<Verbosity>, file: Option<String>, line: Option<u64>) -> (req:
    SubscribeRequest)
    ensures
        req.level is Some <==> verbosity is Some,
        verbosity matches Some(v) ==> req.level.unwrap()@ == verbosity_name(v),
        req.file == file,
        req.line == line_arg(line),
        line is None ==> req.line is None,
        line matches Some(l) ==> (req.line matches Some(x) && x as u64 == l),
{
    proof {
        if let Some(l) = line {
            lemma_line_filter_keeps_bits(l);
        }
    }
    let level = match verbosity {
        Some(v) => Some(v.as_str()),
        None => None,
    };
    let line = match line {
        Some(l) => Some(l as i64),
        None => None,
    };
    SubscribeRequest { level, file, line }
}

/// One entry of the event log, each field as read from the stream or the
/// failure that reading it reported.
#[derive(Debug)]
pub struct LogEntry {
    pub time: Result<i64, String>,
    pub level: Result<String, String>,
    pub file: Result<String, String>,
    pub line: Result<i64, String>,
    pub message: Result<String, String>,
}

/// A field of a log entry that could not be read, with the failure.
#[derive(Debug)]
pub enum EntryError {
    Time(String),
    Level(String),
    File(String),
    Line(String),
    Message(String),
}

/// The message that reports an unreadable field: its name in quotes, a
/// colon, and the failure.
pub open spec fn entry_error_text(e: EntryError) -> Seq<char> {
    match e {
        EntryError::Time(m) => "\"time\": "@ + m@,
        EntryError::Level(m) => "\"level\": "@ + m@,
        EntryError::File(m) => "\"file\": "@ + m@,
        EntryError::Line(m) => "\"line\": "@ + m@,
        EntryError::Message(m) => "\"message\": "@ + m@,
    }
}

impl EntryError {
    /// The message that reports this error.
    pub fn message(&self) -> (text: String)
        ensures
            text@ == entry_error_text(*self),
    {
        match self {
            EntryError::Time(m) => String::from_str("\"time\": ").concat(m.as_str()),
            EntryError::Level(m) => String::from_str("\"level\": ").concat(m.as_str()),
            EntryError::File(m) => String::from_str("\"file\": ").concat(m.as_str()),
            EntryError::Line(m) => String::from_str("\"line\": ").concat(m.as_str()),
            EntryError::Message(m) => String::from_str("\"message\": ").concat(m.as_str()),
        }
    }
}

/// The first field of `e`, in the order time, level, file, line, message,
/// that could not be read.
pub open spec fn entry_fault(e: LogEntry) -> Option<EntryError> {
    match e.time {
        Err(m) => Some(EntryError::Time(m)),
        Ok(_) => match e.level {
            Err(m) => Some(EntryError::Level(m)),
            Ok(_) => match e.file {
                Err(m) => Some(EntryError::File(m)),
                Ok(_) => match e.line {
                    Err(m) => Some(EntryError::Line(m)),
                    Ok(_) => match e.message {
                        Err(m) => Some(EntryError::Message(m)),
                        Ok(_) => None,
                    },
                },
            },
        },
    }
}

/// The printed form of an entry: `<time> <level> <file>:<line> <message>`.
pub open spec fn entry_line(
    time: Seq<char>,
    level: Seq<char>,
    file: Seq<char>,
    line: i64,
    message: Seq<char>,
) -> Seq<char> {
    time + " "@ + level + " "@ + file + ":"@ + int_decimal(line as int) + " "@ + message
}

/// The fields of an entry whose fields were all read.
pub open spec fn entry_time(e: LogEntry) -> i64 {
    match e.time {
        Ok(t) => t,
        Err(_) => 0,
    }
}

pub open spec fn entry_text(r: Result<String, String>) -> Seq<char> {
    match r {
        Ok(s) => s@,
        Err(_) => Seq::empty(),
    }
}

pub open spec fn entry_line_no(e: LogEntry) -> i64 {
    match e.line {
        Ok(l) => l,
        Err(_) => 0,
    }
}

/// The printed form of entry `e`, with its time written as `time`.
pub open spec fn entry_output(e: LogEntry, time: Seq<char>) -> Seq<char> {
    entry_line(time, entry_text(e.level), entry_text(e.file), entry_line_no(e), entry_text(e.message))
}

/// The first and the last second, counted from the Unix epoch, that chrono
/// can represent: 1 January of year -262143 and 31 December of year 262142,
/// its `NaiveDate` range.
pub open spec fn chrono_min_secs() -> int {
    -8334601228800
}

pub open spec fn chrono_max_secs() -> int {
    8210266876799
}

/// The RFC 3339 form, to the second and in UTC with a `Z`, of the instant
/// `secs` seconds after the Unix epoch, or `None` when chrono cannot
/// represent that instant.
pub uninterp spec fn rfc3339_utc_seconds(secs: i64) -> Option<Seq<char>>;

/// `chrono::DateTime::<Utc>::from_timestamp_secs` followed, when it gives a
/// time, by its `to_rfc3339_opts(SecondsFormat::Secs, true)`: the text is
/// whatever chrono renders, named `rfc3339_utc_seconds`, and it is absent
/// exactly when the instant lies outside chrono's date range. The `DateTime`
/// value does not leave this function.
#[verifier::external_body]
fn rfc3339_of_timestamp(secs: i64) -> (text: Option<String>)
    ensures
        match text {
            Some(t) => rfc3339_utc_seconds(secs) == Some(t@),
            None => rfc3339_utc_seconds(secs) is None,
        },
        text is Some <==> chrono_min_secs() <= secs <= chrono_max_secs(),
{
    match chrono::DateTime::from_timestamp_secs(secs) {
        Some(t) => Some(t.to_rfc3339_opts(chrono::SecondsFormat::Secs, true)),
        None => None,
    }
}

/// Renders an entry with its time given as `human_time` when that is
/// present, as the decimal Unix timestamp otherwise; or reports the first
/// field that could not be read.
pub fn render_entry_with(e: LogEntry, human_time: Option<String>) -> (res: Result<String, EntryError>)
    ensures
        match entry_fault(e) {
            Some(err) => res == Err::<String, EntryError>(err),
            None => res matches Ok(text) && text@ == entry_output(
                e,
                match human_time {
                    Some(t) => t@,
                    None => int_decimal(entry_time(e) as int),
                },
            ),
        },
{
    let LogEntry { time, level, file, line, message } = e;
    let time = match time {
        Ok(t) => t,
        Err(m) => {
            return Err(EntryError::Time(m));
        },
    };
    let level = match level {
        Ok(l) => l,
        Err(m) => {
            return Err(EntryError::Level(m));
        },
    };
    let file = match file {
        Ok(f) => f,
        Err(m) => {
            return Err(EntryError::File(m));
        },
    };
    let line = match line {
        Ok(l) => l,
        Err(m) => {
            return Err(EntryError::Line(m));
        },
    };
    let message = match message {
        Ok(m) => m,
        Err(m) => {
            return Err(EntryError::Message(m));
        },
    };
    let mut out = match human_time {
        Some(t) => t,
        None => decimal_of_i64(time),
    };
    out.append(" ");
    out.append(level.as_str());
    out.append(" ");
    out.append(file.as_str());
    out.append(":");
    let line_text = decimal_of_i64(line);
    out.append(line_text.as_str());
    out.append(" ");
    out.append(message.as_str());
    Ok(out)
}

/// Renders an entry as one line of output, its time in RFC 3339 form when
/// `human_time` is set and the time lies in chrono's range, as the Unix timestamp
/// otherwise; or reports the first field that could not be read.
pub fn render_entry(e: LogEntry, human_time: bool) -> (res: Result<String, EntryError>)
    ensures
        match entry_fault(e) {
            Some(err) => res == Err::<String, EntryError>(err),
            None => res matches Ok(text) && text@ == entry_output(
                e,
                if human_time && chrono_min_secs() <= entry_time(e) <= chrono_max_secs() {
                    rfc3339_utc_seconds(entry_time(e)).unwrap()
                } else {
                    int_decimal(entry_time(e) as int)
                },
            ),
        },
{
    let human = match (&e.time, human_time) {
        (Ok(t), true) => rfc3339_of_timestamp(*t),
        _ => None,
    };
    render_entry_with(e, human)
}

/// What happens while the log is streamed.
#[derive(Debug)]
pub enum WatchEvent {
    /// Ctrl+C was pressed, or listening for it failed with this message.
    Interrupted(Result<(), String>),
    /// An entry arrived.
    Entry(LogEntry),
    /// The node closed the stream.
    StreamClosed,
    /// The time for the next keep-alive ping has come.
    PingDue,
}

/// What to do about it.
#[derive(Debug)]
pub enum WatchAction {
    /// Print this line.
    Print(String),
    /// Report that an entry could not be displayed.
    ReportEntryError(EntryError),
    /// Ping the node, and plan the next ping this many seconds later.
    Ping { next_after_secs: u64 },
    /// Stop streaming, unsubscribing first when asked, with this outcome.
    Stop { unsubscribe: bool, outcome: Result<(), String> },
}

/// The message when listening for Ctrl+C failed.
pub open spec fn interrupt_failure_text(m: Seq<char>) -> Seq<char> {
    "Failed to listen to Ctrl+C: "@ + m
}

/// Decides what to do about one event of the log stream.
pub fn watch_step(event: WatchEvent, human_time: bool) -> (action: WatchAction)
    ensures
        match event {
            WatchEvent::Interrupted(Ok(())) => action == (WatchAction::Stop {
                unsubscribe: true,
                outcome: Ok(()),
            }),
            WatchEvent::Interrupted(Err(m)) => action matches WatchAction::Stop {
                unsubscribe: true,
                outcome: Err(t),
            } && t@ == interrupt_failure_text(m@),
            WatchEvent::Entry(e) => match entry_fault(e) {
                Some(err) => action == WatchAction::ReportEntryError(err),
                None => action matches WatchAction::Print(text) && text@ == entry_output(
                    e,
                    if human_time && chrono_min_secs() <= entry_time(e) <= chrono_max_secs() {
                        rfc3339_utc_seconds(entry_time(e)).unwrap()
                    } else {
                        int_decimal(entry_time(e) as int)
                    },
                ),
            },
            WatchEvent::StreamClosed => action == (WatchAction::Stop {
                unsubscribe: false,
                outcome: Ok(()),
            }),
            WatchEvent::PingDue => action == (WatchAction::Ping {
                next_after_secs: PING_INTERVAL_SECS,
            }),
        },
{
    match event {
        WatchEvent::Interrupted(Ok(())) => WatchAction::Stop { unsubscribe: true, outcome: Ok(()) },
        WatchEvent::Interrupted(Err(m)) => {
            let text = String::from_str("Failed to listen to Ctrl+C: ").concat(m.as_str());
            WatchAction::Stop { unsubscribe: true, outcome: Err(text) }
        },
        WatchEvent::Entry(e) => match render_entry(e, human_time) {
            Ok(text) => WatchAction::Print(text),
            Err(err) => WatchAction::ReportEntryError(err),
        },
        WatchEvent::StreamClosed => WatchAction::Stop { unsubscribe: false, outcome: Ok(()) },
        WatchEvent::PingDue => WatchAction::Ping { next_after_secs: PING_INTERVAL_SECS },
    }
}

/// The message when the subscription answered without a stream.
pub open spec fn missing_stream_text() -> Seq<char> {
    "Admin log stream ID is missing"@
}

/// The message when the stream's ID could not be read, for failure `e`.
pub open spec fn bad_stream_id_text(e: Seq<char>) -> Seq<char> {
    "Failed to parse stream ID: "@ + e
}

/// Checks the answer to a log subscription: it must have opened a stream
/// (checked first), and its `streamId` must be readable; gives the stream's ID.
pub fn subscription_stream(has_stream: bool, stream_id: Result<String, String>) -> (res: Result<
    String,
    String,
>)
    ensures
        !has_stream ==> (res matches Err(m) && m@ == missing_stream_text()),
        has_stream ==> match stream_id {
            Ok(id) => res == Ok::<String, String>(id),
            Err(e) => res matches Err(m) && m@ == bad_stream_id_text(e@),
        },
{
    if !has_stream {
        return Err(String::from_str("Admin log stream ID is missing"));
    }
    match stream_id {
        Ok(id) => Ok(id),
        Err(e) => Err(String::from_str("Failed to parse stream ID: ").concat(e.as_str())),
    }
}

/// The line filter sent to the node is the given line number itself: its 64
/// bits unchanged, so equal to it whenever it fits in an `i64`, and two
/// different lines never give the same filter.
pub proof fn lemma_line_filter_keeps_bits(l: u64)
    ensures
        line_arg(Some(l)) is Some,
        line_arg(Some(l)).unwrap() as u64 == l,
        l <= i64::MAX ==> line_arg(Some(l)).unwrap() as int == l as int,
        line_arg(None) is None,
{
    let x = line_arg(Some(l)).unwrap();
    assert(x == l as i64);
    assert((l as i64) as u64 == l) by (bit_vector);
    assert(l <= 0x7fff_ffff_ffff_ffff ==> (l as i64) >= 0) by (bit_vector);
}

/// The printed line of an entry shows the entry's line number as its
/// decimal text, right after the file name and a colon, between the fixed
/// parts that the other fields make.
pub proof fn lemma_entry_line_shows_line_number(
    time: Seq<char>,
    level: Seq<char>,
    file: Seq<char>,
    line: i64,
    message: Seq<char>,
)
    ensures
        entry_line(time, level, file, line, message) == (time + " "@ + level + " "@ + file + ":"@)
            + int_decimal(line as int) + (" "@ + message),
{
    assert(entry_line(time, level, file, line, message) =~= (time + " "@ + level + " "@ + file
        + ":"@) + int_decimal(line as int) + (" "@ + message));
}

/// Entries that differ only in their line number print differently: the
/// printed line determines the line number.
pub proof fn lemma_entry_line_distinguishes_lines(
    time: Seq<char>,
    level: Seq<char>,
    file: Seq<char>,
    n1: i64,
    n2: i64,
    message: Seq<char>,
)
    requires
        entry_line(time, level, file, n1, message) == entry_line(time, level, file, n2, message),
    ensures
        n1 == n2,
{
    lemma_entry_line_shows_line_number(time, level, file, n1, message);
    lemma_entry_line_shows_line_number(time, level, file, n2, message);
    let p = time + " "@ + level + " "@ + file + ":"@;
    let q = " "@ + message;
    let d1 = int_decimal(n1 as int);
    let d2 = int_decimal(n2 as int);
    let w = p + d1 + q;
    assert(w == p + d2 + q);
    assert(w.len() == p.len() + d1.len() + q.len());
    assert((p + d2 + q).len() == p.len() + d2.len() + q.len());
    assert(d1.len() == d2.len());
    assert(w.subrange(p.len() as int, (p.len() + d1.len()) as int) =~= d1);
    assert((p + d2 + q).subrange(p.len() as int, (p.len() + d2.len()) as int) =~= d2);
    lemma_int_decimal_injective(n1 as int, n2 as int);
}

/// Different levels are asked for by different names, each in capitals as
/// the node knows them.
pub proof fn lemma_verbosity_names(v1: Verbosity, v2: Verbosity)
    ensures
        v1 != v2 ==> verbosity_name(v1) != verbosity_name(v2),
        verbosity_name(Verbosity::Keys) == seq!['K', 'E', 'Y', 'S'],
        verbosity_name(Verbosity::Critical).len() == 8,
{
    reveal_strlit("KEYS");
    reveal_strlit("DEBUG");
    reveal_strlit("INFO");
    reveal_strlit("WARN");
    reveal_strlit("ERROR");
    reveal_strlit("CRITICAL");
    assert(verbosity_name(Verbosity::Keys) =~= seq!['K', 'E', 'Y', 'S']);
    if v1 != v2 && verbosity_name(v1) == verbosity_name(v2) {
        assert(verbosity_name(v1)[0] == verbosity_name(v2)[0]);
        assert(verbosity_name(v1).len() == verbosity_name(v2).len());
        assert(verbosity_name(v1)[1] == verbosity_name(v2)[1]);
    }
}

} // verus!
