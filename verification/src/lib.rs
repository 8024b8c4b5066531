//! A minimal console log sink: it filters records by a configured minimum
//! severity, renders a colored, fixed-width severity prefix, and formats each
//! record as one output line, destined for the error stream for error records
//! and for standard output otherwise.

use colored::Colorize;
use vstd::prelude::*;

verus! {

use vstd::string::StringExecFns;

/// Severity of a log record, from most severe (`Error`) to least (`Trace`).
#[derive(Clone, Copy, Debug, PartialEq, Eq, Structural)]
pub enum Severity {
    Error,
    Warn,
    Info,
    Debug,
    Trace,
}

/// Position of a severity in the ordering: `Error` is 0 (most severe),
/// `Trace` is 4 (least severe).
pub open spec fn severity_rank(s: Severity) -> int {
    match s {
        Severity::Error => 0,
        Severity::Warn => 1,
        Severity::Info => 2,
        Severity::Debug => 3,
        Severity::Trace => 4,
    }
}

/// A record of severity `record` passes a sink whose minimum level is `min`
/// exactly when the record is at least as severe as `min`.
pub open spec fn enabled_spec(min: Severity, record: Severity) -> bool {
    severity_rank(record) <= severity_rank(min)
}

/// The console log sink. It holds the minimum severity it lets through,
/// fixed at construction; every record at least that severe is formatted
/// into one line, every other record is dropped.
pub struct Logger {
    /// Minimum severity this sink lets through.
    pub level: Severity,
}

fn rank(s: Severity) -> (r: u8)
    ensures
        r as int == severity_rank(s),
{
    match s {
        Severity::Error => 0,
        Severity::Warn => 1,
        Severity::Info => 2,
        Severity::Debug => 3,
        Severity::Trace => 4,
    }
}

impl Logger {
    /// Whether a record of severity `severity` passes this sink's filter:
    /// true exactly when `severity` is at least as severe as the sink's
    /// minimum level.
    pub fn enabled(&self, severity: Severity) -> (r: bool)
        ensures
            r == enabled_spec(self.level, severity),
    {
        rank(severity) <= rank(self.level)
    }
}

/// The plain text of the severity prefix: the severity's word, lower case,
/// followed by a colon.
pub open spec fn prefix_text_spec(s: Severity) -> Seq<char> {
    match s {
        Severity::Error => "error:"@,
        Severity::Warn => "warn:"@,
        Severity::Info => "info:"@,
        Severity::Debug => "debug:"@,
        Severity::Trace => "trace:"@,
    }
}

/// The spaces that pad the severity's prefix out to six display columns:
/// one space after the five-letter prefixes, none after the six-letter ones.
pub open spec fn pad_spec(s: Severity) -> Seq<char> {
    match s {
        Severity::Warn | Severity::Info => " "@,
        Severity::Error | Severity::Debug | Severity::Trace => ""@,
    }
}

/// The severity's prefix padded to six display columns.
pub open spec fn padded_prefix_spec(s: Severity) -> Seq<char> {
    prefix_text_spec(s) + pad_spec(s)
}

/// One plain formatted output line, before any coloring: the prefix padded
/// to six columns, one space, then the message.
pub open spec fn line_spec(s: Severity, message: Seq<char>) -> Seq<char> {
    padded_prefix_spec(s) + " "@ + message
}

/// Every severity's prefix, once padded, occupies exactly six columns.
pub proof fn lemma_padded_prefix_width(s: Severity)
    ensures
        padded_prefix_spec(s).len() == 6,
{
    reveal_strlit("error:");
    reveal_strlit("warn:");
    reveal_strlit("info:");
    reveal_strlit("debug:");
    reveal_strlit("trace:");
    reveal_strlit(" ");
    reveal_strlit("");
}

/// Distinct severities carry distinct prefix words: the rendered prefix
/// names its severity without ambiguity.
pub proof fn lemma_prefix_text_injective(a: Severity, b: Severity)
    ensures
        prefix_text_spec(a) == prefix_text_spec(b) ==> a == b,
{
    reveal_strlit("error:");
    reveal_strlit("warn:");
    reveal_strlit("info:");
    reveal_strlit("debug:");
    reveal_strlit("trace:");
    if prefix_text_spec(a) == prefix_text_spec(b) {
        assert(prefix_text_spec(a)[0] == prefix_text_spec(b)[0]);
    }
}

/// The plain prefix word for a severity.
pub fn prefix_text(severity: Severity) -> (r: &'static str)
    ensures
        r@ == prefix_text_spec(severity),
{
    match severity {
        Severity::Error => "error:",
        Severity::Warn => "warn:",
        Severity::Info => "info:",
        Severity::Debug => "debug:",
        Severity::Trace => "trace:",
    }
}

fn pad_text(severity: Severity) -> (r: &'static str)
    ensures
        r@ == pad_spec(severity),
{
    match severity {
        Severity::Warn | Severity::Info => " ",
        Severity::Error | Severity::Debug | Severity::Trace => "",
    }
}

/// Lays out one output line around an already rendered prefix: the prefix as
/// given, the padding owed to `severity`, one space, then the message.
pub fn compose_line(prefix: &str, severity: Severity, message: &str) -> (r: String)
    ensures
        r@ == prefix@ + pad_spec(severity) + " "@ + message@,
{
    let mut line = String::from_str(prefix);
    line.append(pad_text(severity));
    line.append(" ");
    line.append(message);
    line
}

/// The whole plain line for one record, exactly as it reaches a stream that
/// takes no color: padded prefix, one space, message.
pub fn render_line(severity: Severity, message: &str) -> (r: String)
    ensures
        r@ == line_spec(severity, message@),
{
    compose_line(prefix_text(severity), severity, message)
}

/// The ANSI reset sequence, written after every styled prefix.
pub open spec fn ansi_reset() -> Seq<char> {
    "\u{1b}[0m"@
}

/// The ANSI style sequence that opens a severity's decorated prefix: bold,
/// then the severity's color — red, yellow, green, blue or magenta, from
/// `Error` down to `Trace`.
pub open spec fn style_codes_spec(s: Severity) -> Seq<char> {
    match s {
        Severity::Error => "\u{1b}[1;31m"@,
        Severity::Warn => "\u{1b}[1;33m"@,
        Severity::Info => "\u{1b}[1;32m"@,
        Severity::Debug => "\u{1b}[1;34m"@,
        Severity::Trace => "\u{1b}[1;35m"@,
    }
}

/// A rendering of the severity's prefix word, and nothing else: the plain
/// word itself, where the stream takes no color, or the word between the
/// severity's bold-color style sequence and the ANSI reset.
pub open spec fn rendered_prefix_spec(rendered: Seq<char>, s: Severity) -> bool {
    ||| rendered == prefix_text_spec(s)
    ||| rendered == style_codes_spec(s) + prefix_text_spec(s) + ansi_reset()
}

/// Relies on colored::Colorize::red and bold on &str, and on ColoredString's
/// Display: the rendering is the text itself, when the stream takes no color,
/// and otherwise the bold-red style sequence, the text, and the ANSI reset; a
/// text free of the escape character passes through unchanged either way.
#[verifier::external_body]
fn paint_error(text: &str) -> (r: String)
    requires
        !text@.contains('\u{1b}'),
    ensures
        r@ == text@ || r@ == "\u{1b}[1;31m"@ + text@ + "\u{1b}[0m"@,
{
    text.red().bold().to_string()
}

/// Relies on colored::Colorize::yellow and bold on &str, and on
/// ColoredString's Display, exactly as the red variant does, with the
/// bold-yellow style sequence.
#[verifier::external_body]
fn paint_warn(text: &str) -> (r: String)
    requires
        !text@.contains('\u{1b}'),
    ensures
        r@ == text@ || r@ == "\u{1b}[1;33m"@ + text@ + "\u{1b}[0m"@,
{
    text.yellow().bold().to_string()
}

/// Relies on colored::Colorize::green and bold on &str, and on
/// ColoredString's Display, exactly as the red variant does, with the
/// bold-green style sequence.
#[verifier::external_body]
fn paint_info(text: &str) -> (r: String)
    requires
        !text@.contains('\u{1b}'),
    ensures
        r@ == text@ || r@ == "\u{1b}[1;32m"@ + text@ + "\u{1b}[0m"@,
{
    text.green().bold().to_string()
}

/// Relies on colored::Colorize::blue and bold on &str, and on ColoredString's
/// Display, exactly as the red variant does, with the bold-blue style
/// sequence.
#[verifier::external_body]
fn paint_debug(text: &str) -> (r: String)
    requires
        !text@.contains('\u{1b}'),
    ensures
        r@ == text@ || r@ == "\u{1b}[1;34m"@ + text@ + "\u{1b}[0m"@,
{
    text.blue().bold().to_string()
}

/// Relies on colored::Colorize::magenta and bold on &str, and on
/// ColoredString's Display, exactly as the red variant does, with the
/// bold-magenta style sequence.
#[verifier::external_body]
fn paint_trace(text: &str) -> (r: String)
    requires
        !text@.contains('\u{1b}'),
    ensures
        r@ == text@ || r@ == "\u{1b}[1;35m"@ + text@ + "\u{1b}[0m"@,
{
    text.magenta().bold().to_string()
}

/// The colored prefix for a severity: the prefix word between the severity's
/// bold-color style sequence and the ANSI reset, or the plain word alone
/// where the stream takes no color — and no other text.
pub fn get_prefix(severity: Severity) -> (r: String)
    ensures
        rendered_prefix_spec(r@, severity),
{
    proof {
        reveal_strlit("error:");
        reveal_strlit("warn:");
        reveal_strlit("info:");
        reveal_strlit("debug:");
        reveal_strlit("trace:");
    }
    let text = prefix_text(severity);
    match severity {
        Severity::Error => paint_error(text),
        Severity::Warn => paint_warn(text),
        Severity::Info => paint_info(text),
        Severity::Debug => paint_debug(text),
        Severity::Trace => paint_trace(text),
    }
}

/// Where a record's line belongs: the process's error stream or its standard
/// output stream.
#[derive(Clone, Copy, Debug, PartialEq, Eq, Structural)]
pub enum Stream {
    StdErr,
    StdOut,
}

/// Error records go to the error stream; every other record goes to standard
/// output.
pub open spec fn stream_spec(s: Severity) -> Stream {
    if s == Severity::Error {
        Stream::StdErr
    } else {
        Stream::StdOut
    }
}

/// The shape of an emitted line: the plain line itself, where the stream
/// takes no color, or the plain line with the prefix word between the
/// severity's style sequence and the ANSI reset — and no other shape.
pub open spec fn emitted_line_shape(line: Seq<char>, s: Severity, message: Seq<char>) -> bool {
    ||| line == line_spec(s, message)
    ||| line == style_codes_spec(s) + prefix_text_spec(s) + ansi_reset() + pad_spec(s) + " "@
        + message
}

impl Logger {
    /// Handles one record: a record below the sink's minimum level yields
    /// nothing; every other record yields the stream it belongs on and its
    /// formatted line, colored prefix first. Writing the line to the stream
    /// is the caller's step.
    pub fn log(&self, severity: Severity, message: &str) -> (r: Option<(Stream, String)>)
        ensures
            r is Some <==> enabled_spec(self.level, severity),
            r matches Some(out) ==> out.0 == stream_spec(severity) && emitted_line_shape(
                out.1@,
                severity,
                message@,
            ),
    {
        if !self.enabled(severity) {
            return None;
        }
        let prefix = get_prefix(severity);
        let line = compose_line(prefix.as_str(), severity, message);
        let stream = if severity == Severity::Error {
            Stream::StdErr
        } else {
            Stream::StdOut
        };
        Some((stream, line))
    }

    /// Nothing is ever buffered: a flush has no effect.
    pub fn flush(&self) {
    }

    /// Builds a sink that shows errors only, as `init_with_level` does with
    /// minimum level `Error`.
    pub fn init() -> (r: Logger)
        ensures
            r.level == Severity::Error,
    {
        Self::init_with_level(Severity::Error)
    }

    /// Builds a sink with the given minimum level. Installing the sink as the
    /// process's one global log destination is the embedding binary's step,
    /// made through the ambient logging facade; that registration must be
    /// made at most once per process, and a second attempt must fail loudly
    /// there rather than replace or stack sinks, as `RegistrySlot::claim`
    /// states.
    pub fn init_with_level(level: Severity) -> (r: Logger)
        ensures
            r.level == level,
    {
        Logger { level }
    }
}

/// The failure of a second registration attempt: a sink already holds the
/// process's one registration slot.
#[derive(Clone, Copy, Debug, PartialEq, Eq, Structural)]
pub struct AlreadyRegistered;

/// The process's one registration slot for the global sink, as a value: the
/// ambient logging facade owns the real slot for the process's lifetime, and
/// this type states its rule, that the first claim installs its sink for good
/// and every later claim fails without touching it.
pub struct RegistrySlot {
    /// The sink that claimed the slot, if any claim has succeeded.
    pub sink: Option<Logger>,
}

/// A slot is occupied once a sink has been installed in it.
pub open spec fn occupied(slot: RegistrySlot) -> bool {
    slot.sink is Some
}

impl RegistrySlot {
    /// A fresh slot: no sink has been registered yet.
    pub fn new() -> (r: RegistrySlot)
        ensures
            !occupied(r),
    {
        RegistrySlot { sink: None }
    }

    /// Tries to install `sink` as the slot's one registered sink. The first
    /// claim wins and is irreversible; a claim on an occupied slot fails, and
    /// neither replaces the installed sink nor stacks a second one beside it.
    /// Registering twice is a configuration error, so a failed claim is to be
    /// surfaced loudly, not recovered from.
    pub fn claim(&mut self, sink: Logger) -> (r: Result<(), AlreadyRegistered>)
        ensures
            r is Ok <==> !occupied(*old(self)),
            !occupied(*old(self)) ==> final(self).sink == Some(sink),
            occupied(*old(self)) ==> *final(self) == *old(self),
    {
        match self.sink {
            Option::None => {
                self.sink = Some(sink);
                Ok(())
            },
            Option::Some(_) => Err(AlreadyRegistered),
        }
    }
}

} // verus!
