//! Settings of the process-wide log sink.
//!
//! A process has one log sink, and it is installed once. This module decides
//! how the sink is set up (which records pass, and in which form they are
//! written) and keeps the one-time rule; installing the sink is left to the
//! caller, who holds the `Logging` guard for the life of the process.

use crate::text::{chars_of, same_text};
use vstd::prelude::*;

verus! {

/// The form in which records are written.
#[derive(Debug, Clone, Copy, PartialEq, Eq, Structural)]
pub enum LogFormat {
    /// One JSON object per line, for machines.
    Json,
    /// Formatted text lines, for people.
    Text,
}

/// Where the filter of the sink comes from.
#[derive(Debug, Clone)]
pub enum FilterChoice {
    /// The filter specification set from outside, every directive of which
    /// is valid.
    Directives(String),
    /// The level the caller asked for, used where no valid specification is
    /// set from outside. It is read leniently: a directive that does not
    /// parse is dropped.
    Level(String),
}

/// A `FilterChoice` with texts as character sequences.
pub enum FilterChoiceView {
    Directives(Seq<char>),
    Level(Seq<char>),
}

impl View for FilterChoice {
    type V = FilterChoiceView;

    open spec fn view(&self) -> FilterChoiceView {
        match *self {
            FilterChoice::Directives(directives) => FilterChoiceView::Directives(directives@),
            FilterChoice::Level(level) => FilterChoiceView::Level(level@),
        }
    }
}

/// How the log sink is to be set up. A switch that is off leaves the sink at
/// its own default for that option.
#[derive(Debug, Clone)]
pub struct LogPlan {
    /// The service named in the first record.
    pub service_name: String,
    /// The text of the first record, written once the sink is installed.
    pub announcement: String,
    /// Which records pass.
    pub filter: FilterChoice,
    /// The form of the output.
    pub format: LogFormat,
    /// Each record names the module it comes from.
    pub target: bool,
    /// Each record carries the span it was written in.
    pub current_span: bool,
    /// A record is written when a span closes.
    pub span_close_events: bool,
    /// The fields of an event sit at the top level of its record.
    pub flatten_event: bool,
    /// Each record names the thread it comes from.
    pub thread_ids: bool,
    /// Each record names its source file.
    pub file: bool,
    /// Each record names its source line.
    pub line_number: bool,
}

/// A `LogPlan` with texts as character sequences.
pub struct LogPlanView {
    pub service_name: Seq<char>,
    pub announcement: Seq<char>,
    pub filter: FilterChoiceView,
    pub format: LogFormat,
    pub target: bool,
    pub current_span: bool,
    pub span_close_events: bool,
    pub flatten_event: bool,
    pub thread_ids: bool,
    pub file: bool,
    pub line_number: bool,
}

impl View for LogPlan {
    type V = LogPlanView;

    open spec fn view(&self) -> LogPlanView {
        LogPlanView {
            service_name: self.service_name@,
            announcement: self.announcement@,
            filter: self.filter@,
            format: self.format,
            target: self.target,
            current_span: self.current_span,
            span_close_events: self.span_close_events,
            flatten_event: self.flatten_event,
            thread_ids: self.thread_ids,
            file: self.file,
            line_number: self.line_number,
        }
    }
}

/// Whether `tracing_subscriber::EnvFilter::try_new` accepts the text as a
/// filter specification.
pub uninterp spec fn filter_accepts(directives: Seq<char>) -> bool;

/// Whether `char::is_whitespace` holds of the character.
pub uninterp spec fn white_space(c: char) -> bool;

/// The number of bytes the character takes in a text, as `char::len_utf8`
/// gives it.
pub uninterp spec fn width(c: char) -> nat;

/// The byte at which character `n` of the text begins; for `n` the length of
/// the text, the byte at which the text ends.
pub open spec fn offset(text: Seq<char>, n: int) -> nat
    decreases n,
{
    if n <= 0 {
        0
    } else {
        offset(text, n - 1) + width(text[n - 1])
    }
}

/// Where the directive begins in which position `n` of the comma-separated
/// list lies.
pub open spec fn start_of(text: Seq<char>, n: int) -> int
    decreases n,
{
    if n <= 0 {
        0
    } else if text[n - 1] == ',' {
        n
    } else {
        start_of(text, n - 1)
    }
}

/// Where the white space ends that the directive of position `n` begins
/// with, as far as the directive has been read up to `n`.
pub open spec fn ink_of(text: Seq<char>, n: int) -> int
    decreases n,
{
    if n <= 0 {
        0
    } else if text[n - 1] == ',' {
        n
    } else if ink_of(text, n - 1) == n - 1 && white_space(text[n - 1]) {
        n
    } else {
        ink_of(text, n - 1)
    }
}

/// Where the directive parser stands in a directive: before it, in the name
/// of a target or level, in a span, in the fields of a span, behind the
/// fields, behind the span, in a level, or past a character that ends the
/// parse with an error.
#[derive(Debug, Clone, Copy, PartialEq, Eq, Structural)]
pub enum Stage {
    Start,
    Name,
    Span,
    Field,
    Fields,
    Closed,
    Level,
    Lost,
}

/// Where the parser stands after the character. Of the ways in which it
/// gives up, only those are followed that the character alone decides; where
/// it gives up for another reason, it cuts no more, and what is asked of the
/// characters behind is asked in vain.
pub open spec fn step(stage: Stage, c: char) -> Stage {
    match stage {
        Stage::Start => if c == '[' {
            Stage::Span
        } else {
            Stage::Name
        },
        Stage::Name => if c == '=' {
            Stage::Level
        } else if c == '[' {
            Stage::Span
        } else {
            Stage::Name
        },
        Stage::Span => if c == ']' {
            Stage::Closed
        } else if c == '{' {
            Stage::Field
        } else {
            Stage::Span
        },
        Stage::Field => if c == '}' {
            Stage::Fields
        } else {
            Stage::Field
        },
        Stage::Fields => if c == ']' {
            Stage::Closed
        } else {
            Stage::Lost
        },
        Stage::Closed => if c == '=' {
            Stage::Level
        } else {
            Stage::Lost
        },
        Stage::Level => Stage::Level,
        Stage::Lost => Stage::Lost,
    }
}

/// The parser ends a piece of the directive before the character.
pub open spec fn cuts_before(stage: Stage, c: char) -> bool {
    match stage {
        Stage::Name => c == '=' || c == '[',
        Stage::Span => c == ']' || c == '{',
        Stage::Field => c == '}',
        _ => false,
    }
}

/// The parser begins a piece of the directive behind the character.
pub open spec fn cuts_behind(stage: Stage, c: char) -> bool {
    match stage {
        Stage::Start => c == '[',
        Stage::Name => c == '=' || c == '[',
        Stage::Span => c == '{',
        Stage::Closed => c == '=',
        _ => false,
    }
}

/// Where the parser stands before position `n`, in the directive that the
/// position lies in.
pub open spec fn stage_of(text: Seq<char>, n: int) -> Stage
    decreases n,
{
    if n <= 0 || text[n - 1] == ',' || ink_of(text, n) == n {
        Stage::Start
    } else {
        step(stage_of(text, n - 1), text[n - 1])
    }
}

/// The byte of the text at which the parser cuts before the character at
/// position `at`. The parser counts bytes in the trimmed directive and cuts
/// the untrimmed one, so the cut falls short of the character by as many
/// bytes as the directive is indented.
pub open spec fn cut_at(text: Seq<char>, at: int) -> int {
    offset(text, at) - (offset(text, ink_of(text, at)) - offset(text, start_of(text, at)))
}

/// Some character from `low` to `high` begins at the byte, or the text ends
/// there.
pub open spec fn boundary(text: Seq<char>, low: int, high: int, byte: int) -> bool {
    exists|m: int| low <= m <= high && #[trigger] offset(text, m) == byte
}

/// The cuts that the parser makes at the character at position `at`, before
/// it and one byte on, fall between two characters of its directive. Nothing
/// is asked of the white space that a directive begins with.
pub open spec fn cuts_cleanly_at(text: Seq<char>, at: int) -> bool {
    let stage = stage_of(text, at);
    let low = start_of(text, at);
    ink_of(text, at + 1) <= at ==> {
        &&& cuts_before(stage, text[at]) ==> boundary(text, low, at + 1, cut_at(text, at))
        &&& cuts_behind(stage, text[at]) ==> boundary(text, low, at + 1, cut_at(text, at) + 1)
    }
}

/// Every cut before `end` falls between two characters.
pub open spec fn cuts_cleanly_before(text: Seq<char>, end: int) -> bool {
    forall|at: int| 0 <= at < end ==> #[trigger] cuts_cleanly_at(text, at)
}

/// The text can be given to the directive parser: no cut falls inside a
/// character. The parser panics where one does, which takes a directive that
/// begins with white space and holds a character of several bytes. A text
/// that fails this, and on which the parser would yet return, is one that it
/// rejects.
pub open spec fn parses_safely(directives: Seq<char>) -> bool {
    cuts_cleanly_before(directives, directives.len() as int)
}

/// `char::is_whitespace`.
#[verifier::external_body]
fn is_white_space(c: char) -> (yes: bool)
    ensures
        yes == white_space(c),
{
    c.is_whitespace()
}

/// `char::len_utf8`: the number of bytes of the character, from one to four.
#[verifier::external_body]
fn char_width(c: char) -> (bytes: usize)
    ensures
        bytes == width(c),
        1 <= bytes <= 4,
{
    c.len_utf8()
}

/// `tracing_subscriber::EnvFilter::try_new`: whether the text parses as a
/// comma-separated list of filter directives. The filter itself is dropped.
/// Texts on which the parser would cut a character in two, and panic, are
/// kept away from it.
#[verifier::external_body]
fn directives_accepted(directives: &str) -> (accepted: bool)
    requires
        parses_safely(directives@),
    ensures
        accepted == filter_accepts(directives@),
{
    tracing_subscriber::EnvFilter::try_new(directives).is_ok()
}

/// The filter to use: the specification set from outside where there is one
/// and it is accepted, else the level asked for.
pub open spec fn chosen_filter(
    outside: Option<Seq<char>>,
    accepted: bool,
    level: Seq<char>,
) -> FilterChoiceView {
    match outside {
        Some(directives) if accepted => FilterChoiceView::Directives(directives),
        _ => FilterChoiceView::Level(level),
    }
}

/// The text of a value that may be unset.
pub open spec fn text_of(value: Option<&str>) -> Option<Seq<char>> {
    match value {
        Some(text) => Some(text@),
        None => None,
    }
}

/// Whether the filter specification set from outside, if any, is usable:
/// it can be given to the directive parser, and the parser accepts it.
/// Every text on which the parser makes no cut inside a character is given
/// to it.
pub open spec fn outside_accepted(outside: Option<Seq<char>>) -> bool {
    outside matches Some(directives) && parses_safely(directives) && filter_accepts(directives)
}

/// The set-up of the sink for a service, an output form and a filter.
pub open spec fn planned(
    service_name: Seq<char>,
    json_output: bool,
    filter: FilterChoiceView,
) -> LogPlanView {
    LogPlanView {
        service_name,
        announcement: "Logging initialized"@,
        filter,
        format: if json_output {
            LogFormat::Json
        } else {
            LogFormat::Text
        },
        target: true,
        current_span: json_output,
        span_close_events: json_output,
        flatten_event: json_output,
        thread_ids: false,
        file: !json_output,
        line_number: !json_output,
    }
}

/// Whether the deployment environment is a production one: `prod` or
/// `production`, spelled exactly so.
pub open spec fn production(environment: Option<Seq<char>>) -> bool {
    environment matches Some(name) && (name == "prod"@ || name == "production"@)
}

/// Picks the filter, given whether the specification set from outside was
/// accepted. `accepted` is not looked at where `outside` is unset.
pub fn choose_filter(outside: Option<&str>, accepted: bool, level: &str) -> (choice: FilterChoice)
    ensures
        choice@ == chosen_filter(text_of(outside), accepted, level@),
{
    match outside {
        Some(directives) => {
            if accepted {
                FilterChoice::Directives(directives.to_owned())
            } else {
                FilterChoice::Level(level.to_owned())
            }
        },
        None => FilterChoice::Level(level.to_owned()),
    }
}

/// The byte at which each character of the text begins, and last the byte
/// at which the text ends.
fn offsets_of(text: &Vec<char>) -> (offsets: Vec<u128>)
    ensures
        offsets.len() == text.len() + 1,
        forall|m: int| 0 <= m <= text.len() ==> #[trigger] offsets[m] == offset(text@, m),
        forall|low: int, high: int|
            0 <= low <= high <= text.len() ==> #[trigger] offsets[low] <= #[trigger] offsets[high],
        offsets[text.len() as int] <= 4 * text.len(),
{
    let mut offsets: Vec<u128> = Vec::new();
    offsets.push(0);
    let mut next: usize = 0;
    while next < text.len()
        invariant
            next <= text.len(),
            offsets.len() == next + 1,
            forall|m: int| 0 <= m <= next ==> #[trigger] offsets[m] == offset(text@, m),
            forall|low: int, high: int|
                0 <= low <= high <= next ==> #[trigger] offsets[low] <= #[trigger] offsets[high],
            offsets[next as int] <= 4 * next,
        decreases text.len() - next,
    {
        let bytes = char_width(text[next]);
        offsets.push(offsets[next] + bytes as u128);
        next = next + 1;
    }
    offsets
}

/// Where the offsets are those of the text, a byte is a boundary exactly when
/// it is among them.
proof fn lemma_boundary_by_offsets(
    text: Seq<char>,
    offsets: Seq<u128>,
    low: int,
    high: int,
    byte: int,
)
    requires
        0 <= low <= high < offsets.len(),
        forall|m: int| 0 <= m < offsets.len() ==> #[trigger] offsets[m] == offset(text, m),
    ensures
        boundary(text, low, high, byte) <==> exists|m: int|
            low <= m <= high && #[trigger] offsets[m] == byte,
{
    if boundary(text, low, high, byte) {
        let m = choose|m: int| low <= m <= high && #[trigger] offset(text, m) == byte;
        assert(offsets[m] == byte);
    }
    if exists|m: int| low <= m <= high && #[trigger] offsets[m] == byte {
        let m = choose|m: int| low <= m <= high && #[trigger] offsets[m] == byte;
        assert(offset(text, m) == byte);
    }
}

/// Whether one of the offsets from `low` to `high` is the byte.
fn is_boundary(offsets: &Vec<u128>, low: usize, high: usize, byte: u128) -> (yes: bool)
    requires
        low <= high < offsets.len(),
    ensures
        yes == exists|m: int| low <= m <= high && #[trigger] offsets[m] == byte,
{
    let mut at = low;
    while at <= high
        invariant
            low <= at <= high + 1,
            high < offsets.len(),
            forall|m: int| low <= m < at ==> #[trigger] offsets[m] != byte,
        decreases high + 1 - at,
    {
        if offsets[at] == byte {
            return true;
        }
        at = at + 1;
    }
    false
}

/// Where the parser stands after the character.
fn advance(stage: Stage, c: char) -> (next: Stage)
    ensures
        next == step(stage, c),
{
    match stage {
        Stage::Start => if c == '[' {
            Stage::Span
        } else {
            Stage::Name
        },
        Stage::Name => if c == '=' {
            Stage::Level
        } else if c == '[' {
            Stage::Span
        } else {
            Stage::Name
        },
        Stage::Span => if c == ']' {
            Stage::Closed
        } else if c == '{' {
            Stage::Field
        } else {
            Stage::Span
        },
        Stage::Field => if c == '}' {
            Stage::Fields
        } else {
            Stage::Field
        },
        Stage::Fields => if c == ']' {
            Stage::Closed
        } else {
            Stage::Lost
        },
        Stage::Closed => if c == '=' {
            Stage::Level
        } else {
            Stage::Lost
        },
        Stage::Level => Stage::Level,
        Stage::Lost => Stage::Lost,
    }
}

/// Whether the parser ends a piece of the directive before the character.
fn ends_piece(stage: Stage, c: char) -> (yes: bool)
    ensures
        yes == cuts_before(stage, c),
{
    match stage {
        Stage::Name => c == '=' || c == '[',
        Stage::Span => c == ']' || c == '{',
        Stage::Field => c == '}',
        _ => false,
    }
}

/// Whether the parser begins a piece of the directive behind the character.
fn begins_piece(stage: Stage, c: char) -> (yes: bool)
    ensures
        yes == cuts_behind(stage, c),
{
    match stage {
        Stage::Start => c == '[',
        Stage::Name => c == '=' || c == '[',
        Stage::Span => c == '{',
        Stage::Closed => c == '=',
        _ => false,
    }
}

/// Whether the text can be given to the directive parser.
pub fn can_be_parsed(directives: &str) -> (safe: bool)
    ensures
        safe == parses_safely(directives@),
{
    let text = chars_of(directives);
    let offsets = offsets_of(&text);
    let mut start: usize = 0;
    let mut ink: usize = 0;
    let mut stage = Stage::Start;
    let mut at: usize = 0;
    while at < text.len()
        invariant
            text@ == directives@,
            at <= text.len(),
            offsets.len() == text.len() + 1,
            forall|m: int| 0 <= m <= text.len() ==> #[trigger] offsets[m] == offset(text@, m),
            forall|low: int, high: int|
                0 <= low <= high <= text.len() ==> #[trigger] offsets[low] <= #[trigger] offsets[high],
            offsets[text.len() as int] <= 4 * text.len(),
            start == start_of(text@, at as int),
            ink == ink_of(text@, at as int),
            stage == stage_of(text@, at as int),
            start <= ink <= at,
            cuts_cleanly_before(text@, at as int),
        decreases text.len() - at,
    {
        let c = text[at];
        if c == ',' {
            start = at + 1;
            ink = at + 1;
            stage = Stage::Start;
        } else if ink == at && is_white_space(c) {
            ink = at + 1;
        } else {
            let cut = offsets[at] - (offsets[ink] - offsets[start]);
            proof {
                lemma_boundary_by_offsets(text@, offsets@, start as int, at + 1, cut as int);
                lemma_boundary_by_offsets(text@, offsets@, start as int, at + 1, cut + 1);
            }
            if ends_piece(stage, c) && !is_boundary(&offsets, start, at + 1, cut) {
                assert(!cuts_cleanly_at(text@, at as int));
                return false;
            }
            if begins_piece(stage, c) && !is_boundary(&offsets, start, at + 1, cut + 1) {
                assert(!cuts_cleanly_at(text@, at as int));
                return false;
            }
            stage = advance(stage, c);
        }
        assert(cuts_cleanly_at(text@, at as int));
        at = at + 1;
    }
    true
}

/// Picks the filter: the specification set from outside where there is one
/// and it is a usable list of directives, else the level asked for.
pub fn select_filter(outside: Option<&str>, level: &str) -> (choice: FilterChoice)
    ensures
        choice@ == chosen_filter(text_of(outside), outside_accepted(text_of(outside)), level@),
{
    let accepted = match outside {
        Some(directives) => {
            can_be_parsed(directives) && directives_accepted(directives)
        },
        None => false,
    };
    choose_filter(outside, accepted, level)
}

/// The set-up of the sink: JSON output carries the current span, writes a
/// record when a span closes and flattens event fields; text output names
/// source file and line. Both name the target, neither names the thread.
pub fn plan(service_name: &str, json_output: bool, filter: FilterChoice) -> (plan: LogPlan)
    ensures
        plan@ == planned(service_name@, json_output, filter@),
{
    LogPlan {
        service_name: service_name.to_owned(),
        announcement: "Logging initialized".to_owned(),
        filter,
        format: if json_output {
            LogFormat::Json
        } else {
            LogFormat::Text
        },
        target: true,
        current_span: json_output,
        span_close_events: json_output,
        flatten_event: json_output,
        thread_ids: false,
        file: !json_output,
        line_number: !json_output,
    }
}

/// Whether the deployment environment named by `environment`, if any is
/// named, is a production one.
pub fn is_production(environment: Option<&str>) -> (yes: bool)
    ensures
        yes == production(text_of(environment)),
{
    match environment {
        Some(name) => same_text(name, "prod") || same_text(name, "production"),
        None => false,
    }
}

/// The one-time guard of the process-wide log sink.
#[derive(Debug)]
pub struct Logging {
    installed: bool,
}

impl Logging {
    /// Whether the sink has been set up.
    pub closed spec fn installed(&self) -> bool {
        self.installed
    }

    /// The guard of a process that has not set up its sink yet.
    pub fn new() -> (guard: Self)
        ensures
            !guard.installed(),
    {
        Logging { installed: false }
    }

    /// Whether the sink has been set up.
    pub fn is_installed(&self) -> (yes: bool)
        ensures
            yes == self.installed(),
    {
        self.installed
    }
}

/// Sets up the log sink of the process, once.
///
/// `outside` is the filter specification set from outside the program, if
/// one is set; it wins over `level` where it is valid. The guard must not
/// have been used before, and counts as used afterwards: a second set-up in
/// one process is a fatal misuse, which callers turn into an abort.
pub fn init(
    guard: &mut Logging,
    service_name: &str,
    json_output: bool,
    level: &str,
    outside: Option<&str>,
) -> (plan: LogPlan)
    requires
        !old(guard).installed(),
    ensures
        final(guard).installed(),
        plan@ == planned(
            service_name@,
            json_output,
            chosen_filter(text_of(outside), outside_accepted(text_of(outside)), level@),
        ),
{
    let filter = select_filter(outside, level);
    guard.installed = true;
    self::plan(service_name, json_output, filter)
}

/// Sets up the log sink with the defaults of the deployment environment:
/// JSON output in production and text elsewhere, at level `info`.
///
/// `environment` is the name of the deployment environment, if one is
/// configured. The guard is used up as by `init`.
pub fn init_default(
    guard: &mut Logging,
    service_name: &str,
    environment: Option<&str>,
    outside: Option<&str>,
) -> (plan: LogPlan)
    requires
        !old(guard).installed(),
    ensures
        final(guard).installed(),
        plan@ == planned(
            service_name@,
            production(text_of(environment)),
            chosen_filter(text_of(outside), outside_accepted(text_of(outside)), "info"@),
        ),
{
    let json_output = is_production(environment);
    init(guard, service_name, json_output, "info", outside)
}

} // verus!
