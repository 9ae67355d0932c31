//! What the wrapper writes to the error stream, as plain values: lines made
//! of spans, each with the role it plays, so that the caller chooses the
//! colours.

use vstd::prelude::*;
use vstd::string::*;
use crate::config::{config_of, Config, ConfigSource};
use crate::guidance::{guidance_for, guidance_spec, Guidance, GuidanceView};
use crate::platform::Platform;
use crate::text::texts;

verus! {

/// The role of a piece of text in a line.
#[derive(Debug, Clone, Copy, PartialEq, Eq, Structural)]
pub enum Style {
    /// Ordinary text.
    Plain,
    /// The opening words of an error.
    Alert,
    /// The name of the command.
    Name,
    /// The heading of the guidance.
    Heading,
}

/// A piece of text with its role.
#[derive(Debug, Clone, PartialEq, Eq)]
pub struct Span {
    pub style: Style,
    pub text: String,
}

/// One line of output: its spans, left to right.
#[derive(Debug, Clone, PartialEq, Eq)]
pub struct Line {
    pub spans: Vec<Span>,
}

/// What a `Span` stands for.
pub struct SpanView {
    pub style: Style,
    pub text: Seq<char>,
}

impl View for Span {
    type V = SpanView;

    open spec fn view(&self) -> SpanView {
        SpanView { style: self.style, text: self.text@ }
    }
}

impl View for Line {
    type V = Seq<SpanView>;

    open spec fn view(&self) -> Seq<SpanView> {
        Seq::new(self.spans@.len(), |i: int| self.spans@[i]@)
    }
}

/// The views of a list of lines, in order.
pub open spec fn lines_view(lines: Seq<Line>) -> Seq<Seq<SpanView>> {
    Seq::new(lines.len(), |i: int| lines[i]@)
}

/// A span of the given role.
pub open spec fn span(style: Style, text: Seq<char>) -> SpanView {
    SpanView { style, text }
}

/// The text of a line with the roles left out.
pub open spec fn plain_text_of(spans: Seq<SpanView>) -> Seq<char>
    decreases spans.len(),
{
    if spans.len() == 0 {
        Seq::empty()
    } else {
        plain_text_of(spans.drop_last()) + spans.last().text
    }
}

/// The usage line that follows every usage error.
pub open spec fn usage_line() -> Seq<SpanView> {
    seq![span(Style::Plain, "Usage: run-this [--] <command> [arguments]"@)]
}

/// The notice for a command that was not found: the notice itself and a
/// sentence that names the command.
pub open spec fn notice_lines(command: Seq<char>) -> Seq<Seq<SpanView>> {
    seq![
        seq![
            span(Style::Alert, "Command not found:"@),
            span(Style::Plain, " "@),
            span(Style::Name, command),
        ],
        seq![
            span(Style::Plain, "You don't have "@),
            span(Style::Name, command),
            span(Style::Plain, " installed on this system."@),
        ],
    ]
}

/// Guidance as lines: an empty line, the heading, and the lines under it.
pub open spec fn guidance_lines(guidance: GuidanceView) -> Seq<Seq<SpanView>> {
    seq![Seq::empty(), seq![span(Style::Heading, guidance.heading)]] + Seq::new(
        guidance.lines.len(),
        |i: int| seq![span(Style::Plain, guidance.lines[i])],
    )
}

/// Everything shown for a command that was not found, in order: the notice,
/// the warning about the configuration file if there is one, the guidance.
pub open spec fn not_found_lines(
    command: Seq<char>,
    warning: Option<Seq<SpanView>>,
    guidance: GuidanceView,
) -> Seq<Seq<SpanView>> {
    notice_lines(command) + (match warning {
        Some(line) => seq![line],
        None => Seq::empty(),
    }) + guidance_lines(guidance)
}

/// The warning that a configuration source calls for, if any.
pub open spec fn config_warning(source: ConfigSource) -> Option<Seq<SpanView>> {
    match source {
        ConfigSource::Missing => None,
        ConfigSource::Unreadable(cause) => Some(failure_line("Error reading run-this.json:"@, cause@)),
        ConfigSource::Malformed(cause) => Some(failure_line("Error parsing run-this.json:"@, cause@)),
        ConfigSource::Loaded(_) => None,
    }
}

/// The line that reports an error with its cause.
pub open spec fn failure_line(what: Seq<char>, cause: Seq<char>) -> Seq<SpanView> {
    seq![span(Style::Alert, what), span(Style::Plain, " "@), span(Style::Plain, cause)]
}

impl Span {
    /// A span of the given role.
    pub fn new(style: Style, text: &str) -> (made: Span)
        ensures
            made@ == span(style, text@),
    {
        Span { style, text: text.to_owned() }
    }
}

impl Line {
    /// The empty line.
    pub fn blank() -> (line: Line)
        ensures
            line@ == Seq::<SpanView>::empty(),
    {
        let line = Line { spans: Vec::new() };
        assert(line@ =~= Seq::<SpanView>::empty());
        line
    }

    /// A line of one span.
    pub fn single(style: Style, text: &str) -> (line: Line)
        ensures
            line@ == seq![span(style, text@)],
    {
        let mut spans: Vec<Span> = Vec::new();
        spans.push(Span::new(style, text));
        let line = Line { spans };
        assert(line@ =~= seq![span(style, text@)]);
        line
    }

    /// A line of three spans.
    pub fn triple(first: Span, second: Span, third: Span) -> (line: Line)
        ensures
            line@ == seq![first@, second@, third@],
    {
        let mut spans: Vec<Span> = Vec::new();
        spans.push(first);
        spans.push(second);
        spans.push(third);
        let line = Line { spans };
        assert(line@ =~= seq![first@, second@, third@]);
        line
    }

    /// The text of the line with the roles left out.
    pub fn plain_text(&self) -> (text: String)
        ensures
            text@ == plain_text_of(self@),
    {
        let mut text = String::new();
        let mut i: usize = 0;
        assert(self@.take(0) =~= Seq::<SpanView>::empty());
        while i < self.spans.len()
            invariant
                i <= self.spans.len(),
                text@ == plain_text_of(self@.take(i as int)),
            decreases self.spans.len() - i,
        {
            text.append(self.spans[i].text.as_str());
            i += 1;
            assert(self@.take(i as int).drop_last() =~= self@.take(i - 1));
        }
        assert(self@.take(self.spans.len() as int) =~= self@);
        text
    }
}

/// The line that reports an error with its cause: the opening words, a
/// space, the cause.
pub fn failure(what: &str, cause: &str) -> (line: Line)
    ensures
        line@ == failure_line(what@, cause@),
{
    Line::triple(
        Span::new(Style::Alert, what),
        Span::new(Style::Plain, " "),
        Span::new(Style::Plain, cause),
    )
}

/// The usage line that follows every usage error.
pub fn usage() -> (line: Line)
    ensures
        line@ == usage_line(),
{
    Line::single(Style::Plain, "Usage: run-this [--] <command> [arguments]")
}

/// Settles on the configuration to use. A file that is missing, unreadable
/// or malformed never ends the run: it gives the empty configuration, with a
/// warning to show unless the file is simply not there.
pub fn load_config(source: ConfigSource) -> (loaded: (Config, Option<Line>))
    ensures
        loaded.0@ == config_of(source),
        match loaded.1 {
            Some(line) => config_warning(source) == Some(line@),
            None => config_warning(source) is None,
        },
{
    match source {
        ConfigSource::Missing => (Config::new(), None),
        ConfigSource::Unreadable(cause) => (
            Config::new(),
            Some(failure("Error reading run-this.json:", cause.as_str())),
        ),
        ConfigSource::Malformed(cause) => (
            Config::new(),
            Some(failure("Error parsing run-this.json:", cause.as_str())),
        ),
        ConfigSource::Loaded(config) => (config, None),
    }
}

/// Appends guidance, as lines, to what is shown already.
fn push_guidance(lines: &mut Vec<Line>, guidance: &Guidance)
    ensures
        lines_view(final(lines)@) == lines_view(old(lines)@) + guidance_lines(guidance@),
{
    let ghost head = lines_view(lines@);
    let ghost shown = guidance@.lines;
    lines.push(Line::blank());
    lines.push(Line::single(Style::Heading, guidance.heading.as_str()));
    let ghost top = lines_view(lines@);
    assert(top =~= head + seq![Seq::empty(), seq![span(Style::Heading, guidance@.heading)]]);
    let mut i: usize = 0;
    assert(lines_view(lines@) =~= top + Seq::new(0, |k: int| seq![span(Style::Plain, shown[k])]));
    while i < guidance.lines.len()
        invariant
            i <= guidance.lines.len(),
            shown == texts(guidance.lines@),
            lines.len() == top.len() + i,
            lines_view(lines@) == top + Seq::new(i as nat, |k: int| seq![span(Style::Plain, shown[k])]),
        decreases guidance.lines.len() - i,
    {
        let ghost before = lines@;
        lines.push(Line::single(Style::Plain, guidance.lines[i].as_str()));
        i += 1;
        assert forall|k: int| 0 <= k < lines.len() implies lines_view(lines@)[k] == (top + Seq::new(
            i as nat,
            |k: int| seq![span(Style::Plain, shown[k])],
        ))[k] by {
            if k < lines.len() - 1 {
                assert(lines_view(before)[k] == lines[k]@);
            }
        }
        assert(lines_view(lines@) =~= top + Seq::new(
            i as nat,
            |k: int| seq![span(Style::Plain, shown[k])],
        ));
    }
    assert(lines_view(lines@) =~= head + guidance_lines(guidance@));
}

/// Everything to show for a command that was not found, in order: the
/// notice, a warning if the configuration file could not be used, and the
/// guidance that the configuration, the built-in table or the generic
/// suggestion gives for the command on `platform`.
pub fn not_found_report(command: &str, platform: Platform, source: ConfigSource) -> (lines: Vec<Line>)
    ensures
        lines_view(lines@) == not_found_lines(
            command@,
            config_warning(source),
            guidance_spec(command@, platform, config_of(source)),
        ),
{
    let mut lines: Vec<Line> = Vec::new();
    lines.push(
        Line::triple(
            Span::new(Style::Alert, "Command not found:"),
            Span::new(Style::Plain, " "),
            Span::new(Style::Name, command),
        ),
    );
    lines.push(
        Line::triple(
            Span::new(Style::Plain, "You don't have "),
            Span::new(Style::Name, command),
            Span::new(Style::Plain, " installed on this system."),
        ),
    );
    assert(lines_view(lines@) =~= notice_lines(command@));
    let (config, warning) = load_config(source);
    if let Some(line) = warning {
        let ghost before = lines_view(lines@);
        lines.push(line);
        assert(lines_view(lines@) =~= before + seq![line@]);
    }
    let guidance = guidance_for(command, platform, &config);
    push_guidance(&mut lines, &guidance);
    lines
}

} // verus!
