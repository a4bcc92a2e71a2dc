use vstd::prelude::*;
use vstd::string::StringExecFns;

use anstyle::{Color, Effects, Style};

use crate::level::Level;

verus! {

/// Seconds past the Unix epoch from which the RFC 3339 rendering has no
/// four-digit year any more (the first second of year 10000).
pub const TIMESTAMP_LIMIT: u64 = 253_402_300_800;

/// An instant as seconds and nanoseconds past the Unix epoch.
#[derive(Clone, Copy, Debug, PartialEq, Eq, Structural)]
pub struct Timestamp {
    pub secs: u64,
    pub nanos: u32,
}

impl Timestamp {
    /// A normalised instant that RFC 3339 can render.
    pub open spec fn wf(self) -> bool {
        self.secs < TIMESTAMP_LIMIT && self.nanos < 1_000_000_000
    }
}

/// The RFC 3339 rendering of an instant, in UTC with microseconds.
pub uninterp spec fn rfc3339_micros(secs: u64, nanos: u32) -> Seq<char>;

/// Relies on `humantime::format_rfc3339_micros`: the UTC rendering of the
/// instant with microseconds, which fails from year 10000 on.
#[verifier::external_body]
fn format_rfc3339_micros(ts: Timestamp) -> (r: String)
    requires
        ts.wf(),
    ensures
        r@ == rfc3339_micros(ts.secs, ts.nanos),
{
    let t = std::time::UNIX_EPOCH + std::time::Duration::new(ts.secs, ts.nanos);
    humantime::format_rfc3339_micros(t).to_string()
}

/// The timestamp field of a line: the rendered instant and one space, or
/// nothing where timestamps are off.
pub open spec fn timestamp_text(ts: Option<Timestamp>) -> Seq<char> {
    match ts {
        Some(t) => rfc3339_micros(t.secs, t.nanos) + seq![' '],
        None => Seq::empty(),
    }
}

/// Renders the timestamp field of a line.
pub fn timestamp_field(ts: Option<Timestamp>) -> (r: String)
    requires
        ts matches Some(t) ==> t.wf(),
    ensures
        r@ == timestamp_text(ts),
{
    match ts {
        Some(t) => {
            let mut s = format_rfc3339_micros(t);
            s.append(" ");
            proof { reveal_strlit(" "); }
            assert(s@ =~= timestamp_text(ts));
            s
        },
        None => {
            let s = String::new();
            assert(s@ =~= timestamp_text(ts));
            s
        },
    }
}

/// Terminal foreground colours used for levels.
#[derive(Clone, Copy, Debug, PartialEq, Eq, Structural)]
pub enum AnsiColor {
    Magenta,
    Blue,
    Green,
    Yellow,
    BrightRed,
}

/// A terminal text style: an optional foreground colour and three effects.
#[derive(Clone, Copy, Debug, PartialEq, Eq, Structural)]
pub struct TextStyle {
    pub fg: Option<AnsiColor>,
    pub bold: bool,
    pub dimmed: bool,
    pub italic: bool,
}

impl TextStyle {
    /// A style that changes nothing.
    pub open spec fn is_plain(self) -> bool {
        self.fg is None && !self.bold && !self.dimmed && !self.italic
    }
}

/// The ANSI escape codes that switch a style on.
pub uninterp spec fn ansi_codes(style: TextStyle) -> Seq<char>;

/// The ANSI reset code.
pub open spec fn reset_code() -> Seq<char> {
    seq!['\x1b', '[', '0', 'm']
}

/// What switches a style off again: the reset code, or nothing for a plain style.
pub open spec fn reset_text(style: TextStyle) -> Seq<char> {
    if style.is_plain() {
        Seq::empty()
    } else {
        reset_code()
    }
}

/// Relies on `anstyle::Style::render`: the escape codes of the style's
/// effects and foreground colour.
#[verifier::external_body]
fn render_style(style: TextStyle) -> (r: String)
    ensures
        r@ == ansi_codes(style),
{
    let fg = style.fg.map(|c| Color::Ansi(match c {
        AnsiColor::Magenta => anstyle::AnsiColor::Magenta,
        AnsiColor::Blue => anstyle::AnsiColor::Blue,
        AnsiColor::Green => anstyle::AnsiColor::Green,
        AnsiColor::Yellow => anstyle::AnsiColor::Yellow,
        AnsiColor::BrightRed => anstyle::AnsiColor::BrightRed,
    }));
    let e = Effects::new().set(Effects::BOLD, style.bold).set(Effects::DIMMED, style.dimmed);
    let e = e.set(Effects::ITALIC, style.italic);
    Style::new().fg_color(fg).effects(e).render().to_string()
}

/// Relies on `anstyle::Style::render_reset`: "\x1b[0m" unless the style
/// equals `Style::new()`, in which case nothing.
#[verifier::external_body]
fn render_reset(style: TextStyle) -> (r: String)
    ensures
        r@ == reset_text(style),
{
    let fg = style.fg.map(|c| Color::Ansi(match c {
        AnsiColor::Magenta => anstyle::AnsiColor::Magenta,
        AnsiColor::Blue => anstyle::AnsiColor::Blue,
        AnsiColor::Green => anstyle::AnsiColor::Green,
        AnsiColor::Yellow => anstyle::AnsiColor::Yellow,
        AnsiColor::BrightRed => anstyle::AnsiColor::BrightRed,
    }));
    let e = Effects::new().set(Effects::BOLD, style.bold).set(Effects::DIMMED, style.dimmed);
    let e = e.set(Effects::ITALIC, style.italic);
    Style::new().fg_color(fg).effects(e).render_reset().to_string()
}

/// The style of the frame round the fields: dimmed.
pub open spec fn dim_style() -> TextStyle {
    TextStyle { fg: None, bold: false, dimmed: true, italic: false }
}

/// The style of the timestamp and the origin: italic.
pub open spec fn italic_style() -> TextStyle {
    TextStyle { fg: None, bold: false, dimmed: false, italic: true }
}

/// The colour of a level on the console.
pub open spec fn level_color(l: Level) -> AnsiColor {
    match l {
        Level::Trace => AnsiColor::Magenta,
        Level::Debug => AnsiColor::Blue,
        Level::Info => AnsiColor::Green,
        Level::Warn => AnsiColor::Yellow,
        Level::Error => AnsiColor::BrightRed,
    }
}

/// The style of a level's name on the console: bold, in the level's colour.
pub open spec fn level_style(l: Level) -> TextStyle {
    TextStyle { fg: Some(level_color(l)), bold: true, dimmed: false, italic: false }
}

/// The codes that switch the three styles of a line on and off.
pub struct LineCodes {
    pub dim: Seq<char>,
    pub dim_off: Seq<char>,
    pub italic: Seq<char>,
    pub italic_off: Seq<char>,
    pub level: Seq<char>,
    pub level_off: Seq<char>,
}

/// No codes at all.
pub open spec fn plain_codes() -> LineCodes {
    LineCodes {
        dim: Seq::empty(),
        dim_off: Seq::empty(),
        italic: Seq::empty(),
        italic_off: Seq::empty(),
        level: Seq::empty(),
        level_off: Seq::empty(),
    }
}

/// The codes of the console styles for a record of level `l`.
pub open spec fn styled_codes(l: Level) -> LineCodes {
    LineCodes {
        dim: ansi_codes(dim_style()),
        dim_off: reset_text(dim_style()),
        italic: ansi_codes(italic_style()),
        italic_off: reset_text(italic_style()),
        level: ansi_codes(level_style(l)),
        level_off: reset_text(level_style(l)),
    }
}

/// One record as a line, with the given codes round its fields:
/// `[<timestamp><level> <origin>] <message>` and a newline.
pub open spec fn framed_line(
    c: LineCodes,
    ts: Seq<char>,
    l: Level,
    origin: Seq<char>,
    msg: Seq<char>,
) -> Seq<char> {
    c.dim + seq!['['] + c.italic + ts + c.italic_off + c.level + l.padded_name() + c.level_off
        + seq![' '] + c.dim + c.italic + origin + c.italic_off + c.dim + seq![']'] + c.dim_off
        + seq![' '] + msg + seq!['\n']
}

/// The console line of a record, styled or plain.
pub open spec fn console_text(
    ts: Seq<char>,
    l: Level,
    origin: Seq<char>,
    msg: Seq<char>,
    styled: bool,
) -> Seq<char> {
    framed_line(if styled { styled_codes(l) } else { plain_codes() }, ts, l, origin, msg)
}

/// The file line of a record: `[<timestamp><level> <origin>] <message>` and a newline.
pub open spec fn file_text(ts: Seq<char>, l: Level, origin: Seq<char>, msg: Seq<char>) -> Seq<char> {
    seq!['['] + ts + l.padded_name() + seq![' '] + origin + seq![']', ' '] + msg + seq!['\n']
}

/// Without styling a console line holds exactly what the file line holds.
pub proof fn lemma_plain_console_is_file_line(
    ts: Seq<char>,
    l: Level,
    origin: Seq<char>,
    msg: Seq<char>,
)
    ensures
        console_text(ts, l, origin, msg, false) == file_text(ts, l, origin, msg),
{
    assert(console_text(ts, l, origin, msg, false) =~= file_text(ts, l, origin, msg));
}

/// Formats the console line of a record of level `l`; `ts` is its
/// timestamp field.
pub fn console_line(ts: &str, l: Level, origin: &str, msg: &str, styled: bool) -> (r: String)
    ensures
        r@ == console_text(ts@, l, origin@, msg@, styled),
{
    let dim = TextStyle { fg: None, bold: false, dimmed: true, italic: false };
    let italic = TextStyle { fg: None, bold: false, dimmed: false, italic: true };
    let color = match l {
        Level::Trace => AnsiColor::Magenta,
        Level::Debug => AnsiColor::Blue,
        Level::Info => AnsiColor::Green,
        Level::Warn => AnsiColor::Yellow,
        Level::Error => AnsiColor::BrightRed,
    };
    let lv = TextStyle { fg: Some(color), bold: true, dimmed: false, italic: false };
    let (d, d_off, i, i_off, c, c_off) = if styled {
        (
            render_style(dim),
            render_reset(dim),
            render_style(italic),
            render_reset(italic),
            render_style(lv),
            render_reset(lv),
        )
    } else {
        (String::new(), String::new(), String::new(), String::new(), String::new(), String::new())
    };
    let ghost codes = if styled { styled_codes(l) } else { plain_codes() };
    assert(d@ == codes.dim && d_off@ == codes.dim_off && i@ == codes.italic);
    assert(i_off@ == codes.italic_off && c@ == codes.level && c_off@ == codes.level_off);
    proof {
        reveal_strlit("[");
        reveal_strlit("]");
        reveal_strlit(" ");
        reveal_strlit("\n");
    }
    let mut s = d.clone();
    s.append("[");
    s.append(i.as_str());
    s.append(ts);
    s.append(i_off.as_str());
    s.append(c.as_str());
    s.append(l.padded());
    s.append(c_off.as_str());
    s.append(" ");
    s.append(d.as_str());
    s.append(i.as_str());
    s.append(origin);
    s.append(i_off.as_str());
    s.append(d.as_str());
    s.append("]");
    s.append(d_off.as_str());
    s.append(" ");
    s.append(msg);
    s.append("\n");
    assert(s@ =~= framed_line(codes, ts@, l, origin@, msg@));
    s
}

/// Formats the file line of a record of level `l`; `ts` is its timestamp
/// field.
pub fn file_line(ts: &str, l: Level, origin: &str, msg: &str) -> (r: String)
    ensures
        r@ == file_text(ts@, l, origin@, msg@),
{
    proof {
        reveal_strlit("[");
        reveal_strlit("] ");
        reveal_strlit(" ");
        reveal_strlit("\n");
    }
    let mut s = String::new();
    s.append("[");
    s.append(ts);
    s.append(l.padded());
    s.append(" ");
    s.append(origin);
    s.append("] ");
    s.append(msg);
    s.append("\n");
    assert(s@ =~= file_text(ts@, l, origin@, msg@));
    s
}

} // verus!
