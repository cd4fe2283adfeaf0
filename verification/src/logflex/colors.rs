//! Colors per log level, and the colored rendering of a level name.

use colored::Color as Ansi;
use crate::text::{decimal, pad_right, push_padded_right};
use vstd::prelude::*;
use vstd::string::*;

verus! {

/// The severity of a log record, most severe first.
#[derive(Clone, Copy, Debug, PartialEq, Eq, Structural)]
pub enum Level {
    Error,
    Warn,
    Info,
    Debug,
    Trace,
}

/// A terminal color, as the `colored` crate names them.
#[derive(Clone, Copy, Debug, PartialEq, Eq, Structural)]
pub enum Color {
    Black,
    Red,
    Green,
    Yellow,
    Blue,
    Magenta,
    Cyan,
    White,
    BrightBlack,
    BrightRed,
    BrightGreen,
    BrightYellow,
    BrightBlue,
    BrightMagenta,
    BrightCyan,
    BrightWhite,
    AnsiColor(u8),
    TrueColor { r: u8, g: u8, b: u8 },
}

/// The upper-case name of a level.
pub open spec fn level_name(level: Level) -> Seq<char> {
    match level {
        Level::Error => seq!['E', 'R', 'R', 'O', 'R'],
        Level::Warn => seq!['W', 'A', 'R', 'N'],
        Level::Info => seq!['I', 'N', 'F', 'O'],
        Level::Debug => seq!['D', 'E', 'B', 'U', 'G'],
        Level::Trace => seq!['T', 'R', 'A', 'C', 'E'],
    }
}

/// The ANSI foreground code of a color, where it does not depend on the
/// terminal: every color but `TrueColor`.
pub open spec fn fixed_fg_code(color: Color) -> Option<Seq<char>> {
    match color {
        Color::Black => Some(seq!['3', '0']),
        Color::Red => Some(seq!['3', '1']),
        Color::Green => Some(seq!['3', '2']),
        Color::Yellow => Some(seq!['3', '3']),
        Color::Blue => Some(seq!['3', '4']),
        Color::Magenta => Some(seq!['3', '5']),
        Color::Cyan => Some(seq!['3', '6']),
        Color::White => Some(seq!['3', '7']),
        Color::BrightBlack => Some(seq!['9', '0']),
        Color::BrightRed => Some(seq!['9', '1']),
        Color::BrightGreen => Some(seq!['9', '2']),
        Color::BrightYellow => Some(seq!['9', '3']),
        Color::BrightBlue => Some(seq!['9', '4']),
        Color::BrightMagenta => Some(seq!['9', '5']),
        Color::BrightCyan => Some(seq!['9', '6']),
        Color::BrightWhite => Some(seq!['9', '7']),
        Color::AnsiColor(code) => Some(seq!['3', '8', ';', '5', ';'] + decimal(code as nat)),
        Color::TrueColor { .. } => None,
    }
}

/// Whether a color is one of the sixteen named ones.
pub open spec fn is_named_color(color: Color) -> bool {
    !(color is AnsiColor) && !(color is TrueColor)
}

/// The 24-bit foreground code `38;2;r;g;b`.
pub open spec fn truecolor_fg_code(r: u8, g: u8, b: u8) -> Seq<char> {
    seq!['3', '8', ';', '2', ';'] + decimal(r as nat) + seq![';'] + decimal(g as nat) + seq![';']
        + decimal(b as nat)
}

/// The red, green and blue components that `colored` gives a named color
/// when it looks for the named color nearest to a true color.
pub open spec fn named_rgb(color: Color) -> (int, int, int) {
    match color {
        Color::Black => (0, 0, 0),
        Color::Red => (205, 0, 0),
        Color::Green => (0, 205, 0),
        Color::Yellow => (205, 205, 0),
        Color::Blue => (0, 0, 238),
        Color::Magenta => (205, 0, 205),
        Color::Cyan => (0, 205, 205),
        Color::White => (229, 229, 229),
        Color::BrightBlack => (127, 127, 127),
        Color::BrightRed => (255, 0, 0),
        Color::BrightGreen => (0, 255, 0),
        Color::BrightYellow => (255, 255, 0),
        Color::BrightBlue => (92, 92, 255),
        Color::BrightMagenta => (255, 0, 255),
        Color::BrightCyan => (0, 255, 255),
        Color::BrightWhite => (255, 255, 255),
        _ => (0, 0, 0),
    }
}

/// The place of a named color in the order `colored` tries them (Black
/// first, BrightWhite last).
pub open spec fn named_index(color: Color) -> int {
    match color {
        Color::Black => 0,
        Color::Red => 1,
        Color::Green => 2,
        Color::Yellow => 3,
        Color::Blue => 4,
        Color::Magenta => 5,
        Color::Cyan => 6,
        Color::White => 7,
        Color::BrightBlack => 8,
        Color::BrightRed => 9,
        Color::BrightGreen => 10,
        Color::BrightYellow => 11,
        Color::BrightBlue => 12,
        Color::BrightMagenta => 13,
        Color::BrightCyan => 14,
        Color::BrightWhite => 15,
        _ => 16,
    }
}

/// The squared Euclidean distance between a named color and `(r, g, b)`.
pub open spec fn rgb_distance(color: Color, r: u8, g: u8, b: u8) -> int {
    let (cr, cg, cb) = named_rgb(color);
    (cr - r) * (cr - r) + (cg - g) * (cg - g) + (cb - b) * (cb - b)
}

/// Whether `named` is the named color nearest to `(r, g, b)`: no named color
/// is nearer, and every one tried before it is farther.
pub open spec fn is_nearest_named(named: Color, r: u8, g: u8, b: u8) -> bool {
    &&& is_named_color(named)
    &&& forall|other: Color|
        is_named_color(other) ==> rgb_distance(named, r, g, b) <= rgb_distance(other, r, g, b) && (
        named_index(other) < named_index(named) ==> rgb_distance(named, r, g, b) < rgb_distance(
            other,
            r,
            g,
            b,
        ))
}

/// Whether `code` can be the foreground code of `color`: its fixed code where
/// it has one; for a `TrueColor`, its 24-bit code or the code of the named
/// color nearest to it (which of the two the terminal settings decide).
pub open spec fn is_fg_code(color: Color, code: Seq<char>) -> bool {
    match color {
        Color::TrueColor { r, g, b } => code == truecolor_fg_code(r, g, b) || exists|named: Color|
            is_nearest_named(named, r, g, b) && fixed_fg_code(named) == Some(code),
        _ => fixed_fg_code(color) == Some(code),
    }
}

/// The name of a level, as `log::Level::as_str` gives it.
///
/// Trusted: `log::Level::as_str` returns "ERROR", "WARN", "INFO", "DEBUG" or
/// "TRACE" (its table `LOG_LEVEL_NAMES`).
#[verifier::external_body]
fn log_level_str(level: Level) -> (s: &'static str)
    ensures
        s@ == level_name(level),
{
    let level = match level {
        Level::Error => log::Level::Error,
        Level::Warn => log::Level::Warn,
        Level::Info => log::Level::Info,
        Level::Debug => log::Level::Debug,
        Level::Trace => log::Level::Trace,
    };
    level.as_str()
}

/// The ANSI foreground code of a color, as `colored::Color::to_fg_str` gives it.
///
/// Trusted: `to_fg_str` returns a fixed code for the sixteen named colors and
/// "38;5;" followed by the code for `AnsiColor`. For `TrueColor` it reads the
/// `COLORTERM` environment variable and returns either "38;2;r;g;b" or the
/// code of the named color nearest to it (squared distance to the table of
/// `into_truecolor`, the first of equally near ones as `min_by` keeps it);
/// which of the two is not stated.
#[verifier::external_body]
fn colored_fg_code(color: Color) -> (s: String)
    ensures
        is_fg_code(color, s@),
{
    match color {
        Color::Black => Ansi::Black, Color::Red => Ansi::Red, Color::Green => Ansi::Green,
        Color::Yellow => Ansi::Yellow, Color::Blue => Ansi::Blue, Color::Magenta => Ansi::Magenta,
        Color::Cyan => Ansi::Cyan, Color::White => Ansi::White, Color::BrightBlack => Ansi::BrightBlack,
        Color::BrightRed => Ansi::BrightRed, Color::BrightGreen => Ansi::BrightGreen,
        Color::BrightYellow => Ansi::BrightYellow, Color::BrightBlue => Ansi::BrightBlue,
        Color::BrightMagenta => Ansi::BrightMagenta, Color::BrightCyan => Ansi::BrightCyan,
        Color::BrightWhite => Ansi::BrightWhite, Color::AnsiColor(n) => Ansi::AnsiColor(n),
        Color::TrueColor { r, g, b } => Ansi::TrueColor { r, g, b },
    }.to_fg_str().into_owned()
}

/// A level name padded to five characters, as `{:5}` prints a level.
pub open spec fn padded_level(level: Level) -> Seq<char> {
    pad_right(level_name(level), 5)
}

/// The text that shows `level` in the foreground color of ANSI code `code`.
pub open spec fn colored_text(code: Seq<char>, level: Level) -> Seq<char> {
    seq!['\x1B', '['] + code + seq!['m'] + padded_level(level) + seq!['\x1B', '[', '0', 'm']
}

/// Whether `text` is a rendering of `level` in `color`: the escape sequence of
/// a foreground code that the color can have.
pub open spec fn is_colored_text(text: Seq<char>, color: Color, level: Level) -> bool {
    exists|code: Seq<char>| text == colored_text(code, level) && is_fg_code(color, code)
}

/// Appends the name of `level`, padded to five characters, to `out`.
pub fn push_padded_level(out: &mut String, level: Level)
    ensures
        final(out)@ == old(out)@ + padded_level(level),
{
    push_padded_right(out, log_level_str(level), 5);
}

/// The text that shows `level` in the foreground color whose ANSI code is `code`.
pub fn colored_level_text(code: &str, level: Level) -> (s: String)
    ensures
        s@ == colored_text(code@, level),
{
    proof {
        reveal_strlit("\x1B[");
        reveal_strlit("m");
        reveal_strlit("\x1B[0m");
    }
    let mut s = String::new();
    s.append("\x1B[");
    s.append(code);
    s.append("m");
    push_padded_level(&mut s, level);
    s.append("\x1B[0m");
    assert(s@ =~= colored_text(code@, level));
    s
}

/// A level together with the color to show it in.
pub struct WithFgColor {
    pub text: Level,
    pub color: Color,
}

impl WithFgColor {
    /// The text that shows the level, padded to five characters, in its color
    /// (what `Display` of this pair prints).
    pub fn render(&self) -> (s: String)
        ensures
            is_colored_text(s@, self.color, self.text),
    {
        let code = colored_fg_code(self.color);
        let s = colored_level_text(code.as_str(), self.text);
        assert(s@ == colored_text(code@, self.text));
        s
    }
}

/// Levels that can be paired with a color.
pub trait ColoredLogLevel {
    fn colored(&self, color: Color) -> WithFgColor;
}

impl ColoredLogLevel for Level {
    fn colored(&self, color: Color) -> (r: WithFgColor)
        ensures
            r.text == *self,
            r.color == color,
    {
        WithFgColor { text: *self, color: color }
    }
}

/// One color per level.
#[derive(Clone, Copy, Debug)]
pub struct ColoredLevelConfig {
    pub error: Color,
    pub warn: Color,
    pub info: Color,
    pub debug: Color,
    pub trace: Color,
}

impl ColoredLevelConfig {
    /// The color that this configuration gives `level`.
    pub open spec fn color_of(self, level: Level) -> Color {
        match level {
            Level::Error => self.error,
            Level::Warn => self.warn,
            Level::Info => self.info,
            Level::Debug => self.debug,
            Level::Trace => self.trace,
        }
    }

    /// The default configuration: red errors, yellow warnings, white otherwise.
    pub open spec fn spec_default() -> Self {
        ColoredLevelConfig {
            error: Color::Red,
            warn: Color::Yellow,
            info: Color::White,
            debug: Color::White,
            trace: Color::White,
        }
    }

    /// The default configuration.
    pub fn new() -> (r: Self)
        ensures
            r == Self::spec_default(),
    {
        Self::default()
    }

    /// This configuration with errors in `error`.
    pub fn error(self, error: Color) -> (r: Self)
        ensures
            r == (ColoredLevelConfig { error, ..self }),
    {
        let mut c = self;
        c.error = error;
        c
    }

    /// This configuration with warnings in `warn`.
    pub fn warn(self, warn: Color) -> (r: Self)
        ensures
            r == (ColoredLevelConfig { warn, ..self }),
    {
        let mut c = self;
        c.warn = warn;
        c
    }

    /// This configuration with infos in `info`.
    pub fn info(self, info: Color) -> (r: Self)
        ensures
            r == (ColoredLevelConfig { info, ..self }),
    {
        let mut c = self;
        c.info = info;
        c
    }

    /// This configuration with debug records in `debug`.
    pub fn debug(self, debug: Color) -> (r: Self)
        ensures
            r == (ColoredLevelConfig { debug, ..self }),
    {
        let mut c = self;
        c.debug = debug;
        c
    }

    /// This configuration with trace records in `trace`.
    pub fn trace(self, trace: Color) -> (r: Self)
        ensures
            r == (ColoredLevelConfig { trace, ..self }),
    {
        let mut c = self;
        c.trace = trace;
        c
    }

    /// `level` paired with its color.
    pub fn color(&self, level: Level) -> (r: WithFgColor)
        ensures
            r.text == level,
            r.color == self.color_of(level),
    {
        level.colored(self.get_color(&level))
    }

    /// The color of `level`.
    pub fn get_color(&self, level: &Level) -> (r: Color)
        ensures
            r == self.color_of(*level),
    {
        match *level {
            Level::Error => self.error,
            Level::Warn => self.warn,
            Level::Info => self.info,
            Level::Debug => self.debug,
            Level::Trace => self.trace,
        }
    }
}

/// A plain level label is exactly five characters wide, whatever the level,
/// so that the columns after it line up.
pub proof fn law_padded_level_width(level: Level)
    ensures
        padded_level(level).len() == 5,
{
}

/// Setting the color of one level changes the color of that level only.
pub proof fn law_builder_sets_one_level(cfg: ColoredLevelConfig, color: Color, level: Level)
    ensures
        (ColoredLevelConfig { error: color, ..cfg }).color_of(level) == (if level == Level::Error {
            color
        } else {
            cfg.color_of(level)
        }),
        (ColoredLevelConfig { warn: color, ..cfg }).color_of(level) == (if level == Level::Warn {
            color
        } else {
            cfg.color_of(level)
        }),
        (ColoredLevelConfig { info: color, ..cfg }).color_of(level) == (if level == Level::Info {
            color
        } else {
            cfg.color_of(level)
        }),
        (ColoredLevelConfig { debug: color, ..cfg }).color_of(level) == (if level == Level::Debug {
            color
        } else {
            cfg.color_of(level)
        }),
        (ColoredLevelConfig { trace: color, ..cfg }).color_of(level) == (if level == Level::Trace {
            color
        } else {
            cfg.color_of(level)
        }),
{
}

/// A colored label of a level with a fixed code is that code's escape
/// sequence around the level name padded to five characters, followed by the
/// reset sequence; so it always shows the same five visible characters as
/// the plain label.
pub proof fn law_colored_label_shows_padded_name(text: Seq<char>, color: Color, level: Level)
    requires
        is_colored_text(text, color, level),
    ensures
        exists|code: Seq<char>|
            text == seq!['\x1B', '['] + code + seq!['m'] + padded_level(level) + seq![
                '\x1B',
                '[',
                '0',
                'm',
            ],
        fixed_fg_code(color) matches Some(code) ==> text == colored_text(code, level),
{
}

/// A true color shows either as itself (the 24-bit code of its own r, g, b)
/// or as the named color nearest to it: when a render uses a named color's
/// code, no named color is nearer to the true color than that one.
pub proof fn law_truecolor_shows_nearest(r: u8, g: u8, b: u8, text: Seq<char>, level: Level)
    requires
        is_colored_text(text, Color::TrueColor { r, g, b }, level),
    ensures
        text == colored_text(truecolor_fg_code(r, g, b), level) || exists|named: Color|
            {
                &&& is_named_color(named)
                &&& text == colored_text(fixed_fg_code(named)->0, level)
                &&& forall|other: Color|
                    is_named_color(other) ==> rgb_distance(named, r, g, b) <= rgb_distance(
                        other,
                        r,
                        g,
                        b,
                    )
            },
{
    let code = choose|code: Seq<char>|
        text == colored_text(code, level) && is_fg_code(Color::TrueColor { r, g, b }, code);
    if code != truecolor_fg_code(r, g, b) {
        let named = choose|named: Color|
            is_nearest_named(named, r, g, b) && fixed_fg_code(named) == Some(code);
        assert(text == colored_text(fixed_fg_code(named)->0, level));
    }
}

/// Black shows no true color that is nearer to another named color: for a
/// pure red (255, 0, 0) the named code is that of bright red, never black.
pub proof fn law_truecolor_red_is_not_black(r: u8, code: Seq<char>)
    requires
        r >= 128,
        is_fg_code(Color::TrueColor { r, g: 0, b: 0 }, code),
    ensures
        code != seq!['3', '0'],
{
    if code == seq!['3', '0'] {
        if code != truecolor_fg_code(r, 0, 0) {
            let named = choose|named: Color|
                is_nearest_named(named, r, 0, 0) && fixed_fg_code(named) == Some(code);
            assert(named == Color::Black);
            assert(is_named_color(Color::Red));
            let ri = r as int;
            assert((205 - ri) * (205 - ri) + (0 - 0) * (0 - 0) + (0 - 0) * (0 - 0) < (0 - ri) * (0
                - ri) + (0 - 0) * (0 - 0) + (0 - 0) * (0 - 0)) by (nonlinear_arith)
                requires
                    128 <= ri <= 255,
            ;
            assert(rgb_distance(Color::Red, r, 0, 0) < rgb_distance(Color::Black, r, 0, 0));
        } else {
            assert(truecolor_fg_code(r, 0, 0).len() > 2);
        }
    }
}

impl Default for ColoredLevelConfig {
    fn default() -> (r: Self)
        ensures
            r == Self::spec_default(),
    {
        ColoredLevelConfig {
            error: Color::Red,
            warn: Color::Yellow,
            debug: Color::White,
            info: Color::White,
            trace: Color::White,
        }
    }
}

} // verus!
