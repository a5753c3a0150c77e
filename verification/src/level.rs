//! Severity levels and the diagnostic lines written for them.
//!
//! Nothing here writes anywhere: each function hands back the text that a
//! caller sends to the diagnostic stream.

use crate::decimal::{decimal_text, push_decimal};
use vstd::prelude::*;
use vstd::string::*;

verus! {

/// The severity of a diagnostic line.
#[derive(Clone, Copy, Debug, PartialEq, Eq, Structural)]
pub enum Level {
    Gray,
    Debug,
    Warn,
    Error,
    Fatal,
}

/// One row of the level table: what a level is called and how it is shown.
#[derive(Clone, Copy, Debug)]
pub struct LevelEntry {
    /// The word inside the square brackets.
    pub label: &'static str,
    /// The dotted style name that the terminal library is given.
    pub style: &'static str,
    /// The escape sequence that the terminal library writes in front of a
    /// text shown in `style`.
    pub code: &'static str,
    /// The escape sequence that `set_color` writes for the level. For the
    /// fatal level it names the same color as `code` in another way.
    pub escape: &'static str,
}

/// Whether `style` is the style name of one of the levels.
pub open spec fn is_level_style(style: Seq<char>) -> bool {
    style == "248"@ || style == "magenta"@ || style == "yellow"@ || style == "red"@ || style
        == "red.bright"@
}

/// The escape sequence that the terminal library writes in front of a text
/// shown in the style named `style`, while colors are switched on; stated
/// for the style names of the levels.
pub open spec fn style_code(style: Seq<char>) -> Seq<char> {
    if style == "248"@ {
        "\x1B[38;5;248m"@
    } else if style == "magenta"@ {
        "\x1B[35m"@
    } else if style == "yellow"@ {
        "\x1B[33m"@
    } else if style == "red"@ {
        "\x1B[31m"@
    } else {
        "\x1B[38;5;9m"@
    }
}

/// The escape sequence that ends every colored stretch.
pub open spec fn reset_text() -> Seq<char> {
    "\x1B[0m"@
}

/// `text` as it is shown in a color: between the escape sequence `code` and
/// the reset sequence where `colored`, untouched where not.
pub open spec fn shown(code: Seq<char>, text: Seq<char>, colored: bool) -> Seq<char> {
    if colored {
        code + text + reset_text()
    } else {
        text
    }
}

/// A line made of a tag and a message: the two separated by one space and
/// closed by a line feed.
pub open spec fn line_text(tag: Seq<char>, message: Seq<char>) -> Seq<char> {
    tag + " "@ + message + "\n"@
}

impl Level {
    /// The word that names the level in a tag.
    pub open spec fn label_text(self) -> Seq<char> {
        match self {
            Level::Gray => "GRAY"@,
            Level::Debug => "DEBUG"@,
            Level::Warn => "WARNING"@,
            Level::Error => "ERROR"@,
            Level::Fatal => "FATAL"@,
        }
    }

    /// The dotted style name of the level.
    pub open spec fn style_text(self) -> Seq<char> {
        match self {
            Level::Gray => "248"@,
            Level::Debug => "magenta"@,
            Level::Warn => "yellow"@,
            Level::Error => "red"@,
            Level::Fatal => "red.bright"@,
        }
    }

    /// The escape sequence that the terminal library writes in front of a
    /// text shown in the level's style.
    pub open spec fn code_text(self) -> Seq<char> {
        match self {
            Level::Gray => "\x1B[38;5;248m"@,
            Level::Debug => "\x1B[35m"@,
            Level::Warn => "\x1B[33m"@,
            Level::Error => "\x1B[31m"@,
            Level::Fatal => "\x1B[38;5;9m"@,
        }
    }

    /// The escape sequence that `set_color` writes for the level.
    pub open spec fn escape_text(self) -> Seq<char> {
        match self {
            Level::Gray => "\x1B[38;5;248m"@,
            Level::Debug => "\x1B[35m"@,
            Level::Warn => "\x1B[33m"@,
            Level::Error => "\x1B[31m"@,
            Level::Fatal => "\x1B[91m"@,
        }
    }

    /// The tag of the level: its label in square brackets.
    pub open spec fn tag_text(self) -> Seq<char> {
        "["@ + self.label_text() + "]"@
    }

    /// The tag of the level with a call site in it:
    /// `[LABEL (file:line:column)]`.
    pub open spec fn tag_at_text(self, file: Seq<char>, line: nat, column: nat) -> Seq<char> {
        "["@ + self.label_text() + " ("@ + file + ":"@ + decimal_text(line) + ":"@ + decimal_text(
            column,
        ) + ")]"@
    }

    /// The level's row of the table.
    pub fn entry(self) -> (row: LevelEntry)
        ensures
            row.label@ == self.label_text(),
            row.style@ == self.style_text(),
            row.code@ == self.code_text(),
            row.escape@ == self.escape_text(),
    {
        match self {
            Level::Gray => LevelEntry {
                label: "GRAY",
                style: "248",
                code: "\x1B[38;5;248m",
                escape: "\x1B[38;5;248m",
            },
            Level::Debug => LevelEntry {
                label: "DEBUG",
                style: "magenta",
                code: "\x1B[35m",
                escape: "\x1B[35m",
            },
            Level::Warn => LevelEntry {
                label: "WARNING",
                style: "yellow",
                code: "\x1B[33m",
                escape: "\x1B[33m",
            },
            Level::Error => LevelEntry {
                label: "ERROR",
                style: "red",
                code: "\x1B[31m",
                escape: "\x1B[31m",
            },
            Level::Fatal => LevelEntry {
                label: "FATAL",
                style: "red.bright",
                code: "\x1B[38;5;9m",
                escape: "\x1B[91m",
            },
        }
    }

    /// The tag of the level.
    pub fn tag(self) -> (text: String)
        ensures
            text@ == self.tag_text(),
    {
        let mut text = String::from_str("[");
        text.append(self.entry().label);
        text.append("]");
        text
    }

    /// The tag of the level with the call site `file:line:column` in it.
    pub fn tag_at(self, file: &str, line: u32, column: u32) -> (text: String)
        ensures
            text@ == self.tag_at_text(file@, line as nat, column as nat),
    {
        let mut text = String::from_str("[");
        text.append(self.entry().label);
        text.append(" (");
        text.append(file);
        text.append(":");
        push_decimal(&mut text, line);
        text.append(":");
        push_decimal(&mut text, column);
        text.append(")]");
        text
    }
}

/// The style name of every level is one of the five, and its code is the
/// code of the level.
pub proof fn lemma_style_of_level(level: Level)
    ensures
        is_level_style(level.style_text()),
        style_code(level.style_text()) == level.code_text(),
{
    reveal_strlit("248");
    reveal_strlit("magenta");
    reveal_strlit("yellow");
    reveal_strlit("red");
    reveal_strlit("red.bright");
    assert("248"@.len() == 3 && "magenta"@.len() == 7 && "yellow"@.len() == 6);
    assert("red"@.len() == 3 && "red.bright"@.len() == 10);
    assert("248"@[0] == '2' && "red"@[0] == 'r');
}

/// Shows `text` in the style named `style`, one of the five of the levels.
///
/// Calls `console::Style::from_dotted_str` and `console::Style::apply_to`, and
/// formats what comes back. Whether the terminal library colors anything is
/// its own decision, taken from the process's surroundings, so the contract
/// claims only that the text comes back either untouched or between the
/// style's escape sequence and the reset sequence. The library writes
/// `ESC[38;5;Nm` for the color number `N`, `ESC[3Nm` for one of the eight
/// named colors, red being 1, yellow 3 and magenta 5, and `ESC[38;5;Nm` with
/// eight added for a bright one.
#[verifier::external_body]
fn styled(style: &str, text: &str) -> (out: String)
    requires
        is_level_style(style@),
    ensures
        out@ == text@ || out@ == style_code(style@) + text@ + reset_text(),
{
    console::Style::from_dotted_str(style).apply_to(text).to_string()
}

/// The line made of an already styled tag and an already styled message.
pub fn compose_line(tag: &str, message: &str) -> (line: String)
    ensures
        line@ == line_text(tag@, message@),
{
    let mut line = String::from_str(tag);
    line.append(" ");
    line.append(message);
    line.append("\n");
    line
}

/// The escape sequence that ends every colored stretch.
pub fn reset() -> (code: &'static str)
    ensures
        code@ == reset_text(),
{
    "\x1B[0m"
}

/// What a level writes when it is given nothing to say: one empty line.
pub fn blank_line() -> (line: String)
    ensures
        line@ == "\n"@,
{
    String::from_str("\n")
}

/// `line` is the line of `tag` and `message`, each of the two colored with
/// the escape sequence `code` or not.
pub open spec fn is_line_of(
    code: Seq<char>,
    tag: Seq<char>,
    message: Seq<char>,
    line: Seq<char>,
) -> bool {
    ||| line == line_text(shown(code, tag, false), shown(code, message, false))
    ||| line == line_text(shown(code, tag, false), shown(code, message, true))
    ||| line == line_text(shown(code, tag, true), shown(code, message, false))
    ||| line == line_text(shown(code, tag, true), shown(code, message, true))
}

/// The line that says `message` at `level`: the level's tag, a space, the
/// message and a line feed, tag and message each shown in the level's style.
pub fn render(level: Level, message: &str) -> (out: String)
    ensures
        is_line_of(level.code_text(), level.tag_text(), message@, out@),
{
    let row = level.entry();
    proof {
        lemma_style_of_level(level);
    }
    let tag = level.tag();
    let shown_tag = styled(row.style, tag.as_str());
    let shown_message = styled(row.style, message);
    let out = compose_line(shown_tag.as_str(), shown_message.as_str());
    proof {
        let tag_colored = shown_tag@ != level.tag_text();
        let message_colored = shown_message@ != message@;
        assert(out@ == line_text(
            shown(level.code_text(), level.tag_text(), tag_colored),
            shown(level.code_text(), message@, message_colored),
        ));
    }
    out
}

/// The line that says `message` at `level` from the call site
/// `file:line:column`.
pub fn render_at(level: Level, file: &str, line: u32, column: u32, message: &str) -> (out: String)
    ensures
        is_line_of(
            level.code_text(),
            level.tag_at_text(file@, line as nat, column as nat),
            message@,
            out@,
        ),
{
    let row = level.entry();
    proof {
        lemma_style_of_level(level);
    }
    let tag = level.tag_at(file, line, column);
    let shown_tag = styled(row.style, tag.as_str());
    let shown_message = styled(row.style, message);
    let out = compose_line(shown_tag.as_str(), shown_message.as_str());
    proof {
        let tag_text = level.tag_at_text(file@, line as nat, column as nat);
        let tag_colored = shown_tag@ != tag_text;
        let message_colored = shown_message@ != message@;
        assert(out@ == line_text(
            shown(level.code_text(), tag_text, tag_colored),
            shown(level.code_text(), message@, message_colored),
        ));
    }
    out
}

/// Without colors, the line of a level is `[LABEL] message` and a line
/// feed, and nothing else.
pub proof fn lemma_uncolored_line(level: Level, message: Seq<char>)
    ensures
        is_line_of(
            level.code_text(),
            level.tag_text(),
            message,
            "["@ + level.label_text() + "] "@ + message + "\n"@,
        ),
        line_text(
            shown(level.code_text(), level.tag_text(), false),
            shown(level.code_text(), message, false),
        ) == "["@ + level.label_text() + "] "@ + message + "\n"@,
{
    reveal_strlit("]");
    reveal_strlit(" ");
    reveal_strlit("] ");
    assert("]"@ + " "@ =~= "] "@);
    assert(line_text(level.tag_text(), message) =~= "["@ + level.label_text() + "] "@ + message
        + "\n"@);
}

/// Colored or not, what is written for a message is closed by a line feed,
/// and holds the tag and the message in this order.
pub proof fn lemma_line_ends_in_line_feed(
    code: Seq<char>,
    tag: Seq<char>,
    message: Seq<char>,
    line: Seq<char>,
)
    requires
        is_line_of(code, tag, message, line),
    ensures
        line.len() > 0,
        line.last() == '\n',
        line.len() >= tag.len() + message.len() + 2,
{
    reveal_strlit(" ");
    reveal_strlit("\n");
}

} // verus!
