//! What the program logs and prints, as text.

use vstd::prelude::*;
use vstd::string::StringSliceAdditionalSpecFns;
use vstd::utf8::{decode_utf8, encode_utf8, is_char_boundary};

use crate::error::Error;
use crate::text::{
    find_char, first_position, lemma_encode_utf8_concat, lemma_first_position, same_text,
};

verus! {

/// How much is logged.
#[derive(Debug, Clone, Copy, PartialEq, Eq)]
pub enum LevelFilter {
    Off,
    Error,
    Warn,
    Info,
    Debug,
    Trace,
}

/// How grave a logged message is.
#[derive(Debug, Clone, Copy, PartialEq, Eq)]
pub enum Level {
    Error,
    Warn,
    Info,
    Debug,
    Trace,
}

/// The colors in which the first word of a logged line is written.
#[derive(Debug, Clone, Copy, PartialEq, Eq)]
pub enum Color {
    Red,
    Yellow,
    Cyan,
    Blue,
    BrightYellow,
}

/// A logged line in its parts.
#[derive(Debug, PartialEq, Eq)]
pub struct LogLine {
    /// The word that the line begins with, written in `color`.
    pub first: String,
    /// What follows the first word.
    pub rest: String,
    /// Where the message comes from; written dimmed behind the rest, where
    /// it is present.
    pub target: Option<String>,
    pub color: Color,
}

/// The mathematical model of a [`LogLine`].
pub struct LogLineView {
    pub first: Seq<char>,
    pub rest: Seq<char>,
    pub target: Option<Seq<char>>,
    pub color: Color,
}

impl View for LogLine {
    type V = LogLineView;

    open spec fn view(&self) -> LogLineView {
        LogLineView {
            first: self.first@,
            rest: self.rest@,
            target: self.target.deep_view(),
            color: self.color,
        }
    }
}

/// Whether messages from this target are let through: those of the HTML
/// parser's inner workings are not.
pub open spec fn spec_filter_log_message(target: Seq<char>) -> bool {
    !(target == "selectors::matching"@ || target == "html5ever::tokenizer"@ || target
        == "html5ever::tokenizer::char_ref"@ || target == "html5ever::tree_builder"@)
}

/// Filter out log messages based on target
pub fn filter_log_message(target: &str) -> (res: bool)
    ensures
        res == spec_filter_log_message(target@),
{
    !(same_text(target, "selectors::matching") || same_text(target, "html5ever::tokenizer")
        || same_text(target, "html5ever::tokenizer::char_ref") || same_text(
        target,
        "html5ever::tree_builder",
    ))
}

/// The parts of a logged line.
///
/// Errors and warnings are headed by their level. So are messages for
/// debugging and tracing, which also name their target. Any other message is
/// headed by its own first word, which ends at the first space.
pub open spec fn spec_format_log_message(msg: Seq<char>, level: Level, target: Seq<char>)
    -> LogLineView {
    match level {
        Level::Error => LogLineView {
            first: "ERROR"@,
            rest: msg,
            target: None,
            color: Color::Red,
        },
        Level::Warn => LogLineView {
            first: "WARNING"@,
            rest: msg,
            target: None,
            color: Color::Yellow,
        },
        Level::Debug => LogLineView {
            first: "DEBUG"@,
            rest: msg,
            target: Some(target),
            color: Color::Yellow,
        },
        Level::Trace => LogLineView {
            first: "TRACE"@,
            rest: msg,
            target: Some(target),
            color: Color::Cyan,
        },
        Level::Info => {
            let split = first_position(msg, ' ');
            let first = msg.take(split);
            LogLineView {
                first,
                rest: msg.skip(split + 1),
                target: None,
                color: if first == "Downloading"@ || first == "Skipping"@ {
                    Color::Blue
                } else {
                    Color::BrightYellow
                },
            }
        },
    }
}

/// Takes a logged message apart for display.
///
/// A message at the level `Info` must hold a space.
pub fn format_log_message(msg: String, level: Level, target: &str) -> (res: LogLine)
    requires
        level is Info ==> msg@.contains(' '),
    ensures
        res@ == spec_format_log_message(msg@, level, target@),
{
    match level {
        Level::Error => LogLine {
            first: String::from_str("ERROR"),
            rest: msg,
            target: None,
            color: Color::Red,
        },
        Level::Warn => LogLine {
            first: String::from_str("WARNING"),
            rest: msg,
            target: None,
            color: Color::Yellow,
        },
        Level::Debug => LogLine {
            first: String::from_str("DEBUG"),
            rest: msg,
            target: Some(String::from_str(target)),
            color: Color::Yellow,
        },
        Level::Trace => LogLine {
            first: String::from_str("TRACE"),
            rest: msg,
            target: Some(String::from_str(target)),
            color: Color::Cyan,
        },
        Level::Info => {
            let text = msg.as_str();
            let len = text.unicode_len();
            assert(text@.skip(0) == text@);
            let split = find_char(text, ' ', 0);
            proof {
                lemma_first_position(msg@, ' ');
            }
            let first_word = text.substring_char(0, split);
            let rest = text.substring_char(split + 1, len);
            let color = if same_text(first_word, "Downloading") || same_text(
                first_word,
                "Skipping",
            ) {
                Color::Blue
            } else {
                Color::BrightYellow
            };
            LogLine {
                first: String::from_str(first_word),
                rest: String::from_str(rest),
                target: None,
                color,
            }
        },
    }
}

/// The rest of a wrapped text, from the start of a word on, where the line
/// holds `current` bytes so far: a line that holds more than `length` bytes
/// is ended before the word; each word is followed by a space.
pub open spec fn spec_wrap(text: Seq<char>, length: int, current: int) -> Seq<char>
    decreases text.len(),
{
    let broken = current > length;
    let at = first_position(text, ' ');
    let part = text.take(at);
    let line = (if broken {
        "\n"@
    } else {
        Seq::<char>::empty()
    }) + part + " "@;
    if 0 <= at < text.len() {
        line + spec_wrap(
            text.skip(at + 1),
            length,
            (if broken {
                0
            } else {
                current
            }) + encode_utf8(part).len(),
        )
    } else {
        line
    }
}

/// A text with a line break before the first word that follows more than
/// `length` bytes on one line. Words are what stands between spaces.
pub open spec fn spec_text_wrap(text: Seq<char>, length: int) -> Seq<char> {
    spec_wrap(text, length, 0)
}

/// Breaks a text into lines at spaces.
pub fn text_wrap(text: &str, length: u32) -> (res: String)
    requires
        text.spec_bytes().len() <= u32::MAX,
    ensures
        res@ == spec_text_wrap(text@, length as int),
{
    let n = text.unicode_len();
    let mut output = String::new();
    let mut current_line_length: u32 = 0;
    let mut i: usize = 0;
    assert(text@.skip(0) == text@);
    loop
        invariant
            0 <= i <= n,
            n == text@.len(),
            encode_utf8(text@).len() <= u32::MAX,
            current_line_length <= encode_utf8(text@.take(i as int)).len(),
            spec_text_wrap(text@, length as int) == output@ + spec_wrap(
                text@.skip(i as int),
                length as int,
                current_line_length as int,
            ),
        decreases n - i,
    {
        let ghost rest = text@.skip(i as int);
        if current_line_length > length {
            output.append("\n");
            current_line_length = 0;
        }
        let at = find_char(text, ' ', i);
        let part = text.substring_char(i, at);
        proof {
            assert(part@ == rest.take(at - i));
            assert(text@.take(at as int) == text@.take(i as int) + part@);
            lemma_encode_utf8_concat(text@.take(i as int), part@);
            assert(text@ == text@.take(at as int) + text@.skip(at as int));
            lemma_encode_utf8_concat(text@.take(at as int), text@.skip(at as int));
        }
        output.append(part);
        output.append(" ");
        let part_len = part.as_bytes().len();
        current_line_length += part_len as u32;
        if at >= n {
            return output;
        }
        proof {
            assert(rest.skip(at - i + 1) == text@.skip(at + 1));
            assert(text@.take(at + 1) == text@.take(at as int) + seq![text@[at as int]]);
            lemma_encode_utf8_concat(text@.take(at as int), seq![text@[at as int]]);
        }
        i = at + 1;
    }
}

/// What marks a text as cut short.
pub const CUT_MARK: &'static str = "\u{e2}\u{20ac}\u{a6}";

/// A text cut to `len` bytes of UTF-8 and marked as cut, where it is longer
/// than that; else the text itself.
pub open spec fn spec_shorten_to_length(input: Seq<char>, len: int) -> Seq<char> {
    if encode_utf8(input).len() > len {
        decode_utf8(encode_utf8(input).subrange(0, len)) + CUT_MARK@
    } else {
        input
    }
}

/// Cuts a text to `len` bytes and marks it as cut, where it is longer.
///
/// A cut must not fall inside a character.
pub fn shorten_to_length(input: &str, len: usize) -> (res: String)
    requires
        input.spec_bytes().len() > len ==> is_char_boundary(input.spec_bytes(), len as int),
    ensures
        res@ == spec_shorten_to_length(input@, len as int),
{
    if input.as_bytes().len() > len {
        let (head, _) = input.split_at(len);
        proof {
            vstd::utf8::encode_utf8_decode_utf8(head@);
        }
        let mut short = head.to_owned();
        short.append(CUT_MARK);
        short
    } else {
        input.to_owned()
    }
}

/// What is logged when the download of an episode has ended: nothing where
/// it went well, that the episode is skipped where its file is already
/// there, and else the failure.
pub open spec fn spec_download_status(result: Result<(), Error>) -> Option<(Level, Seq<char>)> {
    match result {
        Ok(_) => None,
        Err(Error::FileExists(title)) => Some((Level::Info, "Skipping "@ + title@)),
        Err(error) => Some((Level::Error, error.spec_to_string())),
    }
}

/// The line to log when the download of an episode has ended, with its
/// level; `None` where there is nothing to log.
pub fn print_download_status(result: &Result<(), Error>) -> (res: Option<(Level, String)>)
    ensures
        match spec_download_status(*result) {
            Some((level, text)) => res matches Some(line) && line.0 == level && line.1@ == text,
            None => res is None,
        },
{
    match result {
        Ok(_) => None,
        Err(Error::FileExists(title)) => {
            let mut line = String::from_str("Skipping ");
            line.append(title.as_str());
            Some((Level::Info, line))
        },
        Err(error) => Some((Level::Error, error.to_string())),
    }
}

} // verus!
