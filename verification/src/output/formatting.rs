//! Module for formatting episode as strings

use vstd::prelude::*;

use crate::feed::{Episode, Podcast};
use crate::text::same_text;

verus! {

/// What stands for a value that is absent.
pub const UNKNOWN: &'static str = "UNKNOWN";

/// The ways in which a template can ask for a value to be written.
#[derive(Debug, Clone, Copy, PartialEq, Eq)]
pub enum Format {
    Display,
    Debug,
    Octal,
    LowerHex,
    UpperHex,
    Binary,
    LowerExp,
    UpperExp,
}

/// A value that a template can name.
#[derive(Debug, PartialEq, Clone, Copy)]
pub enum Variant<'a> {
    String(&'a String),
    Int(usize),
    OptionInt(&'a Option<usize>),
    OptionString(&'a Option<String>),
}

/// The text of one decimal digit.
pub open spec fn spec_digit(d: int) -> Seq<char> {
    if d == 0 {
        "0"@
    } else if d == 1 {
        "1"@
    } else if d == 2 {
        "2"@
    } else if d == 3 {
        "3"@
    } else if d == 4 {
        "4"@
    } else if d == 5 {
        "5"@
    } else if d == 6 {
        "6"@
    } else if d == 7 {
        "7"@
    } else if d == 8 {
        "8"@
    } else {
        "9"@
    }
}

/// A number written in decimal digits.
pub open spec fn spec_decimal(n: nat) -> Seq<char>
    decreases n,
{
    if n < 10 {
        spec_digit(n as int)
    } else {
        spec_decimal(n / 10) + spec_digit((n % 10) as int)
    }
}

/// The text of one decimal digit.
fn digit(d: usize) -> (res: &'static str)
    requires
        d < 10,
    ensures
        res@ == spec_digit(d as int),
{
    if d == 0 {
        "0"
    } else if d == 1 {
        "1"
    } else if d == 2 {
        "2"
    } else if d == 3 {
        "3"
    } else if d == 4 {
        "4"
    } else if d == 5 {
        "5"
    } else if d == 6 {
        "6"
    } else if d == 7 {
        "7"
    } else if d == 8 {
        "8"
    } else {
        "9"
    }
}

/// Writes a number in decimal digits.
pub fn decimal(n: usize) -> (res: String)
    ensures
        res@ == spec_decimal(n as nat),
    decreases n,
{
    if n < 10 {
        String::from_str(digit(n))
    } else {
        let mut text = decimal(n / 10);
        text.append(digit(n % 10));
        text
    }
}

/// The number that a value holds, for the formats that write numbers.
pub fn format_int(variant: &Variant) -> (res: Result<usize, ()>)
    ensures
        res == variant.spec_to_usize(),
{
    match variant {
        Variant::Int(val) => Ok(*val),
        Variant::OptionInt(x) => match x {
            Some(val) => Ok(*val),
            None => Err(()),
        },
        _ => Err(()),
    }
}

impl<'a> Variant<'a> {
    /// Whether the value can be written in a format: a number in any, a text
    /// as it is or for debugging, and a number that is absent only for
    /// debugging.
    pub open spec fn spec_supports_format(&self, format: Format) -> bool {
        match self {
            Variant::Int(_) => true,
            Variant::String(_) | Variant::OptionString(_) => format is Display || format is Debug,
            Variant::OptionInt(x) => **x is Some || format is Debug,
        }
    }

    /// The number that the value holds, where it holds one.
    pub open spec fn spec_to_usize(&self) -> Result<usize, ()> {
        match self {
            Variant::Int(val) => Ok(*val),
            Variant::OptionInt(x) => match **x {
                Some(val) => Ok(val),
                None => Err(()),
            },
            _ => Err(()),
        }
    }

    /// The value as it is displayed: a text as it is, a number in decimal
    /// digits, and `UNKNOWN` for what is absent.
    pub open spec fn spec_fmt_display(&self) -> Seq<char> {
        match self {
            Variant::Int(val) => spec_decimal(*val as nat),
            Variant::String(val) => val@,
            Variant::OptionString(x) => match **x {
                Some(val) => val@,
                None => UNKNOWN@,
            },
            Variant::OptionInt(x) => match **x {
                Some(val) => spec_decimal(val as nat),
                None => UNKNOWN@,
            },
        }
    }

    /// Whether the value can be written in a format.
    pub fn supports_format(&self, format: Format) -> (res: bool)
        ensures
            res == self.spec_supports_format(format),
    {
        match self {
            Self::Int(_) => true,
            Self::String(_) | Self::OptionString(_) => match format {
                Format::Display | Format::Debug => true,
                _ => false,
            },
            Self::OptionInt(x) => {
                match x {
                    Some(_) => true,
                    None => {
                        match format {
                            Format::Debug => true,
                            _ => false,
                        }
                    },
                }
            },
        }
    }

    /// The value as it is displayed.
    pub fn fmt_display(&self) -> (res: String)
        ensures
            res@ == self.spec_fmt_display(),
    {
        match self {
            Self::Int(val) => decimal(*val),
            Self::String(val) => (*val).clone(),
            Self::OptionString(x) => {
                match x {
                    Some(val) => val.clone(),
                    None => String::from_str(UNKNOWN),
                }
            },
            Self::OptionInt(x) => {
                match x {
                    Some(val) => decimal(*val),
                    None => String::from_str(UNKNOWN),
                }
            },
        }
    }

    /// The number that the value holds, where it holds one.
    pub fn to_usize(&self) -> (res: Result<usize, ()>)
        ensures
            res == self.spec_to_usize(),
    {
        match self {
            Variant::Int(val) => Ok(*val),
            Variant::OptionInt(x) => match x {
                Some(val) => Ok(*val),
                None => Err(()),
            },
            _ => Err(()),
        }
    }
}

/// The values that an output template can name, each with its name.
pub fn episode_options<'a>(podcast: &'a Podcast, episode: &'a Episode) -> (res: Vec<
    (&'static str, Variant<'a>),
>)
    ensures
        res@.len() == 4,
        res@[0].0@ == "podcast_title"@ && res@[0].1 == Variant::String(&podcast.title),
        res@[1].0@ == "episode_title"@ && res@[1].1 == Variant::String(&episode.title),
        res@[2].0@ == "episode_index"@ && res@[2].1 == Variant::OptionInt(&episode.index),
        res@[3].0@ == "episode_author"@ && res@[3].1 == Variant::OptionString(&episode.author),
{
    let mut options: Vec<(&'static str, Variant<'a>)> = Vec::new();
    options.push(("podcast_title", Variant::String(&podcast.title)));
    options.push(("episode_title", Variant::String(&episode.title)));
    options.push(("episode_index", Variant::OptionInt(&episode.index)));
    options.push(("episode_author", Variant::OptionString(&episode.author)));
    options
}

/// A text without the occurrences of a pattern: they are taken out from the
/// left, each where the last one ended. An empty pattern takes nothing out.
pub open spec fn spec_remove_all(text: Seq<char>, pattern: Seq<char>) -> Seq<char>
    decreases text.len(),
{
    if pattern.len() == 0 || text.len() < pattern.len() {
        text
    } else if text.subrange(0, pattern.len() as int) == pattern {
        spec_remove_all(text.skip(pattern.len() as int), pattern)
    } else {
        seq![text[0]] + spec_remove_all(text.skip(1), pattern)
    }
}

/// A text from which each of the patterns was taken out in turn.
pub open spec fn spec_remove_from_output(text: Seq<char>, patterns: Seq<Seq<char>>) -> Seq<char>
    decreases patterns.len(),
{
    if patterns.len() == 0 {
        text
    } else {
        spec_remove_from_output(spec_remove_all(text, patterns[0]), patterns.drop_first())
    }
}

/// Takes the occurrences of a pattern out of a text.
pub fn remove_all(text: &str, pattern: &str) -> (res: String)
    ensures
        res@ == spec_remove_all(text@, pattern@),
{
    let n = text.unicode_len();
    let m = pattern.unicode_len();
    if m == 0 {
        return text.to_owned();
    }
    let mut kept = String::new();
    let mut i: usize = 0;
    assert(text@.skip(0) == text@);
    while i < n
        invariant
            0 <= i <= n,
            n == text@.len(),
            m == pattern@.len(),
            m > 0,
            spec_remove_all(text@, pattern@) == kept@ + spec_remove_all(
                text@.skip(i as int),
                pattern@,
            ),
        decreases n - i,
    {
        let ghost rest = text@.skip(i as int);
        if n - i < m {
            kept.append(text.substring_char(i, n));
            i = n;
        } else if same_text(text.substring_char(i, i + m), pattern) {
            assert(text@.subrange(i as int, i + m) == rest.subrange(0, m as int));
            assert(rest.skip(m as int) == text@.skip(i + m));
            i += m;
        } else {
            assert(text@.subrange(i as int, i + m) == rest.subrange(0, m as int));
            kept.append(text.substring_char(i, i + 1));
            assert(rest.skip(1) == text@.skip(i + 1));
            i += 1;
        }
    }
    kept
}

/// Takes each of the patterns out of a text, one after the other.
pub fn remove_from_output(formatted: String, patterns: &Vec<String>) -> (res: String)
    ensures
        res@ == spec_remove_from_output(formatted@, patterns.deep_view()),
{
    let ghost all = patterns.deep_view();
    let ghost start = formatted@;
    let mut text = formatted;
    let mut i: usize = 0;
    assert(all.skip(0) == all);
    while i < patterns.len()
        invariant
            0 <= i <= patterns.len(),
            all == patterns.deep_view(),
            spec_remove_from_output(start, all) == spec_remove_from_output(
                text@,
                all.skip(i as int),
            ),
        decreases patterns.len() - i,
    {
        let ghost rest = all.skip(i as int);
        assert(rest.drop_first() == all.skip(i + 1));
        text = remove_all(text.as_str(), patterns[i].as_str());
        i += 1;
    }
    text
}

} // verus!
