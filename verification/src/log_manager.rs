//! The lines of the application's log, read back as entries.
//!
//! A line reads `date time [LEVEL] module: message`.

use vstd::prelude::*;
use crate::text::{
    find_char_from, find_pair, first_index, first_pair, lemma_first_index_bounds, slice_chars,
    str_chars, str_to_uppercase, string_from_chars, trim_chars, trimmed, uppercase,
};
use crate::views::{view_opt, view_seq};

verus! {

/// One line of the log.
#[derive(Debug, Clone, PartialEq, Eq)]
pub struct LogEntry {
    pub timestamp: String,
    pub level: String,
    pub source: String,
    pub module: String,
    pub message: String,
}

/// The mathematical value of a [`LogEntry`].
pub struct LogEntryView {
    pub timestamp: Seq<char>,
    pub level: Seq<char>,
    pub source: Seq<char>,
    pub module: Seq<char>,
    pub message: Seq<char>,
}

impl View for LogEntry {
    type V = LogEntryView;

    open spec fn view(&self) -> LogEntryView {
        LogEntryView {
            timestamp: self.timestamp@,
            level: self.level@,
            source: self.source@,
            module: self.module@,
            message: self.message@,
        }
    }
}

/// The reader of the log.
pub struct LogManager;

/// Whether a character is a square bracket.
pub open spec fn is_bracket(c: char) -> bool {
    c == '[' || c == ']'
}

/// The position of the first character at or after `from` that is no square
/// bracket; the length of `s` where there is none.
pub open spec fn first_unbracketed(s: Seq<char>, from: int) -> int
    decreases s.len() - from,
{
    if from < 0 || from >= s.len() {
        s.len() as int
    } else if !is_bracket(s[from]) {
        from
    } else {
        first_unbracketed(s, from + 1)
    }
}

/// The position after the last character before `to` that is no square
/// bracket; zero where there is none.
pub open spec fn last_unbracketed_end(s: Seq<char>, to: int) -> int
    decreases to,
{
    if to <= 0 || to > s.len() {
        0
    } else if !is_bracket(s[to - 1]) {
        to
    } else {
        last_unbracketed_end(s, to - 1)
    }
}

/// `s` without the square brackets at its start and at its end.
pub open spec fn unbracketed(s: Seq<char>) -> Seq<char> {
    if first_unbracketed(s, 0) >= last_unbracketed_end(s, s.len() as int) {
        Seq::empty()
    } else {
        s.subrange(first_unbracketed(s, 0), last_unbracketed_end(s, s.len() as int))
    }
}

/// The entry that a line of the log stands for.
///
/// The first three spaces part the line in four: date, time, level and the
/// rest; a line with fewer spaces stands for no entry. The timestamp is date
/// and time with the space between them. The level is taken without the
/// square brackets around it, in upper case. The rest is module and message
/// where it holds `": "`, parted at the first; else the module is `unknown`
/// and the rest is the message.
pub open spec fn spec_parse_log_line(line: Seq<char>) -> Option<LogEntryView> {
    let first = first_index(line, ' ', 0);
    let second = first_index(line, ' ', first + 1);
    let third = first_index(line, ' ', second + 1);
    if first >= line.len() || second >= line.len() || third >= line.len() {
        None
    } else {
        let rest = line.skip(third + 1);
        let colon = first_pair(rest, ':', ' ', 0);
        Some(
            LogEntryView {
                timestamp: line.take(second),
                level: uppercase(unbracketed(line.subrange(second + 1, third))),
                source: "backend"@,
                module: if colon < rest.len() {
                    rest.take(colon)
                } else {
                    "unknown"@
                },
                message: if colon < rest.len() {
                    rest.skip(colon + 2)
                } else {
                    rest
                },
            },
        )
    }
}

/// `s` without the square brackets at its start and at its end.
fn strip_brackets(s: &Vec<char>) -> (r: Vec<char>)
    ensures
        r@ == unbracketed(s@),
{
    let mut start: usize = 0;
    while start < s.len() && (s[start] == '[' || s[start] == ']')
        invariant
            start <= s@.len(),
            first_unbracketed(s@, 0) == first_unbracketed(s@, start as int),
        decreases s@.len() - start,
    {
        start += 1;
    }
    let mut end: usize = s.len();
    while end > 0 && (s[end - 1] == '[' || s[end - 1] == ']')
        invariant
            end <= s@.len(),
            last_unbracketed_end(s@, s@.len() as int) == last_unbracketed_end(s@, end as int),
        decreases end,
    {
        end -= 1;
    }
    if start >= end {
        Vec::new()
    } else {
        slice_chars(s, start, end)
    }
}

/// The line of a text that begins at `from`, without its line ending: what
/// stands before the next line feed, less a carriage return right before it.
pub open spec fn line_at(content: Seq<char>, from: int) -> Seq<char> {
    let end = first_index(content, '\n', from);
    let raw = content.subrange(from, end);
    if end < content.len() && raw.len() > 0 && raw.last() == '\r' {
        raw.drop_last()
    } else {
        raw
    }
}

/// The entries of a line and of what follows it: the line's entry first,
/// unless the line is of white space only or stands for no entry.
pub open spec fn with_line(line: Seq<char>, rest: Seq<LogEntryView>) -> Seq<LogEntryView> {
    if trimmed(line).len() == 0 {
        rest
    } else {
        match spec_parse_log_line(line) {
            Some(entry) => seq![entry] + rest,
            None => rest,
        }
    }
}

/// The entries that the lines of a text from `from` on stand for, in order.
/// A line of white space only, and a line that stands for no entry, is passed
/// over.
pub open spec fn entries_from(content: Seq<char>, from: int) -> Seq<LogEntryView>
    decreases content.len() - from,
{
    if from < 0 || from >= content.len() {
        Seq::empty()
    } else {
        proof {
            lemma_first_index_bounds(content, '\n', from);
        }
        with_line(
            line_at(content, from),
            if first_index(content, '\n', from) < content.len() {
                entries_from(content, first_index(content, '\n', from) + 1)
            } else {
                Seq::empty()
            },
        )
    }
}

/// The entries that the text of a log stands for.
pub open spec fn spec_parse_logs(content: Seq<char>) -> Seq<LogEntryView> {
    entries_from(content, 0)
}

impl LogManager {
    /// Reads one line of the log.
    pub fn parse_log_line(line: &str) -> (r: Option<LogEntry>)
        ensures
            view_opt(r) == spec_parse_log_line(line@),
    {
        let chars = str_chars(line);
        LogManager::parse_log_chars(&chars)
    }

    /// Reads the text of a log, line by line.
    pub fn parse_logs(content: &str) -> (r: Vec<LogEntry>)
        ensures
            view_seq(r@) == spec_parse_logs(content@),
    {
        let chars = str_chars(content);
        let mut entries: Vec<LogEntry> = Vec::new();
        let mut from: usize = 0;
        assert(view_seq(entries@) + entries_from(chars@, 0) =~= entries_from(chars@, 0));
        while from < chars.len()
            invariant
                chars@ == content@,
                view_seq(entries@) + entries_from(chars@, from as int) == spec_parse_logs(
                    content@,
                ),
            decreases chars@.len() - from,
        {
            let end = find_char_from(&chars, '\n', from);
            let line = if end < chars.len() && end > from && chars[end - 1] == '\r' {
                slice_chars(&chars, from, end - 1)
            } else {
                slice_chars(&chars, from, end)
            };
            proof {
                let raw = chars@.subrange(from as int, end as int);
                if end < chars@.len() && raw.len() > 0 && raw.last() == '\r' {
                    assert(raw.drop_last() =~= chars@.subrange(from as int, end - 1));
                }
                assert(line@ == line_at(chars@, from as int));
            }
            let ghost before = view_seq(entries@);
            if trim_chars(&line).len() > 0 {
                match LogManager::parse_log_chars(&line) {
                    Some(entry) => {
                        let ghost added = entry@;
                        entries.push(entry);
                        proof {
                            assert(view_seq(entries@) =~= before.push(added));
                            assert(before.push(added) + entries_from(chars@, end + 1) =~= before
                                + (seq![added] + entries_from(chars@, end + 1)));
                        }
                    },
                    None => {},
                }
            }
            if end >= chars.len() {
                proof {
                    assert(entries_from(chars@, end + 1) =~= Seq::<LogEntryView>::empty());
                    assert(view_seq(entries@) + Seq::<LogEntryView>::empty() =~= view_seq(
                        entries@,
                    ));
                }
                return entries;
            }
            from = end + 1;
        }
        proof {
            assert(view_seq(entries@) + Seq::<LogEntryView>::empty() =~= view_seq(entries@));
        }
        entries
    }

    /// Reads one line of the log from its characters.
    fn parse_log_chars(chars: &Vec<char>) -> (r: Option<LogEntry>)
        ensures
            view_opt(r) == spec_parse_log_line(chars@),
    {
        let first = find_char_from(&chars, ' ', 0);
        if first >= chars.len() {
            return None;
        }
        let second = find_char_from(&chars, ' ', first + 1);
        if second >= chars.len() {
            return None;
        }
        let third = find_char_from(&chars, ' ', second + 1);
        if third >= chars.len() {
            return None;
        }
        let timestamp = slice_chars(&chars, 0, second);
        let level_part = slice_chars(&chars, second + 1, third);
        let level = strip_brackets(&level_part);
        let rest = slice_chars(&chars, third + 1, chars.len());
        let colon = find_pair(&rest, ':', ' ');
        let (module, message) = if colon < rest.len() {
            (
                string_from_chars(&slice_chars(&rest, 0, colon)),
                string_from_chars(&slice_chars(&rest, colon + 2, rest.len())),
            )
        } else {
            ("unknown".to_string(), string_from_chars(&rest))
        };
        Some(
            LogEntry {
                timestamp: string_from_chars(&timestamp),
                level: str_to_uppercase(string_from_chars(&level).as_str()),
                source: "backend".to_string(),
                module,
                message,
            },
        )
    }
}

} // verus!
