//! A scrolling record of what a host has sent, hidden until asked for.

use vstd::prelude::*;
use vstd::string::*;

use crate::message::{description, HostMessage};

verus! {

/// Lines kept before the oldest are dropped.
pub const DEFAULT_LIMIT: usize = 200;

/// Whether a character is a decimal digit no greater than `max`.
pub open spec fn digit_at_most(c: char, max: char) -> bool {
    '0' <= c <= max
}

/// Whether two characters are a two-digit number from `00` to `max`.
pub open spec fn two_digits_at_most(tens: char, units: char, max: nat) -> bool {
    '0' <= tens <= '9' && '0' <= units <= '9' && (tens as nat - '0' as nat) * 10 + (units as nat - '0' as nat)
        <= max
}

/// Whether a line's stamp reads as a time of day, `[hh:mm:ss.mmm]`: hours 00 to 23, minutes 00
/// to 59, seconds 00 to 60 (a leap second), and three digits of milliseconds.
pub open spec fn time_of_day(stamp: Seq<char>) -> bool {
    &&& stamp.len() == 14
    &&& stamp[0] == '['
    &&& two_digits_at_most(stamp[1], stamp[2], 23)
    &&& stamp[3] == ':'
    &&& two_digits_at_most(stamp[4], stamp[5], 59)
    &&& stamp[6] == ':'
    &&& two_digits_at_most(stamp[7], stamp[8], 60)
    &&& stamp[9] == '.'
    &&& digit_at_most(stamp[10], '9') && digit_at_most(stamp[11], '9') && digit_at_most(stamp[12], '9')
    &&& stamp[13] == ']'
}

/// The last `limit` lines of a run, or all of them when there are fewer.
pub open spec fn newest(lines: Seq<(Seq<char>, Seq<char>)>, limit: usize) -> Seq<(Seq<char>, Seq<char>)> {
    if lines.len() > limit {
        lines.skip(lines.len() - limit)
    } else {
        lines
    }
}

/// The current time of day in the system's own zone, as `[hh:mm:ss.mmm]`.
///
/// Calls `chrono::Local::now` and formats the result with `chrono`'s `format`. The contract claims
/// the shape the pattern gives every time: `[` and `]` and the separators literally, `%H`, `%M`
/// and `%S` as two zero-padded digits (hours to 23, minutes to 59, seconds to 60 for a leap
/// second), and `%.3f` as a point and exactly three digits. Which time it shows depends on the
/// clock and is not stated.
#[verifier::external_body]
fn arrival_stamp() -> (stamp: String)
    ensures
        time_of_day(stamp@),
{
    chrono::Local::now().format("[%H:%M:%S%.3f]").to_string()
}

/// One line, stamped with the time it arrived.
#[derive(Debug, Clone, PartialEq, Eq)]
struct Line {
    stamp: String,
    text: String,
}

/// The whole state of a [`Console`].
pub struct ConsoleView {
    /// Every line held, oldest first, as its stamp and its text.
    pub lines: Seq<(Seq<char>, Seq<char>)>,
    /// Lines kept before the oldest are dropped.
    pub limit: usize,
    /// Whether the console is showing.
    pub visible: bool,
}

/// A scrolling record of what a host has sent, hidden until asked for.
///
/// Feed it [`Console::record`] for host messages, or [`Console::push`] for anything else.
#[derive(Debug, Clone)]
pub struct Console {
    entries: Vec<Line>,
    limit: usize,
    visible: bool,
}

impl View for Console {
    type V = ConsoleView;

    closed spec fn view(&self) -> ConsoleView {
        ConsoleView {
            lines: self.entries@.map_values(|line: Line| (line.stamp@, line.text@)),
            limit: self.limit,
            visible: self.visible,
        }
    }
}

impl Default for Console {
    fn default() -> (console: Self)
        ensures
            console@.lines.len() == 0,
            console@.limit == DEFAULT_LIMIT,
            !console@.visible,
    {
        Self::new()
    }
}

impl Console {
    /// Creates a hidden, empty console keeping [`DEFAULT_LIMIT`] lines.
    pub fn new() -> (console: Self)
        ensures
            console@.lines.len() == 0,
            console@.limit == DEFAULT_LIMIT,
            !console@.visible,
    {
        Self { entries: Vec::new(), limit: DEFAULT_LIMIT, visible: false }
    }

    /// Sets whether the console starts out showing.
    pub fn with_visible(self, visible: bool) -> (console: Self)
        ensures
            console@ == (ConsoleView { visible, ..self@ }),
    {
        Self { visible, ..self }
    }

    /// Sets how many lines are kept.
    pub fn with_limit(self, limit: usize) -> (console: Self)
        ensures
            console@ == (ConsoleView { limit, ..self@ }),
    {
        Self { limit, ..self }
    }

    /// Whether the console is showing.
    pub fn is_visible(&self) -> (visible: bool)
        ensures
            visible == self@.visible,
    {
        self.visible
    }

    /// Shows or hides the console.
    pub fn set_visible(&mut self, visible: bool)
        ensures
            final(self)@ == (ConsoleView { visible, ..old(self)@ }),
    {
        self.visible = visible;
    }

    /// Hides the console if it is showing, and shows it if it is not.
    pub fn toggle(&mut self)
        ensures
            final(self)@ == (ConsoleView { visible: !old(self)@.visible, ..old(self)@ }),
    {
        self.visible = !self.visible;
    }

    /// Records a line, stamped with the time it arrived, dropping the oldest beyond the limit.
    pub fn push(&mut self, text: &str)
        ensures
            exists|stamp: Seq<char>| time_of_day(stamp) && final(self)@ == (ConsoleView {
                lines: newest(old(self)@.lines.push((stamp, text@)), old(self)@.limit),
                ..old(self)@
            }),
    {
        let stamp = arrival_stamp();
        let text = text.to_owned();
        let ghost stamped = (stamp@, text@);
        self.entries.push(Line { stamp, text });
        let ghost all = old(self)@.lines.push(stamped);
        assert(self@.lines =~= all);
        let ghost mut dropped: int = 0;
        while self.entries.len() > self.limit
            invariant
                self.limit == old(self).limit,
                self.visible == old(self).visible,
                0 <= dropped <= all.len(),
                self@.lines == all.skip(dropped),
                dropped > 0 ==> all.len() - dropped >= self.limit,
            decreases self.entries.len(),
        {
            let ghost before = self@.lines;
            assert(before.len() == self.entries@.len());
            self.entries.remove(0);
            assert(self@.lines =~= before.skip(1));
            assert(before.skip(1) =~= all.skip(dropped + 1));
            proof {
                dropped = dropped + 1;
            }
        }
        assert(self@.lines =~= newest(all, self.limit));
    }

    /// Records a message from the host, written out as `{:?}` writes it.
    ///
    /// Lighting and clock messages arrive continuously and are skipped.
    pub fn record(&mut self, message: &HostMessage)
        ensures
            (message@ is Lighting || message@ is Clock) ==> final(self)@ == old(self)@,
            !(message@ is Lighting || message@ is Clock) ==> exists|stamp: Seq<char>| time_of_day(stamp)
                && final(self)@ == (ConsoleView {
                lines: newest(old(self)@.lines.push((stamp, description(message@))), old(self)@.limit),
                ..old(self)@
            }),
    {
        if matches!(message, HostMessage::Lighting { .. } | HostMessage::Clock) {
            return;
        }
        let text = message.describe();
        self.push(text.as_str());
    }

    /// Drops every line.
    pub fn clear(&mut self)
        ensures
            final(self)@ == (ConsoleView { lines: Seq::empty(), ..old(self)@ }),
    {
        self.entries.clear();
        assert(self@.lines =~= Seq::empty());
    }

    /// How many lines are held.
    pub fn len(&self) -> (count: usize)
        ensures
            count == self@.lines.len(),
    {
        self.entries.len()
    }

    /// Whether no lines are held.
    pub fn is_empty(&self) -> (empty: bool)
        ensures
            empty == (self@.lines.len() == 0),
    {
        self.entries.len() == 0
    }

    /// The lines held, oldest first, each its stamp, a space and its text.
    pub fn lines(&self) -> (lines: Vec<String>)
        ensures
            lines.len() == self@.lines.len(),
            forall|i: int| 0 <= i < lines.len() ==> #[trigger] lines@[i]@ == self@.lines[i].0 + " "@
                + self@.lines[i].1,
    {
        let mut lines: Vec<String> = Vec::new();
        let mut i: usize = 0;
        while i < self.entries.len()
            invariant
                i <= self.entries.len(),
                lines.len() == i,
                forall|j: int| 0 <= j < i ==> #[trigger] lines@[j]@ == self@.lines[j].0 + " "@ + self@.lines[j].1,
            decreases self.entries.len() - i,
        {
            let mut line = self.entries[i].stamp.clone();
            line.append(" ");
            line.append(self.entries[i].text.as_str());
            lines.push(line);
            i += 1;
        }
        lines
    }
}

} // verus!
