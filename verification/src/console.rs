//! The GUI's console: colouring of lines, the bounded list of shown lines,
//! merging of queued updates, splitting of captured process output into lines,
//! and recognition of the control lines that the match runner prints.

use vstd::prelude::*;
use crate::text::{opt_view, ascii_lower, push_char, seq_contains, str_contains, str_eq, str_ends_with, str_remove_all, str_starts_with, remove_all, to_ascii_lowercase};

verus! {

/// The most lines the console keeps.
pub const MAX_CONSOLE_LINES: usize = 840;

/// One line of the console, with an optional colour.
#[derive(Debug)]
pub struct ConsoleText {
    pub text: String,
    pub color: Option<String>,
}

impl Clone for ConsoleText {
    fn clone(&self) -> (r: Self)
        ensures
            r == *self,
    {
        let color = match &self.color {
            Some(c) => Some(c.clone()),
            None => None,
        };
        ConsoleText { text: self.text.clone(), color }
    }
}

impl ConsoleText {
    /// A console line.
    pub fn from(text: String, color: Option<String>) -> (r: ConsoleText)
        ensures
            r.text == text,
            r.color == color,
    {
        ConsoleText { text, color }
    }
}

/// A line for the console, and whether it replaces the line shown last.
#[derive(Debug)]
pub struct ConsoleTextUpdate {
    pub content: ConsoleText,
    pub replace_last: bool,
}

impl Clone for ConsoleTextUpdate {
    fn clone(&self) -> (r: Self)
        ensures
            r == *self,
    {
        ConsoleTextUpdate { content: self.content.clone(), replace_last: self.replace_last }
    }
}

/// The colour given to a line: red for errors, amber for warnings, blue for
/// information, judged on the line's ASCII-lower-cased text.
pub open spec fn line_color(text: Seq<char>) -> Option<Seq<char>> {
    let low = ascii_lower(text);
    if seq_contains(low, "error"@) {
        Some("red"@)
    } else if seq_contains(low, "warning"@) {
        Some("#A1761B"@)
    } else if seq_contains(low, "info"@) {
        Some("blue"@)
    } else {
        None
    }
}

impl ConsoleTextUpdate {
    fn new(text: String, color: Option<String>, replace_last: bool) -> (r: Self)
        ensures
            r.content.text == text,
            r.content.color == color,
            r.replace_last == replace_last,
    {
        ConsoleTextUpdate { content: ConsoleText::from(text, color), replace_last }
    }

    /// A console update for `text`, coloured by what the text mentions.
    pub fn from(text: String, replace_last: bool) -> (r: Self)
        ensures
            r.content.text == text,
            opt_view(r.content.color) == line_color(text@),
            r.replace_last == replace_last,
    {
        let low = to_ascii_lowercase(text.as_str());
        let color = if str_contains(low.as_str(), "error") {
            Some("red".to_owned())
        } else if str_contains(low.as_str(), "warning") {
            Some("#A1761B".to_owned())
        } else if str_contains(low.as_str(), "info") {
            Some("blue".to_owned())
        } else {
            None
        };
        ConsoleTextUpdate::new(text, color, replace_last)
    }
}

/// The console lines after one update: the last line is dropped when the update
/// replaces it, the new line is appended, and the oldest line goes when there
/// are more than `MAX_CONSOLE_LINES`.
pub open spec fn console_after(lines: Seq<ConsoleText>, update: ConsoleTextUpdate) -> Seq<ConsoleText> {
    let kept = if update.replace_last && lines.len() > 0 { lines.drop_last() } else { lines };
    let pushed = kept.push(update.content);
    if pushed.len() > MAX_CONSOLE_LINES { pushed.drop_first() } else { pushed }
}

/// Applies one update to the console lines.
pub fn update_internal_console(console_text: &mut Vec<ConsoleText>, update: &ConsoleTextUpdate)
    ensures
        final(console_text)@ == console_after(old(console_text)@, *update),
{
    if update.replace_last {
        console_text.pop();
    }
    console_text.push(update.content.clone());
    if console_text.len() > MAX_CONSOLE_LINES {
        console_text.remove(0);
    }
}

/// The console never holds more than `MAX_CONSOLE_LINES` lines, and its last
/// line is the one most recently shown.
pub proof fn lemma_console_bounded(lines: Seq<ConsoleText>, update: ConsoleTextUpdate)
    requires
        lines.len() <= MAX_CONSOLE_LINES,
    ensures
        console_after(lines, update).len() <= MAX_CONSOLE_LINES,
        console_after(lines, update).len() > 0,
        console_after(lines, update).last() == update.content,
{
}

/// Queued updates with each replacing update merged into the one before it:
/// the replacing line takes the earlier line's place and its `replace_last` flag.
pub open spec fn merged_updates(s: Seq<ConsoleTextUpdate>) -> Seq<ConsoleTextUpdate>
    decreases s.len(),
{
    if s.len() == 0 {
        s
    } else {
        let prev = merged_updates(s.drop_last());
        let u = s.last();
        if u.replace_last && prev.len() > 0 {
            prev.drop_last().push(ConsoleTextUpdate { content: u.content, replace_last: prev.last().replace_last })
        } else {
            prev.push(u)
        }
    }
}

/// Merges the queued console updates before they are sent to the GUI.
pub fn merge_console_updates(updates: Vec<ConsoleTextUpdate>) -> (r: Vec<ConsoleTextUpdate>)
    ensures
        r@ == merged_updates(updates@),
        forall|i: int| 0 <= i < r@.len() ==> exists|j: int| 0 <= j < updates@.len() && (#[trigger] r@[i]).content == updates@[j].content,
        updates@.len() > 0 ==> r@.len() > 0 && r@.last().content == updates@.last().content,
{
    let ghost orig = updates@;
    proof { lemma_merged_updates_content(orig); }
    let ghost total = updates.len();
    let mut rest = updates;
    let mut r: Vec<ConsoleTextUpdate> = Vec::new();
    let mut taken: usize = 0;
    while rest.len() > 0
        invariant
            taken <= orig.len(),
            orig.len() == total,
            total <= usize::MAX,
            rest@ == orig.subrange(taken as int, orig.len() as int),
            r@ == merged_updates(orig.subrange(0, taken as int)),
        decreases rest.len(),
    {
        let u = rest.remove(0);
        proof {
            assert(orig.subrange(0, taken + 1).drop_last() =~= orig.subrange(0, taken as int));
        }
        if u.replace_last && r.len() > 0 {
            let prev = r.pop().unwrap();
            r.push(ConsoleTextUpdate { content: u.content, replace_last: prev.replace_last });
        } else {
            r.push(u);
        }
        taken = taken + 1;
        assert(rest@ =~= orig.subrange(taken as int, orig.len() as int));
    }
    assert(orig.subrange(0, taken as int) =~= orig);
    r
}

/// Merging never alters a line: the text and colour of every merged update are
/// those of some queued update, and the last merged update shows the last queued
/// update's text and colour.
pub proof fn lemma_merged_updates_content(s: Seq<ConsoleTextUpdate>)
    ensures
        forall|i: int| 0 <= i < merged_updates(s).len() ==> exists|j: int| 0 <= j < s.len()
            && (#[trigger] merged_updates(s)[i]).content == s[j].content,
        s.len() > 0 ==> merged_updates(s).len() > 0 && merged_updates(s).last().content == s.last().content,
    decreases s.len(),
{
    if s.len() > 0 {
        let rest = s.drop_last();
        lemma_merged_updates_content(rest);
        let prev = merged_updates(rest);
        let r = merged_updates(s);
        assert forall|i: int| 0 <= i < r.len() implies exists|j: int| 0 <= j < s.len() && (#[trigger] r[i]).content == s[j].content by {
            if s.last().replace_last && prev.len() > 0 {
                if i < prev.len() - 1 {
                    assert(r[i] == prev[i]);
                    let j = choose|j: int| 0 <= j < rest.len() && prev[i].content == rest[j].content;
                    assert(s[j] == rest[j]);
                } else {
                    assert(r[i].content == s[s.len() - 1].content);
                }
            } else if i < prev.len() {
                assert(r[i] == prev[i]);
                let j = choose|j: int| 0 <= j < rest.len() && prev[i].content == rest[j].content;
                assert(s[j] == rest[j]);
            } else {
                assert(r[i] == s[s.len() - 1]);
            }
        }
    }
}

/// After merging, only the first update may replace a line, and no update is added.
pub proof fn lemma_merged_updates_shape(s: Seq<ConsoleTextUpdate>)
    ensures
        merged_updates(s).len() <= s.len(),
        s.len() > 0 ==> merged_updates(s).len() > 0,
        forall|i: int| 1 <= i < merged_updates(s).len() ==> !(#[trigger] merged_updates(s)[i]).replace_last,
    decreases s.len(),
{
    if s.len() > 0 {
        lemma_merged_updates_shape(s.drop_last());
        let prev = merged_updates(s.drop_last());
        let r = merged_updates(s);
        assert forall|i: int| 1 <= i < r.len() implies !(#[trigger] r[i]).replace_last by {
            if s.last().replace_last && prev.len() > 0 {
                if i < prev.len() - 1 {
                    assert(r[i] == prev[i]);
                } else {
                    assert(prev[prev.len() - 1] == prev.last());
                }
            } else if i < prev.len() {
                assert(r[i] == prev[i]);
            }
        }
    }
}

/// The HTML that `ansi_to_html::convert` makes of a text with ANSI escape codes,
/// or `None` where it reports the codes as invalid.
pub uninterp spec fn ansi_to_html_text(s: Seq<char>) -> Option<Seq<char>>;

/// Calls `ansi_to_html::convert`, which escapes HTML and turns ANSI colour codes
/// into markup; its result is taken to depend on the text alone.
#[verifier::external_body]
fn convert_ansi(text: &str) -> (r: Option<String>)
    ensures
        opt_view(r) == ansi_to_html_text(text@),
{
    ansi_to_html::convert(text).ok()
}

/// The console update for one captured line: its ANSI codes turned into HTML,
/// then coloured; `None` when the codes cannot be converted.
pub fn console_update_for(text: &str, replace_last: bool) -> (r: Option<ConsoleTextUpdate>)
    ensures
        match ansi_to_html_text(text@) {
            None => r is None,
            Some(html) => r matches Some(u) && u.content.text@ == html && opt_view(u.content.color)
                == line_color(html) && u.replace_last == replace_last,
        },
{
    match convert_ansi(text) {
        Some(html) => Some(ConsoleTextUpdate::from(html, replace_last)),
        None => None,
    }
}

/// The character that lossy UTF-8 decoding gives for one byte on its own.
pub open spec fn lossy_char(b: u8) -> char {
    if b < 128 { b as char } else { '\u{FFFD}' }
}

/// Splits the captured output of child processes into console lines, one byte at a time.
pub struct OutputLineReader {
    /// The line read so far.
    pub text: String,
    /// Whether the line being read replaces the line shown last.
    pub will_replace_last: bool,
}

impl OutputLineReader {
    /// A reader at the start of the output.
    pub fn new() -> (r: Self)
        ensures
            r.text@.len() == 0,
            !r.will_replace_last,
    {
        OutputLineReader { text: String::new(), will_replace_last: false }
    }

    /// Takes the next byte of output, or `None` when the pipe gave nothing.
    /// Returns the finished line and whether it replaces the line shown last.
    /// A carriage return ends the line and makes the next one replace it; a line
    /// feed right after it, on an empty line, is skipped.
    pub fn feed(&mut self, byte: Option<u8>) -> (r: Option<(String, bool)>)
        ensures
            match byte {
                None => {
                    &&& r matches Some(line) && line.0@ == old(self).text@ && line.1 == old(self).will_replace_last
                    &&& final(self).text@.len() == 0 && !final(self).will_replace_last
                },
                Some(b) => if b == 10u8 {
                    if old(self).text@.len() == 0 && old(self).will_replace_last {
                        r is None && final(self).text@.len() == 0 && !final(self).will_replace_last
                    } else {
                        &&& r matches Some(line) && line.0@ == old(self).text@ && line.1 == old(self).will_replace_last
                        &&& final(self).text@.len() == 0 && !final(self).will_replace_last
                    }
                } else if b == 13u8 {
                    &&& r matches Some(line) && line.0@ == old(self).text@ && line.1 == old(self).will_replace_last
                    &&& final(self).text@.len() == 0 && final(self).will_replace_last
                } else {
                    &&& r is None
                    &&& final(self).text@ == old(self).text@.push(lossy_char(b))
                    &&& final(self).will_replace_last == old(self).will_replace_last
                },
            },
    {
        match byte {
            None => Some(self.finish_line(false)),
            Some(b) => {
                if b == 10u8 {
                    if self.text.unicode_len() == 0 && self.will_replace_last {
                        self.will_replace_last = false;
                        None
                    } else {
                        Some(self.finish_line(false))
                    }
                } else if b == 13u8 {
                    Some(self.finish_line(true))
                } else {
                    let c = if b < 128u8 { b as char } else { '\u{FFFD}' };
                    push_char(&mut self.text, c);
                    None
                }
            },
        }
    }

    fn finish_line(&mut self, next_replaces: bool) -> (r: (String, bool))
        ensures
            r.0@ == old(self).text@,
            r.1 == old(self).will_replace_last,
            final(self).text@.len() == 0,
            final(self).will_replace_last == next_replaces,
    {
        let mut line = String::new();
        std::mem::swap(&mut line, &mut self.text);
        let replace = self.will_replace_last;
        self.will_replace_last = next_replaces;
        (line, replace)
    }
}

/// What a line printed by the match runner means to the GUI.
#[derive(Debug)]
pub enum ConsoleSignal {
    /// The match could not be started.
    MatchStartFailed,
    /// The match started.
    MatchStarted,
    /// A game tick packet, as JSON.
    GameTickPacket(String),
    /// The result of a story challenge: the new save state, as JSON.
    StoryResult(String),
    /// An ordinary line for the console.
    Text,
}

/// The JSON payload of a framed control line: `text` without any marker.
pub open spec fn framed_payload(text: Seq<char>, head: Seq<char>) -> Seq<char> {
    remove_all(remove_all(text, head), "|*-|-"@)
}

/// `text` is a control line of the given kind: it starts with `head` and ends with the closing marker.
pub open spec fn is_framed(text: Seq<char>, head: Seq<char>) -> bool {
    head.is_prefix_of(text) && "|*-|-"@.is_suffix_of(text)
}

/// Recognises the control lines that the match runner prints among its output.
pub fn classify_console_text(text: &str) -> (r: ConsoleSignal)
    ensures
        if text@ == "-|-*|MATCH START FAILED|*-|-"@ {
            r is MatchStartFailed
        } else if text@ == "-|-*|MATCH STARTED|*-|-"@ {
            r is MatchStarted
        } else if is_framed(text@, "-|-*|GTP "@) {
            r matches ConsoleSignal::GameTickPacket(p) && p@ == framed_payload(text@, "-|-*|GTP "@)
        } else if is_framed(text@, "-|-*|STORY_RESULT "@) {
            r matches ConsoleSignal::StoryResult(p) && p@ == framed_payload(text@, "-|-*|STORY_RESULT "@)
        } else {
            r is Text
        },
{
    proof {
        reveal_strlit("-|-*|GTP ");
        reveal_strlit("-|-*|STORY_RESULT ");
        reveal_strlit("|*-|-");
    }
    if str_eq(text, "-|-*|MATCH START FAILED|*-|-") {
        ConsoleSignal::MatchStartFailed
    } else if str_eq(text, "-|-*|MATCH STARTED|*-|-") {
        ConsoleSignal::MatchStarted
    } else if str_starts_with(text, "-|-*|GTP ") && str_ends_with(text, "|*-|-") {
        let without_head = str_remove_all(text, "-|-*|GTP ");
        ConsoleSignal::GameTickPacket(str_remove_all(without_head.as_str(), "|*-|-"))
    } else if str_starts_with(text, "-|-*|STORY_RESULT ") && str_ends_with(text, "|*-|-") {
        let without_head = str_remove_all(text, "-|-*|STORY_RESULT ");
        ConsoleSignal::StoryResult(str_remove_all(without_head.as_str(), "|*-|-"))
    } else {
        ConsoleSignal::Text
    }
}

} // verus!
