//! Scrollable log widget state: an append-only sequence of text lines
//! plus a scroll offset that is always clamped into the range the
//! current viewport allows. Lines are never removed, reordered,
//! truncated or deduplicated.

use vstd::prelude::*;
use vstd::string::StringExecFns;

verus! {

/// Log widget state. `y_scroll` is the index of the first visible
/// line; appending never auto-scrolls.
pub struct Logs {
    pub title: &'static str,
    pub y_scroll: usize,
    pub logs: Vec<String>,
}

/// Largest admissible scroll offset for `len` lines shown through a
/// viewport of `viewport` lines.
pub open spec fn spec_max_offset(len: int, viewport: int) -> int {
    if len > viewport {
        len - viewport
    } else {
        0
    }
}

/// The offset reached from `cur` by a (possibly negative) scroll of
/// `delta`, clamped into `[0, max_off]`.
pub open spec fn spec_scrolled_offset(cur: int, delta: int, max_off: int) -> int {
    let target = cur + delta;
    if target < 0 {
        0
    } else if target > max_off {
        max_off
    } else {
        target
    }
}

impl Logs {
    /// The lines as mathematical character sequences.
    pub open spec fn lines(&self) -> Seq<Seq<char>> {
        self.logs@.map_values(|s: String| s@)
    }

    pub fn new(title: &'static str) -> (r: Self)
        ensures
            r.title == title,
            r.y_scroll == 0,
            r.lines() =~= seq!["Hello World!"@],
    {
        Self { title: title, y_scroll: 0, logs: vec![String::from_str("Hello World!")] }
    }

    /// Append one line at the end; the scroll offset stays where it
    /// was.
    pub fn push_logs(&mut self, log: &str)
        ensures
            final(self).lines() =~= old(self).lines().push(log@),
            final(self).y_scroll == old(self).y_scroll,
            final(self).title == old(self).title,
    {
        self.logs.push(String::from_str(log));
        proof {
            assert(self.lines() =~= old(self).lines().push(log@));
        }
    }

    /// Move the scroll offset by `delta` lines, clamping it into the
    /// valid range for a viewport of `viewport` lines.
    pub fn scroll_by(&mut self, delta: i64, viewport: usize)
        ensures
            final(self).y_scroll == spec_scrolled_offset(
                old(self).y_scroll as int,
                delta as int,
                spec_max_offset(old(self).lines().len() as int, viewport as int),
            ),
            final(self).y_scroll <= spec_max_offset(
                final(self).lines().len() as int,
                viewport as int,
            ),
            final(self).lines() == old(self).lines(),
            final(self).title == old(self).title,
    {
        let len = self.logs.len();
        let max_off: usize = if len > viewport {
            len - viewport
        } else {
            0
        };
        let target: i128 = self.y_scroll as i128 + delta as i128;
        self.y_scroll = if target < 0 {
            0
        } else if target > max_off as i128 {
            max_off
        } else {
            target as usize
        };
    }
}

} // verus!
