//! Scroll offsets of the panes that follow growing text: the processing
//! log, the benchmark log and the chat conversation. Each is settled against
//! the pane's size when the pane is drawn.

use vstd::prelude::*;

use crate::app::{App, AppView};
use crate::json::pair_views;
use crate::layout::{wrapped_line_count, wrapped_rows};

verus! {

/// `a - b`, or zero when `b` is larger.
pub open spec fn minus(a: nat, b: nat) -> nat {
    if a >= b {
        (a - b) as nat
    } else {
        0
    }
}

/// The processing log settled against `visible` rows: following its end, or
/// kept where the user scrolled to, clamped to the last page (which resumes
/// following).
pub open spec fn log_settled(s: AppView, visible: nat) -> AppView {
    let last = minus(s.log_lines.len(), visible);
    if s.log_auto_scroll {
        AppView { log_scroll: last as usize, ..s }
    } else if s.log_scroll >= last {
        AppView { log_scroll: last as usize, log_auto_scroll: true, ..s }
    } else {
        s
    }
}

/// The benchmark log settled against a pane `height` rows tall with a
/// border: following its end, or clamped to the last page.
pub open spec fn bench_settled(s: AppView, height: nat) -> AppView {
    let rows = minus(height, 2);
    let last = minus(s.log_lines.len(), rows);
    if s.log_auto_scroll {
        AppView { log_scroll: last as usize, ..s }
    } else if s.log_scroll > last {
        AppView { log_scroll: last as usize, ..s }
    } else {
        s
    }
}

/// The rows the conversation `ms` takes in a pane `width` columns wide: each
/// message wraps after its seven-column prefix and is followed by a blank row.
pub open spec fn chat_rows(ms: Seq<(Seq<char>, Seq<char>)>, width: nat) -> nat
    decreases ms.len(),
{
    if ms.len() == 0 {
        0
    } else {
        chat_rows(ms.drop_last(), width) + wrapped_rows(ms.last().1, minus(width, 7)) + 1
    }
}

/// `n`, or `usize::MAX` when it is larger.
pub open spec fn capped(n: nat) -> nat {
    if n <= usize::MAX {
        n
    } else {
        usize::MAX as nat
    }
}

/// The conversation settled against a pane `width` by `height` with a
/// border: following the newest message, or clamped to the last page.
pub open spec fn chat_settled(s: AppView, width: nat, height: nat) -> AppView {
    let total = capped(chat_rows(s.chat_messages, minus(width, 2)));
    let last = minus(total, minus(height, 2));
    if s.chat_auto_scroll {
        AppView { chat_scroll: last as usize, ..s }
    } else if s.chat_scroll > last {
        AppView { chat_scroll: last as usize, ..s }
    } else {
        s
    }
}

fn chat_row_total(ms: &Vec<(String, String)>, width: usize) -> (r: usize)
    ensures
        r == capped(chat_rows(pair_views(ms@), width as nat)),
{
    let ghost all = pair_views(ms@);
    let text_width = width.saturating_sub(7);
    let mut total: usize = 0;
    let mut i: usize = 0;
    while i < ms.len()
        invariant
            i <= ms.len(),
            all == pair_views(ms@),
            text_width == minus(width as nat, 7),
            total == capped(chat_rows(all.take(i as int), width as nat)),
        decreases ms.len() - i,
    {
        let rows = wrapped_line_count(ms[i].1.as_str(), text_width);
        proof {
            let t = all.take(i + 1);
            assert(t.drop_last() =~= all.take(i as int));
            assert(t.last() == (ms@[i as int].0@, ms@[i as int].1@));
        }
        total = total.saturating_add(rows.saturating_add(1));
        i = i + 1;
    }
    assert(all.take(i as int) =~= all);
    total
}

impl App {
    /// Settles the processing log's offset against `visible` rows.
    pub fn settle_log_scroll(&mut self, visible: usize)
        ensures
            final(self)@ == log_settled(old(self)@, visible as nat),
    {
        let last = self.log_lines.len().saturating_sub(visible);
        assert(crate::app::log_views(self.log_lines@).len() == self.log_lines@.len());
        if self.log_auto_scroll {
            self.log_scroll = last;
        } else if self.log_scroll >= last {
            self.log_scroll = last;
            self.log_auto_scroll = true;
        }
    }

    /// Settles the benchmark log's offset against a pane `height` rows tall.
    pub fn settle_bench_scroll(&mut self, height: u16)
        ensures
            final(self)@ == bench_settled(old(self)@, height as nat),
    {
        let rows = height.saturating_sub(2) as usize;
        let last = self.log_lines.len().saturating_sub(rows);
        assert(crate::app::log_views(self.log_lines@).len() == self.log_lines@.len());
        if self.log_auto_scroll {
            self.log_scroll = last;
        } else if self.log_scroll > last {
            self.log_scroll = last;
        }
    }

    /// Settles the conversation's offset against a pane `width` by `height`.
    pub fn settle_chat_scroll(&mut self, width: u16, height: u16)
        ensures
            final(self)@ == chat_settled(old(self)@, width as nat, height as nat),
    {
        let total = chat_row_total(&self.chat_messages, width.saturating_sub(2) as usize);
        let last = total.saturating_sub(height.saturating_sub(2) as usize);
        if self.chat_auto_scroll {
            self.chat_scroll = last;
        } else if self.chat_scroll > last {
            self.chat_scroll = last;
        }
    }
}

/// A settled offset never passes the last page of its pane.
pub proof fn settled_offsets_stay_on_the_last_page(s: AppView, visible: nat, width: nat, height: nat)
    ensures
        log_settled(s, visible).log_scroll <= minus(s.log_lines.len(), visible),
        bench_settled(s, height).log_scroll <= minus(s.log_lines.len(), minus(height, 2)),
        chat_settled(s, width, height).chat_scroll <= minus(
            capped(chat_rows(s.chat_messages, minus(width, 2))),
            minus(height, 2),
        ),
{
}

} // verus!
