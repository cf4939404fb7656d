//! The screens that watch work in progress (processing, chat, benchmarks),
//! the actions on a chosen model, confirmations, and the dispatch of key
//! presses and mouse scrolling to the screen shown.

use vstd::prelude::*;

use crate::app::{
    delete_items, delete_menu, effect_views, export_items, export_menu, gguf_items, gguf_menu,
    has_room, item_views, stop_items, stop_menu, well_formed, App, AppView, Effect, EffectView,
};
use crate::events::{KeyCode, KeyInput, MouseScroll};
use crate::json::{chat_payload, pair_views};
use crate::keys::{model_input_key, token_input_key};
use crate::menu::{ConfirmAction, ConfirmView, ItemView, LogLevel, Screen, ScreenView};
use crate::screens::{
    about_key, back_to_splash, checkpoint_prompt_key, completed_models_key, config_key,
    effects0, effects1, export_key, gguf_key, is_down, is_up, menu_down, menu_up,
    recent_models_key, results_key, setup_key, splash_key, to_results, with_demo_results,
    with_menu,
};
use crate::store::joined;

verus! {

broadcast use vstd::string::group_string_axioms;

// ─── Processing ────────────────────────────────────────────────

/// The texts of log lines.
pub open spec fn log_texts(ls: Seq<(Seq<char>, LogLevel)>) -> Seq<Seq<char>> {
    ls.map_values(|l: (Seq<char>, LogLevel)| l.0)
}

/// The log scrolled up one line, which stops following its end.
pub open spec fn log_up(s: AppView) -> AppView {
    if s.log_scroll > 0 {
        AppView { log_scroll: (s.log_scroll - 1) as usize, log_auto_scroll: false, ..s }
    } else {
        s
    }
}

/// The log scrolled down one line; drawing it clamps the offset.
pub open spec fn log_down(s: AppView) -> AppView {
    AppView { log_scroll: (s.log_scroll + 1) as usize, ..s }
}

/// A key on the processing dashboard.
#[verifier::opaque]
pub open spec fn processing_key(s: AppView, k: KeyInput) -> (AppView, Seq<EffectView>) {
    if k.code == KeyCode::Char('q') || k.code == KeyCode::Char('Q') {
        (with_menu(s, ScreenView::Confirm(ConfirmView::StopProcessing), stop_menu(), 1), seq![])
    } else if is_up(k) {
        (log_up(s), seq![])
    } else if is_down(k) {
        (log_down(s), seq![])
    } else if k.code == KeyCode::Char('c') || k.code == KeyCode::Char('C') {
        (s, seq![EffectView::CopyToClipboard(joined(log_texts(s.log_lines), '\n'))])
    } else {
        (s, seq![])
    }
}

/// The log after `CopyToClipboard`, told whether the clipboard was reachable.
#[verifier::opaque]
pub open spec fn log_copied(s: AppView, ok: bool) -> AppView {
    AppView {
        log_lines: s.log_lines.push(
            if ok {
                ("Copied entire log to clipboard!"@, LogLevel::Success)
            } else {
                ("Failed to access clipboard."@, LogLevel::Error)
            },
        ),
        ..s
    }
}

/// A key on the benchmark dashboard.
#[verifier::opaque]
pub open spec fn benchmark_key(s: AppView, k: KeyInput) -> (AppView, Seq<EffectView>) {
    if k.code == KeyCode::Esc {
        (
            AppView {
                has_benchmark_process: false,
                benchmark_running: false,
                screen: ScreenView::TrialActions,
                menu_selected: Some(1),
                ..s
            },
            seq![EffectView::StopBenchmark],
        )
    } else if is_up(k) {
        (log_up(s), seq![])
    } else if is_down(k) {
        (log_down(s), seq![])
    } else {
        (s, seq![])
    }
}

fn log_text(lines: &Vec<(String, LogLevel)>) -> (r: String)
    ensures
        r@ == joined(log_texts(crate::app::log_views(lines@)), '\n'),
{
    let ghost texts = log_texts(crate::app::log_views(lines@));
    let mut parts: Vec<Vec<char>> = Vec::new();
    let mut i: usize = 0;
    while i < lines.len()
        invariant
            i <= lines.len(),
            texts == log_texts(crate::app::log_views(lines@)),
            crate::text::views(parts@) == texts.take(i as int),
        decreases lines.len() - i,
    {
        let p = crate::text::to_chars(lines[i].0.as_str());
        proof {
            assert(texts[i as int] == lines@[i as int].0@);
            assert(crate::text::views(parts@.push(p)) =~= crate::text::views(parts@).push(p@));
            assert(texts.take(i + 1) =~= texts.take(i as int).push(texts[i as int]));
        }
        parts.push(p);
        i = i + 1;
    }
    assert(texts.take(i as int) =~= texts);
    crate::text::from_chars(&crate::store::join_chars(&parts, '\n'))
}

impl App {
    pub(crate) fn scroll_log_up(&mut self)
        ensures
            final(self)@ == log_up(old(self)@),
    {
        if self.log_scroll > 0 {
            self.log_scroll = self.log_scroll - 1;
            self.log_auto_scroll = false;
        }
    }

    pub(crate) fn scroll_log_down(&mut self)
        requires
            old(self).log_scroll < usize::MAX,
        ensures
            final(self)@ == log_down(old(self)@),
    {
        self.log_scroll = self.log_scroll + 1;
    }

    pub(crate) fn handle_processing_key(self, key: KeyInput) -> (r: (App, Vec<Effect>))
        requires
            self.log_scroll < usize::MAX,
        ensures
            (r.0@, effect_views(r.1@)) == processing_key(self@, key),
    {
        proof {
            reveal(processing_key);
        }
        let mut a = self;
        if key.code == KeyCode::Char('q') || key.code == KeyCode::Char('Q') {
            a.set_menu(Screen::Confirm(ConfirmAction::StopProcessing), stop_items(), 1);
        } else if key.code == KeyCode::Up || key.code == KeyCode::Char('k') {
            a.scroll_log_up();
        } else if key.code == KeyCode::Down || key.code == KeyCode::Char('j') {
            a.scroll_log_down();
        } else if key.code == KeyCode::Char('c') || key.code == KeyCode::Char('C') {
            let e = effects1(Effect::CopyToClipboard(log_text(&a.log_lines)));
            return (a, e);
        }
        (a, effects0())
    }

    /// Whether `CopyToClipboard` reached the clipboard.
    pub fn on_log_copied(&mut self, ok: bool)
        ensures
            final(self)@ == log_copied(old(self)@, ok),
    {
        proof {
            reveal(log_copied);
        }
        if ok {
            self.log_str("Copied entire log to clipboard!", LogLevel::Success);
        } else {
            self.log_str("Failed to access clipboard.", LogLevel::Error);
        }
    }

    fn leave_benchmarks(&mut self)
        ensures
            final(self)@ == benchmark_key(
                old(self)@,
                KeyInput { code: KeyCode::Esc, ctrl: false, shift: false },
            ).0,
    {
        proof {
            reveal(benchmark_key);
        }
        self.has_benchmark_process = false;
        self.benchmark_running = false;
        self.screen = Screen::TrialActions;
        self.menu_selected = Some(1);
    }

    pub(crate) fn handle_benchmark_dashboard_key(self, key: KeyInput) -> (r: (App, Vec<Effect>))
        requires
            self.log_scroll < usize::MAX,
        ensures
            (r.0@, effect_views(r.1@)) == benchmark_key(self@, key),
    {
        proof {
            reveal(benchmark_key);
        }
        let mut a = self;
        if key.code == KeyCode::Esc {
            a.leave_benchmarks();
            return (a, effects1(Effect::StopBenchmark));
        } else if key.code == KeyCode::Up || key.code == KeyCode::Char('k') {
            a.scroll_log_up();
        } else if key.code == KeyCode::Down || key.code == KeyCode::Char('j') {
            a.scroll_log_down();
        }
        (a, effects0())
    }
}

// ─── Chat ──────────────────────────────────────────────────────

/// Whether a chat message is part of the conversation sent to the model.
pub open spec fn in_dialogue(m: (Seq<char>, Seq<char>)) -> bool {
    m.0 == "user"@ || m.0 == "assistant"@
}

/// The user and assistant messages of `ms`, in order.
pub open spec fn dialogue(ms: Seq<(Seq<char>, Seq<char>)>) -> Seq<(Seq<char>, Seq<char>)>
    decreases ms.len(),
{
    if ms.len() == 0 {
        ms
    } else if in_dialogue(ms.last()) {
        dialogue(ms.drop_last()).push(ms.last())
    } else {
        dialogue(ms.drop_last())
    }
}

/// The request sent to the chat server for the messages `ms`: a system
/// prompt, then the conversation.
pub open spec fn chat_request(ms: Seq<(Seq<char>, Seq<char>)>) -> Seq<char> {
    chat_payload(seq![("system"@, "You are a helpful assistant."@)] + dialogue(ms))
}

/// The chat input submitted: the message joins the conversation and, with a
/// server to take it, goes to the server.
#[verifier::opaque]
pub open spec fn chat_submit(s: AppView) -> (AppView, Seq<EffectView>) {
    let msgs = s.chat_messages.push(("user"@, s.chat_input));
    let t = AppView { chat_messages: msgs, chat_input: seq![], chat_auto_scroll: true, ..s };
    if s.has_chat_process {
        (t, seq![EffectView::SendChat(chat_request(msgs))])
    } else {
        (
            AppView {
                chat_messages: msgs.push(
                    ("system"@, "Chat server not running. Press Esc and try again."@),
                ),
                ..t
            },
            seq![],
        )
    }
}

/// A key on the chat screen.
#[verifier::opaque]
pub open spec fn chat_key(s: AppView, k: KeyInput) -> (AppView, Seq<EffectView>) {
    if k.code == KeyCode::Enter {
        if s.chat_input.len() > 0 && !s.chat_loading && !s.chat_streaming {
            chat_submit(s)
        } else {
            (s, seq![])
        }
    } else if k.code == KeyCode::Esc {
        (
            AppView {
                has_chat_process: false,
                chat_loading: false,
                chat_streaming: false,
                screen: ScreenView::TrialActions,
                menu_selected: Some(2),
                ..s
            },
            seq![EffectView::StopChat],
        )
    } else {
        (chat_edit(s, k.code), seq![])
    }
}

/// Whether a key scrolls the chat.
pub open spec fn is_chat_scroll(code: KeyCode) -> bool {
    code == KeyCode::PageUp || code == KeyCode::PageDown || code == KeyCode::Up || code
        == KeyCode::Down || code == KeyCode::Home || code == KeyCode::End
}

/// The chat offset after a scrolling key: ten lines for a page, one for an
/// arrow (never above the top), the top for Home; End keeps it.
pub open spec fn chat_scrolled(code: KeyCode, offset: usize) -> usize {
    match code {
        KeyCode::PageUp => if offset >= 10 {
            (offset - 10) as usize
        } else {
            0
        },
        KeyCode::PageDown => (offset + 10) as usize,
        KeyCode::Up => if offset >= 1 {
            (offset - 1) as usize
        } else {
            0
        },
        KeyCode::Down => (offset + 1) as usize,
        KeyCode::Home => 0,
        _ => offset,
    }
}

/// A scrolling or editing key on the chat screen. Scrolling stops following
/// the newest message, except End, which returns to it.
#[verifier::opaque]
pub open spec fn chat_edit(s: AppView, code: KeyCode) -> AppView {
    if is_chat_scroll(code) {
        AppView {
            chat_scroll: chat_scrolled(code, s.chat_scroll),
            chat_auto_scroll: code == KeyCode::End,
            ..s
        }
    } else {
        match code {
            KeyCode::Char(c) => if !s.chat_loading {
                AppView { chat_input: s.chat_input.push(c), ..s }
            } else {
                s
            },
            KeyCode::Backspace => AppView {
                chat_input: if s.chat_input.len() > 0 {
                    s.chat_input.drop_last()
                } else {
                    s.chat_input
                },
                ..s
            },
            _ => s,
        }
    }
}

fn scroll_chat(code: KeyCode, offset: usize) -> (r: usize)
    requires
        offset <= usize::MAX - 10,
    ensures
        r == chat_scrolled(code, offset),
{
    match code {
        KeyCode::PageUp => offset.saturating_sub(10),
        KeyCode::PageDown => offset + 10,
        KeyCode::Up => offset.saturating_sub(1),
        KeyCode::Down => offset + 1,
        KeyCode::Home => 0,
        _ => offset,
    }
}

/// Whether `SendChat` reached the server.
#[verifier::opaque]
pub open spec fn chat_sent(s: AppView, ok: bool) -> AppView {
    if ok {
        AppView { chat_streaming: true, ..s }
    } else {
        AppView {
            chat_messages: s.chat_messages.push(
                ("system"@, "Failed to send message to chat server."@),
            ),
            ..s
        }
    }
}

fn string_of(s: &str) -> (r: String)
    ensures
        r@ == s@,
{
    String::from_str(s)
}

fn dialogue_of(ms: &Vec<(String, String)>) -> (r: Vec<(String, String)>)
    ensures
        pair_views(r@) == seq![("system"@, "You are a helpful assistant."@)] + dialogue(
            pair_views(ms@),
        ),
{
    let mut r: Vec<(String, String)> = Vec::new();
    r.push((string_of("system"), string_of("You are a helpful assistant.")));
    let ghost all = pair_views(ms@);
    let mut i: usize = 0;
    proof {
        assert(pair_views(r@) =~= seq![("system"@, "You are a helpful assistant."@)] + dialogue(
            all.take(0),
        ));
    }
    while i < ms.len()
        invariant
            i <= ms.len(),
            all == pair_views(ms@),
            pair_views(r@) == seq![("system"@, "You are a helpful assistant."@)] + dialogue(
                all.take(i as int),
            ),
        decreases ms.len() - i,
    {
        let role = &ms[i].0;
        let keep = crate::text::chars_equal(&crate::text::to_chars(role.as_str()), &crate::text::to_chars("user"))
            || crate::text::chars_equal(&crate::text::to_chars(role.as_str()), &crate::text::to_chars("assistant"));
        proof {
            let t = all.take(i + 1);
            assert(t.drop_last() =~= all.take(i as int));
            assert(t.last() == (ms@[i as int].0@, ms@[i as int].1@));
        }
        if keep {
            let m = (ms[i].0.clone(), ms[i].1.clone());
            let ghost before = pair_views(r@);
            r.push(m);
            assert(pair_views(r@) =~= before.push((m.0@, m.1@)));
        }
        i = i + 1;
    }
    assert(all.take(i as int) =~= all);
    r
}

impl App {
    fn push_chat(&mut self, role: &str, content: String)
        ensures
            final(self)@ == (AppView {
                chat_messages: old(self)@.chat_messages.push((role@, content@)),
                ..old(self)@
            }),
    {
        self.chat_messages.push((string_of(role), content));
        assert(pair_views(self.chat_messages@) =~= pair_views(old(self).chat_messages@).push(
            (role@, content@),
        ));
    }

    fn submit_chat(self) -> (r: (App, Vec<Effect>))
        ensures
            (r.0@, effect_views(r.1@)) == chat_submit(self@),
    {
        proof {
            reveal(chat_submit);
        }
        let mut a = self;
        let msg = a.chat_input.clone();
        a.push_chat("user", msg);
        a.clear_chat_input();
        if a.has_chat_process {
            let request = crate::json::payload(&dialogue_of(&a.chat_messages));
            return (a, effects1(Effect::SendChat(request)));
        }
        a.push_chat("system", string_of("Chat server not running. Press Esc and try again."));
        (a, effects0())
    }

    fn clear_chat_input(&mut self)
        ensures
            final(self)@ == (AppView {
                chat_input: seq![],
                chat_auto_scroll: true,
                ..old(self)@
            }),
    {
        self.chat_input = String::new();
        self.chat_auto_scroll = true;
    }

    fn leave_chat(&mut self)
        ensures
            final(self)@ == chat_key(old(self)@, KeyInput { code: KeyCode::Esc, ctrl: false, shift: false }).0,
    {
        proof {
            reveal(chat_key);
        }
        self.has_chat_process = false;
        self.chat_loading = false;
        self.chat_streaming = false;
        self.screen = Screen::TrialActions;
        self.menu_selected = Some(2);
    }

    fn set_chat_scroll(&mut self, offset: usize, follow: bool)
        ensures
            final(self)@ == (AppView { chat_scroll: offset, chat_auto_scroll: follow, ..old(self)@ }),
    {
        self.chat_scroll = offset;
        self.chat_auto_scroll = follow;
    }

    fn set_chat_input(&mut self, text: String)
        ensures
            final(self)@ == (AppView { chat_input: text@, ..old(self)@ }),
    {
        self.chat_input = text;
    }

    pub(crate) fn edit_chat(self, code: KeyCode) -> (r: App)
        requires
            self.chat_scroll <= usize::MAX - 10,
        ensures
            r@ == chat_edit(self@, code),
    {
        proof {
            reveal(chat_edit);
        }
        let mut a = self;
        if code == KeyCode::PageUp || code == KeyCode::PageDown || code == KeyCode::Up || code
            == KeyCode::Down || code == KeyCode::Home || code == KeyCode::End {
            let offset = scroll_chat(code, a.chat_scroll);
            a.set_chat_scroll(offset, code == KeyCode::End);
        } else if let KeyCode::Char(c) = code {
            if !a.chat_loading {
                let mut text = a.chat_input.clone();
                crate::text::push_char(&mut text, c);
                a.set_chat_input(text);
            }
        } else if code == KeyCode::Backspace {
            let mut v = crate::text::to_chars(a.chat_input.as_str());
            if v.len() > 0 {
                v.pop();
                assert(v@ =~= a.chat_input@.drop_last());
            }
            a.set_chat_input(crate::text::from_chars(&v));
        }
        a
    }

    pub(crate) fn handle_chat_key(self, key: KeyInput) -> (r: (App, Vec<Effect>))
        requires
            self.chat_scroll <= usize::MAX - 10,
        ensures
            (r.0@, effect_views(r.1@)) == chat_key(self@, key),
    {
        proof {
            reveal(chat_key);
        }
        let mut a = self;
        if key.code == KeyCode::Enter {
            if !a.chat_input.as_str().is_empty() && !a.chat_loading && !a.chat_streaming {
                return a.submit_chat();
            }
            return (a, effects0());
        }
        if key.code == KeyCode::Esc {
            a.leave_chat();
            return (a, effects1(Effect::StopChat));
        }
        (a.edit_chat(key.code), effects0())
    }

    /// Whether `SendChat` reached the chat server.
    pub fn on_chat_sent(&mut self, ok: bool)
        ensures
            final(self)@ == chat_sent(old(self)@, ok),
    {
        proof {
            reveal(chat_sent);
        }
        if ok {
            self.chat_streaming = true;
        } else {
            self.push_chat("system", string_of("Failed to send message to chat server."));
        }
    }
}

} // verus!
