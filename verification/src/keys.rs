//! The screens that edit text, run work or ask for confirmation, and the
//! dispatch of key presses, mouse scrolling and pasted text.

use vstd::prelude::*;

use crate::app::{
    checkpoint_items, checkpoint_menu, config_items, config_menu, effect_views, item_views,
    setup_items, setup_menu, stop_items, stop_menu, App, AppView, ClipboardRead, Effect,
    EffectView,
};
use crate::events::{KeyCode, KeyInput, MouseScroll};
use crate::input::{inserted_at, insert_at_char_cursor, remove_before_char_cursor, removed_before};
use crate::json::{chat_payload, pair_views};
use crate::menu::{ConfirmAction, ConfirmView, LogLevel, Screen, ScreenView};
use crate::screens::{
    back_to_splash, check_checkpoint, effects0, effects1, is_down, is_up, menu_down, menu_up,
    push_effect, start_processing, to_results, with_demo_results, with_menu,
};
use crate::text::{trim, without_char};

verus! {

broadcast use vstd::string::group_string_axioms;

// ─── Text fields ───────────────────────────────────────────────

/// Pasted text without its line breaks.
pub open spec fn paste_text(t: Seq<char>) -> Seq<char> {
    without_char(without_char(t, '\n'), '\r')
}

/// `s` with `t` inserted before the character at `cursor` (at the end when
/// `cursor` is past the last character).
pub open spec fn pasted_at(s: Seq<char>, cursor: int, t: Seq<char>) -> Seq<char> {
    let k = if cursor < s.len() {
        cursor
    } else {
        s.len() as int
    };
    s.take(k) + t + s.skip(k)
}

/// Text pasted into the field being edited: without line breaks, at the
/// cursor, which moves past it. Other screens ignore it.
#[verifier::opaque]
pub open spec fn paste(s: AppView, text: Seq<char>) -> AppView {
    let t = paste_text(text);
    if s.screen == ScreenView::ModelInput {
        AppView {
            model_error: None,
            model_input: pasted_at(s.model_input, s.model_cursor as int, t),
            model_cursor: (s.model_cursor + t.len()) as usize,
            ..s
        }
    } else if s.screen == ScreenView::TokenInput {
        AppView {
            hf_token_input: pasted_at(s.hf_token_input, s.hf_token_cursor as int, t),
            hf_token_cursor: (s.hf_token_cursor + t.len()) as usize,
            ..s
        }
    } else {
        s
    }
}

proof fn lemma_without_char_len(s: Seq<char>, c: char)
    ensures
        without_char(s, c).len() <= s.len(),
    decreases s.len(),
{
    if s.len() > 0 {
        lemma_without_char_len(s.drop_last(), c);
    }
}

/// Inserts the characters `t` one by one at an advancing cursor.
fn insert_all(s: &mut String, cursor: usize, t: &Vec<char>) -> (r: usize)
    requires
        cursor + t@.len() < usize::MAX,
    ensures
        final(s)@ == pasted_at(old(s)@, cursor as int, t@),
        r == cursor + t@.len(),
{
    let ghost s0 = s@;
    let mut c = cursor;
    let mut i: usize = 0;
    assert(pasted_at(s0, cursor as int, t@.take(0)) =~= s0);
    while i < t.len()
        invariant
            i <= t.len(),
            cursor + t@.len() < usize::MAX,
            c == cursor + i,
            s@ == pasted_at(s0, cursor as int, t@.take(i as int)),
        decreases t.len() - i,
    {
        let ghost before = s@;
        c = insert_at_char_cursor(s, c, t[i]);
        proof {
            let k = if cursor < s0.len() {
                cursor as int
            } else {
                s0.len() as int
            };
            assert(t@.take(i + 1) =~= t@.take(i as int).push(t@[i as int]));
            if cursor < s0.len() {
                assert(before.take(k + i) =~= s0.take(k) + t@.take(i as int));
                assert(before.skip(k + i) =~= s0.skip(k));
            } else {
                assert(before.take(before.len() as int) =~= before);
                assert(before.skip(before.len() as int) =~= Seq::<char>::empty());
                assert(s0.skip(k) =~= Seq::<char>::empty());
            }
            assert(s@ =~= pasted_at(s0, cursor as int, t@.take(i + 1)));
        }
        i = i + 1;
    }
    assert(t@.take(i as int) =~= t@);
    c
}

/// The characters of pasted text that are kept.
fn paste_chars(text: &str) -> (r: Vec<char>)
    ensures
        r@ == paste_text(text@),
        r@.len() <= text@.len(),
{
    let r = crate::text::remove_char(&crate::text::remove_char(&crate::text::to_chars(text), '\n'), '\r');
    proof {
        lemma_without_char_len(text@, '\n');
        lemma_without_char_len(without_char(text@, '\n'), '\r');
    }
    r
}

impl App {
    /// Text pasted into the terminal.
    pub fn handle_paste(&mut self, text: String)
        requires
            old(self).model_cursor + text@.len() < usize::MAX,
            old(self).hf_token_cursor + text@.len() < usize::MAX,
        ensures
            final(self)@ == paste(old(self)@, text@),
    {
        proof {
            reveal(paste);
        }
        let clean = paste_chars(text.as_str());
        if matches!(self.screen, Screen::ModelInput) {
            self.model_error = None;
            self.model_cursor = insert_all(&mut self.model_input, self.model_cursor, &clean);
        } else if matches!(self.screen, Screen::TokenInput) {
            self.hf_token_cursor = insert_all(&mut self.hf_token_input, self.hf_token_cursor, &clean);
        }
    }
}

// ─── Model name ────────────────────────────────────────────────

/// Whether a key asks for the clipboard's text.
pub open spec fn wants_clipboard(k: KeyInput) -> bool {
    ((k.code == KeyCode::Char('v') || k.code == KeyCode::Char('V')) && k.ctrl) || (k.code
        == KeyCode::Insert && k.shift)
}

/// A key on the model name field.
#[verifier::opaque]
pub open spec fn model_input_key(s: AppView, k: KeyInput) -> (AppView, Seq<EffectView>) {
    let cursor = s.model_cursor;
    if wants_clipboard(k) {
        (s, seq![EffectView::ReadClipboard])
    } else if k.code == KeyCode::Enter {
        if s.model_input.len() > 0 {
            (
                AppView {
                    status_message: "Validating model on HuggingFace..."@,
                    model_error: None,
                    ..s
                },
                seq![EffectView::ValidateModel(trim(s.model_input))],
            )
        } else {
            (s, seq![])
        }
    } else if k.code == KeyCode::Esc {
        (with_menu(AppView { model_error: None, ..s }, ScreenView::Setup, setup_menu(), 0), seq![])
    } else {
        (model_edit(s, k.code), seq![])
    }
}

/// Where a cursor moves on a field of `len` characters: left and right one
/// character within the field, or to its start or end.
pub open spec fn moved_cursor(code: KeyCode, cursor: usize, len: nat) -> usize {
    match code {
        KeyCode::Left => if cursor > 0 {
            (cursor - 1) as usize
        } else {
            cursor
        },
        KeyCode::Right => if cursor < len {
            (cursor + 1) as usize
        } else {
            cursor
        },
        KeyCode::Home => 0,
        KeyCode::End => len as usize,
        _ => cursor,
    }
}

fn move_cursor(code: KeyCode, cursor: usize, len: usize) -> (r: usize)
    ensures
        r == moved_cursor(code, cursor, len as nat),
{
    match code {
        KeyCode::Left => if cursor > 0 {
            cursor - 1
        } else {
            cursor
        },
        KeyCode::Right => if cursor < len {
            cursor + 1
        } else {
            cursor
        },
        KeyCode::Home => 0,
        KeyCode::End => len,
        _ => cursor,
    }
}

/// An editing key on the model name field.
#[verifier::opaque]
pub open spec fn model_edit(s: AppView, code: KeyCode) -> AppView {
    let cursor = s.model_cursor;
    match code {
        KeyCode::Char(c) => AppView {
            model_error: None,
            model_input: inserted_at(s.model_input, cursor as int, c),
            model_cursor: (cursor + 1) as usize,
            ..s
        },
        KeyCode::Backspace => AppView {
            model_error: None,
            model_input: removed_before(s.model_input, cursor as int).0,
            model_cursor: removed_before(s.model_input, cursor as int).1 as usize,
            ..s
        },
        _ => AppView { model_cursor: moved_cursor(code, cursor, s.model_input.len()), ..s },
    }
}

/// Whether the HTTP status the Hub answered says the model exists: public
/// (`200`) or gated (`401`).
pub open spec fn hub_found(http: Option<Seq<char>>) -> bool {
    match http {
        Some(c) => trim(c) == "200"@ || trim(c) == "401"@,
        None => false,
    }
}

/// The model was looked for: a local folder or a model on the Hub goes on to
/// the checkpoint check; otherwise the field shows why not.
#[verifier::opaque]
pub open spec fn model_checked(s: AppView, is_dir: bool, http: Option<Seq<char>>) -> (AppView, Seq<EffectView>) {
    if is_dir || hub_found(http) {
        (s, check_checkpoint(s))
    } else {
        (
            AppView {
                model_error: Some(
                    "Error: '"@ + trim(s.model_input)
                        + "' is not a local folder and was not found on HuggingFace Hub!"@,
                ),
                ..s
            },
            seq![],
        )
    }
}

/// Whether a checkpoint of the model exists was found out.
#[verifier::opaque]
pub open spec fn checkpoint_probed(s: AppView, exists: bool) -> (AppView, Seq<EffectView>) {
    if exists {
        (with_menu(s, ScreenView::CheckpointPrompt, checkpoint_menu(), 0), seq![])
    } else {
        start_processing(s)
    }
}

fn is_clipboard_key(k: KeyInput) -> (r: bool)
    ensures
        r == wants_clipboard(k),
{
    ((k.code == KeyCode::Char('v') || k.code == KeyCode::Char('V')) && k.ctrl) || (k.code
        == KeyCode::Insert && k.shift)
}

fn trimmed(s: &String) -> (r: String)
    ensures
        r@ == trim(s@),
{
    crate::text::from_chars(&crate::text::trim_chars(&crate::text::to_chars(s.as_str())))
}

fn found_on_hub(http: &Option<String>) -> (r: bool)
    ensures
        r == hub_found(crate::app::opt_view(*http)),
{
    match http {
        Some(code) => {
            let t = trimmed(code);
            equals_str(&t, "200") || equals_str(&t, "401")
        },
        None => false,
    }
}

fn not_found_message(model: &String) -> (r: String)
    ensures
        r@ == "Error: '"@ + trim(model@)
            + "' is not a local folder and was not found on HuggingFace Hub!"@,
{
    let mut msg = crate::text::to_chars("Error: '");
    crate::text::append_chars(
        &mut msg,
        &crate::text::trim_chars(&crate::text::to_chars(model.as_str())),
    );
    crate::text::append_str(&mut msg, "' is not a local folder and was not found on HuggingFace Hub!");
    crate::text::from_chars(&msg)
}

fn equals_str(s: &String, lit: &str) -> (r: bool)
    ensures
        r == (s@ == lit@),
{
    crate::text::chars_equal(&crate::text::to_chars(s.as_str()), &crate::text::to_chars(lit))
}

impl App {
    pub(crate) fn handle_model_input_key(self, key: KeyInput) -> (r: (App, Vec<Effect>))
        requires
            self.model_cursor < usize::MAX,
        ensures
            (r.0@, effect_views(r.1@)) == model_input_key(self@, key),
    {
        proof {
            reveal(model_input_key);
        }
        let mut a = self;
        if is_clipboard_key(key) {
            return (a, effects1(Effect::ReadClipboard));
        }
        if key.code == KeyCode::Enter {
            if !a.model_input.as_str().is_empty() {
                let e = effects1(Effect::ValidateModel(trimmed(&a.model_input)));
                a.note_validating();
                return (a, e);
            }
            return (a, effects0());
        }
        if key.code == KeyCode::Esc {
            a.clear_model_error();
            a.set_menu(Screen::Setup, setup_items(), 0);
            return (a, effects0());
        }
        (a.edit_model(key.code), effects0())
    }

    fn edit_model(self, code: KeyCode) -> (r: App)
        requires
            self.model_cursor < usize::MAX,
        ensures
            r@ == model_edit(self@, code),
    {
        proof {
            reveal(model_edit);
        }
        let mut a = self;
        if let KeyCode::Char(c) = code {
            a.model_insert(c);
        } else if code == KeyCode::Backspace {
            a.model_remove();
        } else {
            let len = crate::input::char_len(a.model_input.as_str());
            let m = move_cursor(code, a.model_cursor, len);
            a.set_model_cursor(m);
        }
        a
    }

    fn model_insert(&mut self, c: char)
        requires
            old(self).model_cursor < usize::MAX,
        ensures
            final(self)@ == model_edit(old(self)@, KeyCode::Char(c)),
    {
        proof {
            reveal(model_edit);
        }
        let mut text = self.model_input.clone();
        let cursor = insert_at_char_cursor(&mut text, self.model_cursor, c);
        self.model_error = None;
        self.model_input = text;
        self.model_cursor = cursor;
    }

    fn model_remove(&mut self)
        ensures
            final(self)@ == model_edit(old(self)@, KeyCode::Backspace),
    {
        proof {
            reveal(model_edit);
        }
        let mut text = self.model_input.clone();
        let cursor = remove_before_char_cursor(&mut text, self.model_cursor);
        self.model_error = None;
        self.model_input = text;
        self.model_cursor = cursor;
    }

    fn clear_model_error(&mut self)
        ensures
            final(self)@ == (AppView { model_error: None, ..old(self)@ }),
    {
        self.model_error = None;
    }

    fn set_model_cursor(&mut self, cursor: usize)
        ensures
            final(self)@ == (AppView { model_cursor: cursor, ..old(self)@ }),
    {
        self.model_cursor = cursor;
    }

    fn note_validating(&mut self)
        ensures
            final(self)@ == (AppView {
                status_message: "Validating model on HuggingFace..."@,
                model_error: None,
                ..old(self)@
            }),
    {
        self.status_message = String::from_str("Validating model on HuggingFace...");
        self.model_error = None;
    }

    /// What `ValidateModel` found: whether the name is a local folder, and the
    /// HTTP status text the Hub answered with, if it answered.
    #[verifier::rlimit(40)]
    pub fn on_model_checked(&mut self, is_dir: bool, http: Option<String>) -> (r: Vec<Effect>)
        ensures
            (final(self)@, effect_views(r@)) == model_checked(
                old(self)@,
                is_dir,
                crate::app::opt_view(http),
            ),
    {
        proof {
            reveal(model_checked);
        }
        if is_dir || found_on_hub(&http) {
            return effects1(Effect::ProbeCheckpoint(self.model_input.clone()));
        }
        self.model_error = Some(not_found_message(&self.model_input));
        effects0()
    }

    /// What `ProbeCheckpoint` found.
    pub fn on_checkpoint_probed(&mut self, exists: bool) -> (r: Vec<Effect>)
        ensures
            (final(self)@, effect_views(r@)) == checkpoint_probed(old(self)@, exists),
    {
        proof {
            reveal(checkpoint_probed);
        }
        if exists {
            self.set_menu(Screen::CheckpointPrompt, checkpoint_items(), 0);
            effects0()
        } else {
            self.start_processing()
        }
    }
}

// ─── Token ─────────────────────────────────────────────────────

/// A key on the token field.
#[verifier::opaque]
pub open spec fn token_input_key(s: AppView, k: KeyInput) -> (AppView, Seq<EffectView>) {
    let cursor = s.hf_token_cursor;
    let token = trim(s.hf_token_input);
    if wants_clipboard(k) {
        (s, seq![EffectView::ReadClipboard])
    } else if k.code == KeyCode::Enter {
        (
            with_menu(s, ScreenView::ConfigSelect, config_menu(), 5),
            seq![
                EffectView::SaveToken(
                    if token.len() == 0 {
                        None
                    } else {
                        Some(token)
                    },
                ),
            ],
        )
    } else if k.code == KeyCode::Esc {
        (with_menu(s, ScreenView::ConfigSelect, config_menu(), 5), seq![])
    } else {
        (token_edit(s, k.code), seq![])
    }
}

/// An editing key on the token field.
#[verifier::opaque]
pub open spec fn token_edit(s: AppView, code: KeyCode) -> AppView {
    let cursor = s.hf_token_cursor;
    match code {
        KeyCode::Char(c) => AppView {
            hf_token_input: inserted_at(s.hf_token_input, cursor as int, c),
            hf_token_cursor: (cursor + 1) as usize,
            ..s
        },
        KeyCode::Backspace => AppView {
            hf_token_input: removed_before(s.hf_token_input, cursor as int).0,
            hf_token_cursor: removed_before(s.hf_token_input, cursor as int).1 as usize,
            ..s
        },
        _ => AppView {
            hf_token_cursor: moved_cursor(code, cursor, s.hf_token_input.len()),
            ..s
        },
    }
}

/// The status line once the token was saved (or the saving failed).
pub open spec fn token_status(set: bool, result: Result<(), Seq<char>>) -> Seq<char> {
    match result {
        Ok(_) => if set {
            "HuggingFace token saved to .env (gitignored)."@
        } else {
            "HuggingFace token cleared."@
        },
        Err(e) => "Token set for this session, but .env write failed: "@ + e,
    }
}

/// What reading the clipboard gave, taken by the field being edited.
#[verifier::opaque]
pub open spec fn clipboard_read(s: AppView, read: ClipboardRead) -> AppView {
    match read {
        ClipboardRead::Text(t) => paste(s, t@),
        ClipboardRead::Unreadable => if s.screen == ScreenView::ModelInput {
            AppView { model_error: Some("Failed to get text from clipboard!"@), ..s }
        } else {
            s
        },
        ClipboardRead::Inaccessible => if s.screen == ScreenView::ModelInput {
            AppView {
                model_error: Some(
                    "Host clipboard not accessible here! Use Ctrl+Shift+V or Right-Click instead."@,
                ),
                ..s
            }
        } else {
            s
        },
    }
}

impl App {
    pub(crate) fn handle_token_input_key(self, key: KeyInput) -> (r: (App, Vec<Effect>))
        requires
            self.hf_token_cursor < usize::MAX,
        ensures
            (r.0@, effect_views(r.1@)) == token_input_key(self@, key),
    {
        proof {
            reveal(token_input_key);
        }
        let mut a = self;
        if is_clipboard_key(key) {
            return (a, effects1(Effect::ReadClipboard));
        }
        if key.code == KeyCode::Enter {
            let token = trimmed(&a.hf_token_input);
            let saved = if token.as_str().is_empty() {
                None
            } else {
                Some(token)
            };
            a.set_menu(Screen::ConfigSelect, config_items(), 5);
            return (a, effects1(Effect::SaveToken(saved)));
        }
        if key.code == KeyCode::Esc {
            a.set_menu(Screen::ConfigSelect, config_items(), 5);
            return (a, effects0());
        }
        (a.edit_token(key.code), effects0())
    }

    fn edit_token(self, code: KeyCode) -> (r: App)
        requires
            self.hf_token_cursor < usize::MAX,
        ensures
            r@ == token_edit(self@, code),
    {
        proof {
            reveal(token_edit);
        }
        let mut a = self;
        if let KeyCode::Char(c) = code {
            a.token_insert(c);
        } else if code == KeyCode::Backspace {
            a.token_remove();
        } else {
            let len = crate::input::char_len(a.hf_token_input.as_str());
            let m = move_cursor(code, a.hf_token_cursor, len);
            a.set_token_cursor(m);
        }
        a
    }

    fn token_insert(&mut self, c: char)
        requires
            old(self).hf_token_cursor < usize::MAX,
        ensures
            final(self)@ == token_edit(old(self)@, KeyCode::Char(c)),
    {
        proof {
            reveal(token_edit);
        }
        let mut text = self.hf_token_input.clone();
        let cursor = insert_at_char_cursor(&mut text, self.hf_token_cursor, c);
        self.hf_token_input = text;
        self.hf_token_cursor = cursor;
    }

    fn token_remove(&mut self)
        ensures
            final(self)@ == token_edit(old(self)@, KeyCode::Backspace),
    {
        proof {
            reveal(token_edit);
        }
        let mut text = self.hf_token_input.clone();
        let cursor = remove_before_char_cursor(&mut text, self.hf_token_cursor);
        self.hf_token_input = text;
        self.hf_token_cursor = cursor;
    }

    fn set_token_cursor(&mut self, cursor: usize)
        ensures
            final(self)@ == (AppView { hf_token_cursor: cursor, ..old(self)@ }),
    {
        self.hf_token_cursor = cursor;
    }

    /// How `SaveToken` went.
    pub fn on_token_saved(&mut self, result: Result<(), String>)
        ensures
            final(self)@ == (AppView {
                status_message: token_status(
                    trim(old(self)@.hf_token_input).len() > 0,
                    match result {
                        Ok(_) => Ok(()),
                        Err(e) => Err(e@),
                    },
                ),
                ..old(self)@
            }),
    {
        let set = !trimmed(&self.hf_token_input).as_str().is_empty();
        self.status_message = match result {
            Ok(_) => if set {
                String::from_str("HuggingFace token saved to .env (gitignored).")
            } else {
                String::from_str("HuggingFace token cleared.")
            },
            Err(e) => {
                let mut v = crate::text::to_chars("Token set for this session, but .env write failed: ");
                crate::text::append_str(&mut v, e.as_str());
                crate::text::from_chars(&v)
            },
        };
    }

    /// What `ReadClipboard` read.
    pub fn on_clipboard(&mut self, read: ClipboardRead)
        requires
            read matches ClipboardRead::Text(t) ==> old(self).model_cursor + t@.len() < usize::MAX
                && old(self).hf_token_cursor + t@.len() < usize::MAX,
        ensures
            final(self)@ == clipboard_read(old(self)@, read),
    {
        proof {
            reveal(clipboard_read);
        }
        match read {
            ClipboardRead::Text(t) => self.handle_paste(t),
            ClipboardRead::Unreadable => {
                if matches!(self.screen, Screen::ModelInput) {
                    self.model_error = Some(String::from_str("Failed to get text from clipboard!"));
                }
            },
            ClipboardRead::Inaccessible => {
                if matches!(self.screen, Screen::ModelInput) {
                    self.model_error = Some(
                        String::from_str(
                            "Host clipboard not accessible here! Use Ctrl+Shift+V or Right-Click instead.",
                        ),
                    );
                }
            },
        }
    }
}

} // verus!
