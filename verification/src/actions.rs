//! What can be done with a chosen model, and the confirmation dialogs.

use vstd::prelude::*;

use crate::app::{
    delete_items, delete_menu, effect_views, export_items, export_menu, gguf_items, gguf_menu,
    item_views, well_formed, App, AppView, Effect, EffectView,
};
use crate::events::{KeyCode, KeyInput};
use crate::text::starts_with;
use crate::menu::{ConfirmAction, ConfirmView, ItemView, LogLevel, MenuItem, Screen, ScreenView};
use crate::screens::{
    back_to_splash, effects0, effects1, is_down, is_up, menu_down, menu_up, to_results,
    with_demo_results, with_menu,
};

verus! {

broadcast use vstd::string::group_string_axioms;

// ─── Actions on a model ────────────────────────────────────────

/// Starts the chat server for the model.
#[verifier::opaque]
pub open spec fn start_chat(s: AppView) -> (AppView, Seq<EffectView>) {
    (
        AppView {
            screen: ScreenView::Chat,
            chat_messages: seq![
                (
                    "system"@,
                    "Starting chat server... Reconstructing annihilated model from checkpoint."@,
                ),
            ],
            chat_input: seq![],
            chat_loading: true,
            chat_streaming: false,
            status_message: "Starting chat server..."@,
            has_chat_process: true,
            ..s
        },
        seq![EffectView::StartChat(s.model_input)],
    )
}

/// Starts the benchmarks of the model.
#[verifier::opaque]
pub open spec fn start_benchmarks(s: AppView) -> (AppView, Seq<EffectView>) {
    (
        AppView {
            screen: ScreenView::BenchmarkDashboard,
            benchmark_running: true,
            benchmark_results: seq![],
            log_lines: seq![("Starting benchmarks on annihilated model..."@, LogLevel::Info)],
            has_benchmark_process: true,
            status_message: "Running benchmarks... This may take a while."@,
            ..s
        },
        seq![EffectView::StartBenchmark(s.model_input)],
    )
}

/// The action of the menu entry labelled `label`.
#[verifier::opaque]
pub open spec fn trial_action(s: AppView, label: Seq<char>) -> (AppView, Seq<EffectView>) {
    if label == "Save Model Locally"@ {
        (with_menu(s, ScreenView::Export, export_menu(), 0), seq![])
    } else if label == "Upload to Hugging Face"@ {
        (
            AppView {
                screen: ScreenView::TokenInput,
                status_message: "Enter your Hugging Face token to upload the model."@,
                ..s
            },
            seq![],
        )
    } else if label == "Chat with Model"@ {
        start_chat(s)
    } else if label == "Run Benchmarks"@ {
        start_benchmarks(s)
    } else if label == "Run More Trials"@ {
        (s, seq![])
    } else if label == "Convert to GGUF"@ {
        (with_menu(s, ScreenView::GgufSizeSelect, gguf_menu(), 0), seq![])
    } else if label == "Delete Model"@ {
        (
            with_menu(
                s,
                ScreenView::Confirm(ConfirmView::DeleteCheckpoint(s.model_input)),
                delete_menu(),
                1,
            ),
            seq![],
        )
    } else if label == "Back to Results"@ {
        (to_results(s), seq![])
    } else {
        (back_to_splash(s), seq![])
    }
}

/// Whether some entry of `menu` is labelled `label`.
pub open spec fn has_label(menu: Seq<ItemView>, label: Seq<char>) -> bool {
    exists|i: int| 0 <= i < menu.len() && #[trigger] menu[i].label == label
}

/// A key on the actions for a chosen model.
#[verifier::opaque]
pub open spec fn trial_actions_key(s: AppView, k: KeyInput) -> (AppView, Seq<EffectView>) {
    if is_up(k) {
        (menu_up(s), seq![])
    } else if is_down(k) {
        (menu_down(s), seq![])
    } else if k.code == KeyCode::Enter {
        match s.menu_selected {
            Some(idx) => trial_action(s, s.current_menu[idx as int].label),
            None => (s, seq![]),
        }
    } else if k.code == KeyCode::Esc {
        if has_label(s.current_menu, "Back to Results"@) {
            (to_results(s), seq![])
        } else {
            (back_to_splash(s), seq![])
        }
    } else {
        (s, seq![])
    }
}

fn label_is(item: &MenuItem, lit: &str) -> (r: bool)
    ensures
        r == (item@.label == lit@),
{
    crate::text::chars_equal(&crate::text::to_chars(item.label.as_str()), &crate::text::to_chars(lit))
}

fn menu_has_label(menu: &Vec<MenuItem>, lit: &str) -> (r: bool)
    ensures
        r == has_label(item_views(menu@), lit@),
{
    let mut i: usize = 0;
    while i < menu.len()
        invariant
            i <= menu.len(),
            forall|j: int| 0 <= j < i ==> #[trigger] item_views(menu@)[j].label != lit@,
        decreases menu.len() - i,
    {
        if label_is(&menu[i], lit) {
            assert(item_views(menu@)[i as int].label == lit@);
            return true;
        }
        i = i + 1;
    }
    false
}

impl App {
    fn start_chat(self) -> (r: (App, Vec<Effect>))
        ensures
            (r.0@, effect_views(r.1@)) == start_chat(self@),
    {
        proof {
            reveal(start_chat);
        }
        let mut a = self;
        a.screen = Screen::Chat;
        a.chat_messages = Vec::new();
        a.chat_messages.push(
            (
                String::from_str("system"),
                String::from_str(
                    "Starting chat server... Reconstructing annihilated model from checkpoint.",
                ),
            ),
        );
        a.chat_input = String::new();
        a.chat_loading = true;
        a.chat_streaming = false;
        a.status_message = String::from_str("Starting chat server...");
        a.has_chat_process = true;
        assert(crate::json::pair_views(a.chat_messages@) =~= start_chat(self@).0.chat_messages);
        let e = effects1(Effect::StartChat(a.model_input.clone()));
        (a, e)
    }

    fn start_benchmarks(self) -> (r: (App, Vec<Effect>))
        ensures
            (r.0@, effect_views(r.1@)) == start_benchmarks(self@),
    {
        proof {
            reveal(start_benchmarks);
        }
        let mut a = self;
        a.screen = Screen::BenchmarkDashboard;
        a.benchmark_running = true;
        a.benchmark_results = Vec::new();
        a.log_lines = Vec::new();
        a.log_lines.push(
            (String::from_str("Starting benchmarks on annihilated model..."), LogLevel::Info),
        );
        a.has_benchmark_process = true;
        a.status_message = String::from_str("Running benchmarks... This may take a while.");
        assert(crate::app::result_views(a.benchmark_results@) =~= Seq::<
            (Seq<char>, Seq<char>, Seq<char>),
        >::empty());
        assert(crate::app::log_views(a.log_lines@) =~= start_benchmarks(self@).0.log_lines);
        let e = effects1(Effect::StartBenchmark(a.model_input.clone()));
        (a, e)
    }

    fn ask_upload_token(&mut self)
        ensures
            final(self)@ == (AppView {
                screen: ScreenView::TokenInput,
                status_message: "Enter your Hugging Face token to upload the model."@,
                ..old(self)@
            }),
    {
        self.screen = Screen::TokenInput;
        self.status_message = String::from_str("Enter your Hugging Face token to upload the model.");
    }

    fn act_on(self, item: &MenuItem) -> (r: (App, Vec<Effect>))
        ensures
            (r.0@, effect_views(r.1@)) == trial_action(self@, item@.label),
    {
        proof {
            reveal(trial_action);
        }
        let mut a = self;
        if label_is(item, "Save Model Locally") {
            a.set_menu(Screen::Export, export_items(), 0);
        } else if label_is(item, "Upload to Hugging Face") {
            a.ask_upload_token();
        } else if label_is(item, "Chat with Model") {
            return a.start_chat();
        } else if label_is(item, "Run Benchmarks") {
            return a.start_benchmarks();
        } else if label_is(item, "Run More Trials") {
        } else {
            return a.act_on_rest(item);
        }
        (a, effects0())
    }

    fn act_on_rest(self, item: &MenuItem) -> (r: (App, Vec<Effect>))
        requires
            item@.label != "Save Model Locally"@,
            item@.label != "Upload to Hugging Face"@,
            item@.label != "Chat with Model"@,
            item@.label != "Run Benchmarks"@,
            item@.label != "Run More Trials"@,
        ensures
            (r.0@, effect_views(r.1@)) == trial_action(self@, item@.label),
    {
        proof {
            reveal(trial_action);
        }
        let mut a = self;
        if label_is(item, "Convert to GGUF") {
            a.set_menu(Screen::GgufSizeSelect, gguf_items(), 0);
        } else if label_is(item, "Delete Model") {
            let model = a.model_input.clone();
            a.set_menu(Screen::Confirm(ConfirmAction::DeleteCheckpoint(model)), delete_items(), 1);
        } else if label_is(item, "Back to Results") {
            a.switch_to_results();
        } else {
            a.go_back_to_splash();
        }
        (a, effects0())
    }

    pub(crate) fn handle_trial_actions_key(self, key: KeyInput) -> (r: (App, Vec<Effect>))
        requires
            well_formed(self@),
        ensures
            (r.0@, effect_views(r.1@)) == trial_actions_key(self@, key),
    {
        proof {
            reveal(trial_actions_key);
        }
        let mut a = self;
        if key.code == KeyCode::Up || key.code == KeyCode::Char('k') {
            a.menu_up();
        } else if key.code == KeyCode::Down || key.code == KeyCode::Char('j') {
            a.menu_down();
        } else if key.code == KeyCode::Enter {
            if let Some(idx) = a.menu_selected {
                let item = a.current_menu[idx].clone_item();
                assert(item_views(a.current_menu@)[idx as int] == a.current_menu@[idx as int]@);
                return a.act_on(&item);
            }
        } else if key.code == KeyCode::Esc {
            if menu_has_label(&a.current_menu, "Back to Results") {
                a.switch_to_results();
            } else {
                a.go_back_to_splash();
            }
        }
        (a, effects0())
    }
}

// ─── Confirmations ─────────────────────────────────────────────

/// The question a confirmation screen asks.
pub open spec fn confirm_of(s: ScreenView) -> ConfirmView {
    match s {
        ScreenView::Confirm(a) => a,
        _ => ConfirmView::Quit,
    }
}

/// The answer a key gives to a confirmation: yes, no, or none.
pub open spec fn confirm_answer(s: AppView, k: KeyInput) -> Option<bool> {
    if k.code == KeyCode::Enter {
        Some(s.menu_selected == Some(0usize))
    } else if k.code == KeyCode::Char('y') {
        Some(true)
    } else if k.code == KeyCode::Esc || k.code == KeyCode::Char('n') {
        Some(false)
    } else {
        None
    }
}

/// What answering `yes` (or no) to `action` does.
#[verifier::opaque]
pub open spec fn confirmed(s: AppView, action: ConfirmView, yes: bool) -> (AppView, Seq<EffectView>) {
    match action {
        ConfirmView::Quit => if yes {
            (AppView { should_quit: true, ..s }, seq![])
        } else {
            (back_to_splash(s), seq![])
        },
        ConfirmView::StopProcessing => if yes {
            let t = AppView { is_processing: false, ..s };
            if t.trials.len() > 0 || t.current_trial > 0 {
                (to_results(with_demo_results(t)), seq![])
            } else {
                (back_to_splash(t), seq![])
            }
        } else {
            (AppView { screen: ScreenView::Processing, ..s }, seq![])
        },
        ConfirmView::DeleteCheckpoint(m) => if yes {
            (back_to_splash(s), seq![EffectView::DeleteCheckpoint(m)])
        } else {
            (to_results(AppView { status_message: "Deletion cancelled."@, ..s }), seq![])
        },
    }
}

/// A key on a confirmation dialog for `action`.
#[verifier::opaque]
pub open spec fn confirm_key(s: AppView, action: ConfirmView, k: KeyInput) -> (AppView, Seq<EffectView>) {
    if is_up(k) {
        (menu_up(s), seq![])
    } else if is_down(k) {
        (menu_down(s), seq![])
    } else {
        match confirm_answer(s, k) {
            Some(yes) => confirmed(s, action, yes),
            None => (s, seq![]),
        }
    }
}

/// The status line once `DeleteCheckpoint` of `model` ran.
pub open spec fn deletion_status(model: Seq<char>, result: Result<bool, Seq<char>>) -> Seq<char> {
    match result {
        Ok(true) => "Deleted checkpoint for "@ + model,
        Ok(false) => "No checkpoint found for "@ + model,
        Err(e) => "Could not delete checkpoint for "@ + model + ": "@ + e,
    }
}

/// The status after a deletion claims one only when the checkpoint was
/// removed: it starts with "Deleted" exactly when the removal succeeded.
pub proof fn deletion_is_claimed_only_when_done(model: Seq<char>, result: Result<bool, Seq<char>>)
    ensures
        starts_with(deletion_status(model, result), "Deleted"@) <==> result == Ok::<bool, Seq<char>>(true),
{
    reveal_strlit("Deleted");
    reveal_strlit("Deleted checkpoint for ");
    reveal_strlit("No checkpoint found for ");
    reveal_strlit("Could not delete checkpoint for ");
    let s = deletion_status(model, result);
    let p = "Deleted"@;
    match result {
        Ok(true) => {
            assert forall|i: int| 0 <= i < p.len() implies s[i] == p[i] by {
                assert(s[i] == "Deleted checkpoint for "@[i]);
            }
            assert(s.subrange(0, p.len() as int) =~= p);
        },
        Ok(false) => {
            assert(s[0] == 'N');
            assert(s.subrange(0, p.len() as int)[0] != p[0]);
        },
        Err(e) => {
            assert(s[0] == 'C');
            assert(s.subrange(0, p.len() as int)[0] != p[0]);
        },
    }
}

fn clone_action(a: &ConfirmAction) -> (r: ConfirmAction)
    ensures
        r@ == a@,
{
    match a {
        ConfirmAction::Quit => ConfirmAction::Quit,
        ConfirmAction::StopProcessing => ConfirmAction::StopProcessing,
        ConfirmAction::DeleteCheckpoint(m) => ConfirmAction::DeleteCheckpoint(m.clone()),
    }
}

impl App {
    fn set_screen(&mut self, screen: Screen)
        ensures
            final(self)@ == (AppView { screen: screen@, ..old(self)@ }),
    {
        self.screen = screen;
    }

    fn stop_processing(&mut self)
        ensures
            final(self)@ == (AppView { is_processing: false, ..old(self)@ }),
    {
        self.is_processing = false;
    }

    fn set_quit(&mut self)
        ensures
            final(self)@ == (AppView { should_quit: true, ..old(self)@ }),
    {
        self.should_quit = true;
    }

    fn show_sample_results(&mut self)
        ensures
            final(self)@ == to_results(with_demo_results(old(self)@)),
    {
        self.generate_demo_results();
        self.switch_to_results();
    }

    fn answer_stop(self, yes: bool) -> (r: App)
        ensures
            r@ == confirmed(self@, ConfirmView::StopProcessing, yes).0,
    {
        proof {
            reveal(confirmed);
        }
        let mut a = self;
        if yes {
            a.stop_processing();
            if a.trials.len() > 0 || a.current_trial > 0 {
                a.show_sample_results();
            } else {
                a.go_back_to_splash();
            }
        } else {
            a.set_screen(Screen::Processing);
        }
        a
    }

    fn answer_quit(self, yes: bool) -> (r: App)
        ensures
            r@ == confirmed(self@, ConfirmView::Quit, yes).0,
    {
        proof {
            reveal(confirmed);
        }
        let mut a = self;
        if yes {
            a.set_quit();
        } else {
            a.go_back_to_splash();
        }
        a
    }

    fn cancel_deletion(&mut self)
        ensures
            final(self)@ == to_results(AppView { status_message: "Deletion cancelled."@, ..old(self)@ }),
    {
        self.status_message = String::from_str("Deletion cancelled.");
        self.switch_to_results();
    }

    fn answer(self, action: ConfirmAction, yes: bool) -> (r: (App, Vec<Effect>))
        ensures
            (r.0@, effect_views(r.1@)) == confirmed(self@, action@, yes),
    {
        proof {
            reveal(confirmed);
        }
        let mut a = self;
        match action {
            ConfirmAction::Quit => (a.answer_quit(yes), effects0()),
            ConfirmAction::StopProcessing => (a.answer_stop(yes), effects0()),
            ConfirmAction::DeleteCheckpoint(m) => {
                if yes {
                    a.go_back_to_splash();
                    (a, effects1(Effect::DeleteCheckpoint(m)))
                } else {
                    a.cancel_deletion();
                    (a, effects0())
                }
            },
        }
    }

    pub(crate) fn handle_confirm_key(self, key: KeyInput) -> (r: (App, Vec<Effect>))
        requires
            self@.screen is Confirm,
        ensures
            (r.0@, effect_views(r.1@)) == confirm_key(self@, confirm_of(self@.screen), key),
    {
        proof {
            reveal(confirm_key);
        }
        let mut a = self;
        let action = match &a.screen {
            Screen::Confirm(act) => clone_action(act),
            _ => ConfirmAction::Quit,
        };
        if key.code == KeyCode::Up || key.code == KeyCode::Char('k') {
            a.menu_up();
            return (a, effects0());
        }
        if key.code == KeyCode::Down || key.code == KeyCode::Char('j') {
            a.menu_down();
            return (a, effects0());
        }
        let yes = if key.code == KeyCode::Enter {
            a.menu_selected == Some(0usize)
        } else if key.code == KeyCode::Char('y') {
            true
        } else if key.code == KeyCode::Esc || key.code == KeyCode::Char('n') {
            false
        } else {
            return (a, effects0());
        };
        a.answer(action, yes)
    }

    /// How `DeleteCheckpoint` of `model` went: whether there was a checkpoint
    /// to delete, or why deleting failed.
    pub fn on_checkpoint_deleted(&mut self, model: &str, result: Result<bool, String>)
        ensures
            final(self)@ == (AppView {
                status_message: deletion_status(
                    model@,
                    match result {
                        Ok(b) => Ok(b),
                        Err(e) => Err(e@),
                    },
                ),
                ..old(self)@
            }),
    {
        let mut v: Vec<char> = Vec::new();
        match result {
            Ok(true) => {
                crate::text::append_str(&mut v, "Deleted checkpoint for ");
                crate::text::append_str(&mut v, model);
            },
            Ok(false) => {
                crate::text::append_str(&mut v, "No checkpoint found for ");
                crate::text::append_str(&mut v, model);
            },
            Err(e) => {
                crate::text::append_str(&mut v, "Could not delete checkpoint for ");
                crate::text::append_str(&mut v, model);
                crate::text::append_str(&mut v, ": ");
                crate::text::append_str(&mut v, e.as_str());
            },
        }
        self.status_message = crate::text::from_chars(&v);
    }
}

} // verus!
