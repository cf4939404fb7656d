//! What every transition of the application keeps.

use vstd::prelude::*;

use crate::actions::{
    confirm_answer, confirm_key, confirmed, start_benchmarks, start_chat, trial_action,
    trial_actions_key,
};
use crate::app::{
    config_menu, f64_less, gguf_menu, has_room, ClipboardRead, keyed, lemma_menu_lengths, models_menu, well_formed, AppView, EffectView, KlView,
    OutputView,
};
use crate::dispatch::{key_outcome, mouse_step, screen_key};
use crate::events::{KeyCode, KeyInput, MouseScroll};
use crate::input::{edit_lengths, inserted_at, removed_before};
use crate::keys::{
    checkpoint_probed, clipboard_read, model_checked, model_edit, model_input_key, moved_cursor, paste,
    paste_text, pasted_at, token_edit, token_input_key,
};
use crate::menu::{ConfirmView, LogLevel, ScreenView};
use crate::parser::EventView;
use crate::progress::{
    best_after, finish_lines, logged, main_event, main_exited, main_message, main_polled,
    plain_event_line, raw_line, trial_completed, MessageView, ReadingsView,
};
use crate::screens::{
    about_key, checkpoint_prompt_key, completed_models_key, completed_models_listed, config_key,
    export_key, gguf_key, recent_models_key, recent_models_read, results_key, setup_key,
    splash_key, start_gguf, start_processing,
};
use crate::streams::{
    bench_done_state, bench_error_state, bench_json, bench_line, bench_message,
    bench_result_state, bench_status_state, chat_done_state, chat_error_state, chat_line,
    chat_message, chat_ready_state, chat_status_state, chat_token_state,
};
use crate::text::{decimal, has_infix, without_char};
use crate::work::{
    benchmark_key, chat_edit, chat_key, chat_sent, chat_submit, log_copied, processing_key,
};

verus! {

proof fn lemma_menu_screens(s: AppView, k: KeyInput)
    requires
        well_formed(s),
    ensures
        s.screen == ScreenView::Splash ==> well_formed(splash_key(s, k).0),
        s.screen == ScreenView::Setup ==> well_formed(setup_key(s, k).0),
        s.screen == ScreenView::ConfigSelect ==> well_formed(config_key(s, k)),
        s.screen == ScreenView::Results ==> well_formed(results_key(s, k)),
        s.screen == ScreenView::Export ==> well_formed(export_key(s, k)),
        s.screen == ScreenView::CompletedModels ==> well_formed(completed_models_key(s, k)),
        s.screen == ScreenView::GgufSizeSelect ==> well_formed(gguf_key(s, k).0),
        s.screen == ScreenView::CheckpointPrompt ==> well_formed(checkpoint_prompt_key(s, k).0),
        s.screen == ScreenView::About ==> well_formed(about_key(s, k)),
        s.screen == ScreenView::RecentModels ==> well_formed(recent_models_key(s, k).0),
{
    lemma_menu_lengths();
    reveal(splash_key);
    reveal(setup_key);
    reveal(config_key);
    reveal(results_key);
    reveal(export_key);
    reveal(completed_models_key);
    reveal(gguf_key);
    reveal(start_gguf);
    reveal(checkpoint_prompt_key);
    reveal(start_processing);
    reveal(about_key);
    reveal(recent_models_key);
}

proof fn lemma_token_edit(s: AppView, code: KeyCode)
    requires
        well_formed(s),
        s.screen == ScreenView::TokenInput,
    ensures
        well_formed(token_edit(s, code)),
{
    reveal(token_edit);
    let c = s.hf_token_cursor as int;
    let t = token_edit(s, code);
    assert(t.menu_selected == s.menu_selected && t.current_menu == s.current_menu && t.screen
        == s.screen);
    if let KeyCode::Char(ch) = code {
        edit_lengths(s.hf_token_input, c, ch);
        assert(t.hf_token_input == inserted_at(s.hf_token_input, c, ch));
    } else if code == KeyCode::Backspace {
        edit_lengths(s.hf_token_input, c, ' ');
        assert(t.hf_token_input == removed_before(s.hf_token_input, c).0);
    } else {
        assert(t.hf_token_input == s.hf_token_input);
        assert(t.hf_token_cursor == moved_cursor(code, s.hf_token_cursor, s.hf_token_input.len()));
    }
}

proof fn lemma_work_screens(s: AppView, k: KeyInput)
    requires
        well_formed(s),
    ensures
        s.screen == ScreenView::ModelInput ==> well_formed(model_input_key(s, k).0),
        s.screen == ScreenView::TokenInput ==> well_formed(token_input_key(s, k).0),
        s.screen == ScreenView::Processing ==> well_formed(processing_key(s, k).0),
        s.screen == ScreenView::TrialActions ==> well_formed(trial_actions_key(s, k).0),
        s.screen == ScreenView::Chat ==> well_formed(chat_key(s, k).0),
        s.screen == ScreenView::BenchmarkDashboard ==> well_formed(benchmark_key(s, k).0),
        s.screen is Confirm ==> well_formed(confirm_key(s, s.screen->0, k).0),
{
    lemma_menu_lengths();
    reveal(model_input_key);
    reveal(model_edit);
    reveal(token_input_key);
    reveal(processing_key);
    reveal(trial_actions_key);
    reveal(trial_action);
    reveal(start_chat);
    reveal(start_benchmarks);
    reveal(chat_key);
    reveal(chat_edit);
    reveal(chat_submit);
    reveal(benchmark_key);
    reveal(confirm_key);
    reveal(confirmed);
    if s.screen == ScreenView::TokenInput {
        lemma_token_edit(s, k.code);
    }
}

/// Every key press keeps the application well formed: a menu entry stays
/// selected within the menu, the token cursor within the token, and the
/// screens that return to a fixed menu entry hold a menu that has it.
pub proof fn key_keeps_well_formed(s: AppView, k: KeyInput)
    requires
        well_formed(s),
    ensures
        well_formed(key_outcome(s, k).0),
{
    reveal(key_outcome);
    reveal(screen_key);
    lemma_menu_screens(s, k);
    lemma_work_screens(s, k);
}

/// Mouse scrolling keeps the application well formed, and changes nothing
/// but the scroll offsets of the log and the conversation.
pub proof fn mouse_keeps_well_formed(s: AppView, m: MouseScroll)
    requires
        well_formed(s),
    ensures
        well_formed(mouse_step(s, m)),
        mouse_step(s, m) == (AppView {
            log_scroll: mouse_step(s, m).log_scroll,
            log_auto_scroll: mouse_step(s, m).log_auto_scroll,
            chat_scroll: mouse_step(s, m).chat_scroll,
            chat_auto_scroll: mouse_step(s, m).chat_auto_scroll,
            ..s
        }),
{
    reveal(mouse_step);
    reveal(chat_edit);
}


/// Pasting text keeps the application well formed: the token cursor moves
/// past the pasted text and stays within the token.
pub proof fn paste_keeps_well_formed(s: AppView, text: Seq<char>)
    requires
        well_formed(s),
    ensures
        well_formed(paste(s, text)),
{
    reveal(paste);
    let t = paste_text(text);
    let k = if s.hf_token_cursor < s.hf_token_input.len() {
        s.hf_token_cursor as int
    } else {
        s.hf_token_input.len() as int
    };
    assert(pasted_at(s.hf_token_input, s.hf_token_cursor as int, t).len() == s.hf_token_input.len()
        + t.len());
}

/// Whatever reading the clipboard gave keeps the application well formed: a
/// pasted text leaves the token cursor within the token.
pub proof fn clipboard_keeps_well_formed(s: AppView, read: ClipboardRead)
    requires
        well_formed(s),
    ensures
        well_formed(clipboard_read(s, read)),
{
    reveal(clipboard_read);
    if let ClipboardRead::Text(t) = read {
        paste_keeps_well_formed(s, t@);
    }
}

/// What outside work reports back keeps the application well formed.
pub proof fn reports_keep_well_formed(
    s: AppView,
    models: Seq<Seq<char>>,
    content: Seq<char>,
    is_dir: bool,
    http: Option<Seq<char>>,
    exists: bool,
    ok: bool,
)
    requires
        well_formed(s),
    ensures
        well_formed(completed_models_listed(s, models)),
        well_formed(recent_models_read(s, content)),
        well_formed(model_checked(s, is_dir, http).0),
        well_formed(checkpoint_probed(s, exists).0),
        well_formed(log_copied(s, ok)),
        well_formed(chat_sent(s, ok)),
{
    lemma_menu_lengths();
    reveal(completed_models_listed);
    reveal(recent_models_read);
    reveal(model_checked);
    reveal(checkpoint_probed);
    reveal(start_processing);
    reveal(log_copied);
    reveal(chat_sent);
    assert(models_menu(models, "Select to convert to GGUF"@, keyed("Back"@, "Return to main menu"@, "Esc"@)).len() == models.len() + 1);
    let recent = crate::store::recent_list(content);
    assert(models_menu(recent, "Select to launch"@, keyed("Back"@, "Return to setup"@, "Esc"@)).len() == recent.len() + 1);
}

/// The output of the processes the application runs keeps it well formed.
pub proof fn messages_keep_well_formed(s: AppView, m: MessageView, r: ReadingsView)
    requires
        well_formed(s),
    ensures
        well_formed(main_message(s, m, r).0),
        well_formed(chat_message(s, m).0),
        well_formed(bench_message(s, m).0),
        well_formed(main_polled(s).0),
{
    lemma_main_messages_keep_well_formed(s, m, r);
    lemma_chat_messages_keep_well_formed(s, m);
    lemma_bench_messages_keep_well_formed(s, m);
}

proof fn lemma_main_messages_keep_well_formed(s: AppView, m: MessageView, r: ReadingsView)
    requires
        well_formed(s),
    ensures
        well_formed(main_message(s, m, r).0),
        well_formed(main_polled(s).0),
{
    lemma_menu_lengths();
    reveal(main_message);
    reveal(main_event);
    reveal(plain_event_line);
    reveal(main_exited);
    reveal(raw_line);
    reveal(trial_completed);
    reveal(logged);
    reveal(main_polled);
}

proof fn lemma_chat_messages_keep_well_formed(s: AppView, m: MessageView)
    requires
        well_formed(s),
    ensures
        well_formed(chat_message(s, m).0),
{
    lemma_menu_lengths();
    reveal(chat_message);
    reveal(chat_line);
    reveal(chat_ready_state);
    reveal(chat_status_state);
    reveal(chat_token_state);
    reveal(chat_done_state);
    reveal(chat_error_state);
}

proof fn lemma_bench_messages_keep_well_formed(s: AppView, m: MessageView)
    requires
        well_formed(s),
    ensures
        well_formed(bench_message(s, m).0),
{
    lemma_menu_lengths();
    reveal(bench_message);
    reveal(bench_line);
    reveal(bench_json);
    reveal(bench_result_state);
    reveal(bench_status_state);
    reveal(bench_done_state);
    reveal(bench_error_state);
}

/// Ctrl+C quits from every screen, leaving the state as it was.
pub proof fn ctrl_c_quits(s: AppView, shift: bool)
    ensures
        key_outcome(s, KeyInput { code: KeyCode::Char('c'), ctrl: true, shift }) == (
            s,
            true,
            Seq::<EffectView>::empty(),
        ),
{
    reveal(key_outcome);
}

/// A checkpoint is only deleted when its deletion was confirmed: the key
/// press that asks for it answers yes on the dialog naming that model.
pub proof fn deletion_needs_confirmation(s: AppView, k: KeyInput, m: Seq<char>)
    requires
        well_formed(s),
        key_outcome(s, k).2.contains(EffectView::DeleteCheckpoint(m)),
    ensures
        s.screen == ScreenView::Confirm(ConfirmView::DeleteCheckpoint(m)),
        confirm_answer(s, k) == Some(true),
{
    reveal(key_outcome);
    let e = key_outcome(s, k).2;
    let i = choose|i: int| 0 <= i < e.len() && e[i] == EffectView::DeleteCheckpoint(m);
    assert(e[i] == EffectView::DeleteCheckpoint(m));
    assert(!(k.ctrl && k.code == KeyCode::Char('c')));
    assert(screen_key(s, k).1[i] == EffectView::DeleteCheckpoint(m));
    match s.screen {
        ScreenView::Processing | ScreenView::Chat | ScreenView::BenchmarkDashboard
        | ScreenView::GgufSizeSelect => lemma_no_deletion_at_work(s, k, m, i),
        ScreenView::TrialActions => lemma_no_deletion_from_trial(s, k, m, i),
        ScreenView::Confirm(a) => lemma_deletion_confirmed(s, a, k, m, i),
        _ => lemma_no_deletion_in_menus(s, k, m, i),
    }
}

proof fn lemma_no_deletion_in_menus(s: AppView, k: KeyInput, m: Seq<char>, i: int)
    requires
        !(s.screen is Processing || s.screen is Chat || s.screen is BenchmarkDashboard
            || s.screen is GgufSizeSelect || s.screen is TrialActions || s.screen is Confirm),
        0 <= i < screen_key(s, k).1.len(),
    ensures
        screen_key(s, k).1[i] != EffectView::DeleteCheckpoint(m),
{
    reveal(screen_key);
    reveal(splash_key);
    reveal(setup_key);
    reveal(model_input_key);
    reveal(token_input_key);
    reveal(checkpoint_prompt_key);
    reveal(start_processing);
    reveal(recent_models_key);
}

proof fn lemma_no_deletion_at_work(s: AppView, k: KeyInput, m: Seq<char>, i: int)
    requires
        s.screen is Processing || s.screen is Chat || s.screen is BenchmarkDashboard
            || s.screen is GgufSizeSelect,
        0 <= i < screen_key(s, k).1.len(),
    ensures
        screen_key(s, k).1[i] != EffectView::DeleteCheckpoint(m),
{
    reveal(screen_key);
    reveal(processing_key);
    reveal(chat_key);
    reveal(chat_submit);
    reveal(benchmark_key);
    reveal(gguf_key);
    reveal(start_gguf);
}

proof fn lemma_no_deletion_from_trial(s: AppView, k: KeyInput, m: Seq<char>, i: int)
    requires
        well_formed(s),
        s.screen is TrialActions,
        0 <= i < screen_key(s, k).1.len(),
    ensures
        screen_key(s, k).1[i] != EffectView::DeleteCheckpoint(m),
{
    reveal(screen_key);
    reveal(trial_actions_key);
    reveal(trial_action);
    reveal(start_chat);
    reveal(start_benchmarks);
}

proof fn lemma_deletion_confirmed(s: AppView, a: ConfirmView, k: KeyInput, m: Seq<char>, i: int)
    requires
        s.screen == ScreenView::Confirm(a),
        0 <= i < screen_key(s, k).1.len(),
        screen_key(s, k).1[i] == EffectView::DeleteCheckpoint(m),
    ensures
        a == ConfirmView::DeleteCheckpoint(m),
        confirm_answer(s, k) == Some(true),
{
    reveal(screen_key);
    reveal(confirm_key);
    reveal(confirmed);
}

/// A GGUF conversion is only reported done once it exited cleanly and its
/// output file was found, not empty.
pub proof fn conversion_success_is_verified(
    g: Option<Seq<Seq<char>>>,
    code: Option<i32>,
    o: Option<OutputView>,
)
    requires
        g is Some,
        finish_lines(g, code, o).len() > 0,
        finish_lines(g, code, o)[0].1 == LogLevel::Success,
    ensures
        code == Some(0i32),
        o matches Some(c) && c.size matches Ok(n) && n > 0,
{
    reveal(finish_lines);
    crate::menu::exit_report_levels("GGUF conversion"@, code);
}

/// The best trial never gets worse: after a trial its refusals are at most
/// the trial's and at most the best before it.
pub proof fn best_never_worsens(best_r: Option<usize>, best_k: Option<KlView>, refusals: usize, kl: KlView)
    ensures
        best_after(best_r, best_k, refusals, kl).0 matches Some(b) && b <= refusals,
        best_r matches Some(p) ==> (best_after(best_r, best_k, refusals, kl).0 matches Some(b) && b <= p),
{
}

/// `(best_r, best_k)` is the least (refusals, KL) pair of the trials whose
/// refusals and KL readings are `refusals` and `kls`, refusals first: it is
/// one of them, no trial has fewer refusals, and none with as few has a lower
/// KL reading. With no trial there is no best.
pub open spec fn is_least_trial(
    best_r: Option<usize>,
    best_k: Option<KlView>,
    refusals: Seq<usize>,
    kls: Seq<KlView>,
) -> bool {
    match best_r {
        None => refusals.len() == 0,
        Some(b) => match best_k {
            None => false,
            Some(bk) => {
                &&& exists|i: int| 0 <= i < refusals.len() && #[trigger] refusals[i] == b && kls[i] == bk
                &&& forall|i: int| 0 <= i < refusals.len() ==> b <= #[trigger] refusals[i]
                &&& forall|i: int|
                    0 <= i < refusals.len() && #[trigger] refusals[i] == b ==> !f64_less(
                        kls[i].bits,
                        bk.bits,
                    )
            },
        },
    }
}

/// The best after one more trial is the least (refusals, KL) pair of all
/// trials so far, when it was before the trial.
pub proof fn best_is_least_of_all_trials(
    best_r: Option<usize>,
    best_k: Option<KlView>,
    refusals: Seq<usize>,
    kls: Seq<KlView>,
    r: usize,
    k: KlView,
)
    requires
        refusals.len() == kls.len(),
        is_least_trial(best_r, best_k, refusals, kls),
    ensures
        is_least_trial(
            best_after(best_r, best_k, r, k).0,
            best_after(best_r, best_k, r, k).1,
            refusals.push(r),
            kls.push(k),
        ),
{
    let rs = refusals.push(r);
    let ks = kls.push(k);
    let n = refusals.len() as int;
    assert(rs[n] == r && ks[n] == k);
    assert forall|i: int| 0 <= i < n implies rs[i] == refusals[i] && ks[i] == kls[i] by {}
    match best_r {
        None => {},
        Some(b) => {
            let bk = best_k->0;
            let w = choose|i: int| 0 <= i < refusals.len() && #[trigger] refusals[i] == b && kls[i] == bk;
            assert(rs[w] == b && ks[w] == bk);
            if r < b {
                assert forall|i: int| 0 <= i < rs.len() implies r <= #[trigger] rs[i] by {
                    if i < n {
                        assert(b <= refusals[i]);
                    }
                }
                assert forall|i: int| 0 <= i < rs.len() && #[trigger] rs[i] == r implies !f64_less(
                    ks[i].bits,
                    k.bits,
                ) by {
                    if i < n {
                        assert(b <= refusals[i]);
                    }
                }
            } else if r == b {
                assert forall|i: int| 0 <= i < rs.len() implies b <= #[trigger] rs[i] by {
                    if i < n {
                        assert(b <= refusals[i]);
                    }
                }
                if f64_less(k.bits, bk.bits) {
                    assert forall|i: int| 0 <= i < rs.len() && #[trigger] rs[i] == b implies !f64_less(
                        ks[i].bits,
                        k.bits,
                    ) by {
                        if i < n {
                            assert(!f64_less(kls[i].bits, bk.bits));
                        }
                    }
                } else {
                    assert forall|i: int| 0 <= i < rs.len() && #[trigger] rs[i] == b implies !f64_less(
                        ks[i].bits,
                        bk.bits,
                    ) by {
                        if i < n {
                            assert(!f64_less(kls[i].bits, bk.bits));
                        }
                    }
                }
            } else {
                assert forall|i: int| 0 <= i < rs.len() implies b <= #[trigger] rs[i] by {
                    if i < n {
                        assert(b <= refusals[i]);
                    }
                }
                assert forall|i: int| 0 <= i < rs.len() && #[trigger] rs[i] == b implies !f64_less(
                    ks[i].bits,
                    bk.bits,
                ) by {
                    if i < n {
                        assert(!f64_less(kls[i].bits, bk.bits));
                    }
                }
            }
        },
    }
}

/// A run starts with no best trial, and every completed trial keeps the best
/// the least (refusals, KL) pair of the whole history, refusals first.
pub proof fn best_trial_is_least_so_far(s: AppView, number: usize, refusals: usize, prompts: usize)
    ensures
        is_least_trial(
            start_processing(s).0.best_refusals,
            start_processing(s).0.best_kl,
            start_processing(s).0.refusal_history,
            start_processing(s).0.kl_history,
        ),
        s.refusal_history.len() == s.kl_history.len() && is_least_trial(
            s.best_refusals,
            s.best_kl,
            s.refusal_history,
            s.kl_history,
        ) ==> {
            let t = trial_completed(s, number, refusals, prompts);
            &&& t.refusal_history.len() == t.kl_history.len()
            &&& is_least_trial(t.best_refusals, t.best_kl, t.refusal_history, t.kl_history)
        },
{
    reveal(trial_completed);
    reveal(start_processing);
    if s.refusal_history.len() == s.kl_history.len() && is_least_trial(
        s.best_refusals,
        s.best_kl,
        s.refusal_history,
        s.kl_history,
    ) {
        let kl = match s.pending_kl {
            Some(k) => k,
            None => crate::app::zero_kl(),
        };
        best_is_least_of_all_trials(
            s.best_refusals,
            s.best_kl,
            s.refusal_history,
            s.kl_history,
            refusals,
            kl,
        );
    }
}

/// Whatever a main process reports, the best trial stays the least
/// (refusals, KL) pair of the whole history, refusals first.
pub proof fn best_stays_least_through_messages(s: AppView, m: MessageView, r: ReadingsView)
    requires
        s.refusal_history.len() == s.kl_history.len(),
        is_least_trial(s.best_refusals, s.best_kl, s.refusal_history, s.kl_history),
    ensures
        ({
            let t = main_message(s, m, r).0;
            &&& t.refusal_history.len() == t.kl_history.len()
            &&& is_least_trial(t.best_refusals, t.best_kl, t.refusal_history, t.kl_history)
        }),
{
    reveal(main_message);
    reveal(main_event);
    reveal(main_exited);
    reveal(logged);
    reveal(raw_line);
    match m {
        MessageView::Event(e) => {
            if let EventView::TrialComplete { trial_number, total_trials: _, refusals, total_prompts } = e {
                best_trial_is_least_so_far(s, trial_number, refusals, total_prompts);
            }
        },
        _ => {},
    }
}

/// The presets set what their entries name: Enter on one of the first three
/// sets the trial count that its label names in brackets ("Aggressive (400
/// trials)" gives 400), without 4-bit quantization or the advanced kernel; the
/// fourth turns on 4-bit quantization and the fifth the advanced kernel, each
/// with 200 trials. The main menu then reports the configuration.
pub proof fn config_presets_set_what_they_name(s: AppView, ctrl: bool, shift: bool)
    requires
        s.screen == ScreenView::ConfigSelect,
        s.menu_selected matches Some(i) && i < 5,
    ensures
        ({
            let k = KeyInput { code: KeyCode::Enter, ctrl, shift };
            let i = s.menu_selected->0;
            let t = key_outcome(s, k).0;
            &&& key_outcome(s, k).2 == Seq::<EffectView>::empty()
            &&& t.screen == ScreenView::Splash
            &&& i < 3 ==> has_infix(
                config_menu()[i as int].label,
                "("@ + decimal(t.total_trials as nat) + " trials)"@,
            ) && !t.quantize && !t.use_obliteratus
            &&& i == 0 ==> t.total_trials == 200
            &&& i == 1 ==> t.total_trials == 50
            &&& i == 2 ==> t.total_trials == 400
            &&& i == 3 ==> t.total_trials == 200 && t.quantize && !t.use_obliteratus
            &&& i == 4 ==> t.total_trials == 200 && !t.quantize && t.use_obliteratus
            &&& t.status_message == "Config: "@ + decimal(t.total_trials as nat) + (if t.use_obliteratus {
                " trials, OBLITERATUS Advanced"@
            } else if t.quantize {
                " trials, 4-bit"@
            } else {
                " trials"@
            })
        }),
{
    let k = KeyInput { code: KeyCode::Enter, ctrl, shift };
    reveal(key_outcome);
    reveal(screen_key);
    reveal(config_key);
    reveal(config_menu);
    let i = s.menu_selected->0;
    let t = key_outcome(s, k).0;
    reveal_strlit("(");
    reveal_strlit(" trials)");
    reveal_with_fuel(decimal, 4);
    if i == 0 {
        reveal_strlit("Default (200 trials)");
        let p = "("@ + decimal(200) + " trials)"@;
        assert(decimal(200) =~= seq!['2', '0', '0']);
        assert("Default (200 trials)"@.subrange(8, 8 + p.len() as int) =~= p);
        assert(crate::text::occurs_at("Default (200 trials)"@, p, 8));
    } else if i == 1 {
        reveal_strlit("Quick Test (50 trials)");
        let p = "("@ + decimal(50) + " trials)"@;
        assert(decimal(50) =~= seq!['5', '0']);
        assert("Quick Test (50 trials)"@.subrange(11, 11 + p.len() as int) =~= p);
        assert(crate::text::occurs_at("Quick Test (50 trials)"@, p, 11));
    } else if i == 2 {
        reveal_strlit("Aggressive (400 trials)");
        let p = "("@ + decimal(400) + " trials)"@;
        assert(decimal(400) =~= seq!['4', '0', '0']);
        assert("Aggressive (400 trials)"@.subrange(11, 11 + p.len() as int) =~= p);
        assert(crate::text::occurs_at("Aggressive (400 trials)"@, p, 11));
    }
}

/// Enter on a GGUF size starts a conversion of the chosen model at the
/// quantization that its entry names ("Q4_K_M", "Q8_0", and "f16" for "F16"),
/// writing to `exports/` under the model's export stem and that quantization.
pub proof fn gguf_entries_convert_at_their_size(s: AppView, ctrl: bool, shift: bool)
    requires
        s.screen == ScreenView::GgufSizeSelect,
        s.menu_selected matches Some(i) && i < 3,
    ensures
        ({
            let k = KeyInput { code: KeyCode::Enter, ctrl, shift };
            let i = s.menu_selected->0;
            let t = key_outcome(s, k).0;
            let q = t.gguf_size;
            &&& key_outcome(s, k).2 == seq![EffectView::SpawnGguf { model: s.model_input, quant: q }]
            &&& t.gguf_output == Some(
                seq!["exports"@, crate::subprocess::export_stem(s.model_input) + "-"@ + q + ".gguf"@],
            )
            &&& t.screen == ScreenView::Processing
            &&& t.is_processing
            &&& i < 2 ==> q == gguf_menu()[i as int].label
            &&& i == 2 ==> gguf_menu()[2].label == "F16"@ && q == "f16"@
        }),
{
    reveal(key_outcome);
    reveal(screen_key);
    reveal(gguf_key);
    reveal(start_gguf);
    reveal(gguf_menu);
}

/// Pasted text never brings a line break into a field.
pub proof fn pasted_text_has_no_line_breaks(t: Seq<char>)
    ensures
        !paste_text(t).contains('\n'),
        !paste_text(t).contains('\r'),
{
    lemma_without_char_excludes(t, '\n');
    lemma_without_char_keeps_absence(without_char(t, '\n'), '\r', '\n');
    lemma_without_char_excludes(without_char(t, '\n'), '\r');
}

proof fn lemma_without_char_excludes(s: Seq<char>, c: char)
    ensures
        !without_char(s, c).contains(c),
    decreases s.len(),
{
    if s.len() > 0 {
        lemma_without_char_excludes(s.drop_last(), c);
        let w = without_char(s.drop_last(), c);
        if s.last() != c {
            assert forall|i: int| 0 <= i < w.push(s.last()).len() implies w.push(s.last())[i] != c by {
                if i < w.len() {
                    assert(w.push(s.last())[i] == w[i]);
                }
            }
        }
    }
}

proof fn lemma_without_char_keeps_absence(s: Seq<char>, c: char, d: char)
    requires
        !s.contains(d),
    ensures
        !without_char(s, c).contains(d),
    decreases s.len(),
{
    if s.len() > 0 {
        assert(!s.drop_last().contains(d)) by {
            if s.drop_last().contains(d) {
                let i = choose|i: int| 0 <= i < s.drop_last().len() && s.drop_last()[i] == d;
                assert(s[i] == d);
            }
        }
        lemma_without_char_keeps_absence(s.drop_last(), c, d);
        let w = without_char(s.drop_last(), c);
        if s.last() != c {
            assert(s[s.len() - 1] != d);
            assert forall|i: int| 0 <= i < w.push(s.last()).len() implies w.push(s.last())[i] != d by {
                if i < w.len() {
                    assert(w.push(s.last())[i] == w[i]);
                }
            }
        }
    }
}

} // verus!
