//! Key presses and mouse scrolling, dispatched to the screen shown.

use vstd::prelude::*;

use crate::actions::{confirm_key, confirm_of, trial_actions_key};
use crate::app::{effect_views, has_room, well_formed, App, AppView, Effect, EffectView};
use crate::events::{KeyCode, KeyInput, MouseScroll};
use crate::keys::{model_input_key, token_input_key};
use crate::menu::{Screen, ScreenView};
use crate::screens::{
    about_key, checkpoint_prompt_key, completed_models_key, config_key, effects0, export_key,
    gguf_key, recent_models_key, results_key, setup_key, splash_key,
};
use crate::work::{benchmark_key, chat_edit, chat_key, log_down, log_up, processing_key};

verus! {

/// A key on the screen shown.
#[verifier::opaque]
pub open spec fn screen_key(s: AppView, k: KeyInput) -> (AppView, Seq<EffectView>) {
    match s.screen {
        ScreenView::Splash => splash_key(s, k),
        ScreenView::Setup => setup_key(s, k),
        ScreenView::ModelInput => model_input_key(s, k),
        ScreenView::TokenInput => token_input_key(s, k),
        ScreenView::ConfigSelect => (config_key(s, k), seq![]),
        ScreenView::Processing => processing_key(s, k),
        ScreenView::Results => (results_key(s, k), seq![]),
        ScreenView::TrialActions => trial_actions_key(s, k),
        ScreenView::Chat => chat_key(s, k),
        ScreenView::BenchmarkDashboard => benchmark_key(s, k),
        ScreenView::Export => (export_key(s, k), seq![]),
        ScreenView::CompletedModels => (completed_models_key(s, k), seq![]),
        ScreenView::GgufSizeSelect => gguf_key(s, k),
        ScreenView::CheckpointPrompt => checkpoint_prompt_key(s, k),
        ScreenView::Confirm(a) => confirm_key(s, a, k),
        ScreenView::About => (about_key(s, k), seq![]),
        ScreenView::RecentModels => recent_models_key(s, k),
    }
}

/// A key press: Ctrl+C quits at once; any other key goes to the screen
/// shown. The state after it, whether the application is to quit, and the
/// work asked for.
#[verifier::opaque]
pub open spec fn key_outcome(s: AppView, k: KeyInput) -> (AppView, bool, Seq<EffectView>) {
    if k.ctrl && k.code == KeyCode::Char('c') {
        (s, true, seq![])
    } else {
        let (t, e) = screen_key(s, k);
        (t, t.should_quit, e)
    }
}

/// A mouse event: the wheel scrolls the log on the processing dashboard and
/// the conversation on the chat screen.
#[verifier::opaque]
pub open spec fn mouse_step(s: AppView, m: MouseScroll) -> AppView {
    match s.screen {
        ScreenView::Processing => match m {
            MouseScroll::Up => log_up(s),
            MouseScroll::Down => log_down(s),
            MouseScroll::Other => s,
        },
        ScreenView::Chat => match m {
            MouseScroll::Up => chat_edit(s, KeyCode::Up),
            MouseScroll::Down => chat_edit(s, KeyCode::Down),
            MouseScroll::Other => s,
        },
        _ => s,
    }
}

impl App {
    fn step_key(self, key: KeyInput) -> (r: (App, Vec<Effect>))
        requires
            well_formed(self@),
            has_room(self@),
        ensures
            (r.0@, effect_views(r.1@)) == screen_key(self@, key),
    {
        proof {
            reveal(screen_key);
        }
        match self.screen {
            Screen::Splash => self.handle_splash_key(key),
            Screen::Setup => self.handle_setup_key(key),
            Screen::ModelInput => self.handle_model_input_key(key),
            Screen::TokenInput => self.handle_token_input_key(key),
            Screen::ConfigSelect => (self.handle_config_select_key(key), effects0()),
            Screen::Processing => self.handle_processing_key(key),
            Screen::Results => (self.handle_results_key(key), effects0()),
            Screen::TrialActions => self.handle_trial_actions_key(key),
            Screen::Chat => self.handle_chat_key(key),
            Screen::BenchmarkDashboard => self.handle_benchmark_dashboard_key(key),
            Screen::Export => (self.handle_export_key(key), effects0()),
            Screen::CompletedModels => (self.handle_completed_models_key(key), effects0()),
            Screen::GgufSizeSelect => self.handle_gguf_size_select_key(key),
            Screen::CheckpointPrompt => self.handle_checkpoint_prompt_key(key),
            Screen::Confirm(_) => self.handle_confirm_key(key),
            Screen::About => (self.handle_about_key(key), effects0()),
            Screen::RecentModels => self.handle_recent_models_key(key),
        }
    }

    /// Handles a key press: returns whether the application is to quit, and
    /// the work the caller is to perform, in order.
    pub fn handle_key(&mut self, key: KeyInput) -> (r: (bool, Vec<Effect>))
        requires
            well_formed(old(self)@),
            has_room(old(self)@),
        ensures
            (final(self)@, r.0, effect_views(r.1@)) == key_outcome(old(self)@, key),
    {
        proof {
            reveal(key_outcome);
        }
        if key.ctrl && key.code == KeyCode::Char('c') {
            return (true, effects0());
        }
        let mut current = App::new(String::new(), String::new());
        core::mem::swap(self, &mut current);
        let (next, effects) = current.step_key(key);
        *self = next;
        (self.should_quit, effects)
    }

    fn step_mouse(self, m: MouseScroll) -> (r: App)
        requires
            has_room(self@),
        ensures
            r@ == mouse_step(self@, m),
    {
        proof {
            reveal(mouse_step);
        }
        let mut a = self;
        if matches!(a.screen, Screen::Processing) {
            if m == MouseScroll::Up {
                a.scroll_log_up();
            } else if m == MouseScroll::Down {
                a.scroll_log_down();
            }
        } else if matches!(a.screen, Screen::Chat) {
            if m == MouseScroll::Up {
                return a.edit_chat(KeyCode::Up);
            } else if m == MouseScroll::Down {
                return a.edit_chat(KeyCode::Down);
            }
        }
        a
    }

    /// Handles a mouse event.
    pub fn handle_mouse(&mut self, m: MouseScroll)
        requires
            has_room(old(self)@),
        ensures
            final(self)@ == mouse_step(old(self)@, m),
    {
        proof {
            reveal(mouse_step);
        }
        let mut current = App::new(String::new(), String::new());
        core::mem::swap(self, &mut current);
        *self = current.step_mouse(m);
    }
}

} // verus!
