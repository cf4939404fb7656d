//! The transitions shared by many screens, and the screens that are menus.

use vstd::prelude::*;

use crate::app::{
    checkpoint_items, checkpoint_menu, config_items, config_menu, demo_trial_list, demo_trials,
    effect_views, export_items, export_menu, gguf_items, gguf_menu, item_views, keyed,
    log_views, model_actions_items, model_actions_menu, models_items, models_menu, results_items,
    results_menu, setup_items, setup_menu, splash_items, splash_menu, App, AppView, Effect,
    EffectView,
};
use crate::events::{KeyCode, KeyInput};
use crate::menu::{ItemView, LogLevel, MenuItem, Screen, ScreenView};
use crate::subprocess::string_views;
use crate::text::decimal;

verus! {

broadcast use vstd::string::group_string_axioms;

// ─── Shared transitions ────────────────────────────────────────

/// The selected menu entry, or the first when none is.
pub open spec fn selected_or_first(s: AppView) -> usize {
    match s.menu_selected {
        Some(i) => i,
        None => 0,
    }
}

/// `s` showing `screen` with `menu`, entry `sel` selected.
pub open spec fn with_menu(s: AppView, screen: ScreenView, menu: Seq<ItemView>, sel: usize) -> AppView {
    AppView { screen, current_menu: menu, menu_selected: Some(sel), ..s }
}

/// Moves the menu selection up one entry, stopping at the first.
pub open spec fn menu_up(s: AppView) -> AppView {
    let i = selected_or_first(s);
    if i > 0 {
        AppView { menu_selected: Some((i - 1) as usize), ..s }
    } else {
        s
    }
}

/// Moves the menu selection down one entry, stopping at the last.
pub open spec fn menu_down(s: AppView) -> AppView {
    let i = selected_or_first(s);
    if i + 1 < s.current_menu.len() {
        AppView { menu_selected: Some((i + 1) as usize), ..s }
    } else {
        s
    }
}

/// Back to the main menu, its first entry selected.
pub open spec fn back_to_splash(s: AppView) -> AppView {
    with_menu(s, ScreenView::Splash, splash_menu(), 0)
}

/// The results table with its first row and first menu entry selected.
pub open spec fn to_results(s: AppView) -> AppView {
    AppView { trial_selected: Some(0), ..with_menu(s, ScreenView::Results, results_menu(), 0) }
}

/// `s` holding the sample results.
pub open spec fn with_demo_results(s: AppView) -> AppView {
    AppView { trials: demo_trials(), ..s }
}

/// Starts a run: the processing screen from a clean slate, and the work of
/// refreshing the readings, recording the model as recently used (when one
/// is named) and starting the environment setup.
#[verifier::opaque]
pub open spec fn start_processing(s: AppView) -> (AppView, Seq<EffectView>) {
    let t = AppView {
        screen: ScreenView::Processing,
        is_processing: true,
        is_setting_up: true,
        has_main_process: true,
        current_trial: 0,
        elapsed_secs: 0,
        eta_secs: None,
        best_refusals: None,
        best_kl: None,
        log_lines: seq![("Verifying Python Environment and Missing Dependencies..."@, LogLevel::Info)],
        kl_history: seq![],
        refusal_history: seq![],
        batch_size: 16,
        gguf_output: None,
        ..s
    };
    let record = if s.model_input.len() > 0 {
        seq![EffectView::RecordRecentModel(s.model_input)]
    } else {
        seq![]
    };
    (t, seq![EffectView::RefreshSystemInfo] + record + seq![EffectView::SpawnSetup])
}

/// The work of checking for a checkpoint of the model before a run.
pub open spec fn check_checkpoint(s: AppView) -> Seq<EffectView> {
    seq![EffectView::ProbeCheckpoint(s.model_input)]
}

/// Whether a key moves a menu selection up.
pub open spec fn is_up(k: KeyInput) -> bool {
    k.code == KeyCode::Up || k.code == KeyCode::Char('k')
}

/// Whether a key moves a menu selection down.
pub open spec fn is_down(k: KeyInput) -> bool {
    k.code == KeyCode::Down || k.code == KeyCode::Char('j')
}

pub fn effects0() -> (r: Vec<Effect>)
    ensures
        effect_views(r@) == Seq::<EffectView>::empty(),
{
    let r: Vec<Effect> = Vec::new();
    assert(effect_views(r@) =~= Seq::<EffectView>::empty());
    r
}

pub fn effects1(e: Effect) -> (r: Vec<Effect>)
    ensures
        effect_views(r@) == seq![e@],
{
    let r = vec![e];
    assert(effect_views(r@) =~= seq![e@]);
    r
}

pub fn push_effect(v: &mut Vec<Effect>, e: Effect)
    ensures
        effect_views(final(v)@) == effect_views(old(v)@).push(e@),
{
    v.push(e);
    assert(effect_views(v@) =~= effect_views(old(v)@).push(e@));
}

fn is_up_key(k: KeyInput) -> (r: bool)
    ensures
        r == is_up(k),
{
    k.code == KeyCode::Up || k.code == KeyCode::Char('k')
}

fn is_down_key(k: KeyInput) -> (r: bool)
    ensures
        r == is_down(k),
{
    k.code == KeyCode::Down || k.code == KeyCode::Char('j')
}

impl App {
    /// Shows `screen` with `items`, entry `sel` selected.
    pub fn set_menu(&mut self, screen: Screen, items: Vec<MenuItem>, sel: usize)
        ensures
            final(self)@ == with_menu(old(self)@, screen@, item_views(items@), sel),
    {
        self.screen = screen;
        self.current_menu = items;
        self.menu_selected = Some(sel);
    }

    /// Appends a line to the log.
    pub fn push_log(&mut self, msg: String, level: LogLevel)
        ensures
            final(self)@ == (AppView { log_lines: old(self)@.log_lines.push((msg@, level)), ..old(self)@ }),
    {
        self.log_lines.push((msg, level));
        assert(log_views(self.log_lines@) =~= log_views(old(self).log_lines@).push((msg@, level)));
    }

    /// Appends a line, given as a literal, to the log.
    pub fn log_str(&mut self, msg: &str, level: LogLevel)
        ensures
            final(self)@ == (AppView { log_lines: old(self)@.log_lines.push((msg@, level)), ..old(self)@ }),
    {
        self.push_log(String::from_str(msg), level);
    }

    pub fn menu_up(&mut self)
        ensures
            final(self)@ == menu_up(old(self)@),
    {
        let i = match self.menu_selected {
            Some(i) => i,
            None => 0,
        };
        if i > 0 {
            self.menu_selected = Some(i - 1);
        }
    }

    pub fn menu_down(&mut self)
        ensures
            final(self)@ == menu_down(old(self)@),
    {
        let i = match self.menu_selected {
            Some(i) => i,
            None => 0,
        };
        if self.current_menu.len() > 0 && i < self.current_menu.len() - 1 {
            self.menu_selected = Some(i + 1);
        }
    }

    pub fn go_back_to_splash(&mut self)
        ensures
            final(self)@ == back_to_splash(old(self)@),
    {
        self.set_menu(Screen::Splash, splash_items(), 0);
    }

    pub fn switch_to_results(&mut self)
        ensures
            final(self)@ == to_results(old(self)@),
    {
        self.set_menu(Screen::Results, results_items(), 0);
        self.trial_selected = Some(0);
    }

    pub fn generate_demo_results(&mut self)
        ensures
            final(self)@ == with_demo_results(old(self)@),
    {
        self.trials = demo_trial_list();
    }

    pub fn start_processing(&mut self) -> (r: Vec<Effect>)
        ensures
            (final(self)@, effect_views(r@)) == start_processing(old(self)@),
    {
        proof {
            reveal(start_processing);
        }
        self.screen = Screen::Processing;
        self.is_processing = true;
        self.is_setting_up = true;
        self.current_trial = 0;
        self.elapsed_secs = 0;
        self.eta_secs = None;
        self.best_refusals = None;
        self.best_kl = None;
        self.log_lines = Vec::new();
        assert(log_views(self.log_lines@) =~= Seq::<(Seq<char>, LogLevel)>::empty());
        self.kl_history = Vec::new();
        assert(crate::app::kl_views(self.kl_history@) =~= Seq::<crate::app::KlView>::empty());
        self.refusal_history = Vec::new();
        assert(self.refusal_history@ =~= Seq::<usize>::empty());
        self.batch_size = 16;
        self.log_str("Verifying Python Environment and Missing Dependencies...", LogLevel::Info);
        let mut effects = effects1(Effect::RefreshSystemInfo);
        if !self.model_input.as_str().is_empty() {
            push_effect(&mut effects, Effect::RecordRecentModel(self.model_input.clone()));
        }
        self.gguf_output = None;
        self.has_main_process = true;
        push_effect(&mut effects, Effect::SpawnSetup);
        proof {
            let (t, e) = start_processing(old(self)@);
            assert(effect_views(effects@) =~= e);
            assert(self@.log_lines =~= t.log_lines);
            assert(self@.kl_history =~= t.kl_history);
            assert(self@.refusal_history =~= t.refusal_history);
        }
        effects
    }
}

// ─── Main menu ─────────────────────────────────────────────────

/// A key on the main menu.
#[verifier::opaque]
pub open spec fn splash_key(s: AppView, k: KeyInput) -> (AppView, Seq<EffectView>) {
    if is_up(k) {
        (menu_up(s), seq![])
    } else if is_down(k) {
        (menu_down(s), seq![])
    } else if k.code == KeyCode::Enter {
        match s.menu_selected {
            Some(0) => (with_menu(s, ScreenView::Setup, setup_menu(), 0), seq![]),
            Some(1) => (s, seq![EffectView::ListCompletedModels]),
            Some(2) => (with_menu(s, ScreenView::ConfigSelect, config_menu(), 0), seq![]),
            Some(3) => (AppView { screen: ScreenView::About, ..s }, seq![]),
            Some(4) => (AppView { should_quit: true, ..s }, seq![]),
            _ => (s, seq![]),
        }
    } else if k.code == KeyCode::Char('q') || k.code == KeyCode::Char('Q') {
        (AppView { should_quit: true, ..s }, seq![])
    } else {
        (s, seq![])
    }
}

/// The models of the checkpoint journals arrived.
#[verifier::opaque]
pub open spec fn completed_models_listed(s: AppView, models: Seq<Seq<char>>) -> AppView {
    if models.len() == 0 {
        AppView { status_message: "No completed models found."@, ..s }
    } else {
        with_menu(
            s,
            ScreenView::CompletedModels,
            models_menu(models, "Select to convert to GGUF"@, keyed("Back"@, "Return to main menu"@, "Esc"@)),
            0,
        )
    }
}

/// A key on the list of completed models.
#[verifier::opaque]
pub open spec fn completed_models_key(s: AppView, k: KeyInput) -> AppView {
    if is_up(k) {
        menu_up(s)
    } else if is_down(k) {
        menu_down(s)
    } else if k.code == KeyCode::Enter {
        let idx = selected_or_first(s);
        if idx + 1 < s.current_menu.len() {
            with_menu(
                AppView { model_input: s.current_menu[idx as int].label, ..s },
                ScreenView::TrialActions,
                model_actions_menu(),
                0,
            )
        } else {
            back_to_splash(s)
        }
    } else if k.code == KeyCode::Esc {
        back_to_splash(s)
    } else {
        s
    }
}

/// A key on the menu for naming the model.
#[verifier::opaque]
pub open spec fn setup_key(s: AppView, k: KeyInput) -> (AppView, Seq<EffectView>) {
    if is_up(k) {
        (menu_up(s), seq![])
    } else if is_down(k) {
        (menu_down(s), seq![])
    } else if k.code == KeyCode::Enter {
        match s.menu_selected {
            Some(0) => (
                AppView { screen: ScreenView::ModelInput, model_input: seq![], model_cursor: 0, ..s },
                seq![],
            ),
            Some(1) => (s, seq![EffectView::ReadRecentModels]),
            _ => (back_to_splash(s), seq![]),
        }
    } else if k.code == KeyCode::Esc {
        (back_to_splash(s), seq![])
    } else {
        (s, seq![])
    }
}

/// The recent-models file arrived, with the text `content`.
#[verifier::opaque]
pub open spec fn recent_models_read(s: AppView, content: Seq<char>) -> AppView {
    let models = crate::store::recent_list(content);
    if models.len() == 0 {
        AppView { status_message: "No recent models found."@, ..s }
    } else {
        with_menu(
            s,
            ScreenView::RecentModels,
            models_menu(models, "Select to launch"@, keyed("Back"@, "Return to setup"@, "Esc"@)),
            0,
        )
    }
}

/// A key on the list of recent models.
#[verifier::opaque]
pub open spec fn recent_models_key(s: AppView, k: KeyInput) -> (AppView, Seq<EffectView>) {
    if is_up(k) {
        (menu_up(s), seq![])
    } else if is_down(k) {
        (menu_down(s), seq![])
    } else if k.code == KeyCode::Enter {
        let idx = selected_or_first(s);
        if idx + 1 < s.current_menu.len() {
            let t = AppView { model_input: s.current_menu[idx as int].label, ..s };
            (t, check_checkpoint(t))
        } else {
            (with_menu(s, ScreenView::Setup, setup_menu(), 1), seq![])
        }
    } else if k.code == KeyCode::Esc {
        (with_menu(s, ScreenView::Setup, setup_menu(), 1), seq![])
    } else {
        (s, seq![])
    }
}

/// The status line after a preset was chosen.
pub open spec fn config_status(s: AppView) -> Seq<char> {
    if s.use_obliteratus {
        "Config: "@ + decimal(s.total_trials as nat) + " trials, OBLITERATUS Advanced"@
    } else if s.quantize {
        "Config: "@ + decimal(s.total_trials as nat) + " trials, 4-bit"@
    } else {
        "Config: "@ + decimal(s.total_trials as nat) + " trials"@
    }
}

/// `s` with a preset: trial count, quantization, advanced kernel.
pub open spec fn with_preset(s: AppView, trials: usize, quantize: bool, advanced: bool) -> AppView {
    AppView { total_trials: trials, quantize, use_obliteratus: advanced, ..s }
}

/// Back to the main menu, reporting the configuration.
pub open spec fn config_chosen(s: AppView) -> AppView {
    AppView { status_message: config_status(s), ..back_to_splash(s) }
}

/// A key on the preset menu.
#[verifier::opaque]
pub open spec fn config_key(s: AppView, k: KeyInput) -> AppView {
    if is_up(k) {
        menu_up(s)
    } else if is_down(k) {
        menu_down(s)
    } else if k.code == KeyCode::Enter {
        match s.menu_selected {
            Some(0) => config_chosen(with_preset(s, 200, false, false)),
            Some(1) => config_chosen(with_preset(s, 50, false, false)),
            Some(2) => config_chosen(with_preset(s, 400, false, false)),
            Some(3) => config_chosen(with_preset(s, 200, true, false)),
            Some(4) => config_chosen(with_preset(s, 200, false, true)),
            Some(5) => AppView {
                screen: ScreenView::TokenInput,
                hf_token_cursor: s.hf_token_input.len() as usize,
                ..s
            },
            Some(6) => back_to_splash(s),
            _ => config_chosen(s),
        }
    } else if k.code == KeyCode::Esc {
        back_to_splash(s)
    } else {
        s
    }
}

/// A key on the about screen.
#[verifier::opaque]
pub open spec fn about_key(s: AppView, k: KeyInput) -> AppView {
    if k.code == KeyCode::Esc || k.code == KeyCode::Enter || k.code == KeyCode::Char('q')
        || k.code == KeyCode::Char('Q') {
        AppView { screen: ScreenView::Splash, menu_selected: Some(2), ..s }
    } else {
        s
    }
}

/// A key when a checkpoint of the model was found.
#[verifier::opaque]
pub open spec fn checkpoint_prompt_key(s: AppView, k: KeyInput) -> (AppView, Seq<EffectView>) {
    if is_up(k) {
        (menu_up(s), seq![])
    } else if is_down(k) {
        (menu_down(s), seq![])
    } else if k.code == KeyCode::Enter {
        match s.menu_selected {
            Some(0) => start_processing(s),
            Some(1) => {
                let (t, e) = start_processing(s);
                (t, seq![EffectView::RemoveCheckpoint(s.model_input)] + e)
            },
            _ => (back_to_splash(s), seq![]),
        }
    } else if k.code == KeyCode::Esc {
        (back_to_splash(s), seq![])
    } else {
        (s, seq![])
    }
}

/// A key on the export strategies.
#[verifier::opaque]
pub open spec fn export_key(s: AppView, k: KeyInput) -> AppView {
    if is_up(k) {
        menu_up(s)
    } else if is_down(k) {
        menu_down(s)
    } else if k.code == KeyCode::Enter {
        match s.menu_selected {
            Some(0) | Some(1) => AppView {
                status_message: "Model export complete!"@,
                screen: ScreenView::TrialActions,
                menu_selected: Some(0),
                ..s
            },
            Some(2) => with_menu(s, ScreenView::GgufSizeSelect, gguf_menu(), 0),
            _ => AppView { screen: ScreenView::TrialActions, menu_selected: Some(0), ..s },
        }
    } else if k.code == KeyCode::Esc {
        AppView { screen: ScreenView::TrialActions, menu_selected: Some(0), ..s }
    } else {
        s
    }
}

/// Starts a GGUF conversion at quantization `quant`.
#[verifier::opaque]
pub open spec fn start_gguf(s: AppView, quant: Seq<char>) -> (AppView, Seq<EffectView>) {
    (
        AppView {
            gguf_size: quant,
            is_processing: true,
            log_lines: seq![("Starting GGUF conversion (Size: "@ + quant + ")..."@, LogLevel::Info)],
            screen: ScreenView::Processing,
            gguf_output: Some(seq!["exports"@, crate::subprocess::gguf_file_name(s.model_input, quant)]),
            has_main_process: true,
            ..s
        },
        seq![EffectView::SpawnGguf { model: s.model_input, quant }],
    )
}

/// A key on the GGUF quantizations.
#[verifier::opaque]
pub open spec fn gguf_key(s: AppView, k: KeyInput) -> (AppView, Seq<EffectView>) {
    if is_up(k) {
        (menu_up(s), seq![])
    } else if is_down(k) {
        (menu_down(s), seq![])
    } else if k.code == KeyCode::Enter {
        match s.menu_selected {
            Some(0) => start_gguf(s, "Q4_K_M"@),
            Some(1) => start_gguf(s, "Q8_0"@),
            Some(2) => start_gguf(s, "f16"@),
            _ => (back_to_splash(s), seq![]),
        }
    } else if k.code == KeyCode::Esc {
        (back_to_splash(s), seq![])
    } else {
        (s, seq![])
    }
}

/// A key on the results table.
#[verifier::opaque]
pub open spec fn results_key(s: AppView, k: KeyInput) -> AppView {
    let i: usize = match s.trial_selected {
        Some(i) => i,
        None => 0,
    };
    if is_up(k) {
        if i > 0 {
            AppView { trial_selected: Some((i - 1) as usize), ..s }
        } else {
            s
        }
    } else if is_down(k) {
        if i + 1 < s.trials.len() {
            AppView { trial_selected: Some((i + 1) as usize), ..s }
        } else {
            s
        }
    } else if k.code == KeyCode::Enter {
        if s.trial_selected is Some {
            with_menu(s, ScreenView::TrialActions, crate::app::trial_actions_menu(), 0)
        } else {
            s
        }
    } else if k.code == KeyCode::Char('q') || k.code == KeyCode::Char('Q') || k.code
        == KeyCode::Esc {
        back_to_splash(s)
    } else {
        s
    }
}

impl App {
    pub(crate) fn handle_splash_key(self, key: KeyInput) -> (r: (App, Vec<Effect>))
        ensures
            (r.0@, effect_views(r.1@)) == splash_key(self@, key),
    {
        proof {
            reveal(splash_key);
        }
        let mut a = self;
        let sel = a.menu_selected;
        if is_up_key(key) {
            a.menu_up();
        } else if is_down_key(key) {
            a.menu_down();
        } else if key.code == KeyCode::Enter {
            if sel == Some(0usize) {
                a.set_menu(Screen::Setup, setup_items(), 0);
            } else if sel == Some(1usize) {
                return (a, effects1(Effect::ListCompletedModels));
            } else if sel == Some(2usize) {
                a.set_menu(Screen::ConfigSelect, config_items(), 0);
            } else if sel == Some(3usize) {
                a.screen = Screen::About;
            } else if sel == Some(4usize) {
                a.should_quit = true;
            }
        } else if key.code == KeyCode::Char('q') || key.code == KeyCode::Char('Q') {
            a.should_quit = true;
        }
        (a, effects0())
    }

    /// The models named by the checkpoint journals, as `ListCompletedModels` found them.
    pub fn on_completed_models(&mut self, models: Vec<String>)
        ensures
            final(self)@ == completed_models_listed(old(self)@, string_views(models@)),
    {
        proof {
            reveal(completed_models_listed);
        }
        if models.len() == 0 {
            self.status_message = String::from_str("No completed models found.");
        } else {
            let back = MenuItem::new("Back", "Return to main menu").with_key("Esc");
            let items = models_items(&models, "Select to convert to GGUF", back);
            self.set_menu(Screen::CompletedModels, items, 0);
        }
    }

    pub(crate) fn handle_completed_models_key(self, key: KeyInput) -> (r: App)
        requires
            crate::app::well_formed(self@),
        ensures
            r@ == completed_models_key(self@, key),
    {
        proof {
            reveal(completed_models_key);
        }
        let mut a = self;
        if is_up_key(key) {
            a.menu_up();
        } else if is_down_key(key) {
            a.menu_down();
        } else if key.code == KeyCode::Enter {
            let idx = match a.menu_selected {
                Some(i) => i,
                None => 0,
            };
            if idx < a.current_menu.len() - 1 {
                a.model_input = a.current_menu[idx].label.clone();
                assert(item_views(a.current_menu@)[idx as int] == a.current_menu@[idx as int]@);
                a.set_menu(Screen::TrialActions, model_actions_items(), 0);
            } else {
                a.go_back_to_splash();
            }
        } else if key.code == KeyCode::Esc {
            a.go_back_to_splash();
        }
        a
    }

    pub(crate) fn handle_setup_key(self, key: KeyInput) -> (r: (App, Vec<Effect>))
        ensures
            (r.0@, effect_views(r.1@)) == setup_key(self@, key),
    {
        proof {
            reveal(setup_key);
        }
        let mut a = self;
        let sel = a.menu_selected;
        if is_up_key(key) {
            a.menu_up();
        } else if is_down_key(key) {
            a.menu_down();
        } else if key.code == KeyCode::Enter {
            if sel == Some(0usize) {
                a.screen = Screen::ModelInput;
                a.model_input = String::new();
                a.model_cursor = 0;
            } else if sel == Some(1usize) {
                return (a, effects1(Effect::ReadRecentModels));
            } else {
                a.go_back_to_splash();
            }
        } else if key.code == KeyCode::Esc {
            a.go_back_to_splash();
        }
        (a, effects0())
    }

    /// The recent-models file as `ReadRecentModels` read it (empty when unreadable).
    pub fn on_recent_models(&mut self, content: &str)
        ensures
            final(self)@ == recent_models_read(old(self)@, content@),
    {
        proof {
            reveal(recent_models_read);
        }
        let models = crate::store::recent_models(content);
        if models.len() == 0 {
            self.status_message = String::from_str("No recent models found.");
        } else {
            let back = MenuItem::new("Back", "Return to setup").with_key("Esc");
            let items = models_items(&models, "Select to launch", back);
            assert(string_views(models@) =~= crate::store::recent_list(content@));
            self.set_menu(Screen::RecentModels, items, 0);
        }
    }

    #[verifier::rlimit(40)]
    pub(crate) fn handle_recent_models_key(self, key: KeyInput) -> (r: (App, Vec<Effect>))
        requires
            crate::app::well_formed(self@),
        ensures
            (r.0@, effect_views(r.1@)) == recent_models_key(self@, key),
    {
        proof {
            reveal(recent_models_key);
        }
        let mut a = self;
        if is_up_key(key) {
            a.menu_up();
        } else if is_down_key(key) {
            a.menu_down();
        } else if key.code == KeyCode::Enter {
            let idx = match a.menu_selected {
                Some(i) => i,
                None => 0,
            };
            if idx < a.current_menu.len() - 1 {
                a.model_input = a.current_menu[idx].label.clone();
                assert(item_views(a.current_menu@)[idx as int] == a.current_menu@[idx as int]@);
                let e = effects1(Effect::ProbeCheckpoint(a.model_input.clone()));
                return (a, e);
            } else {
                a.set_menu(Screen::Setup, setup_items(), 1);
            }
        } else if key.code == KeyCode::Esc {
            a.set_menu(Screen::Setup, setup_items(), 1);
        }
        (a, effects0())
    }

    fn config_chosen(&mut self)
        ensures
            final(self)@ == config_chosen(old(self)@),
    {
        let ghost s0 = self@;
        let mut v: Vec<char> = crate::text::to_chars("Config: ");
        crate::text::append_chars(&mut v, &crate::text::decimal_chars(self.total_trials as u64));
        if self.use_obliteratus {
            crate::text::append_str(&mut v, " trials, OBLITERATUS Advanced");
        } else if self.quantize {
            crate::text::append_str(&mut v, " trials, 4-bit");
        } else {
            crate::text::append_str(&mut v, " trials");
        }
        self.go_back_to_splash();
        self.status_message = crate::text::from_chars(&v);
        assert(self.status_message@ == config_status(s0));
    }

    fn set_preset(&mut self, trials: usize, quantize: bool, advanced: bool)
        ensures
            final(self)@ == with_preset(old(self)@, trials, quantize, advanced),
    {
        self.total_trials = trials;
        self.quantize = quantize;
        self.use_obliteratus = advanced;
    }

    pub(crate) fn handle_config_select_key(self, key: KeyInput) -> (r: App)
        ensures
            r@ == config_key(self@, key),
    {
        proof {
            reveal(config_key);
        }
        let mut a = self;
        let sel = a.menu_selected;
        if is_up_key(key) {
            a.menu_up();
        } else if is_down_key(key) {
            a.menu_down();
        } else if key.code == KeyCode::Enter {
            if sel == Some(5usize) {
                a.screen = Screen::TokenInput;
                a.hf_token_cursor = crate::input::char_len(a.hf_token_input.as_str());
            } else if sel == Some(6usize) {
                a.go_back_to_splash();
            } else {
                if sel == Some(0usize) {
                    a.set_preset(200, false, false);
                } else if sel == Some(1usize) {
                    a.set_preset(50, false, false);
                } else if sel == Some(2usize) {
                    a.set_preset(400, false, false);
                } else if sel == Some(3usize) {
                    a.set_preset(200, true, false);
                } else if sel == Some(4usize) {
                    a.set_preset(200, false, true);
                }
                a.config_chosen();
            }
        } else if key.code == KeyCode::Esc {
            a.go_back_to_splash();
        }
        a
    }

    pub(crate) fn handle_about_key(self, key: KeyInput) -> (r: App)
        ensures
            r@ == about_key(self@, key),
    {
        proof {
            reveal(about_key);
        }
        let mut a = self;
        if key.code == KeyCode::Esc || key.code == KeyCode::Enter || key.code == KeyCode::Char('q')
            || key.code == KeyCode::Char('Q') {
            a.screen = Screen::Splash;
            a.menu_selected = Some(2);
        }
        a
    }

    pub(crate) fn handle_checkpoint_prompt_key(self, key: KeyInput) -> (r: (App, Vec<Effect>))
        ensures
            (r.0@, effect_views(r.1@)) == checkpoint_prompt_key(self@, key),
    {
        proof {
            reveal(checkpoint_prompt_key);
        }
        let mut a = self;
        let sel = a.menu_selected;
        if is_up_key(key) {
            a.menu_up();
        } else if is_down_key(key) {
            a.menu_down();
        } else if key.code == KeyCode::Enter {
            if sel == Some(0usize) {
                let e = a.start_processing();
                return (a, e);
            } else if sel == Some(1usize) {
                let remove = Effect::RemoveCheckpoint(a.model_input.clone());
                let mut rest = a.start_processing();
                let ghost rv = rest@;
                let mut e = effects1(remove);
                let ghost fv = e@;
                e.append(&mut rest);
                assert(e@ == fv + rv);
                assert(effect_views(e@) =~= effect_views(fv) + effect_views(rv));
                return (a, e);
            } else {
                a.go_back_to_splash();
            }
        } else if key.code == KeyCode::Esc {
            a.go_back_to_splash();
        }
        (a, effects0())
    }

    pub(crate) fn handle_export_key(self, key: KeyInput) -> (r: App)
        ensures
            r@ == export_key(self@, key),
    {
        proof {
            reveal(export_key);
        }
        let mut a = self;
        let sel = a.menu_selected;
        if is_up_key(key) {
            a.menu_up();
        } else if is_down_key(key) {
            a.menu_down();
        } else if key.code == KeyCode::Enter {
            if sel == Some(0usize) || sel == Some(1usize) {
                a.status_message = String::from_str("Model export complete!");
                a.screen = Screen::TrialActions;
                a.menu_selected = Some(0);
            } else if sel == Some(2usize) {
                a.set_menu(Screen::GgufSizeSelect, gguf_items(), 0);
            } else {
                a.screen = Screen::TrialActions;
                a.menu_selected = Some(0);
            }
        } else if key.code == KeyCode::Esc {
            a.screen = Screen::TrialActions;
            a.menu_selected = Some(0);
        }
        a
    }

    fn start_gguf(&mut self, quant: &str) -> (r: Vec<Effect>)
        ensures
            (final(self)@, effect_views(r@)) == start_gguf(old(self)@, quant@),
    {
        proof {
            reveal(start_gguf);
        }
        self.gguf_size = String::from_str(quant);
        self.is_processing = true;
        self.log_lines = Vec::new();
        assert(log_views(self.log_lines@) =~= Seq::<(Seq<char>, LogLevel)>::empty());
        let mut msg = crate::text::to_chars("Starting GGUF conversion (Size: ");
        crate::text::append_str(&mut msg, quant);
        crate::text::append_str(&mut msg, ")...");
        self.push_log(crate::text::from_chars(&msg), LogLevel::Info);
        self.screen = Screen::Processing;
        self.gguf_output = Some(crate::subprocess::gguf_output_path(self.model_input.as_str(), quant));
        self.has_main_process = true;
        proof {
            assert(self@.log_lines =~= start_gguf(old(self)@, quant@).0.log_lines);
        }
        effects1(Effect::SpawnGguf { model: self.model_input.clone(), quant: String::from_str(quant) })
    }

    pub(crate) fn handle_gguf_size_select_key(self, key: KeyInput) -> (r: (App, Vec<Effect>))
        ensures
            (r.0@, effect_views(r.1@)) == gguf_key(self@, key),
    {
        proof {
            reveal(gguf_key);
        }
        let mut a = self;
        let sel = a.menu_selected;
        if is_up_key(key) {
            a.menu_up();
        } else if is_down_key(key) {
            a.menu_down();
        } else if key.code == KeyCode::Enter {
            if sel == Some(0usize) {
                let e = a.start_gguf("Q4_K_M");
                return (a, e);
            } else if sel == Some(1usize) {
                let e = a.start_gguf("Q8_0");
                return (a, e);
            } else if sel == Some(2usize) {
                let e = a.start_gguf("f16");
                return (a, e);
            } else {
                a.go_back_to_splash();
            }
        } else if key.code == KeyCode::Esc {
            a.go_back_to_splash();
        }
        (a, effects0())
    }

    pub(crate) fn handle_results_key(self, key: KeyInput) -> (r: App)
        ensures
            r@ == results_key(self@, key),
    {
        proof {
            reveal(results_key);
        }
        let mut a = self;
        let i = match a.trial_selected {
            Some(i) => i,
            None => 0,
        };
        if is_up_key(key) {
            if i > 0 {
                a.trial_selected = Some(i - 1);
            }
        } else if is_down_key(key) {
            if a.trials.len() > 0 && i < a.trials.len() - 1 {
                a.trial_selected = Some(i + 1);
            }
        } else if key.code == KeyCode::Enter {
            if a.trial_selected.is_some() {
                a.set_menu(Screen::TrialActions, crate::app::trial_actions_items(), 0);
            }
        } else if key.code == KeyCode::Char('q') || key.code == KeyCode::Char('Q') || key.code
            == KeyCode::Esc {
            a.go_back_to_splash();
        }
        a
    }
}

} // verus!
