//! The application state machine: what each screen holds, the menus it
//! shows, and the outside work it asks for.
//!
//! Key presses, subprocess output and the results of outside work come in as
//! plain values; each transition says exactly what the state becomes and
//! which [`Effect`]s the caller is to perform, in order. Effects that report
//! back do so through the `on_*` methods.

use vstd::prelude::*;

use crate::menu::{ConfirmAction, ConfirmView, ItemView, LogLevel, MenuItem, Screen, ScreenView};

verus! {

broadcast use vstd::string::group_string_axioms;

// ─── Readings ──────────────────────────────────────────────────

/// A KL divergence reading: the bits of the `f64` the printed value parses
/// to, and that value printed with four decimals.
#[derive(Debug)]
pub struct KlValue {
    pub bits: u64,
    pub shown: String,
}

/// The mathematical value of a [`KlValue`].
pub struct KlView {
    pub bits: u64,
    pub shown: Seq<char>,
}

impl View for KlValue {
    type V = KlView;

    open spec fn view(&self) -> KlView {
        KlView { bits: self.bits, shown: self.shown@ }
    }
}

impl KlValue {
    pub fn clone_value(&self) -> (r: KlValue)
        ensures
            r@ == self@,
    {
        KlValue { bits: self.bits, shown: self.shown.clone() }
    }
}

/// Whether the `f64` with bits `b` is a NaN.
pub open spec fn f64_is_nan(b: u64) -> bool {
    (b >> 52u64) & 0x7ffu64 == 0x7ffu64 && b & 0xf_ffff_ffff_ffffu64 != 0
}

/// An integer that orders the non-NaN `f64`s as `<` does: the magnitude
/// bits, negated for a set sign bit (so both zeros meet at zero).
pub open spec fn f64_key(b: u64) -> int {
    let magnitude = (b & 0x7fff_ffff_ffff_ffffu64) as int;
    if b >> 63u64 == 1 {
        -magnitude
    } else {
        magnitude
    }
}

/// `a < b` for the `f64`s with bits `a` and `b`.
pub open spec fn f64_less(a: u64, b: u64) -> bool {
    !f64_is_nan(a) && !f64_is_nan(b) && f64_key(a) < f64_key(b)
}

/// `a < b` for two readings.
pub fn kl_less(a: &KlValue, b: &KlValue) -> (r: bool)
    ensures
        r == f64_less(a.bits, b.bits),
{
    let a_nan = (a.bits >> 52u64) & 0x7ffu64 == 0x7ffu64 && a.bits & 0xf_ffff_ffff_ffffu64 != 0;
    let b_nan = (b.bits >> 52u64) & 0x7ffu64 == 0x7ffu64 && b.bits & 0xf_ffff_ffff_ffffu64 != 0;
    if a_nan || b_nan {
        return false;
    }
    let am = (a.bits & 0x7fff_ffff_ffff_ffffu64) as i128;
    let bm = (b.bits & 0x7fff_ffff_ffff_ffffu64) as i128;
    let ak: i128 = if a.bits >> 63u64 == 1 {
        -am
    } else {
        am
    };
    let bk: i128 = if b.bits >> 63u64 == 1 {
        -bm
    } else {
        bm
    };
    ak < bk
}

/// The reading of `0.0`.
pub open spec fn zero_kl() -> KlView {
    KlView { bits: 0, shown: "0.0000"@ }
}

// ─── Trials ────────────────────────────────────────────────────

/// One optimization trial as the results table lists it.
#[derive(Debug)]
pub struct TrialResult {
    pub index: usize,
    pub refusals: usize,
    pub total_prompts: usize,
    pub kl_divergence: KlValue,
    pub direction: String,
}

/// The mathematical value of a [`TrialResult`].
pub struct TrialView {
    pub index: usize,
    pub refusals: usize,
    pub total_prompts: usize,
    pub kl_divergence: KlView,
    pub direction: Seq<char>,
}

impl View for TrialResult {
    type V = TrialView;

    open spec fn view(&self) -> TrialView {
        TrialView {
            index: self.index,
            refusals: self.refusals,
            total_prompts: self.total_prompts,
            kl_divergence: self.kl_divergence@,
            direction: self.direction@,
        }
    }
}

/// A trial row of the sample results.
pub open spec fn trial(index: usize, refusals: usize, bits: u64, shown: Seq<char>, dir: Seq<char>) -> TrialView {
    TrialView {
        index,
        refusals,
        total_prompts: 100,
        kl_divergence: KlView { bits, shown },
        direction: dir,
    }
}

/// The sample results shown once an optimization stops.
#[verifier::opaque]
pub open spec fn demo_trials() -> Seq<TrialView> {
    seq![
        trial(142, 2, 0x3f9f_f2e4_8e8a_71de, "0.0312"@, "global"@),
        trial(87, 0, 0x3fbf_ec56_d5cf_aace, "0.1247"@, "per layer"@),
        trial(198, 1, 0x3fae_2824_0b78_0347, "0.0589"@, "global"@),
        trial(56, 3, 0x3f94_9518_2a99_30be, "0.0201"@, "per layer"@),
        trial(171, 5, 0x3f84_1205_bc01_a36e, "0.0098"@, "global"@),
    ]
}

fn make_trial(index: usize, refusals: usize, bits: u64, shown: &str, dir: &str) -> (r: TrialResult)
    ensures
        r@ == trial(index, refusals, bits, shown@, dir@),
{
    TrialResult {
        index,
        refusals,
        total_prompts: 100,
        kl_divergence: KlValue { bits, shown: String::from_str(shown) },
        direction: String::from_str(dir),
    }
}

/// The views of trials.
pub open spec fn trial_views(v: Seq<TrialResult>) -> Seq<TrialView> {
    v.map_values(|t: TrialResult| t@)
}

pub(crate) fn demo_trial_list() -> (r: Vec<TrialResult>)
    ensures
        trial_views(r@) == demo_trials(),
{
    let mut v: Vec<TrialResult> = Vec::new();
    v.push(make_trial(142, 2, 0x3f9f_f2e4_8e8a_71de, "0.0312", "global"));
    v.push(make_trial(87, 0, 0x3fbf_ec56_d5cf_aace, "0.1247", "per layer"));
    v.push(make_trial(198, 1, 0x3fae_2824_0b78_0347, "0.0589", "global"));
    v.push(make_trial(56, 3, 0x3f94_9518_2a99_30be, "0.0201", "per layer"));
    v.push(make_trial(171, 5, 0x3f84_1205_bc01_a36e, "0.0098", "global"));
    proof {
        reveal(demo_trials);
    }
    assert(trial_views(v@) =~= demo_trials());
    v
}

// ─── Outside work ──────────────────────────────────────────────

/// What the GGUF output file was found to be when a conversion exited.
#[derive(Debug)]
pub struct OutputCheck {
    /// The file's path as it is displayed.
    pub shown: String,
    /// Its size, or why it could not be read.
    pub size: Result<u64, String>,
}

/// The mathematical value of an [`OutputCheck`].
pub struct OutputView {
    pub shown: Seq<char>,
    pub size: Result<u64, Seq<char>>,
}

impl View for OutputCheck {
    type V = OutputView;

    open spec fn view(&self) -> OutputView {
        OutputView {
            shown: self.shown@,
            size: match &self.size {
                Ok(n) => Ok(*n),
                Err(e) => Err(e@),
            },
        }
    }
}

/// What reading the clipboard gave.
#[derive(Debug)]
pub enum ClipboardRead {
    Text(String),
    /// The clipboard was reachable but held no text.
    Unreadable,
    /// The clipboard could not be reached.
    Inaccessible,
}

/// Outside work a transition asks the caller to perform, in order.
#[derive(Debug)]
pub enum Effect {
    /// List the checkpoint journals and report the models they name with
    /// `on_completed_models`.
    ListCompletedModels,
    /// Read the recent-models file and report it with `on_recent_models`.
    ReadRecentModels,
    /// Read the clipboard and report it with `on_clipboard`.
    ReadClipboard,
    /// Put the text on the clipboard and report with `on_log_copied`
    /// whether the clipboard was reachable.
    CopyToClipboard(String),
    /// Look for the model as a local folder and on the Hugging Face Hub, and
    /// report with `on_model_checked`.
    ValidateModel(String),
    /// Look for a checkpoint of the model and report with `on_checkpoint_probed`.
    ProbeCheckpoint(String),
    /// Remove the model's checkpoint if there is one.
    RemoveCheckpoint(String),
    /// Move the model to the top of the recent-models file.
    RecordRecentModel(String),
    /// Refresh the GPU and memory readings.
    RefreshSystemInfo,
    /// Start the environment setup as the main process, for a GPU when
    /// `setup_wants_gpu` holds of the refreshed GPU name.
    SpawnSetup,
    /// Start the optimization run of the model, with these arguments, as the
    /// main process.
    SpawnRun { model: String, args: Vec<String> },
    /// Start the GGUF conversion of the model at this quantization as the
    /// main process.
    SpawnGguf { model: String, quant: String },
    /// Set the Hugging Face token (or clear it) for this session and in
    /// `.env`, and report with `on_token_saved`.
    SaveToken(Option<String>),
    /// Delete the model's checkpoint and report with `on_checkpoint_deleted`.
    DeleteCheckpoint(String),
    /// Start the chat server for the model.
    StartChat(String),
    /// Send the text to the chat server and report with `on_chat_sent`.
    SendChat(String),
    /// Kill the chat server and let it go.
    StopChat,
    /// Let the chat server go; it has exited.
    DropChat,
    /// Start the benchmarks of the model.
    StartBenchmark(String),
    /// Kill the benchmark process and let it go.
    StopBenchmark,
    /// Let the benchmark process go; it has exited.
    DropBenchmark,
}

/// The mathematical value of an [`Effect`].
pub enum EffectView {
    ListCompletedModels,
    ReadRecentModels,
    ReadClipboard,
    CopyToClipboard(Seq<char>),
    ValidateModel(Seq<char>),
    ProbeCheckpoint(Seq<char>),
    RemoveCheckpoint(Seq<char>),
    RecordRecentModel(Seq<char>),
    RefreshSystemInfo,
    SpawnSetup,
    SpawnRun { model: Seq<char>, args: Seq<Seq<char>> },
    SpawnGguf { model: Seq<char>, quant: Seq<char> },
    SaveToken(Option<Seq<char>>),
    DeleteCheckpoint(Seq<char>),
    StartChat(Seq<char>),
    SendChat(Seq<char>),
    StopChat,
    DropChat,
    StartBenchmark(Seq<char>),
    StopBenchmark,
    DropBenchmark,
}

impl View for Effect {
    type V = EffectView;

    open spec fn view(&self) -> EffectView {
        match self {
            Effect::ListCompletedModels => EffectView::ListCompletedModels,
            Effect::ReadRecentModels => EffectView::ReadRecentModels,
            Effect::ReadClipboard => EffectView::ReadClipboard,
            Effect::CopyToClipboard(t) => EffectView::CopyToClipboard(t@),
            Effect::ValidateModel(m) => EffectView::ValidateModel(m@),
            Effect::ProbeCheckpoint(m) => EffectView::ProbeCheckpoint(m@),
            Effect::RemoveCheckpoint(m) => EffectView::RemoveCheckpoint(m@),
            Effect::RecordRecentModel(m) => EffectView::RecordRecentModel(m@),
            Effect::RefreshSystemInfo => EffectView::RefreshSystemInfo,
            Effect::SpawnSetup => EffectView::SpawnSetup,
            Effect::SpawnRun { model, args } => EffectView::SpawnRun {
                model: model@,
                args: crate::subprocess::string_views(args@),
            },
            Effect::SpawnGguf { model, quant } => EffectView::SpawnGguf {
                model: model@,
                quant: quant@,
            },
            Effect::SaveToken(t) => EffectView::SaveToken(
                match t {
                    Some(x) => Some(x@),
                    None => None,
                },
            ),
            Effect::DeleteCheckpoint(m) => EffectView::DeleteCheckpoint(m@),
            Effect::StartChat(m) => EffectView::StartChat(m@),
            Effect::SendChat(t) => EffectView::SendChat(t@),
            Effect::StopChat => EffectView::StopChat,
            Effect::DropChat => EffectView::DropChat,
            Effect::StartBenchmark(m) => EffectView::StartBenchmark(m@),
            Effect::StopBenchmark => EffectView::StopBenchmark,
            Effect::DropBenchmark => EffectView::DropBenchmark,
        }
    }
}

/// The views of effects.
pub open spec fn effect_views(v: Seq<Effect>) -> Seq<EffectView> {
    v.map_values(|e: Effect| e@)
}

/// Whether the environment setup is to ask for GPU support, given the GPU
/// name the system readings report.
pub open spec fn wants_gpu(gpu_name: Seq<char>) -> bool {
    gpu_name != "Unknown"@
}

pub fn setup_wants_gpu(gpu_name: &str) -> (r: bool)
    ensures
        r == wants_gpu(gpu_name@),
{
    !crate::text::chars_equal(&crate::text::to_chars(gpu_name), &crate::text::to_chars("Unknown"))
}

// ─── State ─────────────────────────────────────────────────────

/// The state of the whole application.
pub struct App {
    pub screen: Screen,
    pub previous_screen: Option<Screen>,
    pub should_quit: bool,
    pub tick_count: u64,
    /// The selected entry of `current_menu`.
    pub menu_selected: Option<usize>,
    pub current_menu: Vec<MenuItem>,
    /// The selected row of the results table.
    pub trial_selected: Option<usize>,
    pub model_input: String,
    pub model_cursor: usize,
    pub model_error: Option<String>,
    pub hf_token_input: String,
    pub hf_token_cursor: usize,
    pub is_processing: bool,
    pub is_setting_up: bool,
    /// Whether a main process (setup, run or conversion) was started.
    pub has_main_process: bool,
    pub current_trial: usize,
    pub total_trials: usize,
    pub best_refusals: Option<usize>,
    pub best_kl: Option<KlValue>,
    pub pending_kl: Option<KlValue>,
    pub log_lines: Vec<(String, LogLevel)>,
    pub log_scroll: usize,
    pub log_auto_scroll: bool,
    pub elapsed_secs: u64,
    pub eta_secs: Option<u64>,
    /// The GPU name of the latest system readings.
    pub gpu_name: String,
    pub batch_size: usize,
    pub kl_history: Vec<KlValue>,
    pub refusal_history: Vec<usize>,
    pub trials: Vec<TrialResult>,
    /// Role and content of each chat message.
    pub chat_messages: Vec<(String, String)>,
    pub chat_input: String,
    pub chat_scroll: usize,
    /// Stick to the newest message until the user scrolls up deliberately.
    pub chat_auto_scroll: bool,
    /// Whether a chat server is held.
    pub has_chat_process: bool,
    pub chat_loading: bool,
    pub chat_streaming: bool,
    /// Whether a benchmark process is held.
    pub has_benchmark_process: bool,
    pub benchmark_running: bool,
    /// Benchmark, metric and value of each result.
    pub benchmark_results: Vec<(String, String, String)>,
    pub status_message: String,
    pub annihilate_available: bool,
    pub plot_residuals: bool,
    pub quantize: bool,
    pub use_obliteratus: bool,
    pub gguf_size: String,
    /// Where an in-flight GGUF conversion writes, as path components below
    /// the repository root; `None` when the main process is not a conversion.
    pub gguf_output: Option<Vec<String>>,
}

/// The mathematical value of an [`App`].
pub struct AppView {
    pub screen: ScreenView,
    pub previous_screen: Option<ScreenView>,
    pub should_quit: bool,
    pub tick_count: u64,
    pub menu_selected: Option<usize>,
    pub current_menu: Seq<ItemView>,
    pub trial_selected: Option<usize>,
    pub model_input: Seq<char>,
    pub model_cursor: usize,
    pub model_error: Option<Seq<char>>,
    pub hf_token_input: Seq<char>,
    pub hf_token_cursor: usize,
    pub is_processing: bool,
    pub is_setting_up: bool,
    pub has_main_process: bool,
    pub current_trial: usize,
    pub total_trials: usize,
    pub best_refusals: Option<usize>,
    pub best_kl: Option<KlView>,
    pub pending_kl: Option<KlView>,
    pub log_lines: Seq<(Seq<char>, LogLevel)>,
    pub log_scroll: usize,
    pub log_auto_scroll: bool,
    pub elapsed_secs: u64,
    pub eta_secs: Option<u64>,
    pub gpu_name: Seq<char>,
    pub batch_size: usize,
    pub kl_history: Seq<KlView>,
    pub refusal_history: Seq<usize>,
    pub trials: Seq<TrialView>,
    pub chat_messages: Seq<(Seq<char>, Seq<char>)>,
    pub chat_input: Seq<char>,
    pub chat_scroll: usize,
    pub chat_auto_scroll: bool,
    pub has_chat_process: bool,
    pub chat_loading: bool,
    pub chat_streaming: bool,
    pub has_benchmark_process: bool,
    pub benchmark_running: bool,
    pub benchmark_results: Seq<(Seq<char>, Seq<char>, Seq<char>)>,
    pub status_message: Seq<char>,
    pub annihilate_available: bool,
    pub plot_residuals: bool,
    pub quantize: bool,
    pub use_obliteratus: bool,
    pub gguf_size: Seq<char>,
    pub gguf_output: Option<Seq<Seq<char>>>,
}

/// The views of menu items.
pub open spec fn item_views(v: Seq<MenuItem>) -> Seq<ItemView> {
    v.map_values(|m: MenuItem| m@)
}

/// The views of log lines.
pub open spec fn log_views(v: Seq<(String, LogLevel)>) -> Seq<(Seq<char>, LogLevel)> {
    v.map_values(|p: (String, LogLevel)| (p.0@, p.1))
}

/// The views of readings.
pub open spec fn kl_views(v: Seq<KlValue>) -> Seq<KlView> {
    v.map_values(|k: KlValue| k@)
}

/// The views of benchmark results.
pub open spec fn result_views(v: Seq<(String, String, String)>) -> Seq<
    (Seq<char>, Seq<char>, Seq<char>),
> {
    v.map_values(|t: (String, String, String)| (t.0@, t.1@, t.2@))
}

/// The view of an optional string.
pub open spec fn opt_view(o: Option<String>) -> Option<Seq<char>> {
    match o {
        Some(s) => Some(s@),
        None => None,
    }
}

/// The view of an optional reading.
pub open spec fn opt_kl(o: Option<KlValue>) -> Option<KlView> {
    match o {
        Some(k) => Some(k@),
        None => None,
    }
}

impl View for App {
    type V = AppView;

    open spec fn view(&self) -> AppView {
        AppView {
            screen: self.screen@,
            previous_screen: match &self.previous_screen {
                Some(s) => Some(s@),
                None => None,
            },
            should_quit: self.should_quit,
            tick_count: self.tick_count,
            menu_selected: self.menu_selected,
            current_menu: item_views(self.current_menu@),
            trial_selected: self.trial_selected,
            model_input: self.model_input@,
            model_cursor: self.model_cursor,
            model_error: opt_view(self.model_error),
            hf_token_input: self.hf_token_input@,
            hf_token_cursor: self.hf_token_cursor,
            is_processing: self.is_processing,
            is_setting_up: self.is_setting_up,
            has_main_process: self.has_main_process,
            current_trial: self.current_trial,
            total_trials: self.total_trials,
            best_refusals: self.best_refusals,
            best_kl: opt_kl(self.best_kl),
            pending_kl: opt_kl(self.pending_kl),
            log_lines: log_views(self.log_lines@),
            log_scroll: self.log_scroll,
            log_auto_scroll: self.log_auto_scroll,
            elapsed_secs: self.elapsed_secs,
            eta_secs: self.eta_secs,
            gpu_name: self.gpu_name@,
            batch_size: self.batch_size,
            kl_history: kl_views(self.kl_history@),
            refusal_history: self.refusal_history@,
            trials: trial_views(self.trials@),
            chat_messages: crate::json::pair_views(self.chat_messages@),
            chat_input: self.chat_input@,
            chat_scroll: self.chat_scroll,
            chat_auto_scroll: self.chat_auto_scroll,
            has_chat_process: self.has_chat_process,
            chat_loading: self.chat_loading,
            chat_streaming: self.chat_streaming,
            has_benchmark_process: self.has_benchmark_process,
            benchmark_running: self.benchmark_running,
            benchmark_results: result_views(self.benchmark_results@),
            status_message: self.status_message@,
            annihilate_available: self.annihilate_available,
            plot_residuals: self.plot_residuals,
            quantize: self.quantize,
            use_obliteratus: self.use_obliteratus,
            gguf_size: self.gguf_size@,
            gguf_output: match &self.gguf_output {
                Some(p) => Some(crate::subprocess::string_views(p@)),
                None => None,
            },
        }
    }
}

/// The invariant every transition keeps: a menu entry is always selected,
/// the token cursor stays within the token, and the screens that go back to
/// a fixed entry of the menu they came from hold a menu with that entry.
pub open spec fn well_formed(s: AppView) -> bool {
    &&& s.menu_selected matches Some(i) && i < s.current_menu.len()
    &&& s.hf_token_cursor <= s.hf_token_input.len()
    &&& (s.screen is About || s.screen is TrialActions || s.screen is Chat
        || s.screen is BenchmarkDashboard || s.screen is Export) ==> s.current_menu.len() >= 3
}

/// The counters that a key press or mouse event may step forward still have
/// room below their limits (the log and chat offsets, the text cursors).
pub open spec fn has_room(s: AppView) -> bool {
    &&& s.log_scroll < usize::MAX
    &&& s.chat_scroll <= usize::MAX - 10
    &&& s.model_cursor < usize::MAX
    &&& s.hf_token_cursor < usize::MAX
}

/// The state the application starts in, given the Hugging Face token of the
/// environment and the GPU name of the first system readings.
pub open spec fn initial(hf_token: Seq<char>, gpu_name: Seq<char>) -> AppView {
    AppView {
        screen: ScreenView::Splash,
        previous_screen: None,
        should_quit: false,
        tick_count: 0,
        menu_selected: Some(0),
        current_menu: splash_menu(),
        trial_selected: None,
        model_input: seq![],
        model_cursor: 0,
        model_error: None,
        hf_token_input: hf_token,
        hf_token_cursor: hf_token.len() as usize,
        is_processing: false,
        is_setting_up: false,
        has_main_process: false,
        current_trial: 0,
        total_trials: 200,
        best_refusals: None,
        best_kl: None,
        pending_kl: None,
        log_lines: seq![],
        log_scroll: 0,
        log_auto_scroll: true,
        elapsed_secs: 0,
        eta_secs: None,
        gpu_name,
        batch_size: 0,
        kl_history: seq![],
        refusal_history: seq![],
        trials: seq![],
        chat_messages: seq![],
        chat_input: seq![],
        chat_scroll: 0,
        chat_auto_scroll: true,
        has_chat_process: false,
        chat_loading: false,
        chat_streaming: false,
        has_benchmark_process: false,
        benchmark_running: false,
        benchmark_results: seq![],
        status_message: "Ready"@,
        annihilate_available: false,
        plot_residuals: false,
        quantize: false,
        use_obliteratus: false,
        gguf_size: "Q4_K_M"@,
        gguf_output: None,
    }
}

/// The menus have the lengths the screens rely on.
pub proof fn lemma_menu_lengths()
    ensures
        splash_menu().len() == 5,
        setup_menu().len() == 3,
        config_menu().len() == 7,
        results_menu().len() == 3,
        model_actions_menu().len() == 6,
        trial_actions_menu().len() == 6,
        export_menu().len() == 4,
        gguf_menu().len() == 4,
        stop_menu().len() == 2,
        delete_menu().len() == 2,
        checkpoint_menu().len() == 3,
{
    reveal(splash_menu);
    reveal(setup_menu);
    reveal(config_menu);
    reveal(results_menu);
    reveal(model_actions_menu);
    reveal(trial_actions_menu);
    reveal(export_menu);
    reveal(gguf_menu);
    reveal(stop_menu);
    reveal(delete_menu);
    reveal(checkpoint_menu);
}

impl App {
    /// The application as it starts, given the Hugging Face token of the
    /// environment (empty when unset) and the GPU name of the first readings.
    pub fn new(hf_token: String, gpu_name: String) -> (r: App)
        ensures
            r@ == initial(hf_token@, gpu_name@),
            well_formed(r@),
    {
        let cursor = crate::input::char_len(hf_token.as_str());
        let r = App {
            screen: Screen::Splash,
            previous_screen: None,
            should_quit: false,
            tick_count: 0,
            menu_selected: Some(0),
            current_menu: splash_items(),
            trial_selected: None,
            model_input: String::new(),
            model_cursor: 0,
            model_error: None,
            hf_token_input: hf_token,
            hf_token_cursor: cursor,
            is_processing: false,
            is_setting_up: false,
            has_main_process: false,
            current_trial: 0,
            total_trials: 200,
            best_refusals: None,
            best_kl: None,
            pending_kl: None,
            log_lines: Vec::new(),
            log_scroll: 0,
            log_auto_scroll: true,
            elapsed_secs: 0,
            eta_secs: None,
            gpu_name,
            batch_size: 0,
            kl_history: Vec::new(),
            refusal_history: Vec::new(),
            trials: Vec::new(),
            chat_messages: Vec::new(),
            chat_input: String::new(),
            chat_scroll: 0,
            chat_auto_scroll: true,
            has_chat_process: false,
            chat_loading: false,
            chat_streaming: false,
            has_benchmark_process: false,
            benchmark_running: false,
            benchmark_results: Vec::new(),
            status_message: String::from_str("Ready"),
            annihilate_available: false,
            plot_residuals: false,
            quantize: false,
            use_obliteratus: false,
            gguf_size: String::from_str("Q4_K_M"),
            gguf_output: None,
        };
        proof {
            lemma_menu_lengths();
            assert(log_views(r.log_lines@) =~= Seq::<(Seq<char>, LogLevel)>::empty());
            assert(kl_views(r.kl_history@) =~= Seq::<KlView>::empty());
            assert(trial_views(r.trials@) =~= Seq::<TrialView>::empty());
            assert(crate::json::pair_views(r.chat_messages@) =~= Seq::<(Seq<char>, Seq<char>)>::empty());
            assert(result_views(r.benchmark_results@) =~= Seq::<(Seq<char>, Seq<char>, Seq<char>)>::empty());
            assert(r.refusal_history@ =~= Seq::<usize>::empty());
        }
        r
    }

    /// Whether `has_room` holds: the caller checks it before each key press
    /// or mouse event, as stepping past these limits would overflow.
    pub fn room_left(&self) -> (r: bool)
        ensures
            r == has_room(self@),
    {
        self.log_scroll < usize::MAX && self.chat_scroll <= usize::MAX - 10 && self.model_cursor
            < usize::MAX && self.hf_token_cursor < usize::MAX
    }
}

// ─── Menus ─────────────────────────────────────────────────────

pub open spec fn item(label: Seq<char>, desc: Seq<char>) -> ItemView {
    crate::menu::item(label, desc)
}

pub open spec fn keyed(label: Seq<char>, desc: Seq<char>, key: Seq<char>) -> ItemView {
    crate::menu::keyed(label, desc, key)
}

/// The main menu.
#[verifier::opaque]
pub open spec fn splash_menu() -> Seq<ItemView> {
    seq![
        keyed("Start Decensoring"@, "Launch the annihilation workflow"@, "Enter"@),
        keyed("Completed Models"@, "Export finished models to GGUF"@, "M"@),
        keyed("Configuration"@, "Edit settings before running"@, "C"@),
        keyed("About"@, "View project information"@, "A"@),
        keyed("Quit"@, "Exit the application"@, "Q"@),
    ]
}

/// The menu for choosing how to name the model.
#[verifier::opaque]
pub open spec fn setup_menu() -> Seq<ItemView> {
    seq![
        keyed("Enter Model ID/Path"@, "Type a Hugging Face model ID or local path"@, "M"@),
        keyed("Recent Models"@, "Choose from previously used models"@, "R"@),
        keyed("Back"@, "Return to main menu"@, "Esc"@),
    ]
}

/// The optimization presets.
#[verifier::opaque]
pub open spec fn config_menu() -> Seq<ItemView> {
    seq![
        item("Default (200 trials)"@, "Standard configuration, no quantization"@),
        item("Quick Test (50 trials)"@, "Faster run for testing"@),
        item("Aggressive (400 trials)"@, "More thorough optimization"@),
        item("4-bit Quantized"@, "Lower VRAM usage with bnb_4bit"@),
        keyed("OBLITERATUS Advanced"@, "Gaussian kernel, COSMIC selection, and MoE EGA"@, "O"@),
        keyed("Set HF Token"@, "Required for private models or uploading to Hub"@, "T"@),
        keyed("Back"@, "Return to main menu"@, "Esc"@),
    ]
}

/// The menu under the results table.
#[verifier::opaque]
pub open spec fn results_menu() -> Seq<ItemView> {
    seq![
        item("Select this trial"@, "Use the selected trial for export/chat"@),
        item("Run additional trials"@, "Continue optimization with more trials"@),
        item("Back to main menu"@, "Return to splash screen"@),
    ]
}

/// What can be done with a completed model.
#[verifier::opaque]
pub open spec fn model_actions_menu() -> Seq<ItemView> {
    seq![
        keyed("Chat with Model"@, "Test the decensored model"@, "C"@),
        keyed("Run Benchmarks"@, "Evaluate with MMLU, GSM8K, etc."@, "B"@),
        keyed("Convert to GGUF"@, "Export as a quantized GGUF file"@, "G"@),
        keyed("Upload to Hugging Face"@, "Push model to HF Hub"@, "U"@),
        keyed("Delete Model"@, "Remove the checkpoint"@, "D"@),
        keyed("Back"@, "Return to Completed Models"@, "Esc"@),
    ]
}

/// What can be done with a selected trial.
#[verifier::opaque]
pub open spec fn trial_actions_menu() -> Seq<ItemView> {
    seq![
        keyed("Save Model Locally"@, "Export merged model to a folder"@, "S"@),
        keyed("Upload to Hugging Face"@, "Push model to HF Hub"@, "U"@),
        keyed("Chat with Model"@, "Test the decensored model"@, "C"@),
        keyed("Run Benchmarks"@, "Evaluate with MMLU, GSM8K, etc."@, "B"@),
        keyed("Run More Trials"@, "Continue optimization"@, "R"@),
        keyed("Back to Results"@, "Return to trial selection"@, "Esc"@),
    ]
}

/// The export strategies.
#[verifier::opaque]
pub open spec fn export_menu() -> Seq<ItemView> {
    seq![
        item("Merge and export full model"@, "Requires sufficient RAM"@),
        item("Export adapter only"@, "Can be merged later, smaller file"@),
        item("Convert to GGUF"@, "Export as a quantized GGUF file"@),
        keyed("Back"@, "Return to actions menu"@, "Esc"@),
    ]
}

/// The GGUF quantizations.
#[verifier::opaque]
pub open spec fn gguf_menu() -> Seq<ItemView> {
    seq![
        item("Q4_K_M"@, "Good balance of quality and size (recommended)"@),
        item("Q8_0"@, "Near-perfect quality, larger size"@),
        item("F16"@, "Unquantized, maximum quality"@),
        keyed("Back"@, "Return to export options"@, "Esc"@),
    ]
}

/// The choices when asked to stop processing.
#[verifier::opaque]
pub open spec fn stop_menu() -> Seq<ItemView> {
    seq![
        item("Yes, stop processing"@, "Halt optimization and view results so far"@),
        item("No, continue"@, "Keep running trials"@),
    ]
}

/// The choices when asked to delete a checkpoint.
#[verifier::opaque]
pub open spec fn delete_menu() -> Seq<ItemView> {
    seq![
        keyed("Delete"@, "Permanently remove this checkpoint"@, "Y"@),
        keyed("Cancel"@, "Keep the checkpoint"@, "Esc"@),
    ]
}

/// The choices when a checkpoint of the model exists.
#[verifier::opaque]
pub open spec fn checkpoint_menu() -> Seq<ItemView> {
    seq![
        item("Resume previous run"@, "Continue optimization from the saved checkpoint"@),
        item("Start fresh"@, "Delete previous checkpoint and start over"@),
        item("Cancel"@, "Go back"@),
    ]
}

/// One entry per model with the same description, then a way back.
pub open spec fn models_menu(models: Seq<Seq<char>>, desc: Seq<char>, back: ItemView) -> Seq<
    ItemView,
> {
    models.map_values(|m: Seq<char>| item(m, desc)).push(back)
}

fn new_item(label: &str, desc: &str) -> (r: MenuItem)
    ensures
        r@ == item(label@, desc@),
{
    MenuItem::new(label, desc)
}

fn new_keyed(label: &str, desc: &str, key: &str) -> (r: MenuItem)
    ensures
        r@ == keyed(label@, desc@, key@),
{
    MenuItem::new(label, desc).with_key(key)
}

pub fn splash_items() -> (r: Vec<MenuItem>)
    ensures
        item_views(r@) == splash_menu(),
{
    let r = vec![
        new_keyed("Start Decensoring", "Launch the annihilation workflow", "Enter"),
        new_keyed("Completed Models", "Export finished models to GGUF", "M"),
        new_keyed("Configuration", "Edit settings before running", "C"),
        new_keyed("About", "View project information", "A"),
        new_keyed("Quit", "Exit the application", "Q"),
    ];
    proof {
        reveal(splash_menu);
    }
    assert(item_views(r@) =~= splash_menu());
    r
}

pub fn setup_items() -> (r: Vec<MenuItem>)
    ensures
        item_views(r@) == setup_menu(),
{
    let r = vec![
        new_keyed("Enter Model ID/Path", "Type a Hugging Face model ID or local path", "M"),
        new_keyed("Recent Models", "Choose from previously used models", "R"),
        new_keyed("Back", "Return to main menu", "Esc"),
    ];
    proof {
        reveal(setup_menu);
    }
    assert(item_views(r@) =~= setup_menu());
    r
}

pub fn config_items() -> (r: Vec<MenuItem>)
    ensures
        item_views(r@) == config_menu(),
{
    let r = vec![
        new_item("Default (200 trials)", "Standard configuration, no quantization"),
        new_item("Quick Test (50 trials)", "Faster run for testing"),
        new_item("Aggressive (400 trials)", "More thorough optimization"),
        new_item("4-bit Quantized", "Lower VRAM usage with bnb_4bit"),
        new_keyed("OBLITERATUS Advanced", "Gaussian kernel, COSMIC selection, and MoE EGA", "O"),
        new_keyed("Set HF Token", "Required for private models or uploading to Hub", "T"),
        new_keyed("Back", "Return to main menu", "Esc"),
    ];
    proof {
        reveal(config_menu);
    }
    assert(item_views(r@) =~= config_menu());
    r
}

pub fn results_items() -> (r: Vec<MenuItem>)
    ensures
        item_views(r@) == results_menu(),
{
    let r = vec![
        new_item("Select this trial", "Use the selected trial for export/chat"),
        new_item("Run additional trials", "Continue optimization with more trials"),
        new_item("Back to main menu", "Return to splash screen"),
    ];
    proof {
        reveal(results_menu);
    }
    assert(item_views(r@) =~= results_menu());
    r
}

pub fn model_actions_items() -> (r: Vec<MenuItem>)
    ensures
        item_views(r@) == model_actions_menu(),
{
    let r = vec![
        new_keyed("Chat with Model", "Test the decensored model", "C"),
        new_keyed("Run Benchmarks", "Evaluate with MMLU, GSM8K, etc.", "B"),
        new_keyed("Convert to GGUF", "Export as a quantized GGUF file", "G"),
        new_keyed("Upload to Hugging Face", "Push model to HF Hub", "U"),
        new_keyed("Delete Model", "Remove the checkpoint", "D"),
        new_keyed("Back", "Return to Completed Models", "Esc"),
    ];
    proof {
        reveal(model_actions_menu);
    }
    assert(item_views(r@) =~= model_actions_menu());
    r
}

pub fn trial_actions_items() -> (r: Vec<MenuItem>)
    ensures
        item_views(r@) == trial_actions_menu(),
{
    let r = vec![
        new_keyed("Save Model Locally", "Export merged model to a folder", "S"),
        new_keyed("Upload to Hugging Face", "Push model to HF Hub", "U"),
        new_keyed("Chat with Model", "Test the decensored model", "C"),
        new_keyed("Run Benchmarks", "Evaluate with MMLU, GSM8K, etc.", "B"),
        new_keyed("Run More Trials", "Continue optimization", "R"),
        new_keyed("Back to Results", "Return to trial selection", "Esc"),
    ];
    proof {
        reveal(trial_actions_menu);
    }
    assert(item_views(r@) =~= trial_actions_menu());
    r
}

pub fn export_items() -> (r: Vec<MenuItem>)
    ensures
        item_views(r@) == export_menu(),
{
    let r = vec![
        new_item("Merge and export full model", "Requires sufficient RAM"),
        new_item("Export adapter only", "Can be merged later, smaller file"),
        new_item("Convert to GGUF", "Export as a quantized GGUF file"),
        new_keyed("Back", "Return to actions menu", "Esc"),
    ];
    proof {
        reveal(export_menu);
    }
    assert(item_views(r@) =~= export_menu());
    r
}

pub fn gguf_items() -> (r: Vec<MenuItem>)
    ensures
        item_views(r@) == gguf_menu(),
{
    let r = vec![
        new_item("Q4_K_M", "Good balance of quality and size (recommended)"),
        new_item("Q8_0", "Near-perfect quality, larger size"),
        new_item("F16", "Unquantized, maximum quality"),
        new_keyed("Back", "Return to export options", "Esc"),
    ];
    proof {
        reveal(gguf_menu);
    }
    assert(item_views(r@) =~= gguf_menu());
    r
}

pub fn stop_items() -> (r: Vec<MenuItem>)
    ensures
        item_views(r@) == stop_menu(),
{
    let r = vec![
        new_item("Yes, stop processing", "Halt optimization and view results so far"),
        new_item("No, continue", "Keep running trials"),
    ];
    proof {
        reveal(stop_menu);
    }
    assert(item_views(r@) =~= stop_menu());
    r
}

pub fn delete_items() -> (r: Vec<MenuItem>)
    ensures
        item_views(r@) == delete_menu(),
{
    let r = vec![
        new_keyed("Delete", "Permanently remove this checkpoint", "Y"),
        new_keyed("Cancel", "Keep the checkpoint", "Esc"),
    ];
    proof {
        reveal(delete_menu);
    }
    assert(item_views(r@) =~= delete_menu());
    r
}

pub fn checkpoint_items() -> (r: Vec<MenuItem>)
    ensures
        item_views(r@) == checkpoint_menu(),
{
    let r = vec![
        new_item("Resume previous run", "Continue optimization from the saved checkpoint"),
        new_item("Start fresh", "Delete previous checkpoint and start over"),
        new_item("Cancel", "Go back"),
    ];
    proof {
        reveal(checkpoint_menu);
    }
    assert(item_views(r@) =~= checkpoint_menu());
    r
}

/// One entry per model, described by `desc`, then `back`.
pub fn models_items(models: &Vec<String>, desc: &str, back: MenuItem) -> (r: Vec<MenuItem>)
    ensures
        item_views(r@) == models_menu(
            crate::subprocess::string_views(models@),
            desc@,
            back@,
        ),
{
    let ghost names = crate::subprocess::string_views(models@);
    let mut r: Vec<MenuItem> = Vec::new();
    let mut i: usize = 0;
    while i < models.len()
        invariant
            i <= models.len(),
            names == crate::subprocess::string_views(models@),
            item_views(r@) == names.take(i as int).map_values(|m: Seq<char>| item(m, desc@)),
        decreases models.len() - i,
    {
        let entry = MenuItem::new(models[i].as_str(), desc);
        proof {
            assert(names[i as int] == models@[i as int]@);
            assert(entry@ == item(names[i as int], desc@));
            assert(item_views(r@.push(entry)) =~= item_views(r@).push(entry@));
            assert(names.take(i + 1).map_values(|m: Seq<char>| item(m, desc@)) =~= names.take(
                i as int,
            ).map_values(|m: Seq<char>| item(m, desc@)).push(item(names[i as int], desc@)));
        }
        r.push(entry);
        i = i + 1;
    }
    let ghost before = r@;
    r.push(back);
    proof {
        assert(names.take(i as int) =~= names);
        assert(item_views(r@) =~= item_views(before).push(back@));
    }
    r
}

} // verus!
