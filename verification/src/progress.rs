//! What the application makes of the output of the processes it runs: the
//! optimization (or setup, or conversion), the chat server and the
//! benchmarks, message by message, and of the passing of time.

use vstd::prelude::*;

use crate::app::{
    effect_views, f64_less, item_views, kl_views, log_views, zero_kl, App, AppView, Effect,
    EffectView, KlValue, KlView, OutputCheck, OutputView,
};
use crate::json::{json_parses, json_text_at, pair_views, text_at};
use crate::layout::bytes_text;
use crate::menu::{exit_report_view, signed_decimal, LogLevel};
use crate::parser::{EventView, ParsedEvent};
use crate::screens::{effects0, effects1, push_effect, to_results, with_demo_results};
use crate::subprocess::string_views;
use crate::text::{decimal, has_infix, pieces, starts_with, trim};

verus! {


// ─── Messages ──────────────────────────────────────────────────

/// What a spawned process reports.
#[derive(Debug)]
pub enum SubprocessMessage {
    /// A parsed line of its output.
    Event(ParsedEvent),
    /// It exited, with its exit code when it had one.
    Exited(Option<i32>),
    /// It could not be started.
    SpawnError(String),
}

/// The mathematical value of a [`SubprocessMessage`].
pub enum MessageView {
    Event(EventView),
    Exited(Option<i32>),
    SpawnError(Seq<char>),
}

impl View for SubprocessMessage {
    type V = MessageView;

    open spec fn view(&self) -> MessageView {
        match self {
            SubprocessMessage::Event(e) => MessageView::Event(e@),
            SubprocessMessage::Exited(c) => MessageView::Exited(*c),
            SubprocessMessage::SpawnError(e) => MessageView::SpawnError(e@),
        }
    }
}

/// What the caller read off a main-process message before handing it over:
/// the values its printed measurements parse to, and the GGUF output file.
pub struct Readings {
    /// The reading of a `KLDivergence` event.
    pub kl: Option<KlValue>,
    /// The batch size of a `BatchSize` event, as the printed value converts
    /// to `usize`.
    pub batch_size: Option<usize>,
    /// The GGUF output file as found when the process exited.
    pub output: Option<OutputCheck>,
}

/// The mathematical value of [`Readings`].
pub struct ReadingsView {
    pub kl: Option<KlView>,
    pub batch_size: Option<usize>,
    pub output: Option<OutputView>,
}

impl View for Readings {
    type V = ReadingsView;

    open spec fn view(&self) -> ReadingsView {
        ReadingsView {
            kl: crate::app::opt_kl(self.kl),
            batch_size: self.batch_size,
            output: match &self.output {
                Some(o) => Some(o@),
                None => None,
            },
        }
    }
}

/// The view of an optional output check.
pub open spec fn opt_output(o: Option<OutputCheck>) -> Option<OutputView> {
    match o {
        Some(c) => Some(c@),
        None => None,
    }
}

/// Whether the readings hold what the message calls for: a reading for a
/// `KLDivergence` event, a batch size for a `BatchSize` event, and the output
/// file when a conversion exits cleanly.
pub open spec fn readings_fit(s: AppView, m: MessageView, r: ReadingsView) -> bool {
    &&& m matches MessageView::Event(EventView::KLDivergence(_)) ==> r.kl is Some
    &&& m matches MessageView::Event(EventView::BatchSize(_)) ==> r.batch_size is Some
    &&& (m matches MessageView::Exited(code) && !s.is_setting_up && s.gguf_output is Some && code
        == Some(0i32)) ==> r.output is Some
}

// ─── Time ──────────────────────────────────────────────────────

/// Whether the main process's messages are taken this tick.
pub open spec fn polls_main(s: AppView) -> bool {
    s.screen == crate::menu::ScreenView::Processing && s.is_processing && s.has_main_process
}

/// After the main process's messages were taken: every thirtieth tick a
/// second has passed and the readings are refreshed.
#[verifier::opaque]
pub open spec fn main_polled(s: AppView) -> (AppView, Seq<EffectView>) {
    if s.tick_count % 30 == 0 {
        (AppView { elapsed_secs: (s.elapsed_secs + 1) as u64, ..s }, seq![EffectView::RefreshSystemInfo])
    } else {
        (s, seq![])
    }
}

impl App {
    /// Advances the animation clock by one tick, and says whether the main
    /// process's messages are to be taken now (then each goes to
    /// `on_main_message`, and `finish_main_poll` follows).
    pub fn tick(&mut self) -> (r: bool)
        requires
            old(self).tick_count < u64::MAX,
        ensures
            final(self)@ == (AppView { tick_count: (old(self).tick_count + 1) as u64, ..old(self)@ }),
            r == polls_main(final(self)@),
    {
        self.tick_count = self.tick_count + 1;
        matches!(self.screen, crate::menu::Screen::Processing) && self.is_processing
            && self.has_main_process
    }

    fn poll_done(self) -> (r: (App, Vec<Effect>))
        requires
            self.elapsed_secs < u64::MAX,
        ensures
            (r.0@, effect_views(r.1@)) == main_polled(self@),
    {
        proof {
            reveal(main_polled);
        }
        let mut a = self;
        if a.tick_count % 30 == 0 {
            a.elapsed_secs = a.elapsed_secs + 1;
            (a, effects1(Effect::RefreshSystemInfo))
        } else {
            (a, effects0())
        }
    }

    /// Closes a tick on which the main process's messages were taken.
    pub fn finish_main_poll(&mut self) -> (r: Vec<Effect>)
        requires
            old(self).elapsed_secs < u64::MAX,
        ensures
            (final(self)@, effect_views(r@)) == main_polled(old(self)@),
    {
        let mut current = App::new(String::new(), String::new());
        core::mem::swap(self, &mut current);
        let (next, effects) = current.poll_done();
        *self = next;
        effects
    }
}

// ─── The main process ──────────────────────────────────────────

/// `s` with `line` logged at `level`.
#[verifier::opaque]
pub open spec fn logged(s: AppView, line: Seq<char>, level: LogLevel) -> AppView {
    AppView { log_lines: s.log_lines.push((line, level)), ..s }
}

/// The arguments of an optimization run of `total` trials.
#[verifier::opaque]
pub open spec fn run_args(total: usize, quantize: bool, advanced: bool) -> Seq<Seq<char>> {
    seq!["--n-trials"@, decimal(total as nat)] + (if quantize {
        seq!["--quantization"@, "bnb_4bit"@]
    } else {
        seq![]
    }) + (if advanced {
        seq!["--kernel-type"@, "gaussian"@]
    } else {
        seq!["--kernel-type"@, "linear"@, "--no-use-cosmic-layer-selection"@, "--no-use-ega"@]
    })
}

/// The warning shown when the GPU is seen but the back-end runs without it.
#[verifier::opaque]
pub open spec fn cpu_torch_warning() -> Seq<(Seq<char>, LogLevel)> {
    seq![
        ("CRITICAL WARNING: The TUI detects your GPU, but Python cannot see it! You have installed the CPU-only version of PyTorch. The process will run extremely slow."@, LogLevel::Error),
        ("FIX THIS BY RUNNING: `uv pip install --python annihilation-env torch torchvision --index-url https://download.pytorch.org/whl/cu126 --upgrade`"@, LogLevel::Error),
    ]
}

/// An unrecognized output line: shown dimmed, from its last carriage
/// return on, unless blank or the back-end's own "Spawning" notes; a line
/// saying no accelerator was found, while a GPU is seen, adds a warning.
#[verifier::opaque]
pub open spec fn raw_line(s: AppView, line: Seq<char>) -> AppView {
    if trim(line).len() == 0 || has_infix(line, "Spawning"@) {
        s
    } else {
        let clean = pieces(line, '\r').last();
        let gpu = s.gpu_name;
        let warn = has_infix(clean, "No GPU or other accelerator detected"@) && !starts_with(
            gpu,
            "CPU"@,
        ) && gpu != "Unknown"@ && gpu != "Detecting..."@;
        let lines = if warn {
            s.log_lines + cpu_torch_warning()
        } else {
            s.log_lines
        };
        AppView { log_lines: lines.push((clean, LogLevel::Dim)), ..s }
    }
}

/// The best trial so far after one with `refusals` and reading `kl`: fewer
/// refusals win, and on a tie the lower KL divergence.
pub open spec fn best_after(
    best_r: Option<usize>,
    best_k: Option<KlView>,
    refusals: usize,
    kl: KlView,
) -> (Option<usize>, Option<KlView>) {
    match best_r {
        None => (Some(refusals), Some(kl)),
        Some(b) => if refusals < b {
            (Some(refusals), Some(kl))
        } else if refusals == b {
            match best_k {
                None => (best_r, Some(kl)),
                Some(bk) => if f64_less(kl.bits, bk.bits) {
                    (best_r, Some(kl))
                } else {
                    (best_r, best_k)
                },
            }
        } else {
            (best_r, best_k)
        },
    }
}

/// A completed trial of `refusals` out of `prompts`: its number, its KL
/// reading (the pending one, else zero), the histories, the best so far
/// (fewest refusals, then lowest KL), and a log line.
#[verifier::opaque]
pub open spec fn trial_completed(s: AppView, number: usize, refusals: usize, prompts: usize) -> AppView {
    let current = if number > 0 {
        number
    } else {
        (s.current_trial + 1) as usize
    };
    let kl = match s.pending_kl {
        Some(k) => k,
        None => zero_kl(),
    };
    let (best_r, best_k) = best_after(s.best_refusals, s.best_kl, refusals, kl);
    let line = "Trial "@ + decimal(current as nat) + ": refusals="@ + decimal(refusals as nat)
        + "/"@ + decimal(prompts as nat) + ", KL="@ + kl.shown;
    AppView {
        current_trial: current,
        pending_kl: None,
        kl_history: s.kl_history.push(kl),
        refusal_history: s.refusal_history.push(refusals),
        best_refusals: best_r,
        best_kl: best_k,
        log_lines: s.log_lines.push(
            (
                line,
                if refusals <= 5 {
                    LogLevel::Success
                } else {
                    LogLevel::Info
                },
            ),
        ),
        ..s
    }
}

/// The log line of an event that only logs one.
#[verifier::opaque]
pub open spec fn plain_event_line(e: EventView) -> Option<(Seq<char>, LogLevel)> {
    match e {
        EventView::ModelLoading(m) => Some((m, LogLevel::Info)),
        EventView::DatasetLoading(m) => Some((m, LogLevel::Dim)),
        EventView::CalculatingDirections => Some(
            ("Calculating per-layer refusal directions..."@, LogLevel::Info),
        ),
        EventView::ElapsedTime(t) => Some(("Elapsed: "@ + t, LogLevel::Dim)),
        EventView::EstimatedRemaining(t) => Some(("ETA: "@ + t, LogLevel::Dim)),
        EventView::TrialPruned { trial_number } => Some(
            ("Trial "@ + decimal(trial_number as nat) + " pruned"@, LogLevel::Warning),
        ),
        EventView::Error(m) => Some((m, LogLevel::Error)),
        EventView::Warning(m) => Some((m, LogLevel::Warning)),
        EventView::Status(m) => Some((m, LogLevel::Info)),
        EventView::InteractivePrompt(m) => Some((m, LogLevel::Warning)),
        _ => None,
    }
}

/// A parsed event of the main process. The detected model format, declared
/// quantization, best-trial and GPU memory events change nothing here.
#[verifier::opaque]
pub open spec fn main_event(s: AppView, e: EventView, r: ReadingsView) -> AppView {
    match plain_event_line(e) {
        Some(line) => logged(s, line.0, line.1),
        None => match e {
            EventView::BatchSize(_) => {
                let n = r.batch_size.unwrap();
                logged(
                    AppView { batch_size: n, ..s },
                    "Determined batch size: "@ + decimal(n as nat),
                    LogLevel::Success,
                )
            },
            EventView::KLDivergence(_) => AppView { pending_kl: r.kl, ..s },
            EventView::OptimizationStarting { n_trials } => logged(
                AppView { total_trials: n_trials, ..s },
                "Starting optimization..."@,
                LogLevel::Success,
            ),
            EventView::TrialStarting { trial_number, total_trials } => logged(
                AppView { current_trial: trial_number, total_trials, ..s },
                "Starting trial "@ + decimal(trial_number as nat) + "/"@ + decimal(
                    total_trials as nat,
                ) + "..."@,
                LogLevel::Info,
            ),
            EventView::TrialComplete { trial_number, total_trials: _, refusals, total_prompts } =>
                trial_completed(s, trial_number, refusals, total_prompts),
            EventView::OptimizationComplete => to_results(
                with_demo_results(
                    AppView {
                        is_processing: false,
                        ..logged(s, "Optimization finished!"@, LogLevel::Success)
                    },
                ),
            ),
            EventView::Raw(line) => raw_line(s, line),
            _ => s,
        },
    }
}

/// The lines logged when the main process exits with `code`. A GGUF
/// conversion only counts as done once the file it promised is there and
/// not empty.
#[verifier::opaque]
pub open spec fn finish_lines(
    gguf: Option<Seq<Seq<char>>>,
    code: Option<i32>,
    output: Option<OutputView>,
) -> Seq<(Seq<char>, LogLevel)> {
    match gguf {
        None => seq![exit_report_view("Process"@, code)],
        Some(_) => if code != Some(0i32) {
            seq![exit_report_view("GGUF conversion"@, code)]
        } else {
            match output {
                Some(o) => match o.size {
                    Ok(n) => if n > 0 {
                        seq![
                            ("✓ GGUF conversion complete and verified."@, LogLevel::Success),
                            ("  Saved to "@ + o.shown + " ("@ + bytes_text(n as nat) + ")"@, LogLevel::Success),
                        ]
                    } else {
                        seq![
                            ("GGUF conversion exited cleanly but wrote an empty file: "@ + o.shown, LogLevel::Error),
                        ]
                    },
                    Err(e) => seq![
                        ("GGUF conversion exited cleanly but "@ + o.shown + " is missing: "@ + e, LogLevel::Error),
                    ],
                },
                None => seq![],
            }
        },
    }
}

/// The main process exited with `code`.
#[verifier::opaque]
pub open spec fn main_exited(s: AppView, code: Option<i32>, r: ReadingsView) -> (AppView, Seq<EffectView>) {
    if s.is_setting_up {
        if code == Some(0i32) {
            (
                AppView {
                    is_setting_up: false,
                    ..logged(
                        s,
                        "Environment verification complete. Spawning backend..."@,
                        LogLevel::Info,
                    )
                },
                seq![
                    EffectView::SpawnRun {
                        model: s.model_input,
                        args: run_args(s.total_trials, s.quantize, s.use_obliteratus),
                    },
                ],
            )
        } else {
            let rep = exit_report_view("Environment setup"@, code);
            (
                AppView { is_processing: false, is_setting_up: false, ..logged(s, rep.0, rep.1) },
                seq![],
            )
        }
    } else {
        (
            AppView {
                is_processing: false,
                gguf_output: None,
                log_lines: s.log_lines + finish_lines(s.gguf_output, code, r.output),
                ..s
            },
            seq![],
        )
    }
}

/// A message of the main process, with what was read off it.
#[verifier::opaque]
pub open spec fn main_message(s: AppView, m: MessageView, r: ReadingsView) -> (AppView, Seq<EffectView>) {
    match m {
        MessageView::Event(e) => (main_event(s, e, r), seq![]),
        MessageView::Exited(code) => main_exited(s, code, r),
        MessageView::SpawnError(err) => (
            AppView { is_processing: false, ..logged(s, err, LogLevel::Error) },
            seq![],
        ),
    }
}


// ─── The main process, executed ────────────────────────────────

fn str_of(s: &str) -> (r: String)
    ensures
        r@ == s@,
{
    String::from_str(s)
}

fn usize_chars(n: usize) -> (r: Vec<char>)
    ensures
        r@ == decimal(n as nat),
{
    crate::text::decimal_chars(n as u64)
}

/// The line of an event that only logs one.
fn plain_line(e: &ParsedEvent) -> (r: Option<(String, LogLevel)>)
    ensures
        match r {
            Some(l) => plain_event_line(e@) == Some((l.0@, l.1)),
            None => plain_event_line(e@) is None,
        },
{
    proof {
        reveal(plain_event_line);
    }
    match e {
        ParsedEvent::ModelLoading(m) => Some((m.clone(), LogLevel::Info)),
        ParsedEvent::DatasetLoading(m) => Some((m.clone(), LogLevel::Dim)),
        ParsedEvent::CalculatingDirections => Some(
            (str_of("Calculating per-layer refusal directions..."), LogLevel::Info),
        ),
        ParsedEvent::ElapsedTime(t) => {
            let mut v = crate::text::to_chars("Elapsed: ");
            crate::text::append_str(&mut v, t.as_str());
            Some((crate::text::from_chars(&v), LogLevel::Dim))
        },
        ParsedEvent::EstimatedRemaining(t) => {
            let mut v = crate::text::to_chars("ETA: ");
            crate::text::append_str(&mut v, t.as_str());
            Some((crate::text::from_chars(&v), LogLevel::Dim))
        },
        ParsedEvent::TrialPruned { trial_number } => {
            let mut v = crate::text::to_chars("Trial ");
            crate::text::append_chars(&mut v, &usize_chars(*trial_number));
            crate::text::append_str(&mut v, " pruned");
            Some((crate::text::from_chars(&v), LogLevel::Warning))
        },
        ParsedEvent::Error(m) => Some((m.clone(), LogLevel::Error)),
        ParsedEvent::Warning(m) => Some((m.clone(), LogLevel::Warning)),
        ParsedEvent::Status(m) => Some((m.clone(), LogLevel::Info)),
        ParsedEvent::InteractivePrompt(m) => Some((m.clone(), LogLevel::Warning)),
        _ => None,
    }
}

/// The line for a completed trial.
fn trial_line(current: usize, refusals: usize, prompts: usize, kl: &KlValue) -> (r: String)
    ensures
        r@ == "Trial "@ + decimal(current as nat) + ": refusals="@ + decimal(refusals as nat)
            + "/"@ + decimal(prompts as nat) + ", KL="@ + kl.shown@,
{
    let mut v = crate::text::to_chars("Trial ");
    crate::text::append_chars(&mut v, &usize_chars(current));
    crate::text::append_str(&mut v, ": refusals=");
    crate::text::append_chars(&mut v, &usize_chars(refusals));
    crate::text::append_str(&mut v, "/");
    crate::text::append_chars(&mut v, &usize_chars(prompts));
    crate::text::append_str(&mut v, ", KL=");
    crate::text::append_str(&mut v, kl.shown.as_str());
    crate::text::from_chars(&v)
}

fn push_string(v: &mut Vec<String>, s: &str)
    ensures
        string_views(final(v)@) == string_views(old(v)@).push(s@),
{
    crate::subprocess::push_string(v, s)
}

/// The arguments of an optimization run.
fn run_args_vec(total: usize, quantize: bool, advanced: bool) -> (r: Vec<String>)
    ensures
        string_views(r@) == run_args(total, quantize, advanced),
{
    proof {
        reveal(run_args);
    }
    let mut v: Vec<String> = Vec::new();
    push_string(&mut v, "--n-trials");
    let n = crate::subprocess::usize_text(total);
    let ghost before = v@;
    v.push(n);
    assert(string_views(v@) =~= string_views(before).push(n@));
    if quantize {
        push_string(&mut v, "--quantization");
        push_string(&mut v, "bnb_4bit");
    }
    push_string(&mut v, "--kernel-type");
    if advanced {
        push_string(&mut v, "gaussian");
    } else {
        push_string(&mut v, "linear");
        push_string(&mut v, "--no-use-cosmic-layer-selection");
        push_string(&mut v, "--no-use-ega");
    }
    assert(string_views(v@) =~= run_args(total, quantize, advanced));
    v
}

fn push_line(v: &mut Vec<(String, LogLevel)>, msg: String, level: LogLevel)
    ensures
        log_views(final(v)@) == log_views(old(v)@).push((msg@, level)),
{
    v.push((msg, level));
    assert(log_views(v@) =~= log_views(old(v)@).push((msg@, level)));
}

fn best_of(best_r: Option<usize>, best_k: &Option<KlValue>, refusals: usize, kl: &KlValue) -> (r: (
    Option<usize>,
    Option<KlValue>,
))
    ensures
        (r.0, crate::app::opt_kl(r.1)) == best_after(best_r, crate::app::opt_kl(*best_k), refusals, kl@),
{
    match best_r {
        None => (Some(refusals), Some(kl.clone_value())),
        Some(b) => if refusals < b {
            (Some(refusals), Some(kl.clone_value()))
        } else if refusals == b {
            match best_k {
                None => (best_r, Some(kl.clone_value())),
                Some(bk) => if crate::app::kl_less(kl, bk) {
                    (best_r, Some(kl.clone_value()))
                } else {
                    (best_r, Some(bk.clone_value()))
                },
            }
        } else {
            (best_r, match best_k {
                Some(bk) => Some(bk.clone_value()),
                None => None,
            })
        },
    }
}


/// The lines for an exit of the main process, for `finish_lines`.
fn report_lines(converting: bool, code: Option<i32>, output: Option<OutputCheck>) -> (r: Vec<(String, LogLevel)>)
    ensures
        forall|g: Option<Seq<Seq<char>>>|
            g is Some == converting ==> log_views(r@) == #[trigger] finish_lines(
                g,
                code,
                opt_output(output),
            ),
{
    proof {
        reveal(finish_lines);
    }
    let mut lines: Vec<(String, LogLevel)> = Vec::new();
    if !converting {
        let (m, l) = crate::menu::exit_report("Process", code);
        push_line(&mut lines, m, l);
    } else if code != Some(0i32) {
        let (m, l) = crate::menu::exit_report("GGUF conversion", code);
        push_line(&mut lines, m, l);
    } else {
        match output {
            Some(o) => match o.size {
                Ok(n) => {
                    if n > 0 {
                        push_line(&mut lines, str_of("✓ GGUF conversion complete and verified."), LogLevel::Success);
                        let mut v = crate::text::to_chars("  Saved to ");
                        crate::text::append_str(&mut v, o.shown.as_str());
                        crate::text::append_str(&mut v, " (");
                        crate::text::append_str(&mut v, crate::layout::format_bytes(n).as_str());
                        crate::text::append_str(&mut v, ")");
                        push_line(&mut lines, crate::text::from_chars(&v), LogLevel::Success);
                    } else {
                        let mut v = crate::text::to_chars("GGUF conversion exited cleanly but wrote an empty file: ");
                        crate::text::append_str(&mut v, o.shown.as_str());
                        push_line(&mut lines, crate::text::from_chars(&v), LogLevel::Error);
                    }
                },
                Err(e) => {
                    let mut v = crate::text::to_chars("GGUF conversion exited cleanly but ");
                    crate::text::append_str(&mut v, o.shown.as_str());
                    crate::text::append_str(&mut v, " is missing: ");
                    crate::text::append_str(&mut v, e.as_str());
                    push_line(&mut lines, crate::text::from_chars(&v), LogLevel::Error);
                },
            },
            None => {},
        }
    }
    assert(log_views(Seq::<(String, LogLevel)>::empty()) =~= Seq::<(Seq<char>, LogLevel)>::empty());
    lines
}

impl App {
    #[verifier::rlimit(30)]
    fn record_trial(self, number: usize, refusals: usize, prompts: usize) -> (r: App)
        requires
            self.current_trial < usize::MAX,
        ensures
            r@ == trial_completed(self@, number, refusals, prompts),
    {
        proof {
            reveal(trial_completed);
        }
        let mut a = self;
        let current = if number > 0 {
            number
        } else {
            a.current_trial + 1
        };
        let kl = match &a.pending_kl {
            Some(k) => k.clone_value(),
            None => KlValue { bits: 0, shown: str_of("0.0000") },
        };
        let (best_r, best_k) = best_of(a.best_refusals, &a.best_kl, refusals, &kl);
        let line = trial_line(current, refusals, prompts, &kl);
        let level = if refusals <= 5 {
            LogLevel::Success
        } else {
            LogLevel::Info
        };
        let r = a.apply_trial(current, kl, refusals, best_r, best_k, line, level);
        r
    }

    fn apply_trial(
        self,
        current: usize,
        kl: KlValue,
        refusals: usize,
        best_r: Option<usize>,
        best_k: Option<KlValue>,
        line: String,
        level: LogLevel,
    ) -> (r: App)
        ensures
            r@ == (AppView {
                current_trial: current,
                pending_kl: None,
                kl_history: self@.kl_history.push(kl@),
                refusal_history: self@.refusal_history.push(refusals),
                best_refusals: best_r,
                best_kl: crate::app::opt_kl(best_k),
                log_lines: self@.log_lines.push((line@, level)),
                ..self@
            }),
    {
        let mut a = self;
        a.current_trial = current;
        a.pending_kl = None;
        let ghost kh = kl_views(a.kl_history@);
        let ghost kv = kl@;
        a.kl_history.push(kl);
        assert(kl_views(a.kl_history@) =~= kh.push(kv));
        a.refusal_history.push(refusals);
        a.best_refusals = best_r;
        a.best_kl = best_k;
        push_line(&mut a.log_lines, line, level);
        a
    }

    fn set_batch_size(self, n: usize) -> (r: App)
        ensures
            r@ == logged(
                AppView { batch_size: n, ..self@ },
                "Determined batch size: "@ + decimal(n as nat),
                LogLevel::Success,
            ),
    {
        proof {
            reveal(logged);
        }
        let mut a = self;
        a.batch_size = n;
        let mut v = crate::text::to_chars("Determined batch size: ");
        crate::text::append_chars(&mut v, &usize_chars(n));
        push_line(&mut a.log_lines, crate::text::from_chars(&v), LogLevel::Success);
        a
    }

    fn set_pending_kl(self, kl: Option<KlValue>) -> (r: App)
        ensures
            r@ == (AppView { pending_kl: crate::app::opt_kl(kl), ..self@ }),
    {
        let mut a = self;
        a.pending_kl = kl;
        a
    }

    fn start_optimization(self, n: usize) -> (r: App)
        ensures
            r@ == logged(
                AppView { total_trials: n, ..self@ },
                "Starting optimization..."@,
                LogLevel::Success,
            ),
    {
        proof {
            reveal(logged);
        }
        let mut a = self;
        a.total_trials = n;
        push_line(&mut a.log_lines, str_of("Starting optimization..."), LogLevel::Success);
        a
    }

    fn start_trial(self, number: usize, total: usize) -> (r: App)
        ensures
            r@ == logged(
                AppView { current_trial: number, total_trials: total, ..self@ },
                "Starting trial "@ + decimal(number as nat) + "/"@ + decimal(total as nat) + "..."@,
                LogLevel::Info,
            ),
    {
        proof {
            reveal(logged);
        }
        let mut a = self;
        a.current_trial = number;
        a.total_trials = total;
        let mut v = crate::text::to_chars("Starting trial ");
        crate::text::append_chars(&mut v, &usize_chars(number));
        crate::text::append_str(&mut v, "/");
        crate::text::append_chars(&mut v, &usize_chars(total));
        crate::text::append_str(&mut v, "...");
        push_line(&mut a.log_lines, crate::text::from_chars(&v), LogLevel::Info);
        a
    }

    fn finish_optimization(self) -> (r: App)
        ensures
            r@ == to_results(
                with_demo_results(
                    AppView {
                        is_processing: false,
                        ..logged(self@, "Optimization finished!"@, LogLevel::Success)
                    },
                ),
            ),
    {
        proof {
            reveal(logged);
        }
        let mut a = self;
        push_line(&mut a.log_lines, str_of("Optimization finished!"), LogLevel::Success);
        a.is_processing = false;
        a.generate_demo_results();
        a.switch_to_results();
        a
    }

    fn take_raw_line(self, line: &String) -> (r: App)
        ensures
            r@ == raw_line(self@, line@),
    {
        proof {
            reveal(raw_line);
            reveal(cpu_torch_warning);
        }
        let mut a = self;
        let v = crate::text::to_chars(line.as_str());
        if crate::text::trim_chars(&v).len() == 0 || crate::text::contains_str(&v, "Spawning") {
            return a;
        }
        let parts = crate::text::split_on(&v, '\r');
        proof {
            crate::text::lemma_pieces_nonempty(v@, '\r', seq![]);
        }
        let clean = parts[parts.len() - 1].clone();
        assert(crate::text::views(parts@).last() == clean@);
        let gpu = crate::text::to_chars(a.gpu_name.as_str());
        let warn = crate::text::contains_str(&clean, "No GPU or other accelerator detected")
            && !crate::text::starts_with_str(&gpu, "CPU") && !crate::text::chars_equal(
            &gpu,
            &crate::text::to_chars("Unknown"),
        ) && !crate::text::chars_equal(&gpu, &crate::text::to_chars("Detecting..."));
        let ghost before = a@.log_lines;
        if warn {
            push_line(
                &mut a.log_lines,
                str_of(
                    "CRITICAL WARNING: The TUI detects your GPU, but Python cannot see it! You have installed the CPU-only version of PyTorch. The process will run extremely slow.",
                ),
                LogLevel::Error,
            );
            push_line(
                &mut a.log_lines,
                str_of(
                    "FIX THIS BY RUNNING: `uv pip install --python annihilation-env torch torchvision --index-url https://download.pytorch.org/whl/cu126 --upgrade`",
                ),
                LogLevel::Error,
            );
            assert(a@.log_lines =~= before + cpu_torch_warning());
        } else {
            assert(a@.log_lines =~= before);
        }
        push_line(&mut a.log_lines, crate::text::from_chars(&clean), LogLevel::Dim);
        a
    }

    fn main_counted_event(self, e: ParsedEvent, r: Readings) -> (a: App)
        requires
            plain_event_line(e@) is None,
            e@ matches EventView::BatchSize(_) ==> r.batch_size is Some,
            !(e@ is TrialComplete || e@ is OptimizationComplete || e@ is Raw),
        ensures
            a@ == main_event(self@, e@, r@),
    {
        proof {
            reveal(main_event);
            reveal(plain_event_line);
        }
        match e {
            ParsedEvent::BatchSize(_) => {
                let n = match r.batch_size {
                    Some(n) => n,
                    None => 0,
                };
                self.set_batch_size(n)
            },
            ParsedEvent::KLDivergence(_) => self.set_pending_kl(r.kl),
            ParsedEvent::OptimizationStarting { n_trials } => self.start_optimization(n_trials),
            ParsedEvent::TrialStarting { trial_number, total_trials } => self.start_trial(
                trial_number,
                total_trials,
            ),
            _ => self,
        }
    }

    fn main_progress_event(self, e: ParsedEvent) -> (a: App)
        requires
            e@ is TrialComplete || e@ is OptimizationComplete || e@ is Raw,
            self.current_trial < usize::MAX,
        ensures
            forall|r: ReadingsView| a@ == #[trigger] main_event(self@, e@, r),
    {
        proof {
            reveal(main_event);
            reveal(plain_event_line);
        }
        match e {
            ParsedEvent::TrialComplete { trial_number, total_trials: _, refusals, total_prompts } =>
                self.record_trial(trial_number, refusals, total_prompts),
            ParsedEvent::OptimizationComplete => self.finish_optimization(),
            ParsedEvent::Raw(line) => self.take_raw_line(&line),
            _ => self,
        }
    }

    fn main_event_step(self, e: ParsedEvent, r: Readings) -> (a: App)
        requires
            e@ matches EventView::BatchSize(_) ==> r.batch_size is Some,
            self.current_trial < usize::MAX,
        ensures
            a@ == main_event(self@, e@, r@),
    {
        proof {
            reveal(main_event);
            reveal(plain_event_line);
            reveal(logged);
        }
        match plain_line(&e) {
            Some(line) => {
                let mut a = self;
                push_line(&mut a.log_lines, line.0, line.1);
                a
            },
            None => {
                if matches!(e, ParsedEvent::TrialComplete { .. }) || matches!(e, ParsedEvent::OptimizationComplete)
                    || matches!(e, ParsedEvent::Raw(_)) {
                    let ghost rv = r@;
                    let b = self.main_progress_event(e);
                    assert(b@ == main_event(self@, e@, rv));
                    b
                } else {
                    self.main_counted_event(e, r)
                }
            },
        }
    }

    /// The lines to log when the main process exits with `code`, given what
    /// the GGUF output file was found to be (needed after a clean exit of a
    /// conversion); the conversion's output is let go.
    pub fn finish_report(&mut self, code: Option<i32>, output: Option<OutputCheck>) -> (r: Vec<(String, LogLevel)>)
        requires
            old(self).gguf_output is Some && code == Some(0i32) ==> output is Some,
        ensures
            log_views(r@) == finish_lines(
                old(self)@.gguf_output,
                code,
                opt_output(output),
            ),
            final(self)@ == (AppView { gguf_output: None, ..old(self)@ }),
    {
        let gguf = self.gguf_output.take();
        report_lines(gguf.is_some(), code, output)
    }

    #[verifier::spinoff_prover]
    #[verifier::rlimit(60)]
    fn setup_exited(self, code: Option<i32>) -> (r: (App, Vec<Effect>))
        requires
            self.is_setting_up,
        ensures
            forall|rv: ReadingsView|
                (r.0@, effect_views(r.1@)) == #[trigger] main_exited(self@, code, rv),
    {
        proof {
            reveal(main_exited);
            reveal(logged);
        }
        let mut a = self;
        if code == Some(0i32) {
            push_line(
                &mut a.log_lines,
                str_of("Environment verification complete. Spawning backend..."),
                LogLevel::Info,
            );
            a.is_setting_up = false;
            let args = run_args_vec(a.total_trials, a.quantize, a.use_obliteratus);
            let e = effects1(Effect::SpawnRun { model: a.model_input.clone(), args });
            (a, e)
        } else {
            let (m, l) = crate::menu::exit_report("Environment setup", code);
            push_line(&mut a.log_lines, m, l);
            a.is_processing = false;
            a.is_setting_up = false;
            (a, effects0())
        }
    }

    #[verifier::rlimit(30)]
    fn run_exited(self, code: Option<i32>, r: Readings) -> (out: App)
        requires
            !self.is_setting_up,
            self.gguf_output is Some && code == Some(0i32) ==> r.output is Some,
        ensures
            (out@, Seq::<EffectView>::empty()) == main_exited(self@, code, r@),
    {
        proof {
            reveal(main_exited);
        }
        let mut a = self;
        let lines = a.finish_report(code, r.output);
        a.is_processing = false;
        let mut more = lines;
        let ghost mv = log_views(more@);
        let ghost before = log_views(a.log_lines@);
        a.log_lines.append(&mut more);
        assert(log_views(a.log_lines@) =~= before + mv);
        a
    }

    fn spawn_failed(self, err: String) -> (r: App)
        ensures
            r@ == (AppView { is_processing: false, ..logged(self@, err@, LogLevel::Error) }),
    {
        proof {
            reveal(logged);
        }
        let mut a = self;
        a.is_processing = false;
        push_line(&mut a.log_lines, err, LogLevel::Error);
        a
    }

    fn main_step(self, message: SubprocessMessage, r: Readings) -> (out: (App, Vec<Effect>))
        requires
            readings_fit(self@, message@, r@),
            self.current_trial < usize::MAX,
        ensures
            (out.0@, effect_views(out.1@)) == main_message(self@, message@, r@),
    {
        proof {
            reveal(main_message);
        }
        match message {
            SubprocessMessage::Event(e) => (self.main_event_step(e, r), effects0()),
            SubprocessMessage::Exited(code) => {
                if self.is_setting_up {
                    let ghost rv = r@;
                    let out = self.setup_exited(code);
                    assert((out.0@, effect_views(out.1@)) == main_exited(self@, code, rv));
                    out
                } else {
                    (self.run_exited(code, r), effects0())
                }
            },
            SubprocessMessage::SpawnError(err) => (self.spawn_failed(err), effects0()),
        }
    }

    /// A message of the main process, with what the caller read off it; the
    /// work to perform next.
    pub fn on_main_message(&mut self, message: SubprocessMessage, readings: Readings) -> (r: Vec<Effect>)
        requires
            readings_fit(old(self)@, message@, readings@),
            old(self).current_trial < usize::MAX,
        ensures
            (final(self)@, effect_views(r@)) == main_message(old(self)@, message@, readings@),
    {
        let mut current = App::new(String::new(), String::new());
        core::mem::swap(self, &mut current);
        let (next, effects) = current.main_step(message, readings);
        *self = next;
        effects
    }
}

} // verus!
