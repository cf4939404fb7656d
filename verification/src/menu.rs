//! Screens, menus and log levels of the terminal front-end, with the small
//! text builders the screens share.

use vstd::prelude::*;

use crate::text::{append_chars, append_str, decimal, decimal_chars, from_chars, to_chars};

verus! {

broadcast use vstd::string::group_string_axioms;

// ─── Screens ───────────────────────────────────────────────────

/// What a confirmation dialog is asking about.
#[derive(Debug)]
pub enum ConfirmAction {
    Quit,
    StopProcessing,
    DeleteCheckpoint(String),
}

/// The screens of the application.
#[derive(Debug)]
pub enum Screen {
    Splash,
    Setup,
    ModelInput,
    TokenInput,
    ConfigSelect,
    Processing,
    Results,
    TrialActions,
    Chat,
    Export,
    GgufSizeSelect,
    CompletedModels,
    CheckpointPrompt,
    BenchmarkDashboard,
    Confirm(ConfirmAction),
    About,
    RecentModels,
}

/// The mathematical value of a [`ConfirmAction`].
pub enum ConfirmView {
    Quit,
    StopProcessing,
    DeleteCheckpoint(Seq<char>),
}

/// The mathematical value of a [`Screen`].
pub enum ScreenView {
    Splash,
    Setup,
    ModelInput,
    TokenInput,
    ConfigSelect,
    Processing,
    Results,
    TrialActions,
    Chat,
    Export,
    GgufSizeSelect,
    CompletedModels,
    CheckpointPrompt,
    BenchmarkDashboard,
    Confirm(ConfirmView),
    About,
    RecentModels,
}

impl View for ConfirmAction {
    type V = ConfirmView;

    open spec fn view(&self) -> ConfirmView {
        match self {
            ConfirmAction::Quit => ConfirmView::Quit,
            ConfirmAction::StopProcessing => ConfirmView::StopProcessing,
            ConfirmAction::DeleteCheckpoint(m) => ConfirmView::DeleteCheckpoint(m@),
        }
    }
}

impl View for Screen {
    type V = ScreenView;

    open spec fn view(&self) -> ScreenView {
        match self {
            Screen::Splash => ScreenView::Splash,
            Screen::Setup => ScreenView::Setup,
            Screen::ModelInput => ScreenView::ModelInput,
            Screen::TokenInput => ScreenView::TokenInput,
            Screen::ConfigSelect => ScreenView::ConfigSelect,
            Screen::Processing => ScreenView::Processing,
            Screen::Results => ScreenView::Results,
            Screen::TrialActions => ScreenView::TrialActions,
            Screen::Chat => ScreenView::Chat,
            Screen::Export => ScreenView::Export,
            Screen::GgufSizeSelect => ScreenView::GgufSizeSelect,
            Screen::CompletedModels => ScreenView::CompletedModels,
            Screen::CheckpointPrompt => ScreenView::CheckpointPrompt,
            Screen::BenchmarkDashboard => ScreenView::BenchmarkDashboard,
            Screen::Confirm(a) => ScreenView::Confirm(a@),
            Screen::About => ScreenView::About,
            Screen::RecentModels => ScreenView::RecentModels,
        }
    }
}

/// How a log line is styled.
#[derive(PartialEq, Eq, Structural, Clone, Copy, Debug)]
pub enum LogLevel {
    Info,
    Success,
    Warning,
    Error,
    Dim,
}

// ─── Menus ─────────────────────────────────────────────────────

/// One entry of a selection menu.
#[derive(Debug)]
pub struct MenuItem {
    pub label: String,
    pub description: String,
    pub key_hint: Option<String>,
}

/// The mathematical value of a [`MenuItem`].
pub struct ItemView {
    pub label: Seq<char>,
    pub description: Seq<char>,
    pub key_hint: Option<Seq<char>>,
}

impl View for MenuItem {
    type V = ItemView;

    open spec fn view(&self) -> ItemView {
        ItemView {
            label: self.label@,
            description: self.description@,
            key_hint: match self.key_hint {
                Some(k) => Some(k@),
                None => None,
            },
        }
    }
}

/// A menu item without a key hint.
pub open spec fn item(label: Seq<char>, desc: Seq<char>) -> ItemView {
    ItemView { label, description: desc, key_hint: None }
}

/// A menu item with a key hint.
pub open spec fn keyed(label: Seq<char>, desc: Seq<char>, key: Seq<char>) -> ItemView {
    ItemView { label, description: desc, key_hint: Some(key) }
}

impl MenuItem {
    pub fn new(label: &str, desc: &str) -> (r: Self)
        ensures
            r@ == item(label@, desc@),
    {
        MenuItem { label: String::from_str(label), description: String::from_str(desc), key_hint: None }
    }

    /// A copy of the item.
    pub fn clone_item(&self) -> (r: Self)
        ensures
            r@ == self@,
    {
        MenuItem {
            label: self.label.clone(),
            description: self.description.clone(),
            key_hint: match &self.key_hint {
                Some(k) => Some(k.clone()),
                None => None,
            },
        }
    }

    pub fn with_key(self, key: &str) -> (r: Self)
        ensures
            r@ == (ItemView { key_hint: Some(key@), ..self@ }),
    {
        MenuItem { key_hint: Some(String::from_str(key)), ..self }
    }
}

// ─── Text builders ─────────────────────────────────────────────

/// The decimal rendering of a signed integer.
pub open spec fn signed_decimal(i: int) -> Seq<char> {
    if i < 0 {
        seq!['-'] + decimal((-i) as nat)
    } else {
        decimal(i as nat)
    }
}

pub fn i32_chars(i: i32) -> (r: Vec<char>)
    ensures
        r@ == signed_decimal(i as int),
{
    if i < 0 {
        let mut r: Vec<char> = Vec::new();
        r.push('-');
        let m = (-(i as i64)) as u64;
        let d = decimal_chars(m);
        append_chars(&mut r, &d);
        r
    } else {
        decimal_chars(i as u64)
    }
}

/// The completion line for a child process exit, and its level.
pub open spec fn exit_report_view(what: Seq<char>, code: Option<i32>) -> (Seq<char>, LogLevel) {
    match code {
        Some(c) => if c == 0 {
            ("✓ "@ + what + " completed successfully."@, LogLevel::Success)
        } else {
            (what + " failed with exit code "@ + signed_decimal(c as int) + "."@, LogLevel::Error)
        },
        None => (what + " was terminated before it reported an exit code."@, LogLevel::Warning),
    }
}

/// Completion line for a child process exit, plus the level to style it at.
///
/// A clean exit is a success; a non-zero code is an error; no code means the
/// process was killed before it could report one.
pub fn exit_report(what: &str, code: Option<i32>) -> (r: (String, LogLevel))
    ensures
        (r.0@, r.1) == exit_report_view(what@, code),
{
    let mut v: Vec<char> = Vec::new();
    match code {
        Some(c) => {
            if c == 0 {
                append_str(&mut v, "✓ ");
                append_str(&mut v, what);
                append_str(&mut v, " completed successfully.");
                (from_chars(&v), LogLevel::Success)
            } else {
                append_str(&mut v, what);
                append_str(&mut v, " failed with exit code ");
                append_chars(&mut v, &i32_chars(c));
                append_str(&mut v, ".");
                (from_chars(&v), LogLevel::Error)
            }
        },
        None => {
            append_str(&mut v, what);
            append_str(&mut v, " was terminated before it reported an exit code.");
            (from_chars(&v), LogLevel::Warning)
        },
    }
}

/// Only a clean exit is reported as a success.
pub proof fn exit_report_levels(what: Seq<char>, code: Option<i32>)
    ensures
        exit_report_view(what, code).1 == LogLevel::Success <==> code == Some(0i32),
{
}

/// A duration in seconds as shown on the dashboard: `1h 2m`, `2m 3s` or `3s`.
pub open spec fn duration_text(secs: nat) -> Seq<char> {
    let hours = secs / 3600;
    let minutes = (secs % 3600) / 60;
    let seconds = secs % 60;
    if hours > 0 {
        decimal(hours) + "h "@ + decimal(minutes) + "m"@
    } else if minutes > 0 {
        decimal(minutes) + "m "@ + decimal(seconds) + "s"@
    } else {
        decimal(seconds) + "s"@
    }
}

pub fn format_duration(secs: u64) -> (r: String)
    ensures
        r@ == duration_text(secs as nat),
{
    let hours = secs / 3600;
    let minutes = (secs % 3600) / 60;
    let seconds = secs % 60;
    let mut v: Vec<char> = Vec::new();
    if hours > 0 {
        append_chars(&mut v, &decimal_chars(hours));
        append_str(&mut v, "h ");
        append_chars(&mut v, &decimal_chars(minutes));
        append_str(&mut v, "m");
    } else if minutes > 0 {
        append_chars(&mut v, &decimal_chars(minutes));
        append_str(&mut v, "m ");
        append_chars(&mut v, &decimal_chars(seconds));
        append_str(&mut v, "s");
    } else {
        append_chars(&mut v, &decimal_chars(seconds));
        append_str(&mut v, "s");
    }
    from_chars(&v)
}

} // verus!
