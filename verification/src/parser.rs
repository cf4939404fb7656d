//! Parser for the output of the `annihilate` command-line tool.
//!
//! Turns one line of Rich-formatted terminal output into a structured event:
//! trial progress, metrics, status messages and the like.

use vstd::prelude::*;

use crate::text::{
    char_is_ascii_alpha, digits_of, find_bytes, from_chars, is_ascii_alpha, is_ascii_digit,
    keep_digits, keep_number_chars, lowercase, number_chars_of, parse_usize, parse_usize_chars,
    pieces, push_char, split_on, split_words, to_chars, to_lowercase, views, words, trim, has_infix,
    starts_with, ends_with, without_char, contains_str, starts_with_str, ends_with_str, trim_chars,
    slice_chars, remove_char, contains_char,
};
use vstd::utf8::{decode_utf8, encode_utf8, is_char_boundary};

verus! {

broadcast use vstd::string::group_string_axioms;

// ─── Escape stripping ──────────────────────────────────────────

/// The text of `s` with ANSI escape sequences removed, where `in_escape` tells
/// whether an escape sequence is open before `s`: an escape opens at `ESC`
/// and closes at the next ASCII letter.
pub open spec fn strip_escapes_from(s: Seq<char>, in_escape: bool) -> Seq<char>
    decreases s.len(),
{
    if s.len() == 0 {
        s
    } else if in_escape {
        strip_escapes_from(s.drop_first(), !is_ascii_alpha(s[0]))
    } else if s[0] == '\x1b' {
        strip_escapes_from(s.drop_first(), true)
    } else {
        seq![s[0]] + strip_escapes_from(s.drop_first(), false)
    }
}

/// The text of `s` with ANSI escape sequences removed.
pub open spec fn strip_escapes(s: Seq<char>) -> Seq<char> {
    strip_escapes_from(s, false)
}

/// Strip ANSI escape codes from a string.
pub fn strip_ansi(s: &str) -> (r: String)
    ensures
        r@ == strip_escapes(s@),
{
    let v = to_chars(s);
    let mut result = String::new();
    let mut in_escape = false;
    let mut i: usize = 0;
    proof {
        assert(v@.skip(0) =~= v@);
    }
    while i < v.len()
        invariant
            i <= v.len(),
            strip_escapes(v@) == result@ + strip_escapes_from(v@.skip(i as int), in_escape),
        decreases v.len() - i,
    {
        let ch = v[i];
        proof {
            assert(v@.skip(i as int).drop_first() =~= v@.skip(i + 1));
            assert(v@.skip(i as int)[0] == ch);
        }
        if in_escape {
            if char_is_ascii_alpha(ch) {
                in_escape = false;
            }
        } else if ch == '\x1b' {
            in_escape = true;
        } else {
            let ghost before = result@;
            push_char(&mut result, ch);
            assert(before + (seq![ch] + strip_escapes_from(v@.skip(i + 1), false)) =~= before.push(
                ch,
            ) + strip_escapes_from(v@.skip(i + 1), false));
        }
        i = i + 1;
    }
    proof {
        assert(v@.skip(i as int).len() == 0);
        assert(result@ + seq![] =~= result@);
    }
    result
}


// ─── Events ────────────────────────────────────────────────────

/// Parsed event from an annihilate output line.
///
/// Measurements (batch size, KL divergence, GPU memory) are carried as the
/// decimal text the line printed: ASCII digits with at most one dot and at
/// least one digit, which is what Rust's `f64` parser accepts.
#[derive(Debug)]
pub enum ParsedEvent {
    /// Model is being loaded
    ModelLoading(String),
    /// Architecture detected from the model's config, before weights load
    ModelFormat { architecture: String, multimodal: bool, remote_code: bool },
    /// Model ships already quantized, with the method it declares
    Quantization(String),
    /// Batch size was determined
    BatchSize(String),
    /// Dataset loading status
    DatasetLoading(String),
    /// Refusal direction calculation started
    CalculatingDirections,
    /// Optimization starting
    OptimizationStarting { n_trials: usize },
    /// Trial started
    TrialStarting { trial_number: usize, total_trials: usize },
    /// A trial completed with metrics
    TrialComplete { trial_number: usize, total_trials: usize, refusals: usize, total_prompts: usize },
    /// KL divergence of the current trial
    KLDivergence(String),
    /// Best trial so far updated
    BestTrial { trial_number: usize, refusals: usize, kl_divergence: String },
    /// Optimization finished
    OptimizationComplete,
    /// GPU memory info
    GpuMemory { used_gb: String, total_gb: String },
    /// Elapsed time
    ElapsedTime(String),
    /// ETA
    EstimatedRemaining(String),
    /// Trial was pruned
    TrialPruned { trial_number: usize },
    /// Error message
    Error(String),
    /// Warning message
    Warning(String),
    /// Generic status message
    Status(String),
    /// Interactive prompt detected (questionary)
    InteractivePrompt(String),
    /// Unrecognized line
    Raw(String),
}

/// The mathematical value of a [`ParsedEvent`].
pub enum EventView {
    ModelLoading(Seq<char>),
    ModelFormat { architecture: Seq<char>, multimodal: bool, remote_code: bool },
    Quantization(Seq<char>),
    BatchSize(Seq<char>),
    DatasetLoading(Seq<char>),
    CalculatingDirections,
    OptimizationStarting { n_trials: usize },
    TrialStarting { trial_number: usize, total_trials: usize },
    TrialComplete { trial_number: usize, total_trials: usize, refusals: usize, total_prompts: usize },
    KLDivergence(Seq<char>),
    BestTrial { trial_number: usize, refusals: usize, kl_divergence: Seq<char> },
    OptimizationComplete,
    GpuMemory { used_gb: Seq<char>, total_gb: Seq<char> },
    ElapsedTime(Seq<char>),
    EstimatedRemaining(Seq<char>),
    TrialPruned { trial_number: usize },
    Error(Seq<char>),
    Warning(Seq<char>),
    Status(Seq<char>),
    InteractivePrompt(Seq<char>),
    Raw(Seq<char>),
}

impl View for ParsedEvent {
    type V = EventView;

    open spec fn view(&self) -> EventView {
        match self {
            ParsedEvent::ModelLoading(s) => EventView::ModelLoading(s@),
            ParsedEvent::ModelFormat { architecture, multimodal, remote_code } => EventView::ModelFormat {
                architecture: architecture@,
                multimodal: *multimodal,
                remote_code: *remote_code,
            },
            ParsedEvent::Quantization(s) => EventView::Quantization(s@),
            ParsedEvent::BatchSize(s) => EventView::BatchSize(s@),
            ParsedEvent::DatasetLoading(s) => EventView::DatasetLoading(s@),
            ParsedEvent::CalculatingDirections => EventView::CalculatingDirections,
            ParsedEvent::OptimizationStarting { n_trials } => EventView::OptimizationStarting {
                n_trials: *n_trials,
            },
            ParsedEvent::TrialStarting { trial_number, total_trials } => EventView::TrialStarting {
                trial_number: *trial_number,
                total_trials: *total_trials,
            },
            ParsedEvent::TrialComplete { trial_number, total_trials, refusals, total_prompts } =>
                EventView::TrialComplete {
                trial_number: *trial_number,
                total_trials: *total_trials,
                refusals: *refusals,
                total_prompts: *total_prompts,
            },
            ParsedEvent::KLDivergence(s) => EventView::KLDivergence(s@),
            ParsedEvent::BestTrial { trial_number, refusals, kl_divergence } => EventView::BestTrial {
                trial_number: *trial_number,
                refusals: *refusals,
                kl_divergence: kl_divergence@,
            },
            ParsedEvent::OptimizationComplete => EventView::OptimizationComplete,
            ParsedEvent::GpuMemory { used_gb, total_gb } => EventView::GpuMemory {
                used_gb: used_gb@,
                total_gb: total_gb@,
            },
            ParsedEvent::ElapsedTime(s) => EventView::ElapsedTime(s@),
            ParsedEvent::EstimatedRemaining(s) => EventView::EstimatedRemaining(s@),
            ParsedEvent::TrialPruned { trial_number } => EventView::TrialPruned {
                trial_number: *trial_number,
            },
            ParsedEvent::Error(s) => EventView::Error(s@),
            ParsedEvent::Warning(s) => EventView::Warning(s@),
            ParsedEvent::Status(s) => EventView::Status(s@),
            ParsedEvent::InteractivePrompt(s) => EventView::InteractivePrompt(s@),
            ParsedEvent::Raw(s) => EventView::Raw(s@),
        }
    }
}

// ─── Keyword search ────────────────────────────────────────────

/// A decimal text that Rust's `f64` parser accepts: made of ASCII digits and
/// dots, it holds at least one digit and at most one dot.
pub open spec fn is_float_text(s: Seq<char>) -> bool {
    &&& exists|i: int| 0 <= i < s.len() && is_ascii_digit(#[trigger] s[i])
    &&& forall|i: int, j: int| 0 <= i < j < s.len() && s[i] == '.' ==> s[j] != '.'
}

/// The digits and dots of the first word of `ws` whose digits and dots make a float.
pub open spec fn first_number(ws: Seq<Seq<char>>) -> Option<Seq<char>>
    decreases ws.len(),
{
    if ws.len() == 0 {
        None
    } else if is_float_text(number_chars_of(ws[0])) {
        Some(number_chars_of(ws[0]))
    } else {
        first_number(ws.drop_first())
    }
}

/// The numerator and denominator of the first word of `ws` that holds a `/`,
/// splits into exactly two pieces around it, and whose pieces' digits both parse.
pub open spec fn first_fraction(ws: Seq<Seq<char>>) -> Option<(usize, usize)>
    decreases ws.len(),
{
    if ws.len() == 0 {
        None
    } else {
        let w = ws[0];
        let ps = pieces(w, '/');
        if w.contains('/') && ps.len() == 2 && parse_usize(digits_of(ps[0])) is Some && parse_usize(
            digits_of(ps[1]),
        ) is Some {
            Some((parse_usize(digits_of(ps[0]))->0, parse_usize(digits_of(ps[1]))->0))
        } else {
            first_fraction(ws.drop_first())
        }
    }
}

/// Where `kw` first occurs in `s` once both are lowercased, as a byte offset
/// into the UTF-8 encoding of the lowercased `s`.
pub open spec fn keyword_offset(s: Seq<char>, kw: Seq<char>) -> Option<int> {
    crate::text::first_occurrence(encode_utf8(lowercase(s)), encode_utf8(lowercase(kw)))
}

/// Where `lowered_kw` first occurs in `lowered`, as a byte offset into the
/// UTF-8 encoding of `lowered`.
pub open spec fn offset_in(lowered: Seq<char>, lowered_kw: Seq<char>) -> Option<int> {
    crate::text::first_occurrence(encode_utf8(lowered), encode_utf8(lowered_kw))
}

/// [`number_after`] with the lowercased line and keyword given.
pub open spec fn number_after_in(
    s: Seq<char>,
    lowered: Seq<char>,
    kw: Seq<char>,
    lowered_kw: Seq<char>,
) -> Option<Option<Seq<char>>> {
    match offset_in(lowered, lowered_kw) {
        None => Some(None),
        Some(p) => {
            let b = p + encode_utf8(kw).len();
            if cuts_at(s, b) {
                Some(first_number(words(from_byte(s, b))))
            } else {
                None
            }
        },
    }
}

/// [`fraction_after`] with the lowercased line and keyword given.
pub open spec fn fraction_after_in(
    s: Seq<char>,
    lowered: Seq<char>,
    lowered_kw: Seq<char>,
) -> Option<Option<(usize, usize)>> {
    match offset_in(lowered, lowered_kw) {
        None => Some(None),
        Some(p) => {
            if cuts_at(s, p) {
                Some(first_fraction(words(from_byte(s, p))))
            } else {
                None
            }
        },
    }
}

/// Slicing `s` at the byte offset `b` is valid: `b` is a character boundary of its encoding.
pub open spec fn cuts_at(s: Seq<char>, b: int) -> bool {
    is_char_boundary(encode_utf8(s), b)
}

/// The characters of `s` from the byte offset `b` on.
pub open spec fn from_byte(s: Seq<char>, b: int) -> Seq<char> {
    decode_utf8(encode_utf8(s).subrange(b, encode_utf8(s).len() as int))
}

/// The number that follows `kw` in `s`: the offset found in the lowercased text
/// is applied to `s` past the byte length of `kw`, and the first word from there
/// whose digits and dots make a float gives it. `None` when that slice of `s` is
/// not valid (the search and the slice disagree on byte positions); `Some(None)`
/// when there is no such number.
pub open spec fn number_after(s: Seq<char>, kw: Seq<char>) -> Option<Option<Seq<char>>> {
    match keyword_offset(s, kw) {
        None => Some(None),
        Some(p) => {
            let b = p + encode_utf8(kw).len();
            if cuts_at(s, b) {
                Some(first_number(words(from_byte(s, b))))
            } else {
                None
            }
        },
    }
}

/// The fraction that follows `kw` in `s`, from the keyword's offset on; `None`
/// when that slice of `s` is not valid, `Some(None)` when there is no fraction.
pub open spec fn fraction_after(s: Seq<char>, kw: Seq<char>) -> Option<Option<(usize, usize)>> {
    match keyword_offset(s, kw) {
        None => Some(None),
        Some(p) => {
            if cuts_at(s, p) {
                Some(first_fraction(words(from_byte(s, p))))
            } else {
                None
            }
        },
    }
}


/// Whether the digits-and-dots text `v` is a float literal.
fn is_float_chars(v: &Vec<char>) -> (r: bool)
    ensures
        r == is_float_text(v@),
{
    let mut seen_digit = false;
    let mut seen_dot = false;
    let mut i: usize = 0;
    while i < v.len()
        invariant
            i <= v.len(),
            seen_digit == exists|j: int| 0 <= j < i && is_ascii_digit(#[trigger] v@[j]),
            seen_dot == exists|j: int| 0 <= j < i && #[trigger] v@[j] == '.',
            forall|a: int, b: int| 0 <= a < b < i && v@[a] == '.' ==> v@[b] != '.',
        decreases v.len() - i,
    {
        let c = v[i];
        if c == '.' {
            if seen_dot {
                assert(exists|a: int, b: int| 0 <= a < b < v@.len() && v@[a] == '.' && v@[b] == '.')
                    by {
                    let a = choose|j: int| 0 <= j < i && #[trigger] v@[j] == '.';
                    assert(0 <= a < i as int && v@[a] == '.' && v@[i as int] == '.');
                }
                return false;
            }
            seen_dot = true;
        }
        if crate::text::char_is_ascii_digit(c) {
            seen_digit = true;
        }
        i = i + 1;
    }
    seen_digit
}

/// `first_number` over word vectors.
fn first_number_of(ws: &Vec<Vec<char>>) -> (r: Option<String>)
    ensures
        match r {
            Some(t) => first_number(views(ws@)) == Some(t@),
            None => first_number(views(ws@)) is None,
        },
{
    let mut i: usize = 0;
    proof {
        assert(views(ws@).skip(0) =~= views(ws@));
    }
    while i < ws.len()
        invariant
            i <= ws.len(),
            first_number(views(ws@)) == first_number(views(ws@).skip(i as int)),
        decreases ws.len() - i,
    {
        let cleaned = keep_number_chars(&ws[i]);
        proof {
            assert(views(ws@).skip(i as int)[0] == ws@[i as int]@);
            assert(views(ws@).skip(i as int).drop_first() =~= views(ws@).skip(i + 1));
        }
        if is_float_chars(&cleaned) {
            return Some(from_chars(&cleaned));
        }
        i = i + 1;
    }
    None
}

/// `first_fraction` over word vectors.
fn first_fraction_of(ws: &Vec<Vec<char>>) -> (r: Option<(usize, usize)>)
    ensures
        r == first_fraction(views(ws@)),
{
    let mut i: usize = 0;
    proof {
        assert(views(ws@).skip(0) =~= views(ws@));
    }
    while i < ws.len()
        invariant
            i <= ws.len(),
            first_fraction(views(ws@)) == first_fraction(views(ws@).skip(i as int)),
        decreases ws.len() - i,
    {
        let w = &ws[i];
        proof {
            assert(views(ws@).skip(i as int)[0] == ws@[i as int]@);
            assert(views(ws@).skip(i as int).drop_first() =~= views(ws@).skip(i + 1));
        }
        if crate::text::contains_char(w, '/') {
            let parts = split_on(w, '/');
            if parts.len() == 2 {
                proof {
                    assert(views(parts@)[0] == parts@[0]@);
                    assert(views(parts@)[1] == parts@[1]@);
                }
                let num = keep_digits(&parts[0]);
                let denom = keep_digits(&parts[1]);
                match (parse_usize_chars(&num), parse_usize_chars(&denom)) {
                    (Some(n), Some(d)) => {
                        return Some((n, d));
                    },
                    _ => {},
                }
            }
        }
        i = i + 1;
    }
    None
}

/// Where `lowered_keyword` first occurs in `lowered`, as a byte offset.
pub fn keyword_offset_in(lowered: &str, lowered_keyword: &str) -> (r: Option<usize>)
    ensures
        match r {
            Some(p) => offset_in(lowered@, lowered_keyword@) == Some(p as int),
            None => offset_in(lowered@, lowered_keyword@) is None,
        },
{
    find_bytes(lowered.as_bytes(), lowered_keyword.as_bytes())
}

/// The part of `s` from the byte offset `b` on, when `b` is a character boundary.
fn suffix_at(s: &str, b: usize) -> (r: Option<&str>)
    ensures
        r is Some <==> cuts_at(s@, b as int),
        r matches Some(t) ==> t@ == from_byte(s@, b as int),
{
    if s.is_char_boundary(b) {
        let (_, t) = s.split_at(b);
        proof {
            vstd::utf8::encode_utf8_decode_utf8(t@);
        }
        Some(t)
    } else {
        None
    }
}

/// The number after `keyword` in `s`, given `s` and `keyword` lowercased:
/// the keyword's offset in `lowered` is applied to `s` past the keyword's byte
/// length, and the first word there whose digits and dots make a float gives
/// its decimal text. `None` when that offset would cut a character of `s`.
pub fn number_after_lowered(s: &str, lowered: &str, keyword: &str, lowered_keyword: &str) -> (r: Option<
    Option<String>,
>)
    ensures
        match r {
            None => number_after_in(s@, lowered@, keyword@, lowered_keyword@) is None,
            Some(None) => number_after_in(s@, lowered@, keyword@, lowered_keyword@) == Some(
                None::<Seq<char>>,
            ),
            Some(Some(t)) => number_after_in(s@, lowered@, keyword@, lowered_keyword@) == Some(
                Some(t@),
            ),
        },
{
    match keyword_offset_in(lowered, lowered_keyword) {
        None => Some(None),
        Some(pos) => {
            let klen = keyword.as_bytes().len();
            let slen = s.as_bytes().len();
            match pos.checked_add(klen) {
                None => {
                    assert(encode_utf8(s@).len() == slen);
                    proof {
                        vstd::utf8::encode_utf8_valid_utf8(s@);
                    }
                    assert(!cuts_at(s@, pos + encode_utf8(keyword@).len()));
                    None
                },
                Some(start) => match suffix_at(s, start) {
                    None => None,
                    Some(after) => {
                        let ac = to_chars(after);
                        let ws = split_words(&ac);
                        Some(first_number_of(&ws))
                    },
                },
            }
        },
    }
}

/// Extract a number appearing after a keyword, as its decimal text;
/// `None` when slicing the line at the found byte offset would cut a character.
fn extract_number_after(s: &str, keyword: &str) -> (r: Option<Option<String>>)
    ensures
        match r {
            None => number_after(s@, keyword@) is None,
            Some(None) => number_after(s@, keyword@) == Some(None::<Seq<char>>),
            Some(Some(t)) => number_after(s@, keyword@) == Some(Some(t@)),
        },
{
    let ls = to_lowercase(s);
    let lk = to_lowercase(keyword);
    number_after_lowered(s, ls.as_str(), keyword, lk.as_str())
}

/// The fraction like "5/100" after `lowered_keyword`'s offset in `lowered`,
/// read from `s` at that offset; `None` when the offset would cut a character of `s`.
pub fn fraction_after_lowered(s: &str, lowered: &str, lowered_keyword: &str) -> (r: Option<
    Option<(usize, usize)>,
>)
    ensures
        r == fraction_after_in(s@, lowered@, lowered_keyword@),
{
    match keyword_offset_in(lowered, lowered_keyword) {
        None => Some(None),
        Some(pos) => match suffix_at(s, pos) {
            None => None,
            Some(after) => {
                let ac = to_chars(after);
                let ws = split_words(&ac);
                Some(first_fraction_of(&ws))
            },
        },
    }
}

/// Extract a fraction like "5/100" appearing after a keyword;
/// `None` when slicing the line at the found byte offset would cut a character.
fn extract_fraction(s: &str, keyword: &str) -> (r: Option<Option<(usize, usize)>>)
    ensures
        r == fraction_after(s@, keyword@),
{
    let ls = to_lowercase(s);
    let lk = to_lowercase(keyword);
    fraction_after_lowered(s, ls.as_str(), lk.as_str())
}


// ─── Line classification ───────────────────────────────────────

/// A line of output with escapes stripped and surrounding white space trimmed.
pub open spec fn clean_line(raw: Seq<char>) -> Seq<char> {
    trim(strip_escapes(raw))
}

/// Some piece after the first one, trimmed, equals `flag`.
pub open spec fn has_flag(ps: Seq<Seq<char>>, flag: Seq<char>) -> bool {
    exists|i: int| 1 <= i < ps.len() && trim(#[trigger] ps[i]) == flag
}

/// The model-format event for the text after `* Detected `: the architecture is
/// the first comma-separated piece, and the flags the remaining ones.
pub open spec fn model_format_event(rest: Seq<char>) -> EventView {
    let ps = pieces(rest, ',');
    EventView::ModelFormat {
        architecture: trim(ps[0]),
        multimodal: has_flag(ps, "multimodal"@),
        remote_code: has_flag(ps, "custom code"@),
    }
}

/// The trial number and trial total read from the first `k` words of a
/// "Running trial N of M" line: a word holding `trial` followed by a number
/// (commas removed) sets the trial, and a word holding `of` followed by a word
/// whose digits parse sets the total; later words win.
pub open spec fn trial_scan(ws: Seq<Seq<char>>, k: int) -> (usize, usize)
    decreases k,
{
    if k <= 0 {
        (0, 0)
    } else {
        let prev = trial_scan(ws, k - 1);
        let i = k - 1;
        let t = if has_infix(ws[i], "trial"@) && i + 1 < ws.len() && parse_usize(
            without_char(ws[i + 1], ','),
        ) is Some {
            parse_usize(without_char(ws[i + 1], ','))->0
        } else {
            prev.0
        };
        let n = if has_infix(ws[i], "of"@) && i + 1 < ws.len() && parse_usize(digits_of(ws[i + 1]))
            is Some {
            parse_usize(digits_of(ws[i + 1]))->0
        } else {
            prev.1
        };
        (t, n)
    }
}

/// The event for a line that none of the earlier rules matched and no number
/// extraction is left for.
pub open spec fn classify_plain(line: Seq<char>) -> EventView {
    if has_infix(line, "GPU"@) && has_infix(line, "GB"@) && has_infix(line, "allocated"@) {
        EventView::Status(line)
    } else if has_infix(line, "Optimization complete"@) || has_infix(line, "optimization complete"@)
        || has_infix(line, "Optimization finished"@) || has_infix(
        line,
        "Optimization interrupted by user"@,
    ) || has_infix(line, "Pareto"@) {
        EventView::OptimizationComplete
    } else if has_infix(line, "pruned"@) || has_infix(line, "Pruned"@) {
        EventView::Status(line)
    } else if starts_with(line, "Error"@) || starts_with(line, "ERROR"@) || has_infix(line, "error:"@) {
        EventView::Error(line)
    } else if starts_with(line, "Warning"@) || starts_with(line, "WARNING"@) || has_infix(
        line,
        "warning:"@,
    ) {
        EventView::Warning(line)
    } else if has_infix(line, "?"@) && (has_infix(line, "Select"@) || has_infix(line, "Choose"@)
        || has_infix(line, "What"@)) {
        EventView::InteractivePrompt(line)
    } else {
        EventView::Raw(line)
    }
}

/// The event for a line past the trial-start rule: refusal counts, then KL
/// divergence, then the plain rules. `None` where a number extraction would slice
/// the line at an invalid byte offset.
pub open spec fn classify_metrics(line: Seq<char>) -> Option<EventView> {
    let fraction = if has_infix(line, "efusal"@) && (line.contains('/') || line.contains(':')) {
        fraction_after(line, "efusal"@)
    } else {
        Some(None)
    };
    match fraction {
        None => None,
        Some(Some((n, d))) => Some(
            EventView::TrialComplete { trial_number: 0, total_trials: 0, refusals: n, total_prompts: d },
        ),
        Some(None) => if has_infix(line, "KL divergence"@) || has_infix(line, "kl_divergence"@) {
            match number_after(line, "KL"@) {
                None => None,
                Some(Some(kl)) => Some(EventView::KLDivergence(kl)),
                Some(None) => Some(classify_plain(line)),
            }
        } else {
            Some(classify_plain(line))
        },
    }
}

/// The event for the cleaned line `line`; `None` where a number extraction would
/// slice the line at an invalid byte offset.
pub open spec fn classify_line(line: Seq<char>) -> Option<EventView> {
    if line.len() == 0 {
        Some(EventView::Raw(seq![]))
    } else if starts_with(line, "{"@) && ends_with(line, "}"@) {
        Some(EventView::Raw(line))
    } else if has_infix(line, "Loading model"@) || has_infix(line, "loading model"@) {
        Some(EventView::ModelLoading(line))
    } else if starts_with(line, "* Detected "@) && !has_infix(
        line.skip("* Detected "@.len() as int),
        "CUDA"@,
    ) {
        Some(model_format_event(line.skip("* Detected "@.len() as int)))
    } else if starts_with(line, "* Pre-quantized model: "@) {
        Some(EventView::Quantization(trim(line.skip("* Pre-quantized model: "@.len() as int))))
    } else if has_infix(line, "batch size"@) || has_infix(line, "Batch size"@) {
        match number_after(line, "batch size"@) {
            None => None,
            Some(Some(n)) => Some(EventView::BatchSize(n)),
            Some(None) => Some(EventView::Status(line)),
        }
    } else if has_infix(line, "Loading"@) && (has_infix(line, "prompts"@) || has_infix(
        line,
        "dataset"@,
    )) {
        Some(EventView::DatasetLoading(line))
    } else if has_infix(line, "refusal direction"@) || has_infix(line, "Refusal direction"@) {
        Some(EventView::CalculatingDirections)
    } else if has_infix(line, "Running"@) && has_infix(line, "trial"@) && has_infix(line, "of"@) {
        let ws = words(line);
        let (t, n) = trial_scan(ws, ws.len() as int);
        if t > 0 && n > 0 {
            Some(EventView::TrialStarting { trial_number: t, total_trials: n })
        } else {
            Some(EventView::Status(line))
        }
    } else {
        classify_metrics(line)
    }
}

/// What parsing `raw` gives; `None` exactly where parsing would slice the line
/// at a byte offset that is not a character boundary.
pub open spec fn parse_outcome(raw: Seq<char>) -> Option<EventView> {
    classify_line(clean_line(raw))
}



/// The model-format event for the text after `* Detected `.
fn model_format(rest: &Vec<char>) -> (r: ParsedEvent)
    ensures
        r@ == model_format_event(rest@),
{
    let parts = split_on(rest, ',');
    proof {
        crate::text::lemma_pieces_nonempty(rest@, ',', seq![]);
        assert(views(parts@)[0] == parts@[0]@);
    }
    let architecture = from_chars(&trim_chars(&parts[0]));
    let mm = to_chars("multimodal");
    let cc = to_chars("custom code");
    let mut multimodal = false;
    let mut remote_code = false;
    let mut i: usize = 1;
    while i < parts.len()
        invariant
            1 <= i <= parts.len(),
            views(parts@) == pieces(rest@, ','),
            mm@ == "multimodal"@,
            cc@ == "custom code"@,
            multimodal == exists|j: int| 1 <= j < i && trim(#[trigger] views(parts@)[j]) == mm@,
            remote_code == exists|j: int| 1 <= j < i && trim(#[trigger] views(parts@)[j]) == cc@,
        decreases parts.len() - i,
    {
        let f = trim_chars(&parts[i]);
        proof {
            assert(views(parts@)[i as int] == parts@[i as int]@);
        }
        if crate::text::chars_equal(&f, &mm) {
            multimodal = true;
        }
        if crate::text::chars_equal(&f, &cc) {
            remote_code = true;
        }
        i = i + 1;
    }
    ParsedEvent::ModelFormat { architecture, multimodal, remote_code }
}

/// The trial number and total of a "Running trial N of M" line.
fn scan_trial(ws: &Vec<Vec<char>>) -> (r: (usize, usize))
    ensures
        r == trial_scan(views(ws@), ws@.len() as int),
{
    let mut trial_num: usize = 0;
    let mut total_trials: usize = 0;
    let mut i: usize = 0;
    while i < ws.len()
        invariant
            i <= ws.len(),
            (trial_num, total_trials) == trial_scan(views(ws@), i as int),
        decreases ws.len() - i,
    {
        proof {
            assert(views(ws@)[i as int] == ws@[i as int]@);
            if i + 1 < ws.len() {
                assert(views(ws@)[i + 1] == ws@[i + 1]@);
            }
        }
        if contains_str(&ws[i], "trial") && i + 1 < ws.len() {
            let cleaned = remove_char(&ws[i + 1], ',');
            match parse_usize_chars(&cleaned) {
                Some(n) => {
                    trial_num = n;
                },
                None => {},
            }
        }
        if contains_str(&ws[i], "of") && i + 1 < ws.len() {
            let stripped = keep_digits(&ws[i + 1]);
            match parse_usize_chars(&stripped) {
                Some(n) => {
                    total_trials = n;
                },
                None => {},
            }
        }
        i = i + 1;
    }
    (trial_num, total_trials)
}


/// The plain rules (no number extraction).
fn classify_plain_line(line: &Vec<char>) -> (r: ParsedEvent)
    ensures
        r@ == classify_plain(line@),
{
    if contains_str(line, "GPU") && contains_str(line, "GB") && contains_str(line, "allocated") {
        ParsedEvent::Status(from_chars(line))
    } else if contains_str(line, "Optimization complete") || contains_str(
        line,
        "optimization complete",
    ) || contains_str(line, "Optimization finished") || contains_str(
        line,
        "Optimization interrupted by user",
    ) || contains_str(line, "Pareto") {
        ParsedEvent::OptimizationComplete
    } else if contains_str(line, "pruned") || contains_str(line, "Pruned") {
        ParsedEvent::Status(from_chars(line))
    } else if starts_with_str(line, "Error") || starts_with_str(line, "ERROR") || contains_str(
        line,
        "error:",
    ) {
        ParsedEvent::Error(from_chars(line))
    } else if starts_with_str(line, "Warning") || starts_with_str(line, "WARNING") || contains_str(
        line,
        "warning:",
    ) {
        ParsedEvent::Warning(from_chars(line))
    } else if contains_str(line, "?") && (contains_str(line, "Select") || contains_str(line, "Choose")
        || contains_str(line, "What")) {
        ParsedEvent::InteractivePrompt(from_chars(line))
    } else {
        ParsedEvent::Raw(from_chars(line))
    }
}

/// Refusal counts, KL divergence, then the plain rules.
fn classify_metrics_line(line: &Vec<char>) -> (r: Option<ParsedEvent>)
    ensures
        match r {
            Some(e) => classify_metrics(line@) == Some(e@),
            None => classify_metrics(line@) is None,
        },
{
    let text = from_chars(line);
    let fraction = if contains_str(line, "efusal") && (contains_char(line, '/') || contains_char(
        line,
        ':',
    )) {
        extract_fraction(text.as_str(), "efusal")
    } else {
        Some(None)
    };
    match fraction {
        None => None,
        Some(Some((n, d))) => Some(
            ParsedEvent::TrialComplete { trial_number: 0, total_trials: 0, refusals: n, total_prompts: d },
        ),
        Some(None) => {
            if contains_str(line, "KL divergence") || contains_str(line, "kl_divergence") {
                match extract_number_after(text.as_str(), "KL") {
                    None => None,
                    Some(Some(kl)) => Some(ParsedEvent::KLDivergence(kl)),
                    Some(None) => Some(classify_plain_line(line)),
                }
            } else {
                Some(classify_plain_line(line))
            }
        },
    }
}

/// The event for a cleaned line.
fn classify_clean_line(line: &Vec<char>) -> (r: Option<ParsedEvent>)
    ensures
        match r {
            Some(e) => classify_line(line@) == Some(e@),
            None => classify_line(line@) is None,
        },
{
    if line.len() == 0 {
        return Some(ParsedEvent::Raw(String::new()));
    }
    if starts_with_str(line, "{") && ends_with_str(line, "}") {
        return Some(ParsedEvent::Raw(from_chars(line)));
    }
    if contains_str(line, "Loading model") || contains_str(line, "loading model") {
        return Some(ParsedEvent::ModelLoading(from_chars(line)));
    }
    if starts_with_str(line, "* Detected ") {
        let plen = to_chars("* Detected ").len();
        let rest = slice_chars(line, plen, line.len());
        assert(rest@ =~= line@.skip("* Detected "@.len() as int));
        if !contains_str(&rest, "CUDA") {
            return Some(model_format(&rest));
        }
    }
    if starts_with_str(line, "* Pre-quantized model: ") {
        let plen = to_chars("* Pre-quantized model: ").len();
        let rest = slice_chars(line, plen, line.len());
        assert(rest@ =~= line@.skip("* Pre-quantized model: "@.len() as int));
        return Some(ParsedEvent::Quantization(from_chars(&trim_chars(&rest))));
    }
    if contains_str(line, "batch size") || contains_str(line, "Batch size") {
        let text = from_chars(line);
        return match extract_number_after(text.as_str(), "batch size") {
            None => None,
            Some(Some(n)) => Some(ParsedEvent::BatchSize(n)),
            Some(None) => Some(ParsedEvent::Status(text)),
        };
    }
    if contains_str(line, "Loading") && (contains_str(line, "prompts") || contains_str(line, "dataset")) {
        return Some(ParsedEvent::DatasetLoading(from_chars(line)));
    }
    if contains_str(line, "refusal direction") || contains_str(line, "Refusal direction") {
        return Some(ParsedEvent::CalculatingDirections);
    }
    if contains_str(line, "Running") && contains_str(line, "trial") && contains_str(line, "of") {
        let ws = split_words(line);
        let (t, n) = scan_trial(&ws);
        if t > 0 && n > 0 {
            return Some(ParsedEvent::TrialStarting { trial_number: t, total_trials: n });
        }
        return Some(ParsedEvent::Status(from_chars(line)));
    }
    classify_metrics_line(line)
}

fn parse_core(raw: &str) -> (r: Option<ParsedEvent>)
    ensures
        match r {
            Some(e) => parse_outcome(raw@) == Some(e@),
            None => parse_outcome(raw@) is None,
        },
{
    let stripped = strip_ansi(raw);
    let line = trim_chars(&to_chars(stripped.as_str()));
    classify_clean_line(&line)
}

/// Parse a single line of annihilate output into a structured event.
///
/// The keyword searches behind the batch-size, refusal and KL rules lowercase
/// the line and then apply the byte offset they find to the line itself; where
/// lowercasing changes the byte length of an earlier character that offset may
/// fall inside a character, and such lines are excluded here (see
/// [`try_parse_line`]).
pub fn parse_line(raw: &str) -> (r: ParsedEvent)
    requires
        parse_outcome(raw@) is Some,
    ensures
        parse_outcome(raw@) == Some(r@),
{
    match parse_core(raw) {
        Some(e) => e,
        None => {
            assert(false);
            ParsedEvent::Raw(String::new())
        },
    }
}

/// [`parse_line`] for every input: `None` exactly for the lines whose keyword
/// offset would slice the line inside a character.
pub fn try_parse_line(raw: &str) -> (r: Option<ParsedEvent>)
    ensures
        match r {
            Some(e) => parse_outcome(raw@) == Some(e@),
            None => parse_outcome(raw@) is None,
        },
{
    match parse_core(raw) {
        Some(_) => Some(parse_line(raw)),
        None => None,
    }
}


// ─── Laws ──────────────────────────────────────────────────────

proof fn lemma_strip_from_plain(s: Seq<char>)
    requires
        !s.contains('\x1b'),
    ensures
        strip_escapes_from(s, false) == s,
    decreases s.len(),
{
    if s.len() > 0 {
        assert(!s.drop_first().contains('\x1b')) by {
            if s.drop_first().contains('\x1b') {
                let j = choose|j: int| 0 <= j < s.drop_first().len() && s.drop_first()[j] == '\x1b';
                assert(s[j + 1] == '\x1b');
            }
        }
        assert(s[0] != '\x1b') by {
            if s[0] == '\x1b' {
                assert(s.contains('\x1b'));
            }
        }
        lemma_strip_from_plain(s.drop_first());
        assert(seq![s[0]] + s.drop_first() =~= s);
    }
}

proof fn lemma_strip_from_has_no_escape(s: Seq<char>, in_escape: bool)
    ensures
        !strip_escapes_from(s, in_escape).contains('\x1b'),
    decreases s.len(),
{
    if s.len() > 0 {
        if in_escape {
            lemma_strip_from_has_no_escape(s.drop_first(), !is_ascii_alpha(s[0]));
        } else if s[0] == '\x1b' {
            lemma_strip_from_has_no_escape(s.drop_first(), true);
        } else {
            lemma_strip_from_has_no_escape(s.drop_first(), false);
            let t = strip_escapes_from(s.drop_first(), false);
            assert(!(seq![s[0]] + t).contains('\x1b')) by {
                if (seq![s[0]] + t).contains('\x1b') {
                    let j = choose|j: int| 0 <= j < (seq![s[0]] + t).len() && (seq![s[0]] + t)[j]
                        == '\x1b';
                    if j > 0 {
                        assert(t[j - 1] == '\x1b');
                    }
                }
            }
        }
    }
}

/// Text without escape characters comes out of [`strip_ansi`] unchanged, and
/// what comes out never holds an escape character.
pub proof fn strip_ansi_laws(s: Seq<char>)
    ensures
        !s.contains('\x1b') ==> strip_escapes(s) == s,
        !strip_escapes(s).contains('\x1b'),
{
    if !s.contains('\x1b') {
        lemma_strip_from_plain(s);
    }
    lemma_strip_from_has_no_escape(s, false);
}

/// A JSON protocol line (one that, cleaned, starts with `{` and ends with `}`)
/// always parses as `Raw` with the cleaned line, however it mentions model loading,
/// refusals or anything else.
pub proof fn json_lines_stay_raw(raw: Seq<char>)
    requires
        starts_with(clean_line(raw), "{"@),
        ends_with(clean_line(raw), "}"@),
    ensures
        parse_outcome(raw) == Some(EventView::Raw(clean_line(raw))),
{
    let line = clean_line(raw);
    if line.len() == 0 {
        assert(line =~= seq![]);
    }
}

/// A line that reports an error anywhere in it (`error:`) parses as an error
/// carrying the cleaned line, whatever it starts with, when none of the
/// earlier rules claims it: it is no JSON line, mentions no model or dataset
/// loading, no detected format or quantization, no batch size, no refusal
/// direction or count, no trial start, no KL divergence, no GPU memory, no
/// finished optimization and no pruned trial.
pub proof fn error_lines_parse_as_errors(raw: Seq<char>)
    requires
        has_infix(clean_line(raw), "error:"@),
        !(starts_with(clean_line(raw), "{"@) && ends_with(clean_line(raw), "}"@)),
        !has_infix(clean_line(raw), "Loading model"@),
        !has_infix(clean_line(raw), "loading model"@),
        !starts_with(clean_line(raw), "* Detected "@),
        !starts_with(clean_line(raw), "* Pre-quantized model: "@),
        !has_infix(clean_line(raw), "batch size"@),
        !has_infix(clean_line(raw), "Batch size"@),
        !(has_infix(clean_line(raw), "Loading"@) && (has_infix(clean_line(raw), "prompts"@)
            || has_infix(clean_line(raw), "dataset"@))),
        !has_infix(clean_line(raw), "refusal direction"@),
        !has_infix(clean_line(raw), "Refusal direction"@),
        !(has_infix(clean_line(raw), "Running"@) && has_infix(clean_line(raw), "trial"@)
            && has_infix(clean_line(raw), "of"@)),
        !has_infix(clean_line(raw), "efusal"@),
        !has_infix(clean_line(raw), "KL divergence"@),
        !has_infix(clean_line(raw), "kl_divergence"@),
        !(has_infix(clean_line(raw), "GPU"@) && has_infix(clean_line(raw), "GB"@) && has_infix(
            clean_line(raw),
            "allocated"@,
        )),
        !has_infix(clean_line(raw), "Optimization complete"@),
        !has_infix(clean_line(raw), "optimization complete"@),
        !has_infix(clean_line(raw), "Optimization finished"@),
        !has_infix(clean_line(raw), "Optimization interrupted by user"@),
        !has_infix(clean_line(raw), "Pareto"@),
        !has_infix(clean_line(raw), "pruned"@),
        !has_infix(clean_line(raw), "Pruned"@),
    ensures
        parse_outcome(raw) == Some(EventView::Error(clean_line(raw))),
{
    let line = clean_line(raw);
    reveal_strlit("error:");
    let i = choose|i: int| crate::text::occurs_at(line, "error:"@, i);
    assert(line.len() >= 6);
}

/// A "* Detected N CUDA device(s)" line never parses as a model format.
pub proof fn cuda_line_is_not_model_format(raw: Seq<char>)
    requires
        starts_with(clean_line(raw), "* Detected "@),
        has_infix(clean_line(raw).skip("* Detected "@.len() as int), "CUDA"@),
    ensures
        !(parse_outcome(raw) matches Some(EventView::ModelFormat { .. })),
{
}

/// Every measurement the parser reports is a decimal text that Rust's `f64`
/// parser accepts.
pub proof fn measurements_are_float_texts(raw: Seq<char>)
    ensures
        parse_outcome(raw) matches Some(EventView::BatchSize(t)) ==> is_float_text(t),
        parse_outcome(raw) matches Some(EventView::KLDivergence(t)) ==> is_float_text(t),
{
    let line = clean_line(raw);
    lemma_first_number_is_float(words(from_byte(line, keyword_offset(line, "batch size"@)->0
        + encode_utf8("batch size"@).len())));
    lemma_first_number_is_float(words(from_byte(line, keyword_offset(line, "KL"@)->0
        + encode_utf8("KL"@).len())));
}

proof fn lemma_first_number_is_float(ws: Seq<Seq<char>>)
    ensures
        first_number(ws) matches Some(t) ==> is_float_text(t),
    decreases ws.len(),
{
    if ws.len() > 0 {
        lemma_first_number_is_float(ws.drop_first());
    }
}

} // verus!
