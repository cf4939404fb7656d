//! Names, paths and command lines for the `annihilate` Python tools.
//!
//! Everything here is computed from plain values; discovering the repository
//! root, probing for interpreters and spawning processes is left to callers.

use vstd::prelude::*;

use crate::parser::{EventView, ParsedEvent};
use crate::progress::{MessageView, SubprocessMessage};
use crate::text::{
    alphanumeric, char_is_alphanumeric, char_is_control, decimal, decimal_chars, from_chars,
    is_control, slice_chars, to_chars,
};

verus! {

broadcast use vstd::string::group_string_axioms;

// ─── Checkpoint names ──────────────────────────────────────────

/// What one character of a model reference becomes in a checkpoint stem.
pub open spec fn checkpoint_piece(c: char) -> Seq<char> {
    if alphanumeric(c) || c == '_' || c == '-' {
        seq![c]
    } else {
        seq!['-', '-']
    }
}

/// The checkpoint filename stem for the model reference `s`.
pub open spec fn checkpoint_stem(s: Seq<char>) -> Seq<char>
    decreases s.len(),
{
    if s.len() == 0 {
        s
    } else {
        checkpoint_stem(s.drop_last()) + checkpoint_piece(s.last())
    }
}

/// The checkpoint stem of `s` when `alnum[i]` says whether `s[i]` is alphanumeric.
pub open spec fn checkpoint_stem_with(s: Seq<char>, alnum: Seq<bool>) -> Seq<char>
    decreases s.len(),
{
    if s.len() == 0 {
        s
    } else {
        checkpoint_stem_with(s.drop_last(), alnum.drop_last()) + (if alnum.last() || s.last() == '_'
            || s.last() == '-' {
            seq![s.last()]
        } else {
            seq!['-', '-']
        })
    }
}

proof fn lemma_stem_with_answers(s: Seq<char>, alnum: Seq<bool>)
    requires
        alnum.len() == s.len(),
        forall|i: int| 0 <= i < s.len() ==> alnum[i] == alphanumeric(#[trigger] s[i]),
    ensures
        checkpoint_stem_with(s, alnum) == checkpoint_stem(s),
    decreases s.len(),
{
    if s.len() > 0 {
        assert forall|i: int| 0 <= i < s.drop_last().len() implies alnum.drop_last()[i]
            == alphanumeric(#[trigger] s.drop_last()[i]) by {
            assert(s.drop_last()[i] == s[i]);
        }
        lemma_stem_with_answers(s.drop_last(), alnum.drop_last());
        assert(alnum.last() == alphanumeric(s[s.len() - 1]));
    }
}

/// The checkpoint filename stem of `model`, given for each of its characters
/// whether it is alphanumeric: those and `_` and `-` stay, every other
/// character becomes `--`.
pub fn checkpoint_name_with(model: &str, alnum: &Vec<bool>) -> (r: String)
    requires
        alnum@.len() == model@.len(),
    ensures
        r@ == checkpoint_stem_with(model@, alnum@),
{
    let m = to_chars(model);
    let mut out: Vec<char> = Vec::new();
    let mut i: usize = 0;
    while i < m.len()
        invariant
            i <= m.len(),
            m@ == model@,
            alnum@.len() == m@.len(),
            out@ == checkpoint_stem_with(m@.take(i as int), alnum@.take(i as int)),
        decreases m.len() - i,
    {
        let c = m[i];
        assert(m@.take(i + 1).drop_last() =~= m@.take(i as int));
        assert(alnum@.take(i + 1).drop_last() =~= alnum@.take(i as int));
        if alnum[i] || c == '_' || c == '-' {
            out.push(c);
            assert(out@ =~= checkpoint_stem_with(m@.take(i as int), alnum@.take(i as int)) + seq![c]);
        } else {
            out.push('-');
            out.push('-');
            assert(out@ =~= checkpoint_stem_with(m@.take(i as int), alnum@.take(i as int)) + seq![
                '-',
                '-',
            ]);
        }
        i = i + 1;
    }
    assert(m@.take(m@.len() as int) =~= m@);
    assert(alnum@.take(m@.len() as int) =~= alnum@);
    from_chars(&out)
}

/// Turn a model reference into the checkpoint filename stem used by the Python side:
/// every character that is not alphanumeric, `_` or `-` becomes `--`.
pub fn checkpoint_name(model: &str) -> (r: String)
    ensures
        r@ == checkpoint_stem(model@),
{
    let m = to_chars(model);
    let mut alnum: Vec<bool> = Vec::new();
    let mut i: usize = 0;
    while i < m.len()
        invariant
            i <= m.len(),
            alnum@.len() == i,
            forall|j: int| 0 <= j < i ==> alnum@[j] == alphanumeric(#[trigger] m@[j]),
        decreases m.len() - i,
    {
        alnum.push(char_is_alphanumeric(m[i]));
        i = i + 1;
    }
    proof {
        lemma_stem_with_answers(model@, alnum@);
    }
    checkpoint_name_with(model, &alnum)
}

/// Every character of a checkpoint stem is alphanumeric, `_` or `-`, so the
/// stem is a safe filename on every platform.
pub proof fn checkpoint_stem_is_filename_safe(s: Seq<char>)
    ensures
        forall|i: int|
            0 <= i < checkpoint_stem(s).len() ==> {
                let c = #[trigger] checkpoint_stem(s)[i];
                alphanumeric(c) || c == '_' || c == '-'
            },
    decreases s.len(),
{
    if s.len() > 0 {
        checkpoint_stem_is_filename_safe(s.drop_last());
        let a = checkpoint_stem(s.drop_last());
        let b = checkpoint_piece(s.last());
        assert forall|i: int| 0 <= i < (a + b).len() implies {
            let c = #[trigger] (a + b)[i];
            alphanumeric(c) || c == '_' || c == '-'
        } by {
            if i < a.len() {
                assert((a + b)[i] == a[i]);
            } else {
                assert((a + b)[i] == b[i - a.len()]);
            }
        }
    }
}

// ─── Export names ──────────────────────────────────────────────

/// A character that cannot appear in a Windows filename (besides the path separators).
pub open spec fn is_reserved_in_filenames(c: char) -> bool {
    c == ':' || c == '*' || c == '?' || c == '"' || c == '<' || c == '>' || c == '|'
}

/// What one character of a model reference becomes in an export stem.
pub open spec fn export_piece(c: char) -> Seq<char> {
    if c == '/' || c == '\\' {
        seq!['-', '-']
    } else if is_reserved_in_filenames(c) {
        seq!['-']
    } else if is_control(c) {
        seq![]
    } else {
        seq![c]
    }
}

/// The model reference `s` with every character mapped by [`export_piece`].
pub open spec fn export_pieces(s: Seq<char>) -> Seq<char>
    decreases s.len(),
{
    if s.len() == 0 {
        s
    } else {
        export_pieces(s.drop_last()) + export_piece(s.last())
    }
}

/// A character that `str::trim_matches(['.', ' '])` removes.
pub open spec fn is_edge_junk(c: char) -> bool {
    c == '.' || c == ' '
}

/// `s` without its leading dots and spaces.
pub open spec fn strip_junk_start(s: Seq<char>) -> Seq<char>
    decreases s.len(),
{
    if s.len() > 0 && is_edge_junk(s[0]) {
        strip_junk_start(s.drop_first())
    } else {
        s
    }
}

/// `s` without its trailing dots and spaces.
pub open spec fn strip_junk_end(s: Seq<char>) -> Seq<char>
    decreases s.len(),
{
    if s.len() > 0 && is_edge_junk(s.last()) {
        strip_junk_end(s.drop_last())
    } else {
        s
    }
}

/// The filesystem-safe stem for export filenames.
pub open spec fn export_stem(s: Seq<char>) -> Seq<char> {
    let t = strip_junk_end(strip_junk_start(export_pieces(s)));
    if t.len() == 0 {
        seq!['m', 'o', 'd', 'e', 'l']
    } else {
        t
    }
}

proof fn lemma_strip_start_skip(s: Seq<char>, i: int)
    requires
        0 <= i <= s.len(),
        forall|j: int| 0 <= j < i ==> is_edge_junk(s[j]),
    ensures
        strip_junk_start(s) == strip_junk_start(s.subrange(i, s.len() as int)),
    decreases i,
{
    if i > 0 {
        lemma_strip_start_skip(s, i - 1);
        assert(s.subrange(i - 1, s.len() as int).drop_first() =~= s.subrange(i, s.len() as int));
    } else {
        assert(s.subrange(0, s.len() as int) =~= s);
    }
}

proof fn lemma_strip_end_cut(s: Seq<char>, b: int)
    requires
        0 <= b <= s.len(),
        forall|j: int| b <= j < s.len() ==> is_edge_junk(s[j]),
    ensures
        strip_junk_end(s) == strip_junk_end(s.subrange(0, b)),
    decreases s.len() - b,
{
    if b < s.len() {
        lemma_strip_end_cut(s, b + 1);
        assert(s.subrange(0, b + 1).drop_last() =~= s.subrange(0, b));
    } else {
        assert(s.subrange(0, s.len() as int) =~= s);
    }
}

/// Turn a model reference into a filesystem-safe stem for export filenames.
///
/// Path separators become `--`, the characters Windows reserves become `-`,
/// control characters are dropped, leading and trailing dots and spaces are
/// trimmed, and an empty result becomes `model`. Dots inside the name are kept.
pub fn sanitize_model_name(model: &str) -> (r: String)
    ensures
        r@ == export_stem(model@),
{
    let m = to_chars(model);
    let mut out: Vec<char> = Vec::new();
    let mut i: usize = 0;
    while i < m.len()
        invariant
            i <= m.len(),
            out@ == export_pieces(m@.take(i as int)),
        decreases m.len() - i,
    {
        let c = m[i];
        assert(m@.take(i + 1).drop_last() =~= m@.take(i as int));
        let ghost before = out@;
        if c == '/' || c == '\\' {
            out.push('-');
            out.push('-');
            assert(out@ =~= before + seq!['-', '-']);
        } else if c == ':' || c == '*' || c == '?' || c == '"' || c == '<' || c == '>' || c == '|' {
            out.push('-');
            assert(out@ =~= before + seq!['-']);
        } else if char_is_control(c) {
            assert(out@ =~= before + seq![]);
        } else {
            out.push(c);
            assert(out@ =~= before + seq![c]);
        }
        i = i + 1;
    }
    assert(m@.take(m@.len() as int) =~= m@);
    let mut a: usize = 0;
    while a < out.len() && (out[a] == '.' || out[a] == ' ')
        invariant
            a <= out.len(),
            forall|j: int| 0 <= j < a ==> is_edge_junk(out@[j]),
        decreases out.len() - a,
    {
        a = a + 1;
    }
    let mut b: usize = out.len();
    while b > a && (out[b - 1] == '.' || out[b - 1] == ' ')
        invariant
            a <= b <= out.len(),
            forall|j: int| b <= j < out.len() ==> is_edge_junk(out@[j]),
        decreases b - a,
    {
        b = b - 1;
    }
    let t = slice_chars(&out, a, b);
    proof {
        lemma_strip_start_skip(out@, a as int);
        let u = out@.subrange(a as int, out@.len() as int);
        assert(strip_junk_start(u) == u);
        lemma_strip_end_cut(u, (b - a) as int);
        assert(u.subrange(0, (b - a) as int) =~= t@);
        assert(strip_junk_end(t@) == t@);
    }
    if t.len() == 0 {
        let r = String::from_str("model");
        proof {
            reveal_strlit("model");
        }
        assert(r@ =~= seq!['m', 'o', 'd', 'e', 'l']);
        r
    } else {
        from_chars(&t)
    }
}


/// A character that may stand in an export filename.
pub open spec fn export_safe(c: char) -> bool {
    !is_reserved_in_filenames(c) && !is_control(c) && c != '/' && c != '\\'
}

/// Every character of `s` is [`export_safe`].
pub open spec fn all_export_safe(s: Seq<char>) -> bool {
    forall|i: int| 0 <= i < s.len() ==> export_safe(#[trigger] s[i])
}

proof fn lemma_export_pieces_safe(s: Seq<char>)
    ensures
        all_export_safe(export_pieces(s)),
    decreases s.len(),
{
    if s.len() > 0 {
        lemma_export_pieces_safe(s.drop_last());
        let a = export_pieces(s.drop_last());
        let b = export_piece(s.last());
        assert forall|i: int| 0 <= i < (a + b).len() implies export_safe(#[trigger] (a + b)[i]) by {
            if i < a.len() {
                assert((a + b)[i] == a[i]);
            } else {
                assert((a + b)[i] == b[i - a.len()]);
            }
        }
    }
}

proof fn lemma_strip_start_safe(s: Seq<char>)
    requires
        all_export_safe(s),
    ensures
        all_export_safe(strip_junk_start(s)),
    decreases s.len(),
{
    if s.len() > 0 && is_edge_junk(s[0]) {
        assert forall|i: int| 0 <= i < s.drop_first().len() implies export_safe(
            #[trigger] s.drop_first()[i],
        ) by {
            assert(s.drop_first()[i] == s[i + 1]);
        }
        lemma_strip_start_safe(s.drop_first());
    }
}

proof fn lemma_strip_end_safe(s: Seq<char>)
    requires
        all_export_safe(s),
    ensures
        all_export_safe(strip_junk_end(s)),
    decreases s.len(),
{
    if s.len() > 0 && is_edge_junk(s.last()) {
        assert forall|i: int| 0 <= i < s.drop_last().len() implies export_safe(
            #[trigger] s.drop_last()[i],
        ) by {
            assert(s.drop_last()[i] == s[i]);
        }
        lemma_strip_end_safe(s.drop_last());
    }
}

/// An export stem is never empty, and holds no path separator, no character
/// Windows reserves and no control character.
pub proof fn export_stem_is_filename_safe(s: Seq<char>)
    ensures
        export_stem(s).len() > 0,
        all_export_safe(export_stem(s)),
{
    lemma_export_pieces_safe(s);
    lemma_strip_start_safe(export_pieces(s));
    lemma_strip_end_safe(strip_junk_start(export_pieces(s)));
    let m = seq!['m', 'o', 'd', 'e', 'l'];
    assert forall|i: int| 0 <= i < m.len() implies export_safe(#[trigger] m[i]) by {
    }
}


proof fn lemma_strip_start_first(s: Seq<char>)
    ensures
        strip_junk_start(s).len() > 0 ==> !is_edge_junk(strip_junk_start(s)[0]),
    decreases s.len(),
{
    if s.len() > 0 && is_edge_junk(s[0]) {
        lemma_strip_start_first(s.drop_first());
    }
}

proof fn lemma_strip_end_prefix(s: Seq<char>)
    ensures
        strip_junk_end(s).len() <= s.len(),
        strip_junk_end(s) =~= s.subrange(0, strip_junk_end(s).len() as int),
        strip_junk_end(s).len() > 0 ==> !is_edge_junk(strip_junk_end(s).last()),
    decreases s.len(),
{
    if s.len() > 0 && is_edge_junk(s.last()) {
        lemma_strip_end_prefix(s.drop_last());
        let t = strip_junk_end(s.drop_last());
        assert(s.drop_last().subrange(0, t.len() as int) =~= s.subrange(0, t.len() as int));
    } else {
        assert(s.subrange(0, s.len() as int) =~= s);
    }
}

proof fn lemma_export_pieces_of_safe(s: Seq<char>)
    requires
        all_export_safe(s),
    ensures
        export_pieces(s) == s,
    decreases s.len(),
{
    if s.len() > 0 {
        assert(all_export_safe(s.drop_last())) by {
            assert forall|i: int| 0 <= i < s.drop_last().len() implies export_safe(
                #[trigger] s.drop_last()[i],
            ) by {
                assert(s.drop_last()[i] == s[i]);
            }
        }
        lemma_export_pieces_of_safe(s.drop_last());
        assert(export_safe(s[s.len() - 1]));
        assert(export_piece(s.last()) == seq![s.last()]);
        assert(s.drop_last() + seq![s.last()] =~= s);
    }
}

/// An export stem starts and ends with neither a dot nor a space, and it is
/// settled: sanitizing it again gives it back unchanged.
pub proof fn export_stem_is_settled(s: Seq<char>)
    ensures
        !is_edge_junk(export_stem(s)[0]),
        !is_edge_junk(export_stem(s).last()),
        export_stem(export_stem(s)) == export_stem(s),
{
    let u = strip_junk_start(export_pieces(s));
    let t = strip_junk_end(u);
    lemma_strip_start_first(export_pieces(s));
    lemma_strip_end_prefix(u);
    let e = export_stem(s);
    if t.len() > 0 {
        assert(t[0] == u[0]);
    }
    assert(!is_edge_junk(e[0]));
    assert(!is_edge_junk(e.last()));
    export_stem_is_filename_safe(s);
    lemma_export_pieces_of_safe(e);
    assert(strip_junk_start(e) == e);
    assert(strip_junk_end(e) == e);
}

// ─── Interpreter discovery ─────────────────────────────────────

/// The venv names the TUI recognises, in priority order.
pub open spec fn venv_names() -> Seq<Seq<char>> {
    seq![".venv"@, "annihilation-env"@, "venv"@, "env"@]
}

/// The `i`-th recognised venv name.
pub fn venv_name(i: usize) -> (r: &'static str)
    requires
        i < 4,
    ensures
        r@ == venv_names()[i as int],
{
    if i == 0 {
        ".venv"
    } else if i == 1 {
        "annihilation-env"
    } else if i == 2 {
        "venv"
    } else {
        "env"
    }
}

/// The views of a sequence of strings.
pub open spec fn string_views(v: Seq<String>) -> Seq<Seq<char>> {
    v.map_values(|s: String| s@)
}

/// Python's executable path inside a venv, as path components:
/// `Scripts\python.exe` on Windows, `bin/python` everywhere else.
pub open spec fn venv_python_path(venv: Seq<char>, windows: bool) -> Seq<Seq<char>> {
    if windows {
        seq![venv, "Scripts"@, "python.exe"@]
    } else {
        seq![venv, "bin"@, "python"@]
    }
}

/// Appends the string `s` to `v`.
pub fn push_string(v: &mut Vec<String>, s: &str)
    ensures
        string_views(final(v)@) == string_views(old(v)@).push(s@),
{
    let t = String::from_str(s);
    v.push(t);
    assert(string_views(v@) =~= string_views(old(v)@).push(s@));
}

/// Python's executable path inside the venv `venv`, as path components.
pub fn venv_python_rel(venv: &str, windows: bool) -> (r: Vec<String>)
    ensures
        string_views(r@) == venv_python_path(venv@, windows),
{
    let mut r: Vec<String> = Vec::new();
    push_string(&mut r, venv);
    if windows {
        push_string(&mut r, "Scripts");
        push_string(&mut r, "python.exe");
    } else {
        push_string(&mut r, "bin");
        push_string(&mut r, "python");
    }
    assert(string_views(r@) =~= venv_python_path(venv@, windows));
    r
}

/// The venv whose interpreter the TUI runs, given which of the recognised venvs
/// (in the order of [`venv_names`]) hold an interpreter: the first that does, else `.venv`.
pub open spec fn chosen_venv(present: Seq<bool>) -> Seq<char> {
    if present[0] {
        venv_names()[0]
    } else if present[1] {
        venv_names()[1]
    } else if present[2] {
        venv_names()[2]
    } else if present[3] {
        venv_names()[3]
    } else {
        venv_names()[0]
    }
}

/// Picks the venv whose interpreter every spawned tool runs.
pub fn choose_venv(present: &Vec<bool>) -> (r: &'static str)
    requires
        present.len() == 4,
    ensures
        r@ == chosen_venv(present@),
{
    let mut i: usize = 0;
    while i < 4
        invariant
            i <= 4,
            present.len() == 4,
            forall|j: int| 0 <= j < i ==> !present@[j],
        decreases 4 - i,
    {
        if present[i] {
            return venv_name(i);
        }
        i = i + 1;
    }
    venv_name(0)
}

/// The Python command resolved through PATH: `python` when it runs, else
/// `python3` (not on Windows), else none.
pub open spec fn chosen_python_command(python_runs: bool, python3_runs: bool, windows: bool) -> Option<
    Seq<char>,
> {
    if python_runs {
        Some("python"@)
    } else if !windows && python3_runs {
        Some("python3"@)
    } else {
        None
    }
}

/// Picks the Python command every setup step resolves through PATH.
pub fn python_command(python_runs: bool, python3_runs: bool, windows: bool) -> (r: Option<&'static str>)
    ensures
        match r {
            Some(c) => chosen_python_command(python_runs, python3_runs, windows) == Some(c@),
            None => chosen_python_command(python_runs, python3_runs, windows) is None,
        },
{
    if python_runs {
        Some("python")
    } else if !windows && python3_runs {
        Some("python3")
    } else {
        None
    }
}

/// How many directories above the running binary's directory the repository
/// root lies: the binary is built to `<repo>/tui/target/{debug|release}/`.
pub const ROOT_LEVELS_ABOVE_BINARY: usize = 3;

/// Which of the directories from the running binary's directory upwards (the
/// binary's own directory first, `binary_dirs` of them; none when the binary's
/// path is unknown) is the repository root: the one three levels up. When
/// there is no such directory the caller falls back to the working directory.
pub fn repo_root(binary_dirs: usize) -> (r: Option<usize>)
    ensures
        r == (if binary_dirs > ROOT_LEVELS_ABOVE_BINARY {
            Some(ROOT_LEVELS_ABOVE_BINARY)
        } else {
            None
        }),
{
    if binary_dirs > ROOT_LEVELS_ABOVE_BINARY {
        Some(ROOT_LEVELS_ABOVE_BINARY)
    } else {
        None
    }
}

/// The repository root, as `repo_root` finds it.
pub fn get_repo_root(binary_dirs: usize) -> (r: Option<usize>)
    ensures
        r == (if binary_dirs > ROOT_LEVELS_ABOVE_BINARY {
            Some(ROOT_LEVELS_ABOVE_BINARY)
        } else {
            None
        }),
{
    repo_root(binary_dirs)
}

/// The project interpreter below the repository root, as path components:
/// that of the first recognised venv holding one, else that of `.venv`.
pub fn python_exe(present: &Vec<bool>, windows: bool) -> (r: Vec<String>)
    requires
        present.len() == 4,
    ensures
        string_views(r@) == venv_python_path(chosen_venv(present@), windows),
{
    venv_python_rel(choose_venv(present), windows)
}

/// The file name of a GGUF export.
pub open spec fn gguf_file_name(model_path: Seq<char>, quant_type: Seq<char>) -> Seq<char> {
    export_stem(model_path) + "-"@ + quant_type + ".gguf"@
}

/// Where a GGUF conversion writes its export, as path components below the repository root.
pub fn gguf_output_path(model_path: &str, quant_type: &str) -> (r: Vec<String>)
    ensures
        string_views(r@) == seq!["exports"@, gguf_file_name(model_path@, quant_type@)],
{
    let stem = sanitize_model_name(model_path);
    let mut name = to_chars(stem.as_str());
    crate::text::append_str(&mut name, "-");
    crate::text::append_str(&mut name, quant_type);
    crate::text::append_str(&mut name, ".gguf");
    let mut r: Vec<String> = Vec::new();
    push_string(&mut r, "exports");
    let file = from_chars(&name);
    let ghost before = r@;
    r.push(file);
    assert(string_views(r@) =~= string_views(before).push(file@));
    assert(string_views(r@) =~= seq!["exports"@, gguf_file_name(model_path@, quant_type@)]);
    r
}


// ─── Command lines ─────────────────────────────────────────────

/// The arguments and extra environment of a spawned tool; the program itself
/// (the venv interpreter, or PowerShell for the Windows setup chain) is chosen by the caller.
pub struct CommandLine {
    pub args: Vec<String>,
    pub env: Vec<(String, String)>,
}

/// The views of environment assignments.
pub open spec fn env_views(v: Seq<(String, String)>) -> Seq<(Seq<char>, Seq<char>)> {
    v.map_values(|p: (String, String)| (p.0@, p.1@))
}

impl CommandLine {
    pub open spec fn args_view(&self) -> Seq<Seq<char>> {
        string_views(self.args@)
    }

    pub open spec fn env_view(&self) -> Seq<(Seq<char>, Seq<char>)> {
        env_views(self.env@)
    }
}

/// Appends the assignment `key=value` to `v`.
pub fn push_env(v: &mut Vec<(String, String)>, key: &str, value: &str)
    ensures
        env_views(final(v)@) == env_views(old(v)@).push((key@, value@)),
{
    let k = String::from_str(key);
    let x = String::from_str(value);
    v.push((k, x));
    assert(env_views(v@) =~= env_views(old(v)@).push((key@, value@)));
}

/// The environment every Python tool runs with: UTF-8, unbuffered, no warnings.
pub open spec fn tool_env() -> Seq<(Seq<char>, Seq<char>)> {
    seq![("PYTHONIOENCODING"@, "utf-8"@), ("PYTHONUNBUFFERED"@, "1"@), ("PYTHONWARNINGS"@, "ignore"@)]
}

fn tool_env_vec() -> (r: Vec<(String, String)>)
    ensures
        env_views(r@) == tool_env(),
{
    let mut r: Vec<(String, String)> = Vec::new();
    push_env(&mut r, "PYTHONIOENCODING", "utf-8");
    push_env(&mut r, "PYTHONUNBUFFERED", "1");
    push_env(&mut r, "PYTHONWARNINGS", "ignore");
    assert(env_views(r@) =~= tool_env());
    r
}

/// The decimal rendering of `n`, as a string.
pub fn usize_text(n: usize) -> (r: String)
    ensures
        r@ == decimal(n as nat),
{
    from_chars(&decimal_chars(n as u64))
}

/// `["--trial", id]` when a trial is given.
pub open spec fn trial_args(trial_id: Option<usize>) -> Seq<Seq<char>> {
    match trial_id {
        Some(t) => seq!["--trial"@, decimal(t as nat)],
        None => seq![],
    }
}

fn push_trial(v: &mut Vec<String>, trial_id: Option<usize>)
    ensures
        string_views(final(v)@) == string_views(old(v)@) + trial_args(trial_id),
{
    match trial_id {
        Some(t) => {
            push_string(v, "--trial");
            let ghost mid = v@;
            let x = usize_text(t);
            v.push(x);
            assert(string_views(v@) =~= string_views(mid).push(x@));
            assert(string_views(v@) =~= string_views(old(v)@) + trial_args(trial_id));
        },
        None => {
            assert(string_views(v@) =~= string_views(old(v)@) + trial_args(trial_id));
        },
    }
}

/// Arguments of the optimization run: `-u -m annihilate --model <model> <extra...>`.
pub open spec fn annihilate_args(model: Seq<char>, extra: Seq<Seq<char>>) -> Seq<Seq<char>> {
    seq!["-u"@, "-m"@, "annihilate"@, "--model"@, model] + extra
}

/// Environment of the optimization run.
pub open spec fn annihilate_env() -> Seq<(Seq<char>, Seq<char>)> {
    seq![
        ("PYTHONIOENCODING"@, "utf-8"@),
        ("PYTHONUNBUFFERED"@, "1"@),
        ("PYTHONWARNINGS"@, "ignore"@),
        ("PYTHONUNBUFFERED"@, "1"@),
        ("FORCE_COLOR"@, "1"@),
        ("ANNIHILATE_AUTO_CONTINUE"@, "1"@),
        ("ANNIHILATE_AUTO_SELECTS"@, "exit|exit|exit|exit"@),
    ]
}

/// The command line of `annihilate` for `model` with `extra_args` appended.
pub fn annihilate_command(model: &str, extra_args: &Vec<String>) -> (r: CommandLine)
    ensures
        r.args_view() == annihilate_args(model@, string_views(extra_args@)),
        r.env_view() == annihilate_env(),
{
    let mut args: Vec<String> = Vec::new();
    push_string(&mut args, "-u");
    push_string(&mut args, "-m");
    push_string(&mut args, "annihilate");
    push_string(&mut args, "--model");
    push_string(&mut args, model);
    let ghost head = string_views(args@);
    let mut i: usize = 0;
    while i < extra_args.len()
        invariant
            i <= extra_args.len(),
            string_views(args@) == head + string_views(extra_args@).take(i as int),
        decreases extra_args.len() - i,
    {
        let ghost before = args@;
        let a = extra_args[i].clone();
        args.push(a);
        assert(string_views(args@) =~= string_views(before).push(a@));
        assert(string_views(extra_args@).take(i + 1) =~= string_views(extra_args@).take(
            i as int,
        ).push(extra_args@[i as int]@));
        i = i + 1;
    }
    assert(string_views(extra_args@).take(extra_args.len() as int) =~= string_views(extra_args@));
    assert(head =~= seq!["-u"@, "-m"@, "annihilate"@, "--model"@, model@]);
    let mut env: Vec<(String, String)> = Vec::new();
    push_env(&mut env, "PYTHONIOENCODING", "utf-8");
    push_env(&mut env, "PYTHONUNBUFFERED", "1");
    push_env(&mut env, "PYTHONWARNINGS", "ignore");
    push_env(&mut env, "PYTHONUNBUFFERED", "1");
    push_env(&mut env, "FORCE_COLOR", "1");
    push_env(&mut env, "ANNIHILATE_AUTO_CONTINUE", "1");
    push_env(&mut env, "ANNIHILATE_AUTO_SELECTS", "exit|exit|exit|exit");
    assert(env_views(env@) =~= annihilate_env());
    CommandLine { args, env }
}

/// Arguments of the GGUF converter.
pub open spec fn gguf_converter_args(
    model_path: Seq<char>,
    quant_type: Seq<char>,
    output: Seq<char>,
    trial_id: Option<usize>,
) -> Seq<Seq<char>> {
    seq![
        "-u"@,
        "scripts/gguf_converter.py"@,
        "--model-path"@,
        model_path,
        "--quant-type"@,
        quant_type,
        "--output"@,
        output,
    ] + trial_args(trial_id)
}

/// The command line of the GGUF converter writing to `output`.
pub fn gguf_converter_command(
    model_path: &str,
    quant_type: &str,
    output: &str,
    trial_id: Option<usize>,
) -> (r: CommandLine)
    ensures
        r.args_view() == gguf_converter_args(model_path@, quant_type@, output@, trial_id),
        r.env_view() == tool_env(),
{
    let mut args: Vec<String> = Vec::new();
    push_string(&mut args, "-u");
    push_string(&mut args, "scripts/gguf_converter.py");
    push_string(&mut args, "--model-path");
    push_string(&mut args, model_path);
    push_string(&mut args, "--quant-type");
    push_string(&mut args, quant_type);
    push_string(&mut args, "--output");
    push_string(&mut args, output);
    push_trial(&mut args, trial_id);
    assert(string_views(args@) =~= gguf_converter_args(model_path@, quant_type@, output@, trial_id));
    CommandLine { args, env: tool_env_vec() }
}

/// Arguments of the merged-model export.
pub open spec fn export_args(checkpoint: Seq<char>, trial_id: usize, output_dir: Seq<char>) -> Seq<
    Seq<char>,
> {
    seq![
        "-u"@,
        "-m"@,
        "annihilate.export"@,
        "--checkpoint"@,
        checkpoint,
        "--trial-id"@,
        decimal(trial_id as nat),
        "--output"@,
        output_dir,
    ]
}

/// The command line of the merged-model export.
pub fn export_command(checkpoint_path: &str, trial_id: usize, output_dir: &str) -> (r: CommandLine)
    ensures
        r.args_view() == export_args(checkpoint_path@, trial_id, output_dir@),
        r.env_view() == tool_env(),
{
    let mut args: Vec<String> = Vec::new();
    push_string(&mut args, "-u");
    push_string(&mut args, "-m");
    push_string(&mut args, "annihilate.export");
    push_string(&mut args, "--checkpoint");
    push_string(&mut args, checkpoint_path);
    push_string(&mut args, "--trial-id");
    let ghost mid = args@;
    let t = usize_text(trial_id);
    args.push(t);
    assert(string_views(args@) =~= string_views(mid).push(t@));
    push_string(&mut args, "--output");
    push_string(&mut args, output_dir);
    assert(string_views(args@) =~= export_args(checkpoint_path@, trial_id, output_dir@));
    CommandLine { args, env: tool_env_vec() }
}

/// Arguments of the Hugging Face upload.
pub open spec fn hf_upload_args(model_name: Seq<char>, trial_id: usize, repo_id: Seq<char>) -> Seq<
    Seq<char>,
> {
    seq![
        "-u"@,
        "scripts/upload_to_hf.py"@,
        "--model-name"@,
        model_name,
        "--trial"@,
        decimal(trial_id as nat),
        "--repo"@,
        repo_id,
    ]
}

/// Environment of the Hugging Face upload: the tool environment, plus `HF_TOKEN`
/// when a non-empty token is given.
pub open spec fn hf_upload_env(hf_token: Option<Seq<char>>) -> Seq<(Seq<char>, Seq<char>)> {
    match hf_token {
        Some(t) => if t.len() > 0 {
            tool_env().push(("HF_TOKEN"@, t))
        } else {
            tool_env()
        },
        None => tool_env(),
    }
}

/// The command line of the Hugging Face upload.
pub fn hf_upload_command(model_name: &str, trial_id: usize, repo_id: &str, hf_token: Option<&str>) -> (r:
    CommandLine)
    ensures
        r.args_view() == hf_upload_args(model_name@, trial_id, repo_id@),
        r.env_view() == hf_upload_env(
            match hf_token {
                Some(t) => Some(t@),
                None => None,
            },
        ),
{
    let mut args: Vec<String> = Vec::new();
    push_string(&mut args, "-u");
    push_string(&mut args, "scripts/upload_to_hf.py");
    push_string(&mut args, "--model-name");
    push_string(&mut args, model_name);
    push_string(&mut args, "--trial");
    let ghost mid = args@;
    let t = usize_text(trial_id);
    args.push(t);
    assert(string_views(args@) =~= string_views(mid).push(t@));
    push_string(&mut args, "--repo");
    push_string(&mut args, repo_id);
    assert(string_views(args@) =~= hf_upload_args(model_name@, trial_id, repo_id@));
    let mut env = tool_env_vec();
    match hf_token {
        Some(token) => {
            if !token.is_empty() {
                push_env(&mut env, "HF_TOKEN", token);
            }
        },
        None => {},
    }
    CommandLine { args, env }
}

/// Arguments of a script that takes the model name and an optional trial.
pub open spec fn model_script_args(script: Seq<char>, model_name: Seq<char>, trial_id: Option<usize>) -> Seq<
    Seq<char>,
> {
    seq!["-u"@, script, model_name] + trial_args(trial_id)
}

fn model_script_command(script: &str, model_name: &str, trial_id: Option<usize>) -> (r: CommandLine)
    ensures
        r.args_view() == model_script_args(script@, model_name@, trial_id),
        r.env_view() == tool_env(),
{
    let mut args: Vec<String> = Vec::new();
    push_string(&mut args, "-u");
    push_string(&mut args, script);
    push_string(&mut args, model_name);
    push_trial(&mut args, trial_id);
    assert(string_views(args@) =~= model_script_args(script@, model_name@, trial_id));
    CommandLine { args, env: tool_env_vec() }
}

/// The command line of the chat server.
pub fn chat_server_command(model_name: &str, trial_id: Option<usize>) -> (r: CommandLine)
    ensures
        r.args_view() == model_script_args("scripts/chat_server.py"@, model_name@, trial_id),
        r.env_view() == tool_env(),
{
    model_script_command("scripts/chat_server.py", model_name, trial_id)
}

/// The command line of the benchmark runner.
pub fn benchmark_command(model_name: &str, trial_id: Option<usize>) -> (r: CommandLine)
    ensures
        r.args_view() == model_script_args("scripts/run_benchmarks.py"@, model_name@, trial_id),
        r.env_view() == tool_env(),
{
    model_script_command("scripts/run_benchmarks.py", model_name, trial_id)
}


/// The PowerShell chain that creates a venv when none exists and runs the
/// environment check with the venv's interpreter; the GPU flag is appended.
pub open spec fn powershell_setup_prefix() -> Seq<char> {
    "if (-not (Test-Path '.venv') -and -not (Test-Path 'annihilation-env') -and -not (Test-Path 'venv') -and -not (Test-Path 'env')) { Write-Output 'First run detected: Creating annihilation-env virtual environment... (NOTE: Initial setup and PyTorch extraction can take 15-20 minutes)'; python -m venv annihilation-env; Write-Output 'Virtual environment created successfully.' }; $python = if (Test-Path 'annihilation-env') { '.\\annihilation-env\\Scripts\\python.exe' } elseif (Test-Path '.venv') { '.\\.venv\\Scripts\\python.exe' } elseif (Test-Path 'venv') { '.\\venv\\Scripts\\python.exe' } else { '.\\env\\Scripts\\python.exe' }; & $python -u verify_env.py "@
}

/// The environment of the setup check.
pub open spec fn setup_env() -> Seq<(Seq<char>, Seq<char>)> {
    seq![("PYTHONIOENCODING"@, "utf-8"@), ("PYTHONUNBUFFERED"@, "1"@), ("FORCE_COLOR"@, "1"@)]
}

/// Arguments of the environment check. On Windows they go to `powershell`;
/// elsewhere to the venv interpreter.
pub open spec fn setup_args(windows: bool, is_gpu: bool) -> Seq<Seq<char>> {
    if windows {
        seq!["-Command"@, powershell_setup_prefix() + (if is_gpu {
            "--gpu"@
        } else {
            seq![]
        })]
    } else if is_gpu {
        seq!["-u"@, "verify_env.py"@, "--gpu"@]
    } else {
        seq!["-u"@, "verify_env.py"@]
    }
}

/// The command line of the environment check.
pub fn setup_command(windows: bool, is_gpu: bool) -> (r: CommandLine)
    ensures
        r.args_view() == setup_args(windows, is_gpu),
        r.env_view() == setup_env(),
{
    let mut args: Vec<String> = Vec::new();
    if windows {
        push_string(&mut args, "-Command");
        let mut script = to_chars("if (-not (Test-Path '.venv') -and -not (Test-Path 'annihilation-env') -and -not (Test-Path 'venv') -and -not (Test-Path 'env')) { Write-Output 'First run detected: Creating annihilation-env virtual environment... (NOTE: Initial setup and PyTorch extraction can take 15-20 minutes)'; python -m venv annihilation-env; Write-Output 'Virtual environment created successfully.' }; $python = if (Test-Path 'annihilation-env') { '.\\annihilation-env\\Scripts\\python.exe' } elseif (Test-Path '.venv') { '.\\.venv\\Scripts\\python.exe' } elseif (Test-Path 'venv') { '.\\venv\\Scripts\\python.exe' } else { '.\\env\\Scripts\\python.exe' }; & $python -u verify_env.py ");
        if is_gpu {
            crate::text::append_str(&mut script, "--gpu");
        } else {
            assert(script@ =~= script@ + seq![]);
        }
        let ghost mid = args@;
        let sc = from_chars(&script);
        args.push(sc);
        assert(string_views(args@) =~= string_views(mid).push(sc@));
    } else {
        push_string(&mut args, "-u");
        push_string(&mut args, "verify_env.py");
        if is_gpu {
            push_string(&mut args, "--gpu");
        }
    }
    assert(string_views(args@) =~= setup_args(windows, is_gpu));
    let mut env: Vec<(String, String)> = Vec::new();
    push_env(&mut env, "PYTHONIOENCODING", "utf-8");
    push_env(&mut env, "PYTHONUNBUFFERED", "1");
    push_env(&mut env, "FORCE_COLOR", "1");
    assert(env_views(env@) =~= setup_env());
    CommandLine { args, env }
}

/// Arguments that create the `annihilation-env` venv with the PATH Python.
pub fn venv_create_args() -> (r: Vec<String>)
    ensures
        string_views(r@) == seq!["-m"@, "venv"@, "annihilation-env"@],
{
    let mut r: Vec<String> = Vec::new();
    push_string(&mut r, "-m");
    push_string(&mut r, "venv");
    push_string(&mut r, "annihilation-env");
    assert(string_views(r@) =~= seq!["-m"@, "venv"@, "annihilation-env"@]);
    r
}

// ─── First run ─────────────────────────────────────────────────

/// Whether the environment check must first create `annihilation-env`: none
/// of the recognised venvs holds an interpreter.
pub fn needs_venv(present: &Vec<bool>) -> (r: bool)
    ensures
        r == forall|i: int| 0 <= i < present@.len() ==> !present@[i],
{
    let mut i: usize = 0;
    while i < present.len()
        invariant
            i <= present.len(),
            forall|j: int| 0 <= j < i ==> !present@[j],
        decreases present.len() - i,
    {
        if present[i] {
            return false;
        }
        i = i + 1;
    }
    true
}

/// The note shown before `annihilation-env` is created.
pub open spec fn first_run_text() -> Seq<char> {
    "First run detected: Creating annihilation-env virtual environment... (NOTE: Initial setup and PyTorch extraction can take 15-20 minutes)"@
}

/// The message announcing that `annihilation-env` is being created.
pub fn first_run_note() -> (r: SubprocessMessage)
    ensures
        r@ == MessageView::Event(EventView::Status(first_run_text())),
{
    SubprocessMessage::Event(
        ParsedEvent::Status(
            String::from_str(
                "First run detected: Creating annihilation-env virtual environment... (NOTE: Initial setup and PyTorch extraction can take 15-20 minutes)",
            ),
        ),
    )
}

/// How creating `annihilation-env` went.
pub enum VenvCreation {
    /// The venv command succeeded.
    Created,
    /// It ran and failed, with its exit status as displayed.
    Failed(String),
    /// It could not be started, with the reason.
    NotStarted(String),
}

/// The message reporting how creating `annihilation-env` went: a status note
/// on success, otherwise the error that ends the setup.
pub fn venv_creation_message(outcome: VenvCreation) -> (r: SubprocessMessage)
    ensures
        r@ == (match outcome {
            VenvCreation::Created => MessageView::Event(
                EventView::Status("Virtual environment created successfully."@),
            ),
            VenvCreation::Failed(status) => MessageView::SpawnError(
                "Setup error: creating annihilation-env failed with "@ + status@,
            ),
            VenvCreation::NotStarted(e) => MessageView::SpawnError(
                "Setup error: creating annihilation-env failed: "@ + e@,
            ),
        }),
{
    match outcome {
        VenvCreation::Created => SubprocessMessage::Event(
            ParsedEvent::Status(String::from_str("Virtual environment created successfully.")),
        ),
        VenvCreation::Failed(status) => {
            let mut v = to_chars("Setup error: creating annihilation-env failed with ");
            crate::text::append_str(&mut v, status.as_str());
            SubprocessMessage::SpawnError(from_chars(&v))
        },
        VenvCreation::NotStarted(e) => {
            let mut v = to_chars("Setup error: creating annihilation-env failed: ");
            crate::text::append_str(&mut v, e.as_str());
            SubprocessMessage::SpawnError(from_chars(&v))
        },
    }
}

} // verus!
