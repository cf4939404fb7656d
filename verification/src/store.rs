//! The small files the front-end keeps beside the project: the `.env` that
//! holds the Hugging Face token, the list of recently used models, and the
//! model name recorded in a checkpoint journal.

use vstd::prelude::*;

use crate::json::{json_text_at, text_at};
use crate::layout::{lines_of, strip_cr, text_lines};
use crate::text::{
    append_chars, append_str, from_chars, is_white_space, lemma_pieces_nonempty, pieces,
    pieces_from, split_on, to_chars, trim, trim_chars, trim_end, trim_start, views,
};

verus! {

broadcast use vstd::string::group_string_axioms;

// ─── Joining ───────────────────────────────────────────────────

/// The lines `ls` joined with `sep` between them (`[String]::join`).
pub open spec fn joined(ls: Seq<Seq<char>>, sep: char) -> Seq<char>
    decreases ls.len(),
{
    if ls.len() == 0 {
        seq![]
    } else if ls.len() == 1 {
        ls[0]
    } else {
        joined(ls.drop_last(), sep).push(sep) + ls.last()
    }
}

/// `ls` joined with `sep`, as characters.
pub fn join_chars(ls: &Vec<Vec<char>>, sep: char) -> (r: Vec<char>)
    ensures
        r@ == joined(views(ls@), sep),
{
    let mut r: Vec<char> = Vec::new();
    let mut i: usize = 0;
    while i < ls.len()
        invariant
            i <= ls.len(),
            r@ == joined(views(ls@).take(i as int), sep),
        decreases ls.len() - i,
    {
        proof {
            let t = views(ls@).take(i + 1);
            assert(t.drop_last() =~= views(ls@).take(i as int));
            assert(t.last() == ls@[i as int]@);
        }
        if i > 0 {
            r.push(sep);
        }
        append_chars(&mut r, &ls[i]);
        proof {
            if i == 0 {
                assert(views(ls@).take(1) =~= seq![ls@[0]@]);
                assert(r@ =~= ls@[0]@);
            }
        }
        i = i + 1;
    }
    assert(views(ls@).take(i as int) =~= views(ls@));
    r
}

/// Appends `s`, as characters, to the lines `ls`.
fn push_line(ls: &mut Vec<Vec<char>>, s: Vec<char>)
    ensures
        views(final(ls)@) == views(old(ls)@).push(s@),
        final(ls)@.len() == old(ls)@.len() + 1,
{
    ls.push(s);
    assert(views(ls@) =~= views(old(ls)@).push(s@));
}

// ─── Recent models ─────────────────────────────────────────────

/// The non-empty lines among `ls`, in order.
pub open spec fn nonempty(ls: Seq<Seq<char>>) -> Seq<Seq<char>>
    decreases ls.len(),
{
    if ls.len() == 0 {
        ls
    } else if ls.last().len() > 0 {
        nonempty(ls.drop_last()).push(ls.last())
    } else {
        nonempty(ls.drop_last())
    }
}

/// The models listed in the recent-models file `content`: its non-empty lines.
pub open spec fn recent_list(content: Seq<char>) -> Seq<Seq<char>> {
    nonempty(text_lines(content))
}

/// `ls` without the lines equal to `m`, in order.
pub open spec fn without(ls: Seq<Seq<char>>, m: Seq<char>) -> Seq<Seq<char>>
    decreases ls.len(),
{
    if ls.len() == 0 {
        ls
    } else if ls.last() != m {
        without(ls.drop_last(), m).push(ls.last())
    } else {
        without(ls.drop_last(), m)
    }
}

/// The most recent models kept.
pub const RECENT_KEPT: usize = 5;

/// The recent models after `model` was used: `model` first, then the others
/// in their order, without repeats of it, at most five in all.
pub open spec fn recent_models_after(content: Seq<char>, model: Seq<char>) -> Seq<Seq<char>> {
    let all = seq![model] + without(recent_list(content), model);
    all.take(if all.len() < 5 { all.len() as int } else { 5 })
}

/// The recent-models file after `model` was used: the models one per line.
pub open spec fn recent_after_use(content: Seq<char>, model: Seq<char>) -> Seq<char> {
    joined(recent_models_after(content, model), '\n')
}

fn nonempty_lines(ls: &Vec<Vec<char>>) -> (r: Vec<Vec<char>>)
    ensures
        views(r@) == nonempty(views(ls@)),
{
    let mut r: Vec<Vec<char>> = Vec::new();
    let mut i: usize = 0;
    while i < ls.len()
        invariant
            i <= ls.len(),
            views(r@) == nonempty(views(ls@).take(i as int)),
        decreases ls.len() - i,
    {
        proof {
            let t = views(ls@).take(i + 1);
            assert(t.drop_last() =~= views(ls@).take(i as int));
            assert(t.last() == ls@[i as int]@);
        }
        if ls[i].len() > 0 {
            push_line(&mut r, ls[i].clone());
        }
        i = i + 1;
    }
    assert(views(ls@).take(i as int) =~= views(ls@));
    r
}

fn lines_without(ls: &Vec<Vec<char>>, m: &Vec<char>) -> (r: Vec<Vec<char>>)
    ensures
        views(r@) == without(views(ls@), m@),
{
    let mut r: Vec<Vec<char>> = Vec::new();
    let mut i: usize = 0;
    while i < ls.len()
        invariant
            i <= ls.len(),
            views(r@) == without(views(ls@).take(i as int), m@),
        decreases ls.len() - i,
    {
        proof {
            let t = views(ls@).take(i + 1);
            assert(t.drop_last() =~= views(ls@).take(i as int));
            assert(t.last() == ls@[i as int]@);
        }
        if !crate::text::chars_equal(&ls[i], m) {
            push_line(&mut r, ls[i].clone());
        }
        i = i + 1;
    }
    assert(views(ls@).take(i as int) =~= views(ls@));
    r
}

fn strings_of(ls: &Vec<Vec<char>>) -> (r: Vec<String>)
    ensures
        r@.len() == ls@.len(),
        forall|i: int| 0 <= i < ls@.len() ==> #[trigger] r@[i]@ == ls@[i]@,
{
    let mut r: Vec<String> = Vec::new();
    let mut i: usize = 0;
    while i < ls.len()
        invariant
            i <= ls.len(),
            r@.len() == i,
            forall|j: int| 0 <= j < i ==> #[trigger] r@[j]@ == ls@[j]@,
        decreases ls.len() - i,
    {
        r.push(from_chars(&ls[i]));
        i = i + 1;
    }
    r
}

/// The models listed in the recent-models file `content`.
pub fn recent_models(content: &str) -> (r: Vec<String>)
    ensures
        r@.len() == recent_list(content@).len(),
        forall|i: int| 0 <= i < r@.len() ==> #[trigger] r@[i]@ == recent_list(content@)[i],
{
    let ls = nonempty_lines(&lines_of(&to_chars(content)));
    let r = strings_of(&ls);
    proof {
        assert forall|i: int| 0 <= i < r@.len() implies #[trigger] r@[i]@ == recent_list(
            content@,
        )[i] by {
            assert(views(ls@)[i] == ls@[i]@);
        }
    }
    r
}

/// The recent-models file after `model` was used.
pub fn recent_models_after_use(content: &str, model: &str) -> (r: String)
    ensures
        r@ == recent_after_use(content@, model@),
{
    let m = to_chars(model);
    let others = lines_without(&nonempty_lines(&lines_of(&to_chars(content))), &m);
    let mut all: Vec<Vec<char>> = Vec::new();
    push_line(&mut all, m.clone());
    let mut i: usize = 0;
    while i < others.len() && all.len() < RECENT_KEPT
        invariant
            i <= others.len(),
            all@.len() == i + 1,
            i + 1 <= RECENT_KEPT,
            views(all@) == (seq![m@] + views(others@)).take(i + 1),
        decreases others.len() - i,
    {
        proof {
            assert((seq![m@] + views(others@)).take(i + 2) =~= (seq![m@] + views(others@)).take(
                i + 1,
            ).push(others@[i as int]@));
        }
        push_line(&mut all, others[i].clone());
        i = i + 1;
    }
    proof {
        let whole = seq![m@] + views(others@);
        let k = if whole.len() < 5 { whole.len() as int } else { 5 };
        assert(views(all@) =~= whole.take(k));
    }
    from_chars(&join_chars(&all, '\n'))
}

proof fn lemma_without_excludes(ls: Seq<Seq<char>>, m: Seq<char>)
    ensures
        forall|i: int| 0 <= i < without(ls, m).len() ==> without(ls, m)[i] != m,
    decreases ls.len(),
{
    if ls.len() > 0 {
        lemma_without_excludes(ls.drop_last(), m);
        let w = without(ls.drop_last(), m);
        if ls.last() != m {
            assert forall|i: int| 0 <= i < w.push(ls.last()).len() implies w.push(ls.last())[i] != m by {
                if i < w.len() {
                    assert(w.push(ls.last())[i] == w[i]);
                }
            }
        }
    }
}

/// After a model is used it heads the recent models, which hold at most
/// five and name it only once.
pub proof fn used_model_heads_recent_models(content: Seq<char>, model: Seq<char>)
    ensures
        recent_models_after(content, model).len() >= 1,
        recent_models_after(content, model).len() <= 5,
        recent_models_after(content, model)[0] == model,
        forall|i: int|
            1 <= i < recent_models_after(content, model).len() ==> recent_models_after(
                content,
                model,
            )[i] != model,
{
    let rest = without(recent_list(content), model);
    lemma_without_excludes(recent_list(content), model);
    let all = seq![model] + rest;
    assert forall|i: int| 1 <= i < all.len() implies all[i] != model by {
        assert(all[i] == rest[i - 1]);
    }
}

// ─── The token in `.env` ───────────────────────────────────────

/// The key of an `.env` line: the text before its first `=`, trimmed.
pub open spec fn env_key(line: Seq<char>) -> Seq<char> {
    trim(pieces(line, '=')[0])
}

/// `ls` without the lines that set `HF_TOKEN`.
pub open spec fn without_token(ls: Seq<Seq<char>>) -> Seq<Seq<char>>
    decreases ls.len(),
{
    if ls.len() == 0 {
        ls
    } else if env_key(ls.last()) != "HF_TOKEN"@ {
        without_token(ls.drop_last()).push(ls.last())
    } else {
        without_token(ls.drop_last())
    }
}

/// `ls` without the blank lines at its end.
pub open spec fn without_blank_tail(ls: Seq<Seq<char>>) -> Seq<Seq<char>>
    decreases ls.len(),
{
    if ls.len() > 0 && trim(ls.last()).len() == 0 {
        without_blank_tail(ls.drop_last())
    } else {
        ls
    }
}

/// The `.env` text after the token was set to `token` (or cleared): every
/// other entry kept in order, the token last, no blank lines at the end, and
/// a final newline when anything is left.
pub open spec fn env_with_token(existing: Seq<char>, token: Option<Seq<char>>) -> Seq<char> {
    let kept = without_token(text_lines(existing));
    let lines = match token {
        Some(t) => kept.push("HF_TOKEN="@ + t),
        None => kept,
    };
    let body = joined(without_blank_tail(lines), '\n');
    if body.len() == 0 {
        body
    } else {
        body.push('\n')
    }
}

/// Whether a `.env` line sets the token.
fn sets_token(line: &Vec<char>) -> (r: bool)
    ensures
        r == (env_key(line@) == "HF_TOKEN"@),
{
    let parts = split_on(line, '=');
    proof {
        lemma_pieces_nonempty(line@, '=', seq![]);
        assert(views(parts@)[0] == parts@[0]@);
    }
    let key = trim_chars(&parts[0]);
    let name = to_chars("HF_TOKEN");
    crate::text::chars_equal(&key, &name)
}

/// The `.env` text after the Hugging Face token was set to `token`, or
/// cleared when `token` is `None`; `existing` is the file as it was (empty
/// when there was none).
pub fn env_file_with_token(existing: &str, token: Option<&str>) -> (r: String)
    ensures
        r@ == env_with_token(
            existing@,
            match token {
                Some(t) => Some(t@),
                None => None,
            },
        ),
{
    let ls = lines_of(&to_chars(existing));
    let mut kept: Vec<Vec<char>> = Vec::new();
    let mut i: usize = 0;
    while i < ls.len()
        invariant
            i <= ls.len(),
            views(kept@) == without_token(views(ls@).take(i as int)),
        decreases ls.len() - i,
    {
        proof {
            let t = views(ls@).take(i + 1);
            assert(t.drop_last() =~= views(ls@).take(i as int));
            assert(t.last() == ls@[i as int]@);
        }
        if !sets_token(&ls[i]) {
            push_line(&mut kept, ls[i].clone());
        }
        i = i + 1;
    }
    assert(views(ls@).take(i as int) =~= views(ls@));
    match token {
        Some(t) => {
            let mut entry = to_chars("HF_TOKEN=");
            append_str(&mut entry, t);
            push_line(&mut kept, entry);
        },
        None => {},
    }
    let ghost lines = views(kept@);
    let mut n = kept.len();
    assert(lines.take(n as int) =~= lines);
    while n > 0 && trim_chars(&kept[n - 1]).len() == 0
        invariant
            n <= kept.len(),
            lines == views(kept@),
            without_blank_tail(lines) == without_blank_tail(lines.take(n as int)),
        decreases n,
    {
        proof {
            let t = lines.take(n as int);
            assert(t.drop_last() =~= lines.take(n - 1));
            assert(t.last() == kept@[n - 1]@);
        }
        n = n - 1;
    }
    proof {
        let t = lines.take(n as int);
        if n > 0 {
            assert(t.last() == kept@[n - 1]@);
        }
        assert(without_blank_tail(t) == t);
    }
    kept.truncate(n);
    assert(views(kept@) =~= lines.take(n as int));
    let mut body = join_chars(&kept, '\n');
    if body.len() > 0 {
        body.push('\n');
    }
    from_chars(&body)
}

proof fn lemma_pieces_skip_plain(x: Seq<char>, y: Seq<char>, sep: char, cur: Seq<char>)
    requires
        !x.contains(sep),
    ensures
        pieces_from(x + y, sep, cur) == pieces_from(y, sep, cur + x),
    decreases x.len(),
{
    if x.len() > 0 {
        assert(!x.drop_first().contains(sep)) by {
            if x.drop_first().contains(sep) {
                let k = choose|k: int| 0 <= k < x.drop_first().len() && x.drop_first()[k] == sep;
                assert(x[k + 1] == sep);
            }
        }
        assert(x[0] != sep) by {
            assert(x[0] == x[0]);
            if x[0] == sep {
                assert(x.contains(sep));
            }
        }
        assert((x + y).drop_first() =~= x.drop_first() + y);
        assert((x + y)[0] == x[0]);
        lemma_pieces_skip_plain(x.drop_first(), y, sep, cur.push(x[0]));
        assert(cur.push(x[0]) + x.drop_first() =~= cur + x);
    } else {
        assert(x + y =~= y);
        assert(cur + x =~= cur);
    }
}

proof fn lemma_joined_pieces(ls: Seq<Seq<char>>, y: Seq<char>, sep: char)
    requires
        ls.len() >= 1,
        forall|i: int| 0 <= i < ls.len() ==> !(#[trigger] ls[i]).contains(sep),
    ensures
        pieces_from(joined(ls, sep) + y, sep, seq![]) == ls.drop_last() + pieces_from(
            y,
            sep,
            ls.last(),
        ),
    decreases ls.len(),
{
    if ls.len() == 1 {
        lemma_pieces_skip_plain(ls[0], y, sep, seq![]);
        assert(Seq::<char>::empty() + ls[0] =~= ls[0]);
        assert(ls.drop_last() =~= Seq::<Seq<char>>::empty());
    } else {
        let rest = ls.drop_last();
        let last = ls.last();
        assert(!last.contains(sep)) by {
            assert(ls[ls.len() - 1] == last);
        }
        let tail = seq![sep] + (last + y);
        assert(joined(ls, sep) + y =~= joined(rest, sep) + tail);
        lemma_joined_pieces(rest, tail, sep);
        assert(tail.drop_first() =~= last + y);
        assert(tail[0] == sep);
        lemma_pieces_skip_plain(last, y, sep, seq![]);
        assert(Seq::<char>::empty() + last =~= last);
        assert(pieces_from(tail, sep, rest.last()) == seq![rest.last()] + pieces_from(y, sep, last));
        assert(rest.drop_last() + (seq![rest.last()] + pieces_from(y, sep, last)) =~= rest
            + pieces_from(y, sep, last));
    }
}

proof fn lemma_pieces_plain(s: Seq<char>, sep: char, cur: Seq<char>)
    requires
        !cur.contains(sep),
    ensures
        forall|i: int|
            0 <= i < pieces_from(s, sep, cur).len() ==> !(#[trigger] pieces_from(s, sep, cur)[i]).contains(
                sep,
            ),
    decreases s.len(),
{
    if s.len() > 0 {
        if s[0] == sep {
            lemma_pieces_plain(s.drop_first(), sep, seq![]);
            let rest = pieces_from(s.drop_first(), sep, seq![]);
            assert(pieces_from(s, sep, cur) == seq![cur] + rest);
            assert forall|i: int| 0 <= i < (seq![cur] + rest).len() implies !(#[trigger] (seq![cur]
                + rest)[i]).contains(sep) by {
                if i > 0 {
                    assert((seq![cur] + rest)[i] == rest[i - 1]);
                }
            }
        } else {
            assert(!cur.push(s[0]).contains(sep)) by {
                if cur.push(s[0]).contains(sep) {
                    let k = choose|k: int| 0 <= k < cur.push(s[0]).len() && cur.push(s[0])[k] == sep;
                    if k < cur.len() {
                        assert(cur[k] == sep);
                    }
                }
            }
            lemma_pieces_plain(s.drop_first(), sep, cur.push(s[0]));
            assert(pieces_from(s, sep, cur) == pieces_from(s.drop_first(), sep, cur.push(s[0])));
        }
    } else {
        assert(pieces_from(s, sep, cur) == seq![cur]);
        assert(seq![cur][0] == cur);
    }
}

proof fn lemma_lines_plain(s: Seq<char>)
    ensures
        forall|i: int| 0 <= i < text_lines(s).len() ==> !(#[trigger] text_lines(s)[i]).contains('\n'),
{
    let ps = pieces(s, '\n');
    lemma_pieces_plain(s, '\n', seq![]);
    lemma_pieces_nonempty(s, '\n', seq![]);
    let body = ps.drop_last().map_values(|p: Seq<char>| strip_cr(p));
    assert forall|i: int| 0 <= i < body.len() implies !(#[trigger] body[i]).contains('\n') by {
        let p = ps[i];
        assert(!p.contains('\n'));
        if strip_cr(p).contains('\n') {
            let k = choose|k: int| 0 <= k < strip_cr(p).len() && strip_cr(p)[k] == '\n';
            assert(p[k] == '\n');
        }
    }
    if ps.last().len() != 0 {
        assert forall|i: int| 0 <= i < body.push(ps.last()).len() implies !(#[trigger] body.push(
            ps.last(),
        )[i]).contains('\n') by {
            if i < body.len() {
                assert(body.push(ps.last())[i] == body[i]);
            } else {
                assert(ps[ps.len() - 1] == ps.last());
            }
        }
    }
}

proof fn lemma_without_token_sub(ls: Seq<Seq<char>>)
    ensures
        forall|i: int|
            0 <= i < without_token(ls).len() ==> exists|j: int|
                0 <= j < ls.len() && ls[j] == #[trigger] without_token(ls)[i],
    decreases ls.len(),
{
    if ls.len() > 0 {
        lemma_without_token_sub(ls.drop_last());
        let w = without_token(ls.drop_last());
        assert forall|i: int| 0 <= i < without_token(ls).len() implies exists|j: int|
            0 <= j < ls.len() && ls[j] == #[trigger] without_token(ls)[i] by {
            if i < w.len() {
                assert(without_token(ls)[i] == w[i]);
                let j = choose|j: int| 0 <= j < ls.drop_last().len() && ls.drop_last()[j] == w[i];
                assert(ls[j] == w[i]);
            } else {
                assert(without_token(ls)[i] == ls[ls.len() - 1]);
            }
        }
    }
}

proof fn lemma_trim_keeps_word(s: Seq<char>)
    requires
        s.len() > 0,
        !is_white_space(s[0]),
    ensures
        trim(s).len() > 0,
    decreases s.len(),
{
    assert(trim_start(s) == s);
    lemma_trim_end_keeps_first(s);
}

proof fn lemma_trim_end_keeps_first(s: Seq<char>)
    requires
        s.len() > 0,
        !is_white_space(s[0]),
    ensures
        trim_end(s).len() > 0,
    decreases s.len(),
{
    if is_white_space(s.last()) {
        assert(s.len() >= 2);
        assert(s.drop_last()[0] == s[0]);
        lemma_trim_end_keeps_first(s.drop_last());
    }
}

proof fn lemma_joined_nonempty(ls: Seq<Seq<char>>, sep: char)
    requires
        ls.len() >= 1,
        ls.last().len() > 0,
    ensures
        joined(ls, sep).len() > 0,
{
    if ls.len() > 1 {
        assert(joined(ls, sep) == joined(ls.drop_last(), sep).push(sep) + ls.last());
    }
}

proof fn lemma_blank_tail_sub(ls: Seq<Seq<char>>)
    ensures
        without_blank_tail(ls).len() <= ls.len(),
        forall|i: int| 0 <= i < without_blank_tail(ls).len() ==> #[trigger] without_blank_tail(ls)[i] == ls[i],
        without_blank_tail(ls).len() > 0 ==> trim(without_blank_tail(ls).last()).len() > 0,
    decreases ls.len(),
{
    if ls.len() > 0 && trim(ls.last()).len() == 0 {
        lemma_blank_tail_sub(ls.drop_last());
    }
}

/// Saving the token to `.env` keeps every other entry, in order: read back
/// line by line, the file holds the entries that do not set `HF_TOKEN` and
/// then the new token; clearing it leaves those entries alone, without blank
/// lines at the end. Lines that end in a carriage return after a `\r\n` was
/// removed (and a token that does) are left out: reading them back strips it.
pub proof fn saved_env_keeps_other_entries(existing: Seq<char>, token: Option<Seq<char>>)
    requires
        forall|i: int|
            0 <= i < without_token(text_lines(existing)).len() ==> {
                let l = #[trigger] without_token(text_lines(existing))[i];
                l.len() == 0 || l.last() != '\r'
            },
        token matches Some(t) ==> !t.contains('\n') && (t.len() == 0 || t.last() != '\r'),
    ensures
        text_lines(env_with_token(existing, token)) == without_blank_tail(
            match token {
                Some(t) => without_token(text_lines(existing)).push("HF_TOKEN="@ + t),
                None => without_token(text_lines(existing)),
            },
        ),
        token matches Some(t) ==> text_lines(env_with_token(existing, token)) == without_token(
            text_lines(existing),
        ).push("HF_TOKEN="@ + t),
{
    let kept = without_token(text_lines(existing));
    let lines = match token {
        Some(t) => kept.push("HF_TOKEN="@ + t),
        None => kept,
    };
    lemma_lines_plain(existing);
    lemma_without_token_sub(text_lines(existing));
    assert forall|i: int| 0 <= i < lines.len() implies !(#[trigger] lines[i]).contains('\n') && (
    lines[i].len() == 0 || lines[i].last() != '\r') by {
        if i < kept.len() {
            assert(lines[i] == kept[i]);
            let j = choose|j: int|
                0 <= j < text_lines(existing).len() && text_lines(existing)[j] == kept[i];
            assert(!text_lines(existing)[j].contains('\n'));
        } else {
            let t = token->0;
            let line = "HF_TOKEN="@ + t;
            reveal_strlit("HF_TOKEN=");
            assert(lines[i] == line);
            if line.contains('\n') {
                let k = choose|k: int| 0 <= k < line.len() && line[k] == '\n';
                if k >= 9 {
                    assert(t[k - 9] == '\n');
                    assert(t.contains('\n'));
                }
            }
            if t.len() > 0 {
                assert(line.last() == t.last());
            }
        }
    }
    if token is Some {
        let t = token->0;
        let line = "HF_TOKEN="@ + t;
        reveal_strlit("HF_TOKEN=");
        assert(line[0] == 'H');
        lemma_trim_keeps_word(line);
        assert(lines.last() == line);
        assert(without_blank_tail(lines) == lines);
    }
    let nb = without_blank_tail(lines);
    lemma_blank_tail_sub(lines);
    let body = joined(nb, '\n');
    if nb.len() == 0 {
        assert(body.len() == 0);
        reveal_with_fuel(pieces_from, 2);
        assert(pieces(body, '\n') =~= seq![Seq::<char>::empty()]);
        assert(text_lines(body) =~= nb);
    } else {
        assert(nb.last() == lines[nb.len() - 1]);
        if nb.last().len() == 0 {
            assert(trim(nb.last()).len() == 0);
        }
        lemma_joined_nonempty(nb, '\n');
        assert forall|i: int| 0 <= i < nb.len() implies !(#[trigger] nb[i]).contains('\n') by {
            assert(nb[i] == lines[i]);
        }
        lemma_joined_pieces(nb, seq!['\n'], '\n');
        reveal_with_fuel(pieces_from, 2);
        let tail = pieces_from(seq!['\n'], '\n', nb.last());
        assert(seq!['\n'].drop_first() =~= Seq::<char>::empty());
        assert(tail =~= seq![nb.last(), Seq::<char>::empty()]);
        let ps = pieces(body.push('\n'), '\n');
        assert(body.push('\n') =~= body + seq!['\n']);
        assert(ps =~= nb.push(Seq::<char>::empty()));
        assert(ps.drop_last() =~= nb);
        assert forall|i: int| 0 <= i < nb.len() implies strip_cr(nb[i]) == nb[i] by {
            assert(nb[i] == lines[i]);
        }
        assert(ps.drop_last().map_values(|p: Seq<char>| strip_cr(p)) =~= nb);
    }
}

// ─── Checkpoint journals ───────────────────────────────────────

/// The model a checkpoint journal line names: the `model` of the settings
/// that the optimizer stores, as a JSON string, under `user_attr.settings`,
/// when it is there and not empty.
pub open spec fn journal_model(line: Seq<char>) -> Option<Seq<char>> {
    match json_text_at(line, seq!["user_attr"@, "settings"@]) {
        Some(settings) => match json_text_at(settings, seq!["model"@]) {
            Some(m) => if m.len() > 0 {
                Some(m)
            } else {
                None
            },
            None => None,
        },
        None => None,
    }
}

/// The model named by one line of a checkpoint journal, if it names one.
pub fn model_in_checkpoint_line(line: &str) -> (r: Option<String>)
    ensures
        r matches Some(m) ==> journal_model(line@) == Some(m@),
        r is None ==> journal_model(line@) is None,
{
    let outer = ["user_attr", "settings"];
    let inner = ["model"];
    proof {
        assert(crate::json::str_views(outer@) =~= seq!["user_attr"@, "settings"@]);
        assert(crate::json::str_views(inner@) =~= seq!["model"@]);
    }
    match text_at(line, &outer) {
        Some(settings) => match text_at(settings.as_str(), &inner) {
            Some(m) => if m.as_str().is_empty() {
                None
            } else {
                Some(m)
            },
            None => None,
        },
        None => None,
    }
}

/// `s` with each `--` replaced by `/`, left to right (`str::replace`).
pub open spec fn dashes_to_slashes(s: Seq<char>) -> Seq<char>
    decreases s.len(),
{
    if s.len() >= 2 && s[0] == '-' && s[1] == '-' {
        seq!['/'] + dashes_to_slashes(s.skip(2))
    } else if s.len() > 0 {
        seq![s[0]] + dashes_to_slashes(s.drop_first())
    } else {
        s
    }
}

/// A best-effort model name for a checkpoint whose journal names none: the
/// file's stem with each `--` turned back into `/`.
pub fn checkpoint_fallback_name(stem: &str) -> (r: String)
    ensures
        r@ == dashes_to_slashes(stem@),
{
    let s = to_chars(stem);
    let mut out: Vec<char> = Vec::new();
    let mut i: usize = 0;
    proof {
        assert(s@.skip(0) =~= s@);
    }
    while i < s.len()
        invariant
            i <= s.len(),
            dashes_to_slashes(s@) == out@ + dashes_to_slashes(s@.skip(i as int)),
        decreases s.len() - i,
    {
        let ghost rest = s@.skip(i as int);
        let ghost before = out@;
        if i + 1 < s.len() && s[i] == '-' && s[i + 1] == '-' {
            assert(rest.skip(2) =~= s@.skip(i + 2));
            out.push('/');
            assert(out@ + dashes_to_slashes(s@.skip(i + 2)) =~= before + (seq!['/']
                + dashes_to_slashes(rest.skip(2))));
            i = i + 2;
        } else {
            assert(rest.drop_first() =~= s@.skip(i + 1));
            assert(rest[0] == s@[i as int]);
            out.push(s[i]);
            assert(out@ + dashes_to_slashes(s@.skip(i + 1)) =~= before + (seq![rest[0]]
                + dashes_to_slashes(rest.drop_first())));
            i = i + 1;
        }
    }
    assert(s@.skip(i as int) =~= Seq::<char>::empty());
    assert(out@ + Seq::<char>::empty() =~= out@);
    from_chars(&out)
}

/// The model a checkpoint journal with the lines `lines` was written for:
/// the first line whose settings record names one; else the file's stem with
/// its double dashes read as slashes (empty when there is no stem).
pub open spec fn journal_model_name(lines: Seq<Seq<char>>, stem: Option<Seq<char>>) -> Seq<char>
    decreases lines.len(),
{
    if lines.len() == 0 {
        match stem {
            Some(t) => dashes_to_slashes(t),
            None => seq![],
        }
    } else {
        match journal_model(lines[0]) {
            Some(m) => m,
            None => journal_model_name(lines.drop_first(), stem),
        }
    }
}

/// The model a checkpoint journal was written for, from its lines and its
/// file stem: the name its settings record gives, or the stem de-mangled.
pub fn model_name_from_checkpoint(lines: &Vec<String>, stem: Option<&str>) -> (r: String)
    ensures
        r@ == journal_model_name(
            crate::subprocess::string_views(lines@),
            match stem {
                Some(t) => Some(t@),
                None => None,
            },
        ),
{
    let ghost all = crate::subprocess::string_views(lines@);
    let ghost st = match stem {
        Some(t) => Some(t@),
        None => None,
    };
    let mut i: usize = 0;
    assert(all.skip(0) =~= all);
    while i < lines.len()
        invariant
            i <= lines.len(),
            all == crate::subprocess::string_views(lines@),
            st == (match stem {
                Some(t) => Some(t@),
                None => None,
            }),
            journal_model_name(all, st) == journal_model_name(all.skip(i as int), st),
        decreases lines.len() - i,
    {
        let ghost rest = all.skip(i as int);
        assert(rest[0] == lines@[i as int]@);
        assert(rest.drop_first() =~= all.skip(i + 1));
        match model_in_checkpoint_line(lines[i].as_str()) {
            Some(m) => {
                assert(journal_model_name(rest, st) == m@);
                return m;
            },
            None => {},
        }
        i = i + 1;
    }
    assert(all.skip(i as int) =~= Seq::<Seq<char>>::empty());
    match stem {
        Some(t) => checkpoint_fallback_name(t),
        None => String::new(),
    }
}

} // verus!
