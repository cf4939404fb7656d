//! Text layout for the terminal panes: the lines of a text, how many rows it
//! wraps to, human-readable byte sizes and scroll offsets.

use vstd::prelude::*;

use crate::text::{
    append_chars, append_str, decimal, decimal_chars, digit_char, from_chars, is_white_space,
    lemma_pieces_nonempty, pieces, split_on, split_words, to_chars, views, words, words_from,
};

verus! {

broadcast use vstd::string::group_string_axioms;

// ─── Lines ─────────────────────────────────────────────────────

/// A line without the `\r` of a `\r\n` ending.
pub open spec fn strip_cr(p: Seq<char>) -> Seq<char> {
    if p.len() > 0 && p.last() == '\r' {
        p.drop_last()
    } else {
        p
    }
}

/// `str::lines`: the pieces between `\n`s, each stripped of the `\r` of a
/// `\r\n` ending, without the empty piece after a final `\n`.
pub open spec fn text_lines(s: Seq<char>) -> Seq<Seq<char>> {
    let ps = pieces(s, '\n');
    let body = ps.drop_last().map_values(|p: Seq<char>| strip_cr(p));
    if ps.last().len() == 0 {
        body
    } else {
        body.push(ps.last())
    }
}

fn strip_cr_chars(p: &Vec<char>) -> (r: Vec<char>)
    ensures
        r@ == strip_cr(p@),
{
    let n = p.len();
    if n > 0 && p[n - 1] == '\r' {
        let mut r = p.clone();
        r.pop();
        assert(r@ =~= p@.drop_last());
        r
    } else {
        assert(p@.len() == 0 || p@.last() != '\r');
        let r = p.clone();
        assert(r@ =~= p@);
        r
    }
}

/// `str::lines` over characters.
pub fn lines_of(s: &Vec<char>) -> (r: Vec<Vec<char>>)
    ensures
        views(r@) == text_lines(s@),
{
    let ps = split_on(s, '\n');
    proof {
        lemma_pieces_nonempty(s@, '\n', seq![]);
    }
    let n = ps.len();
    let ghost body = views(ps@).drop_last().map_values(|p: Seq<char>| strip_cr(p));
    let mut out: Vec<Vec<char>> = Vec::new();
    let mut i: usize = 0;
    while i + 1 < n
        invariant
            n == ps.len(),
            n >= 1,
            i + 1 <= n,
            views(ps@) == pieces(s@, '\n'),
            body == views(ps@).drop_last().map_values(|p: Seq<char>| strip_cr(p)),
            views(out@) == body.take(i as int),
        decreases n - i,
    {
        let line = strip_cr_chars(&ps[i]);
        proof {
            assert(views(ps@)[i as int] == ps@[i as int]@);
            assert(body[i as int] == strip_cr(ps@[i as int]@));
            assert(views(out@.push(line)) =~= views(out@).push(line@));
            assert(body.take(i + 1) =~= body.take(i as int).push(body[i as int]));
        }
        out.push(line);
        i = i + 1;
    }
    assert(body.take(i as int) =~= body);
    assert(views(ps@).last() == ps@[n - 1]@);
    if ps[n - 1].len() == 0 {
        out
    } else {
        let last = ps[n - 1].clone();
        proof {
            assert(views(out@.push(last)) =~= views(out@).push(last@));
        }
        out.push(last);
        out
    }
}

// ─── Wrapped height ────────────────────────────────────────────

/// The column a word of `n` characters ends at when it starts a row of a
/// pane `width` columns wide (a longer word runs on over further rows).
pub open spec fn end_column(n: nat, width: nat) -> nat {
    if n % width == 0 && n > 0 {
        width
    } else {
        n % width
    }
}

/// The rows a word of `n` characters takes beyond the row it starts on.
pub open spec fn extra_rows(n: nat, width: nat) -> nat {
    if n == 0 {
        0
    } else {
        ((n - 1) as nat) / width
    }
}

/// Lays the words `ws` out from column `col` with `rows` rows used so far,
/// one space between words, breaking before a word that does not fit:
/// the final column and rows.
pub open spec fn lay_words(ws: Seq<Seq<char>>, width: nat, col: nat, rows: nat) -> (nat, nat)
    decreases ws.len(),
{
    if ws.len() == 0 {
        (col, rows)
    } else {
        let n = ws[0].len();
        if col == 0 {
            lay_words(ws.drop_first(), width, end_column(n, width), rows + extra_rows(n, width))
        } else if col + 1 + n <= width {
            lay_words(ws.drop_first(), width, col + 1 + n, rows)
        } else {
            lay_words(
                ws.drop_first(),
                width,
                end_column(n, width),
                rows + 1 + extra_rows(n, width),
            )
        }
    }
}

/// The rows one line of text takes in a pane `width` columns wide.
pub open spec fn segment_rows(seg: Seq<char>, width: nat) -> nat {
    lay_words(words(seg), width, 0, 1).1
}

/// The rows of the lines `segs`, summed.
pub open spec fn rows_of(segs: Seq<Seq<char>>, width: nat) -> nat
    decreases segs.len(),
{
    if segs.len() == 0 {
        0
    } else {
        segment_rows(segs[0], width) + rows_of(segs.drop_first(), width)
    }
}

/// The visual rows `text` takes in a pane `width` columns wide, as a
/// paragraph that wraps on white space does it: at least one. A pane of no
/// width counts each line as one row.
pub open spec fn wrapped_rows(text: Seq<char>, width: nat) -> nat {
    let n = if width == 0 {
        text_lines(text).len()
    } else {
        rows_of(pieces(text, '\n'), width)
    };
    if n == 0 {
        1
    } else {
        n
    }
}

/// The summed lengths of `ws`.
pub open spec fn total_len(ws: Seq<Seq<char>>) -> nat
    decreases ws.len(),
{
    if ws.len() == 0 {
        0
    } else {
        ws[0].len() + total_len(ws.drop_first())
    }
}

proof fn lemma_words_from_bounds(s: Seq<char>, cur: Seq<char>)
    ensures
        total_len(words_from(s, cur)) <= s.len() + cur.len(),
        forall|j: int|
            0 <= j < words_from(s, cur).len() ==> #[trigger] words_from(s, cur)[j].len() > 0,
    decreases s.len(),
{
    if s.len() == 0 {
        if cur.len() > 0 {
            assert(seq![cur].drop_first() =~= Seq::<Seq<char>>::empty());
            assert(total_len(seq![cur]) == cur.len() + total_len(Seq::<Seq<char>>::empty()));
        }
    } else if is_white_space(s[0]) {
        lemma_words_from_bounds(s.drop_first(), seq![]);
        if cur.len() > 0 {
            let rest = words_from(s.drop_first(), seq![]);
            let all = seq![cur] + rest;
            assert(all.drop_first() =~= rest);
            assert(all[0] == cur);
            assert(total_len(all) == cur.len() + total_len(rest));
            assert forall|j: int| 0 <= j < all.len() implies #[trigger] all[j].len() > 0 by {
                if j > 0 {
                    assert(all[j] == rest[j - 1]);
                }
            }
        }
    } else {
        lemma_words_from_bounds(s.drop_first(), cur.push(s[0]));
    }
}

proof fn lemma_total_len_step(ws: Seq<Seq<char>>, i: int)
    requires
        0 <= i < ws.len(),
    ensures
        total_len(ws.skip(i)) == ws[i].len() + total_len(ws.skip(i + 1)),
        ws.skip(i).drop_first() == ws.skip(i + 1),
        ws.skip(i)[0] == ws[i],
{
    assert(ws.skip(i).drop_first() =~= ws.skip(i + 1));
}

/// The rows one line takes in a pane `width` columns wide.
fn segment_row_count(seg: &Vec<char>, width: usize) -> (r: usize)
    requires
        width > 0,
    ensures
        r == segment_rows(seg@, width as nat),
{
    let seg_len = seg.len();
    let ws = split_words(seg);
    let ghost all = views(ws@);
    proof {
        lemma_words_from_bounds(seg@, seq![]);
        assert(all.skip(0) =~= all);
    }
    let mut col: usize = 0;
    let mut rows: usize = 1;
    let mut i: usize = 0;
    while i < ws.len()
        invariant
            width > 0,
            all == views(ws@),
            all == words(seg@),
            i <= ws.len(),
            total_len(all) <= seg_len,
            forall|j: int| 0 <= j < all.len() ==> #[trigger] all[j].len() > 0,
            lay_words(all, width as nat, 0, 1) == lay_words(
                all.skip(i as int),
                width as nat,
                col as nat,
                rows as nat,
            ),
            col <= width,
            (i == 0) == (col == 0),
            i == 0 ==> rows == 1,
            i > 0 ==> rows + total_len(all.skip(i as int)) <= total_len(all),
        decreases ws.len() - i,
    {
        let n = ws[i].len();
        proof {
            lemma_total_len_step(all, i as int);
            assert(all[i as int] == ws@[i as int]@);
            assert(n > 0);
        }
        let extra = (n - 1) / width;
        let end = if n % width == 0 {
            width
        } else {
            n % width
        };
        proof {
            assert(extra <= n - 1) by (nonlinear_arith)
                requires
                    width >= 1,
                    n >= 1,
                    extra == ((n - 1) as int) / (width as int),
            ;
            assert(extra == extra_rows(n as nat, width as nat));
            assert(end == end_column(n as nat, width as nat));
            assert(end >= 1) by {
                if n % width != 0 {
                    assert(end == n % width);
                }
            }
        }
        if col == 0 {
            rows = 1 + extra;
            col = end;
        } else if col < width && n <= width - 1 - col {
            col = col + 1 + n;
        } else {
            rows = rows + 1 + extra;
            col = end;
        }
        i = i + 1;
    }
    rows
}

/// Visual line count for `text` rendered into a pane `width` columns wide,
/// breaking on white space and hard-splitting any word wider than the pane;
/// at least one. A pane of no width counts each line as one row.
pub fn wrapped_line_count(text: &str, width: usize) -> (r: usize)
    ensures
        wrapped_rows(text@, width as nat) <= usize::MAX ==> r == wrapped_rows(
            text@,
            width as nat,
        ),
        wrapped_rows(text@, width as nat) > usize::MAX ==> r == usize::MAX,
{
    let chars = to_chars(text);
    if width == 0 {
        let ls = lines_of(&chars);
        let n = ls.len();
        return if n == 0 {
            1
        } else {
            n
        };
    }
    let segs = split_on(&chars, '\n');
    let ghost all = views(segs@);
    let ghost mut done: nat = 0;
    proof {
        assert(all.skip(0) =~= all);
    }
    let mut lines: usize = 0;
    let mut k: usize = 0;
    while k < segs.len()
        invariant
            width > 0,
            all == views(segs@),
            all == pieces(text@, '\n'),
            k <= segs.len(),
            rows_of(all, width as nat) == done + rows_of(all.skip(k as int), width as nat),
            done <= usize::MAX ==> lines == done,
            done > usize::MAX ==> lines == usize::MAX,
        decreases segs.len() - k,
    {
        let sr = segment_row_count(&segs[k], width);
        proof {
            assert(all.skip(k as int).drop_first() =~= all.skip(k + 1));
            assert(all.skip(k as int)[0] == segs@[k as int]@);
            done = (done + sr) as nat;
        }
        lines = lines.saturating_add(sr);
        k = k + 1;
    }
    proof {
        assert(all.skip(k as int) =~= Seq::<Seq<char>>::empty());
        lemma_pieces_nonempty(text@, '\n', seq![]);
    }
    if lines == 0 {
        1
    } else {
        lines
    }
}


/// A text always takes at least one row, however wide the pane.
pub proof fn wrapped_rows_at_least_one(text: Seq<char>, width: nat)
    ensures
        wrapped_rows(text, width) >= 1,
{
}

proof fn lemma_lay_words_rows(ws: Seq<Seq<char>>, width: nat, col: nat, rows: nat)
    ensures
        lay_words(ws, width, col, rows).1 >= rows,
    decreases ws.len(),
{
    if ws.len() > 0 {
        let n = ws[0].len();
        if col == 0 {
            lemma_lay_words_rows(ws.drop_first(), width, end_column(n, width), rows + extra_rows(n, width));
        } else if col + 1 + n <= width {
            lemma_lay_words_rows(ws.drop_first(), width, col + 1 + n, rows);
        } else {
            lemma_lay_words_rows(
                ws.drop_first(),
                width,
                end_column(n, width),
                rows + 1 + extra_rows(n, width),
            );
        }
    }
}

proof fn lemma_rows_of_concat(a: Seq<Seq<char>>, b: Seq<Seq<char>>, width: nat)
    ensures
        rows_of(a + b, width) == rows_of(a, width) + rows_of(b, width),
    decreases a.len(),
{
    if a.len() == 0 {
        assert(a + b =~= b);
    } else {
        assert((a + b).drop_first() =~= a.drop_first() + b);
        assert((a + b)[0] == a[0]);
        lemma_rows_of_concat(a.drop_first(), b, width);
    }
}

proof fn lemma_rows_of_positive(segs: Seq<Seq<char>>, width: nat)
    requires
        segs.len() > 0,
    ensures
        rows_of(segs, width) >= 1,
{
    lemma_lay_words_rows(words(segs[0]), width, 0, 1);
}

proof fn lemma_pieces_across(x: Seq<char>, y: Seq<char>, sep: char, cur: Seq<char>)
    ensures
        crate::text::pieces_from(x + seq![sep] + y, sep, cur) == crate::text::pieces_from(x, sep, cur)
            + crate::text::pieces_from(y, sep, seq![]),
    decreases x.len(),
{
    let z = x + seq![sep] + y;
    if x.len() == 0 {
        assert(z[0] == sep);
        assert(z.drop_first() =~= y);
    } else {
        assert(z[0] == x[0]);
        assert(z.drop_first() =~= x.drop_first() + seq![sep] + y);
        if x[0] == sep {
            lemma_pieces_across(x.drop_first(), y, sep, seq![]);
            let p = crate::text::pieces_from(x.drop_first(), sep, seq![]);
            let q = crate::text::pieces_from(y, sep, seq![]);
            assert(seq![cur] + (p + q) =~= (seq![cur] + p) + q);
        } else {
            lemma_pieces_across(x.drop_first(), y, sep, cur.push(x[0]));
        }
    }
}

/// Each explicit line wraps on its own: in a pane of some width, the rows of
/// two texts joined by a line break are the rows of each, added.
pub proof fn wrapped_rows_add_over_lines(a: Seq<char>, b: Seq<char>, width: nat)
    requires
        width > 0,
    ensures
        wrapped_rows(a + seq!['\n'] + b, width) == wrapped_rows(a, width) + wrapped_rows(b, width),
{
    lemma_pieces_across(a, b, '\n', seq![]);
    lemma_pieces_nonempty(a, '\n', seq![]);
    lemma_pieces_nonempty(b, '\n', seq![]);
    lemma_pieces_nonempty(a + seq!['\n'] + b, '\n', seq![]);
    lemma_rows_of_concat(pieces(a, '\n'), pieces(b, '\n'), width);
    lemma_rows_of_positive(pieces(a, '\n'), width);
    lemma_rows_of_positive(pieces(b, '\n'), width);
}

proof fn lemma_words_across(x: Seq<char>, sp: char, y: Seq<char>, cur: Seq<char>)
    requires
        is_white_space(sp),
    ensures
        words_from(x + seq![sp] + y, cur) == words_from(x, cur) + words_from(y, seq![]),
    decreases x.len(),
{
    let z = x + seq![sp] + y;
    if x.len() == 0 {
        assert(z[0] == sp);
        assert(z.drop_first() =~= y);
        if cur.len() == 0 {
            assert(Seq::<Seq<char>>::empty() + words_from(y, seq![]) =~= words_from(y, seq![]));
        }
    } else {
        assert(z[0] == x[0]);
        assert(z.drop_first() =~= x.drop_first() + seq![sp] + y);
        if is_white_space(x[0]) {
            lemma_words_across(x.drop_first(), sp, y, seq![]);
            let p = words_from(x.drop_first(), seq![]);
            let q = words_from(y, seq![]);
            assert(seq![cur] + (p + q) =~= (seq![cur] + p) + q);
        } else {
            lemma_words_across(x.drop_first(), sp, y, cur.push(x[0]));
        }
    }
}

proof fn lemma_words_of_word(w: Seq<char>, cur: Seq<char>)
    requires
        forall|i: int| 0 <= i < w.len() ==> !is_white_space(#[trigger] w[i]),
        cur.len() + w.len() > 0,
    ensures
        words_from(w, cur) == seq![cur + w],
    decreases w.len(),
{
    if w.len() == 0 {
        assert(cur + w =~= cur);
    } else {
        assert(!is_white_space(w[0]));
        assert forall|i: int| 0 <= i < w.drop_first().len() implies !is_white_space(
            #[trigger] w.drop_first()[i],
        ) by {
            assert(w.drop_first()[i] == w[i + 1]);
        }
        lemma_words_of_word(w.drop_first(), cur.push(w[0]));
        assert(cur.push(w[0]) + w.drop_first() =~= cur + w);
    }
}

proof fn lemma_lay_words_concat(a: Seq<Seq<char>>, b: Seq<Seq<char>>, width: nat, col: nat, rows: nat)
    ensures
        lay_words(a + b, width, col, rows) == lay_words(
            b,
            width,
            lay_words(a, width, col, rows).0,
            lay_words(a, width, col, rows).1,
        ),
    decreases a.len(),
{
    if a.len() == 0 {
        assert(a + b =~= b);
    } else {
        assert((a + b).drop_first() =~= a.drop_first() + b);
        assert((a + b)[0] == a[0]);
        let n = a[0].len();
        if col == 0 {
            lemma_lay_words_concat(a.drop_first(), b, width, end_column(n, width), rows + extra_rows(n, width));
        } else if col + 1 + n <= width {
            lemma_lay_words_concat(a.drop_first(), b, width, col + 1 + n, rows);
        } else {
            lemma_lay_words_concat(
                a.drop_first(),
                b,
                width,
                end_column(n, width),
                rows + 1 + extra_rows(n, width),
            );
        }
    }
}

proof fn lemma_lay_words_column(ws: Seq<Seq<char>>, width: nat, col: nat, rows: nat)
    requires
        width > 0,
        ws.len() > 0,
        forall|j: int| 0 <= j < ws.len() ==> (#[trigger] ws[j]).len() > 0,
    ensures
        lay_words(ws, width, col, rows).0 >= 1,
    decreases ws.len(),
{
    let n = ws[0].len();
    if ws.len() > 1 {
        assert forall|j: int| 0 <= j < ws.drop_first().len() implies (#[trigger] ws.drop_first()[j]).len()
            > 0 by {
            assert(ws.drop_first()[j] == ws[j + 1]);
        }
        if col == 0 {
            lemma_lay_words_column(ws.drop_first(), width, end_column(n, width), rows + extra_rows(n, width));
        } else if col + 1 + n <= width {
            lemma_lay_words_column(ws.drop_first(), width, col + 1 + n, rows);
        } else {
            lemma_lay_words_column(
                ws.drop_first(),
                width,
                end_column(n, width),
                rows + 1 + extra_rows(n, width),
            );
        }
    } else {
        assert(ws.drop_first().len() == 0);
        assert(ws[0].len() > 0);
        assert(end_column(n, width) >= 1);
        if col == 0 {
            assert(lay_words(ws, width, col, rows) == lay_words(
                ws.drop_first(),
                width,
                end_column(n, width),
                rows + extra_rows(n, width),
            ));
        } else if col + 1 + n <= width {
            assert(lay_words(ws, width, col, rows) == lay_words(ws.drop_first(), width, col + 1 + n, rows));
        } else {
            assert(lay_words(ws, width, col, rows) == lay_words(
                ws.drop_first(),
                width,
                end_column(n, width),
                rows + 1 + extra_rows(n, width),
            ));
        }
    }
}

proof fn lemma_pieces_plain_line(x: Seq<char>, sep: char, cur: Seq<char>)
    requires
        !x.contains(sep),
    ensures
        crate::text::pieces_from(x, sep, cur) == seq![cur + x],
    decreases x.len(),
{
    if x.len() == 0 {
        assert(cur + x =~= cur);
    } else {
        assert(x[0] != sep) by {
            if x[0] == sep {
                assert(x.contains(sep));
            }
        }
        assert(!x.drop_first().contains(sep)) by {
            if x.drop_first().contains(sep) {
                let k = choose|k: int| 0 <= k < x.drop_first().len() && x.drop_first()[k] == sep;
                assert(x[k + 1] == sep);
            }
        }
        lemma_pieces_plain_line(x.drop_first(), sep, cur.push(x[0]));
        assert(cur.push(x[0]) + x.drop_first() =~= cur + x);
    }
}

/// A word at least as wide as the pane never joins the row before it: it
/// starts a row of its own and takes as many rows as its length needs,
/// `ceil(len / width)`, whether it opens the line or follows other words.
pub proof fn long_word_takes_its_own_rows(a: Seq<char>, w: Seq<char>, width: nat)
    requires
        width > 0,
        w.len() >= width,
        forall|i: int| 0 <= i < w.len() ==> !is_white_space(#[trigger] w[i]),
        !a.contains('\n'),
        words(a).len() > 0,
    ensures
        wrapped_rows(w, width) == 1 + (w.len() - 1) as nat / width,
        wrapped_rows(a + seq![' '] + w, width) == wrapped_rows(a, width) + 1 + (w.len() - 1) as nat
            / width,
{
    let n = w.len();
    lemma_words_of_word(w, seq![]);
    assert(Seq::<char>::empty() + w =~= w);
    assert(!w.contains('\n')) by {
        if w.contains('\n') {
            let k = choose|k: int| 0 <= k < w.len() && w[k] == '\n';
            assert(is_white_space(w[k]));
        }
    }
    lemma_pieces_plain_line(w, '\n', seq![]);
    assert(pieces(w, '\n') =~= seq![w]);
    assert(seq![w].drop_first() =~= Seq::<Seq<char>>::empty());
    assert(lay_words(seq![w], width, 0, 1) == lay_words(seq![w].drop_first(), width, end_column(n, width), 1 + extra_rows(n, width)));
    assert(rows_of(seq![w], width) == segment_rows(w, width) + rows_of(seq![w].drop_first(), width));
    assert(segment_rows(w, width) == 1 + extra_rows(n, width));
    assert(extra_rows(n, width) == (n - 1) as nat / width);
    // The joined line.
    let line = a + seq![' '] + w;
    assert(is_white_space(' '));
    lemma_words_across(a, ' ', w, seq![]);
    assert(words(line) == words(a) + seq![w]);
    assert(!line.contains('\n')) by {
        if line.contains('\n') {
            let k = choose|k: int| 0 <= k < line.len() && line[k] == '\n';
            if k < a.len() {
                assert(a[k] == '\n');
                assert(a.contains('\n'));
            } else if k > a.len() {
                assert(w[k - a.len() - 1] == '\n');
                assert(is_white_space(w[k - a.len() - 1]));
            }
        }
    }
    lemma_pieces_plain_line(line, '\n', seq![]);
    assert(pieces(line, '\n') =~= seq![line]);
    lemma_pieces_plain_line(a, '\n', seq![]);
    assert(pieces(a, '\n') =~= seq![a]);
    assert(seq![line].drop_first() =~= Seq::<Seq<char>>::empty());
    assert(seq![a].drop_first() =~= Seq::<Seq<char>>::empty());
    lemma_lay_words_concat(words(a), seq![w], width, 0, 1);
    lemma_words_from_bounds(a, seq![]);
    lemma_lay_words_column(words(a), width, 0, 1);
    lemma_lay_words_rows(words(a), width, 0, 1);
    let c = lay_words(words(a), width, 0, 1).0;
    let r = lay_words(words(a), width, 0, 1).1;
    assert(c + 1 + n > width);
    assert(lay_words(seq![w], width, c, r) == lay_words(seq![w].drop_first(), width, end_column(n, width), r + 1 + extra_rows(n, width)));
}

// ─── Byte sizes ────────────────────────────────────────────────

/// `num / den` rounded to the nearest integer, ties to even.
pub open spec fn half_even(num: nat, den: nat) -> nat {
    let q = num / den;
    let r = num % den;
    if 2 * r > den || (2 * r == den && q % 2 == 1) {
        q + 1
    } else {
        q
    }
}

/// `2` to the power `k`.
pub open spec fn two_pow(k: nat) -> nat
    decreases k,
{
    if k == 0 {
        1
    } else {
        2 * two_pow((k - 1) as nat)
    }
}

/// How many times `b` halves before it fits the 53-bit significand of an
/// `f64`: the low bits lost when `b` is converted.
pub open spec fn f64_shift(b: nat) -> nat
    decreases b,
{
    if b < 0x20_0000_0000_0000 {
        0
    } else {
        1 + f64_shift(b / 2)
    }
}

/// `b as f64` for an integer `b`: the nearest multiple of `2^f64_shift(b)`,
/// ties to an even multiple.
pub open spec fn as_f64(b: nat) -> nat {
    let d = two_pow(f64_shift(b));
    half_even(b, d) * d
}

/// `n / 10` with one decimal.
pub open spec fn tenths_text(n: nat) -> Seq<char> {
    decimal(n / 10) + seq!['.', digit_char(n % 10)]
}

/// `n / 100` with two decimals.
pub open spec fn hundredths_text(n: nat) -> Seq<char> {
    decimal(n / 100) + seq!['.', digit_char((n / 10) % 10), digit_char(n % 10)]
}

pub const KIB: u64 = 1024;

pub const MIB: u64 = 1048576;

pub const GIB: u64 = 1073741824;

/// A byte count as the status lines show it: gibibytes with two decimals,
/// whole mebibytes, kilobytes (of 1024 bytes) with one decimal, or plain bytes. The quotient
/// is formed in `f64` and printed rounded half to even; below `2^53` the
/// conversion to `f64` is exact.
pub open spec fn bytes_text(b: nat) -> Seq<char> {
    if b >= GIB {
        hundredths_text(half_even(as_f64(b) * 100, GIB as nat)) + " GiB"@
    } else if b >= MIB {
        decimal(half_even(b, MIB as nat)) + " MiB"@
    } else if b >= KIB {
        tenths_text(half_even(b * 10, KIB as nat)) + " KB"@
    } else {
        decimal(b) + " B"@
    }
}

fn half_even_u128(num: u128, den: u128) -> (r: u128)
    requires
        den > 0,
    ensures
        r == half_even(num as nat, den as nat),
        r <= num / den + 1,
{
    let q = num / den;
    let rem = num % den;
    if rem > den - rem || (rem == den - rem && q % 2 == 1) {
        proof {
            assert(den >= 2);
            vstd::arithmetic::div_mod::lemma_fundamental_div_mod(num as int, den as int);
            assert(2 * q <= den * q) by (nonlinear_arith)
                requires
                    den >= 2,
                    q >= 0,
            ;
        }
        q + 1
    } else {
        q
    }
}

/// `bytes as f64`, as an integer.
fn f64_of(bytes: u64) -> (r: u128)
    ensures
        r == as_f64(bytes as nat),
        r <= 2 * (bytes as nat),
{
    let mut t: u64 = bytes;
    let mut d: u128 = 1;
    let ghost mut s: nat = 0;
    while t >= 0x20_0000_0000_0000
        invariant
            f64_shift(bytes as nat) == s + f64_shift(t as nat),
            d == two_pow(s),
            1 <= d,
            t * d <= bytes,
            t <= bytes,
            t >= 1 || bytes == 0,
            bytes == 0 ==> d == 1,
        decreases t,
    {
        proof {
            assert((t / 2) * (2 * d) <= t * d) by (nonlinear_arith)
                requires
                    d >= 1,
            ;
            assert(d <= t * d) by (nonlinear_arith)
                requires
                    t >= 1,
                    d >= 1,
            ;
            s = s + 1;
        }
        t = t / 2;
        d = d * 2;
    }
    let b = bytes as u128;
    proof {
        assert(f64_shift(t as nat) == 0);
        assert(b == 0 || d <= b) by (nonlinear_arith)
            requires
                t * d <= b,
                d >= 1,
                t >= 1 || b == 0,
        ;
        vstd::arithmetic::div_mod::lemma_fundamental_div_mod(b as int, d as int);
    }
    let q = half_even_u128(b, d);
    proof {
        assert(q * d <= b + d) by (nonlinear_arith)
            requires
                q <= b / d + 1,
                d >= 1,
                b == d * (b / d) + b % d,
                b % d >= 0,
        ;
        if b == 0 {
            assert(q == 0);
        }
    }
    q * d
}

fn digit_of(n: u64) -> (c: char)
    ensures
        c == digit_char((n % 10) as nat),
{
    let d = (n % 10) as u8;
    (48u8 + d) as char
}

fn push_tenths(v: &mut Vec<char>, n: u64)
    ensures
        final(v)@ == old(v)@ + tenths_text(n as nat),
{
    append_chars(v, &decimal_chars(n / 10));
    v.push('.');
    v.push(digit_of(n));
    assert(v@ =~= old(v)@ + tenths_text(n as nat));
}

fn push_hundredths(v: &mut Vec<char>, n: u64)
    ensures
        final(v)@ == old(v)@ + hundredths_text(n as nat),
{
    append_chars(v, &decimal_chars(n / 100));
    v.push('.');
    v.push(digit_of(n / 10));
    v.push(digit_of(n));
    assert(v@ =~= old(v)@ + hundredths_text(n as nat));
}

/// Human-readable byte count: `1.50 GiB`, `651 MiB`, `752.3 KB` or `12 B`.
pub fn format_bytes(bytes: u64) -> (r: String)
    ensures
        r@ == bytes_text(bytes as nat),
{
    let mut v: Vec<char> = Vec::new();
    if bytes >= GIB {
        let f = f64_of(bytes);
        let n = half_even_u128(f * 100, GIB as u128);
        assert(n <= 0x1000_0000_0000);
        push_hundredths(&mut v, n as u64);
        append_str(&mut v, " GiB");
    } else if bytes >= MIB {
        let n = half_even_u128(bytes as u128, MIB as u128);
        assert(n <= bytes);
        append_chars(&mut v, &decimal_chars(n as u64));
        append_str(&mut v, " MiB");
    } else if bytes >= KIB {
        let n = half_even_u128(bytes as u128 * 10, KIB as u128);
        push_tenths(&mut v, n as u64);
        append_str(&mut v, " KB");
    } else {
        append_chars(&mut v, &decimal_chars(bytes));
        append_str(&mut v, " B");
    }
    from_chars(&v)
}

} // verus!
