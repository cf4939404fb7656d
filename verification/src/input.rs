//! Editing helpers for the text fields: character cursors and masking.
//!
//! Cursors count characters, not bytes, so multi-byte input never splits a
//! character.

use vstd::prelude::*;

use crate::text::{from_chars, to_chars};

verus! {

broadcast use vstd::string::group_string_axioms;

/// `n` copies of `c`.
pub open spec fn repeat_char(c: char, n: nat) -> Seq<char>
    decreases n,
{
    if n == 0 {
        seq![]
    } else {
        repeat_char(c, (n - 1) as nat).push(c)
    }
}

/// A secret as displayed: at most its first three characters, the rest as `*`.
pub open spec fn masked(s: Seq<char>) -> Seq<char> {
    if s.len() <= 3 {
        repeat_char('*', s.len())
    } else {
        s.take(3) + repeat_char('*', (s.len() - 3) as nat)
    }
}

fn push_stars(v: &mut Vec<char>, n: usize)
    ensures
        final(v)@ == old(v)@ + repeat_char('*', n as nat),
{
    let mut i: usize = 0;
    while i < n
        invariant
            i <= n,
            v@ == old(v)@ + repeat_char('*', i as nat),
        decreases n - i,
    {
        v.push('*');
        assert(old(v)@ + repeat_char('*', (i + 1) as nat) =~= (old(v)@ + repeat_char(
            '*',
            i as nat,
        )).push('*'));
        i = i + 1;
    }
}

/// Mask a secret for display, revealing at most the first 3 characters.
pub fn mask_secret(secret: &str) -> (r: String)
    ensures
        r@ == masked(secret@),
{
    let s = to_chars(secret);
    let count = s.len();
    let mut out: Vec<char> = Vec::new();
    if count <= 3 {
        push_stars(&mut out, count);
        assert(out@ =~= repeat_char('*', count as nat));
    } else {
        out.push(s[0]);
        out.push(s[1]);
        out.push(s[2]);
        assert(out@ =~= s@.take(3));
        push_stars(&mut out, count - 3);
    }
    from_chars(&out)
}

/// Number of characters (not bytes) in `s`.
pub fn char_len(s: &str) -> (r: usize)
    ensures
        r == s@.len(),
{
    to_chars(s).len()
}

/// `s` with `c` inserted before the character at `cursor` (at the end when
/// `cursor` is past the last character).
pub open spec fn inserted_at(s: Seq<char>, cursor: int, c: char) -> Seq<char> {
    let k = if cursor < s.len() {
        cursor
    } else {
        s.len() as int
    };
    s.take(k) + seq![c] + s.skip(k)
}

/// Insert `c` at a char-cursor position, returning the new cursor (one past `c`'s
/// cursor position as given).
pub fn insert_at_char_cursor(s: &mut String, cursor: usize, c: char) -> (r: usize)
    requires
        cursor < usize::MAX,
    ensures
        final(s)@ == inserted_at(old(s)@, cursor as int, c),
        r == cursor + 1,
{
    let v = to_chars(s.as_str());
    let k = if cursor < v.len() {
        cursor
    } else {
        v.len()
    };
    let mut out: Vec<char> = Vec::new();
    let mut i: usize = 0;
    while i < k
        invariant
            k <= v.len(),
            i <= k,
            out@ == v@.take(i as int),
        decreases k - i,
    {
        out.push(v[i]);
        assert(v@.take(i + 1) =~= v@.take(i as int).push(v@[i as int]));
        i = i + 1;
    }
    out.push(c);
    let mut j = k;
    while j < v.len()
        invariant
            k <= j <= v.len(),
            out@ == v@.take(k as int) + seq![c] + v@.subrange(k as int, j as int),
        decreases v.len() - j,
    {
        out.push(v[j]);
        assert(v@.subrange(k as int, j + 1) =~= v@.subrange(k as int, j as int).push(v@[j as int]));
        j = j + 1;
    }
    assert(v@.subrange(k as int, v@.len() as int) =~= v@.skip(k as int));
    *s = from_chars(&out);
    cursor + 1
}

/// `s` with the character before `cursor` removed, and the new cursor: nothing
/// changes at cursor 0 or when `cursor` is past the end.
pub open spec fn removed_before(s: Seq<char>, cursor: int) -> (Seq<char>, int) {
    if cursor == 0 {
        (s, 0)
    } else if cursor - 1 < s.len() {
        (s.take(cursor - 1) + s.skip(cursor), cursor - 1)
    } else {
        (s, cursor)
    }
}

/// Remove the character before a char-cursor position, returning the new cursor.
pub fn remove_before_char_cursor(s: &mut String, cursor: usize) -> (r: usize)
    ensures
        (final(s)@, r as int) == removed_before(old(s)@, cursor as int),
{
    if cursor == 0 {
        return 0;
    }
    let v = to_chars(s.as_str());
    if cursor - 1 < v.len() {
        let k = cursor - 1;
        let mut out: Vec<char> = Vec::new();
        let mut i: usize = 0;
        while i < v.len()
            invariant
                k < v.len(),
                i <= v.len(),
                out@ == (if i <= k {
                    v@.take(i as int)
                } else {
                    v@.take(k as int) + v@.subrange(k + 1, i as int)
                }),
            decreases v.len() - i,
        {
            if i != k {
                out.push(v[i]);
            }
            proof {
                if i < k {
                    assert(v@.take(i + 1) =~= v@.take(i as int).push(v@[i as int]));
                } else if i == k {
                    assert(v@.subrange(k + 1, i + 1) =~= seq![]);
                    assert(v@.take(k as int) + seq![] =~= v@.take(k as int));
                } else {
                    assert(v@.subrange(k + 1, i + 1) =~= v@.subrange(k + 1, i as int).push(
                        v@[i as int],
                    ));
                }
            }
            i = i + 1;
        }
        assert(v@.subrange(k + 1, v@.len() as int) =~= v@.skip(cursor as int));
        *s = from_chars(&out);
        k
    } else {
        cursor
    }
}

/// Inserting a character adds exactly one character, wherever the cursor is;
/// removing before a cursor inside the text takes exactly one away.
pub proof fn edit_lengths(s: Seq<char>, cursor: int, c: char)
    requires
        0 <= cursor,
    ensures
        inserted_at(s, cursor, c).len() == s.len() + 1,
        0 < cursor <= s.len() ==> removed_before(s, cursor).0.len() == s.len() - 1,
{
}

/// Removing the character just inserted at a cursor inside the text gives the
/// text back, with the cursor where it was.
pub proof fn insert_then_remove(s: Seq<char>, cursor: int, c: char)
    requires
        0 <= cursor <= s.len(),
    ensures
        removed_before(inserted_at(s, cursor, c), cursor + 1) == (s, cursor),
{
    let t = inserted_at(s, cursor, c);
    assert(t.take(cursor) + t.skip(cursor + 1) =~= s);
}

/// Masking keeps the character count and shows at most the first three
/// characters, the rest as `*`.
pub proof fn mask_keeps_length(s: Seq<char>)
    ensures
        masked(s).len() == s.len(),
        forall|i: int| 3 <= i < s.len() ==> masked(s)[i] == '*',
        forall|i: int| 0 <= i < 3 && 3 < s.len() ==> masked(s)[i] == s[i],
{
    lemma_repeat_char(s.len());
    if s.len() > 3 {
        lemma_repeat_char((s.len() - 3) as nat);
    }
}

proof fn lemma_repeat_char(n: nat)
    ensures
        repeat_char('*', n).len() == n,
        forall|i: int| 0 <= i < n ==> repeat_char('*', n)[i] == '*',
    decreases n,
{
    if n > 0 {
        lemma_repeat_char((n - 1) as nat);
    }
}

} // verus!
