//! Editing a line of text with a cursor, and trimming it.

use crate::tui::screens::KeyCode;
use vstd::prelude::*;

verus! {

/// The keys that edit a line: a character, Backspace, Delete, Left, Right.
pub open spec fn is_editing_key(code: KeyCode) -> bool {
    ||| code is Char
    ||| code is Backspace
    ||| code is Delete
    ||| code is Left
    ||| code is Right
}

/// The line and cursor after an editing key. A character goes in at the
/// cursor, which moves past it; Backspace removes the character before the
/// cursor, Delete the one under it; Left and Right move the cursor within
/// the line.
pub open spec fn edited(buf: Seq<char>, cur: nat, code: KeyCode) -> (Seq<char>, nat) {
    match code {
        KeyCode::Char(ch) => (buf.insert(cur as int, ch), cur + 1),
        KeyCode::Backspace => if cur > 0 {
            (buf.remove(cur - 1), (cur - 1) as nat)
        } else {
            (buf, cur)
        },
        KeyCode::Delete => if cur < buf.len() {
            (buf.remove(cur as int), cur)
        } else {
            (buf, cur)
        },
        KeyCode::Left => if cur > 0 {
            (buf, (cur - 1) as nat)
        } else {
            (buf, cur)
        },
        KeyCode::Right => if cur < buf.len() {
            (buf, cur + 1)
        } else {
            (buf, cur)
        },
        _ => (buf, cur),
    }
}

/// Applies an editing key to `buf` with the cursor at `cursor`; returns the
/// new cursor.
pub fn apply_edit(buf: &mut Vec<char>, cursor: usize, code: KeyCode) -> (r: usize)
    requires
        cursor <= old(buf).len(),
    ensures
        (final(buf)@, r as nat) == edited(old(buf)@, cursor as nat, code),
        r <= final(buf).len(),
{
    match code {
        KeyCode::Char(ch) => {
            buf.insert(cursor, ch);
            assert(cursor < buf.len());
            cursor + 1
        },
        KeyCode::Backspace => {
            if cursor > 0 {
                buf.remove(cursor - 1);
                cursor - 1
            } else {
                cursor
            }
        },
        KeyCode::Delete => {
            if cursor < buf.len() {
                buf.remove(cursor);
            }
            cursor
        },
        KeyCode::Left => {
            if cursor > 0 {
                cursor - 1
            } else {
                cursor
            }
        },
        KeyCode::Right => {
            if cursor < buf.len() {
                cursor + 1
            } else {
                cursor
            }
        },
        _ => cursor,
    }
}

/// Typing a character and then Backspace gives back the line and cursor.
pub proof fn law_backspace_undoes_typing(buf: Seq<char>, cur: nat, ch: char)
    requires
        cur <= buf.len(),
    ensures
        ({
            let typed = edited(buf, cur, KeyCode::Char(ch));
            edited(typed.0, typed.1, KeyCode::Backspace) == (buf, cur)
        }),
{
    assert(buf.insert(cur as int, ch).remove(cur as int) =~= buf);
}

/// Editing keeps the cursor within the line.
pub proof fn law_cursor_stays_in_line(buf: Seq<char>, cur: nat, code: KeyCode)
    requires
        cur <= buf.len(),
    ensures
        edited(buf, cur, code).1 <= edited(buf, cur, code).0.len(),
{
}

/// Unicode White_Space, as `char::is_whitespace` documents it.
pub open spec fn is_white_space(c: char) -> bool {
    ||| '\u{9}' <= c <= '\u{d}'
    ||| c == ' '
    ||| c == '\u{85}'
    ||| c == '\u{a0}'
    ||| c == '\u{1680}'
    ||| '\u{2000}' <= c <= '\u{200a}'
    ||| c == '\u{2028}'
    ||| c == '\u{2029}'
    ||| c == '\u{202f}'
    ||| c == '\u{205f}'
    ||| c == '\u{3000}'
}

/// Whether `c` is white space.
pub fn white_space(c: char) -> (b: bool)
    ensures
        b == is_white_space(c),
{
    ('\u{9}' <= c && c <= '\u{d}') || c == ' ' || c == '\u{85}' || c == '\u{a0}' || c
        == '\u{1680}' || ('\u{2000}' <= c && c <= '\u{200a}') || c == '\u{2028}' || c
        == '\u{2029}' || c == '\u{202f}' || c == '\u{205f}' || c == '\u{3000}'
}

/// `s` without its leading white space.
pub open spec fn trim_start(s: Seq<char>) -> Seq<char>
    decreases s.len(),
{
    if s.len() > 0 && is_white_space(s[0]) {
        trim_start(s.drop_first())
    } else {
        s
    }
}

/// `s` without its trailing white space.
pub open spec fn trim_end(s: Seq<char>) -> Seq<char>
    decreases s.len(),
{
    if s.len() > 0 && is_white_space(s.last()) {
        trim_end(s.drop_last())
    } else {
        s
    }
}

/// `s` without leading and trailing white space.
pub open spec fn trimmed(s: Seq<char>) -> Seq<char> {
    trim_end(trim_start(s))
}

proof fn lemma_trim_start_skip(s: Seq<char>, i: int)
    requires
        0 <= i <= s.len(),
        forall|j: int| 0 <= j < i ==> is_white_space(#[trigger] s[j]),
    ensures
        trim_start(s) == trim_start(s.skip(i)),
    decreases i,
{
    if i > 0 {
        assert(s.drop_first().skip(i - 1) =~= s.skip(i));
        lemma_trim_start_skip(s.drop_first(), i - 1);
    } else {
        assert(s.skip(0) =~= s);
    }
}

proof fn lemma_trim_end_take(s: Seq<char>, i: int)
    requires
        0 <= i <= s.len(),
        forall|j: int| i <= j < s.len() ==> is_white_space(#[trigger] s[j]),
    ensures
        trim_end(s) == trim_end(s.take(i)),
    decreases s.len() - i,
{
    if i < s.len() {
        assert(s.drop_last().take(i) =~= s.take(i));
        lemma_trim_end_take(s.drop_last(), i);
    } else {
        assert(s.take(i) =~= s);
    }
}

/// `buf` without leading and trailing white space.
pub fn trim(buf: &Vec<char>) -> (t: Vec<char>)
    ensures
        t@ == trimmed(buf@),
{
    let n = buf.len();
    let mut start: usize = 0;
    while start < n && white_space(buf[start])
        invariant
            n == buf.len(),
            start <= n,
            forall|j: int| 0 <= j < start ==> is_white_space(#[trigger] buf@[j]),
        decreases n - start,
    {
        start = start + 1;
    }
    proof {
        lemma_trim_start_skip(buf@, start as int);
    }
    let ghost rest = buf@.skip(start as int);
    assert(start < n ==> rest[0] == buf@[start as int]);
    assert(trim_start(buf@) == rest);
    let mut end: usize = n;
    while end > start && white_space(buf[end - 1])
        invariant
            n == buf.len(),
            start <= end <= n,
            rest == buf@.skip(start as int),
            forall|j: int| end <= j < n ==> is_white_space(#[trigger] buf@[j]),
        decreases end,
    {
        end = end - 1;
    }
    proof {
        let k = (end - start) as int;
        assert forall|j: int| k <= j < rest.len() implies is_white_space(#[trigger] rest[j]) by {
            assert(rest[j] == buf@[start + j]);
        }
        lemma_trim_end_take(rest, k);
        assert(k < rest.len() ==> rest.take(k + 1).last() == buf@[end as int]);
        assert(rest.take(k) =~= buf@.subrange(start as int, end as int));
    }
    let mut t: Vec<char> = Vec::new();
    let mut i: usize = start;
    while i < end
        invariant
            n == buf.len(),
            start <= i <= end <= n,
            t@ == buf@.subrange(start as int, i as int),
        decreases end - i,
    {
        t.push(buf[i]);
        i = i + 1;
        assert(t@ =~= buf@.subrange(start as int, i as int));
    }
    t
}

/// The characters of `v` from position `from` up to `to`.
pub fn copy_range(v: &Vec<char>, from: usize, to: usize) -> (r: Vec<char>)
    requires
        from <= to <= v.len(),
    ensures
        r@ == v@.subrange(from as int, to as int),
{
    let mut r: Vec<char> = Vec::new();
    let mut i: usize = from;
    while i < to
        invariant
            from <= i <= to <= v.len(),
            r@ == v@.subrange(from as int, i as int),
        decreases to - i,
    {
        r.push(v[i]);
        i = i + 1;
        assert(r@ =~= v@.subrange(from as int, i as int));
    }
    r
}

/// Right moves the cursor one character on while it is inside the line and
/// stays at the end; Left moves it one character back while it is after
/// the start and stays at the start. Neither changes the line.
pub proof fn law_arrows_move_by_one(buf: Seq<char>, cur: nat)
    requires
        cur <= buf.len(),
    ensures
        cur < buf.len() ==> edited(buf, cur, KeyCode::Right) == (buf, cur + 1),
        cur == buf.len() ==> edited(buf, cur, KeyCode::Right) == (buf, cur),
        cur > 0 ==> edited(buf, cur, KeyCode::Left) == (buf, (cur - 1) as nat),
        cur == 0 ==> edited(buf, cur, KeyCode::Left) == (buf, cur),
{
}

/// Left then Right gives back the line and cursor whenever the cursor is
/// after the start; Right then Left whenever it is before the end.
pub proof fn law_arrows_undo_each_other(buf: Seq<char>, cur: nat)
    requires
        cur <= buf.len(),
    ensures
        cur > 0 ==> ({
            let l = edited(buf, cur, KeyCode::Left);
            edited(l.0, l.1, KeyCode::Right) == (buf, cur)
        }),
        cur < buf.len() ==> ({
            let r = edited(buf, cur, KeyCode::Right);
            edited(r.0, r.1, KeyCode::Left) == (buf, cur)
        }),
{
}

/// A typed character goes in at the cursor: the text before the cursor,
/// then the character, then the text after it; the cursor moves past it.
pub proof fn law_typing_inserts_at_cursor(buf: Seq<char>, cur: nat, ch: char)
    requires
        cur <= buf.len(),
    ensures
        edited(buf, cur, KeyCode::Char(ch)).0 == buf.take(cur as int) + seq![ch] + buf.skip(
            cur as int,
        ),
        edited(buf, cur, KeyCode::Char(ch)).1 == cur + 1,
{
    assert(buf.insert(cur as int, ch) =~= buf.take(cur as int) + seq![ch] + buf.skip(cur as int));
}

/// Backspace removes the character before the cursor and moves the cursor
/// back onto its place; Delete removes the character under the cursor and
/// leaves the cursor where it is. At the start (Backspace) or the end
/// (Delete) of the line nothing changes.
pub proof fn law_erasing_removes_one_character(buf: Seq<char>, cur: nat)
    requires
        cur <= buf.len(),
    ensures
        cur > 0 ==> edited(buf, cur, KeyCode::Backspace) == (
            buf.take(cur - 1) + buf.skip(cur as int),
            (cur - 1) as nat,
        ),
        cur == 0 ==> edited(buf, cur, KeyCode::Backspace) == (buf, cur),
        cur < buf.len() ==> edited(buf, cur, KeyCode::Delete) == (
            buf.take(cur as int) + buf.skip(cur + 1int),
            cur,
        ),
        cur == buf.len() ==> edited(buf, cur, KeyCode::Delete) == (buf, cur),
{
    if cur > 0 {
        assert(buf.remove(cur - 1) =~= buf.take(cur - 1) + buf.skip(cur as int));
    }
    if cur < buf.len() {
        assert(buf.remove(cur as int) =~= buf.take(cur as int) + buf.skip(cur + 1int));
    }
}

} // verus!
