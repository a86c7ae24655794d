//! Rules of the local database that do not need the database: where the
//! MLS store lives next to it, whether the peer table still lacks its
//! friend column, and which peer addresses the peer table accepts.

use crate::primitives::string_of;
use crate::text::chars_of;
use vstd::prelude::*;

verus! {

/// The name of the MLS store kept next to the database.
pub open spec fn openmls_name() -> Seq<char> {
    "openmls"@
}

/// Where the last `/` of `path` is, if it has one.
pub open spec fn last_slash(path: Seq<char>) -> Option<int>
    decreases path.len(),
{
    if path.len() == 0 {
        None
    } else if path.last() == '/' {
        Some(path.len() - 1)
    } else {
        last_slash(path.drop_last())
    }
}

/// The path of the MLS store for the database at `db_path`: the database's
/// file name (what follows the last `/`) replaced by `openmls`.
pub open spec fn openmls_path_of(db_path: Seq<char>) -> Seq<char> {
    match last_slash(db_path) {
        Some(i) => db_path.take(i + 1) + openmls_name(),
        None => openmls_name(),
    }
}

proof fn lemma_last_slash_prefix(path: Seq<char>, n: int)
    requires
        0 <= n <= path.len(),
        forall|j: int| n <= j < path.len() ==> path[j] != '/',
    ensures
        last_slash(path) == last_slash(path.take(n)),
    decreases path.len() - n,
{
    if n < path.len() {
        assert(path.drop_last().take(n) =~= path.take(n));
        lemma_last_slash_prefix(path.drop_last(), n);
    } else {
        assert(path.take(n) =~= path);
    }
}

/// The path of the MLS store for the database at `db_path`.
pub fn openmls_path(db_path: &str) -> (p: String)
    ensures
        p@ == openmls_path_of(db_path@),
{
    let chars = chars_of(db_path);
    let mut end = chars.len();
    while end > 0 && chars[end - 1] != '/'
        invariant
            end <= chars.len(),
            forall|j: int| end <= j < chars.len() ==> chars@[j] != '/',
        decreases end,
    {
        end = end - 1;
    }
    proof {
        lemma_last_slash_prefix(chars@, end as int);
        if end > 0 {
            assert(chars@.take(end as int).last() == '/');
        } else {
            assert(chars@.take(0) =~= Seq::<char>::empty());
        }
    }
    let mut out: Vec<char> = Vec::new();
    let mut i: usize = 0;
    while i < end
        invariant
            i <= end <= chars.len(),
            out@ == chars@.take(i as int),
        decreases end - i,
    {
        out.push(chars[i]);
        i = i + 1;
        assert(out@ =~= chars@.take(i as int));
    }
    let mut name = chars_of("openmls");
    out.append(&mut name);
    string_of(out.as_slice())
}

/// Whether the peer table's columns, by name, include the friend flag; when
/// they do not, the table is migrated to add it.
pub fn has_is_friend_column(columns: &Vec<String>) -> (b: bool)
    ensures
        b <==> exists|i: int| 0 <= i < columns@.len() && #[trigger] columns@[i]@ == "is_friend"@,
{
    let wanted = "is_friend".to_owned();
    let mut i: usize = 0;
    while i < columns.len()
        invariant
            i <= columns.len(),
            wanted@ == "is_friend"@,
            forall|j: int| 0 <= j < i ==> #[trigger] columns@[j]@ != "is_friend"@,
        decreases columns.len() - i,
    {
        if columns[i] == wanted {
            return true;
        }
        i = i + 1;
    }
    false
}

/// `c` in lower case, for ASCII letters.
pub open spec fn ascii_lower(c: char) -> char {
    if 'A' <= c <= 'Z' {
        ((c as u32) + 32) as char
    } else {
        c
    }
}

/// The peer table accepts an address of 62 characters that ends in
/// `.onion`, the ending compared as SQL `LIKE` compares: ASCII letters in
/// either case.
pub open spec fn accepted_address(addr: Seq<char>) -> bool {
    &&& addr.len() == 62
    &&& forall|i: int| 0 <= i < 6 ==> #[trigger] ascii_lower(addr[56 + i]) == ".onion"@[i]
}

/// Whether the peer table accepts the address `addr`.
pub fn valid_peer_address(addr: &str) -> (b: bool)
    ensures
        b == accepted_address(addr@),
{
    let chars = chars_of(addr);
    if chars.len() != 62 {
        return false;
    }
    let ending = chars_of(".onion");
    proof {
        reveal_strlit(".onion");
    }
    let mut i: usize = 0;
    while i < 6
        invariant
            chars@ == addr@,
            chars@.len() == 62,
            ending@ == ".onion"@,
            ending@.len() == 6,
            i <= 6,
            forall|j: int| 0 <= j < i ==> #[trigger] ascii_lower(chars@[56 + j]) == ".onion"@[j],
        decreases 6 - i,
    {
        let c = chars[56 + i];
        let lower = if 'A' <= c && c <= 'Z' {
            ((c as u32) + 32) as u8 as char
        } else {
            c
        };
        assert(lower == ascii_lower(c));
        if lower != ending[i] {
            assert(ascii_lower(addr@[56 + i as int]) != ".onion"@[i as int]);
            return false;
        }
        i = i + 1;
    }
    true
}

} // verus!
