//! Pronounceable random names for new peers and groups.

use crate::primitives::{random_flag, random_index, string_of};
use vstd::prelude::*;

verus! {

/// A lowercase vowel.
pub open spec fn is_vowel(c: char) -> bool {
    c == 'a' || c == 'e' || c == 'i' || c == 'o' || c == 'u'
}

/// A lowercase consonant.
pub open spec fn is_consonant(c: char) -> bool {
    'a' <= c <= 'z' && !is_vowel(c)
}

/// Vowels and consonants take turns in `s`.
pub open spec fn alternates(s: Seq<char>) -> bool {
    forall|i: int| 0 <= i < s.len() - 1 ==> is_vowel(#[trigger] s[i]) != is_vowel(s[i + 1])
}

/// The vowels, in alphabetical order.
pub open spec fn vowel_list() -> Seq<char> {
    seq!['a', 'e', 'i', 'o', 'u']
}

/// The consonants, in alphabetical order.
pub open spec fn consonant_list() -> Seq<char> {
    seq![
        'b', 'c', 'd', 'f', 'g', 'h', 'j', 'k', 'l', 'm', 'n', 'p', 'q', 'r', 's', 't', 'v',
        'w', 'x', 'y', 'z',
    ]
}

/// Whether the letter at position `i` is a vowel, when the name starts
/// with a vowel exactly if `first_is_vowel`.
pub open spec fn vowel_turn(first_is_vowel: bool, i: int) -> bool {
    (i % 2 == 0) == first_is_vowel
}

/// Each draw indexes the list of its position's kind of letter.
pub open spec fn draws_fit(first_is_vowel: bool, draws: Seq<usize>) -> bool {
    forall|i: int|
        0 <= i < draws.len() ==> if vowel_turn(first_is_vowel, i) {
            #[trigger] draws[i] < 5
        } else {
            draws[i] < 21
        }
}

/// The name that the draws spell: position `i` takes the vowel or the
/// consonant that `draws[i]` indexes, by turns.
pub open spec fn name_of(first_is_vowel: bool, draws: Seq<usize>) -> Seq<char> {
    Seq::new(
        draws.len(),
        |i: int|
            if vowel_turn(first_is_vowel, i) {
                vowel_list()[draws[i] as int]
            } else {
                consonant_list()[draws[i] as int]
            },
    )
}

/// The name spelled by `draws`, starting with a vowel exactly if
/// `first_is_vowel`: vowels and consonants take turns, each drawn letter
/// taken from its list.
pub fn name_from_draws(first_is_vowel: bool, draws: &[usize]) -> (name: String)
    requires
        draws_fit(first_is_vowel, draws@),
    ensures
        name@ == name_of(first_is_vowel, draws@),
        forall|i: int| 0 <= i < name@.len() ==> 'a' <= #[trigger] name@[i] <= 'z',
        alternates(name@),
{
    let vowels: [char; 5] = ['a', 'e', 'i', 'o', 'u'];
    let consonants: [char; 21] = [
        'b', 'c', 'd', 'f', 'g', 'h', 'j', 'k', 'l', 'm', 'n', 'p', 'q', 'r', 's', 't', 'v',
        'w', 'x', 'y', 'z',
    ];
    assert(vowels@ =~= vowel_list());
    assert(consonants@ =~= consonant_list());
    assert(forall|k: int| 0 <= k < 5 ==> is_vowel(#[trigger] vowel_list()[k]));
    assert(forall|k: int| 0 <= k < 21 ==> is_consonant(#[trigger] consonant_list()[k]));
    let ghost target = name_of(first_is_vowel, draws@);
    let mut letters: Vec<char> = Vec::new();
    let mut next_is_vowel = first_is_vowel;
    let mut i: usize = 0;
    while i < draws.len()
        invariant
            i <= draws.len(),
            target == name_of(first_is_vowel, draws@),
            draws_fit(first_is_vowel, draws@),
            vowels@ == vowel_list(),
            consonants@ == consonant_list(),
            letters@ == target.take(i as int),
            next_is_vowel == vowel_turn(first_is_vowel, i as int),
        decreases draws.len() - i,
    {
        let d = draws[i];
        let c = if next_is_vowel {
            vowels[d]
        } else {
            consonants[d]
        };
        letters.push(c);
        assert(letters@ =~= target.take(i + 1));
        next_is_vowel = !next_is_vowel;
        i = i + 1;
    }
    assert(letters@ =~= target);
    assert forall|k: int| 0 <= k < target.len() implies 'a' <= #[trigger] target[k] <= 'z' by {
        if vowel_turn(first_is_vowel, k) {
            assert(is_vowel(vowel_list()[draws@[k] as int]));
        } else {
            assert(is_consonant(consonant_list()[draws@[k] as int]));
        }
    }
    assert forall|k: int| 0 <= k < target.len() - 1 implies is_vowel(#[trigger] target[k])
        != is_vowel(target[k + 1]) by {
        assert(vowel_turn(first_is_vowel, k) != vowel_turn(first_is_vowel, k + 1));
        if vowel_turn(first_is_vowel, k) {
            assert(is_vowel(vowel_list()[draws@[k] as int]));
            assert(is_consonant(consonant_list()[draws@[k + 1] as int]));
        } else {
            assert(is_consonant(consonant_list()[draws@[k] as int]));
            assert(is_vowel(vowel_list()[draws@[k + 1] as int]));
        }
    }
    string_of(letters.as_slice())
}

/// A name of `len` lowercase letters in which vowels and consonants take
/// turns, starting with either, each letter drawn at random.
pub fn generate_name(len: u8) -> (name: String)
    ensures
        name@.len() == len,
        forall|i: int| 0 <= i < name@.len() ==> 'a' <= #[trigger] name@[i] <= 'z',
        alternates(name@),
        exists|first_is_vowel: bool, draws: Seq<usize>|
            draws.len() == len && draws_fit(first_is_vowel, draws) && name@ == name_of(
                first_is_vowel,
                draws,
            ),
{
    let first_is_vowel = random_flag();
    let mut draws: Vec<usize> = Vec::new();
    let mut vowel_next = first_is_vowel;
    let mut i: u8 = 0;
    while i < len
        invariant
            i <= len,
            draws@.len() == i,
            draws_fit(first_is_vowel, draws@),
            vowel_next == vowel_turn(first_is_vowel, i as int),
        decreases len - i,
    {
        let d = if vowel_next {
            random_index(5)
        } else {
            random_index(21)
        };
        draws.push(d);
        vowel_next = !vowel_next;
        i = i + 1;
    }
    let name = name_from_draws(first_is_vowel, draws.as_slice());
    assert(name@.len() == draws@.len());
    name
}

} // verus!
