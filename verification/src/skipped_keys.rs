//! The store of message keys that were skipped over while receiving, so that
//! messages which arrive late can still be decrypted.

use crate::aead::{KeyMaterial, MessageKey};
use crate::bytes::{keys_equal, lemma_key_of_view};
use crate::constants::MAX_SKIPPED_KEYS;
use crate::ratchet::RatchetError;
use vstd::prelude::*;

verus! {

/// One stored key: the header key of the chain it belongs to, the message
/// number, and the message key.
struct SkippedEntry {
    hk: KeyMaterial,
    n: u64,
    mk: MessageKey,
}

/// What a stored key is found by.
spec fn entry_key(e: SkippedEntry) -> (Seq<u8>, u64) {
    (e.hk@, e.n)
}

/// Skipped message keys, found by (header key, message number). Its model is
/// a finite map; at most one key is stored per (header key, message number).
pub struct SkippedKeys {
    entries: Vec<SkippedEntry>,
    model: Ghost<Map<(Seq<u8>, u64), Seq<u8>>>,
}

impl View for SkippedKeys {
    type V = Map<(Seq<u8>, u64), Seq<u8>>;

    closed spec fn view(&self) -> Map<(Seq<u8>, u64), Seq<u8>> {
        self.model@
    }
}

impl SkippedKeys {
    /// The stored entries and the model agree, with no key stored twice.
    pub closed spec fn wf(&self) -> bool {
        let e = self.entries@;
        let m = self.model@;
        &&& m.dom().finite()
        &&& e.len() == m.dom().len()
        &&& forall|i: int|
            0 <= i < e.len() ==> #[trigger] m.contains_key(entry_key(e[i])) && m[entry_key(e[i])]
                == e[i].mk@
        &&& forall|i: int, j: int|
            0 <= i < j < e.len() ==> entry_key(#[trigger] e[i]) != entry_key(#[trigger] e[j])
        &&& forall|k: (Seq<u8>, u64)|
            #[trigger] m.contains_key(k) ==> exists|i: int|
                0 <= i < e.len() && entry_key(#[trigger] e[i]) == k
    }

    /// The number of stored keys.
    pub open spec fn count(&self) -> nat {
        self@.dom().len()
    }

    /// An empty store.
    pub fn new() -> (s: Self)
        ensures
            s.wf(),
            s@ == Map::<(Seq<u8>, u64), Seq<u8>>::empty(),
    {
        Self { entries: Vec::new(), model: Ghost(Map::empty()) }
    }

    /// The position of the entry stored under (`hk`, `n`), if any.
    fn find(&self, hk: &KeyMaterial, n: u64) -> (r: Option<usize>)
        requires
            self.wf(),
        ensures
            match r {
                Some(i) => i < self.entries@.len() && entry_key(self.entries@[i as int]) == (
                hk@,
                n,
                ),
                None => !self@.contains_key((hk@, n)),
            },
    {
        let len = self.entries.len();
        let mut i: usize = 0;
        while i < len
            invariant
                len == self.entries@.len(),
                i <= len,
                forall|j: int| 0 <= j < i ==> entry_key(#[trigger] self.entries@[j]) != (hk@, n),
            decreases len - i,
        {
            let e = &self.entries[i];
            if e.n == n && keys_equal(&e.hk, hk) {
                return Some(i);
            }
            proof {
                if e.hk@ == hk@ {
                    lemma_key_of_view(e.hk);
                    lemma_key_of_view(*hk);
                }
            }
            i = i + 1;
        }
        proof {
            if self@.contains_key((hk@, n)) {
                let j = choose|j: int|
                    0 <= j < self.entries@.len() && entry_key(#[trigger] self.entries@[j]) == (
                    hk@,
                    n,
                    );
                assert(entry_key(self.entries@[j]) != (hk@, n));
            }
        }
        None
    }

    /// Takes out the key stored under (`hk`, `n`), if any.
    pub fn get_and_remove(&mut self, hk: &KeyMaterial, n: u64) -> (r: Option<MessageKey>)
        requires
            old(self).wf(),
        ensures
            final(self).wf(),
            final(self)@ == old(self)@.remove((hk@, n)),
            final(self).count() <= old(self).count(),
            match r {
                Some(mk) => old(self)@.contains_key((hk@, n)) && mk@ == old(self)@[(hk@, n)],
                None => !old(self)@.contains_key((hk@, n)),
            },
    {
        match self.find(hk, n) {
            None => {
                proof {
                    assert(self.model@.remove((hk@, n)) =~= self.model@);
                }
                None
            },
            Some(i) => {
                let ghost old_e = self.entries@;
                let ghost old_m = self.model@;
                let ghost k = (hk@, n);
                let e = self.entries.swap_remove(i);
                self.model = Ghost(old_m.remove(k));
                proof {
                    let ne = self.entries@;
                    let nm = self.model@;
                    let last = old_e.len() - 1;
                    assert(old_m.dom().contains(k));
                    assert(nm.dom() =~= old_m.dom().remove(k));
                    assert forall|j: int| 0 <= j < ne.len() implies #[trigger] nm.contains_key(
                        entry_key(ne[j]),
                    ) && nm[entry_key(ne[j])] == ne[j].mk@ by {
                        if j == i {
                            assert(ne[j] == old_e[last]);
                            assert(entry_key(old_e[i as int]) != entry_key(old_e[last]));
                            assert(old_m.contains_key(entry_key(old_e[last])));
                        } else {
                            assert(ne[j] == old_e[j]);
                            if j < i {
                                assert(entry_key(old_e[j]) != entry_key(old_e[i as int]));
                            } else {
                                assert(entry_key(old_e[i as int]) != entry_key(old_e[j]));
                            }
                            assert(old_m.contains_key(entry_key(old_e[j])));
                        }
                    }
                    assert forall|a: int, b: int| 0 <= a < b < ne.len() implies entry_key(
                        #[trigger] ne[a],
                    ) != entry_key(#[trigger] ne[b]) by {
                        let oa = if a == i {
                            last
                        } else {
                            a
                        };
                        let ob = if b == i {
                            last
                        } else {
                            b
                        };
                        assert(ne[a] == old_e[oa]);
                        assert(ne[b] == old_e[ob]);
                        assert(oa != ob);
                        if oa < ob {
                            assert(entry_key(old_e[oa]) != entry_key(old_e[ob]));
                        } else {
                            assert(entry_key(old_e[ob]) != entry_key(old_e[oa]));
                        }
                    }
                    assert forall|kk: (Seq<u8>, u64)| #[trigger] nm.contains_key(kk) implies exists|
                        j: int,
                    |
                        0 <= j < ne.len() && entry_key(#[trigger] ne[j]) == kk by {
                        assert(old_m.contains_key(kk));
                        let j0 = choose|j: int|
                            0 <= j < old_e.len() && entry_key(#[trigger] old_e[j]) == kk;
                        assert(j0 != i);
                        if j0 == last {
                            assert(ne[i as int] == old_e[last]);
                        } else {
                            assert(ne[j0] == old_e[j0]);
                        }
                    }
                }
                Some(e.mk)
            },
        }
    }

    /// Stores `mk` under (`hk`, `n`), replacing what was stored there. Fails,
    /// storing nothing, once the store holds the maximum number of keys.
    pub fn insert(&mut self, hk: KeyMaterial, n: u64, mk: MessageKey) -> (r: Result<
        (),
        RatchetError,
    >)
        requires
            old(self).wf(),
        ensures
            final(self).wf(),
            final(self).count() <= old(self).count() + 1,
            r is Err <==> old(self).count() >= MAX_SKIPPED_KEYS,
            r matches Err(e) ==> e == RatchetError::SkippedKeysFull && final(self)@ == old(
                self,
            )@,
            r is Ok ==> final(self)@ == old(self)@.insert((hk@, n), mk@),
    {
        if self.entries.len() >= MAX_SKIPPED_KEYS {
            return Err(RatchetError::SkippedKeysFull);
        }
        let ghost old_e = self.entries@;
        let ghost old_m = self.model@;
        let ghost k = (hk@, n);
        let ghost v = mk@;
        match self.find(&hk, n) {
            Some(i) => {
                let _ = self.entries.swap_remove(i);
                self.entries.push(SkippedEntry { hk, n, mk });
                self.model = Ghost(old_m.insert(k, v));
                proof {
                    let ne = self.entries@;
                    let nm = self.model@;
                    let last = old_e.len() - 1;
                    let top = ne.len() - 1;
                    assert(old_m.dom().contains(k));
                    assert(nm.dom() =~= old_m.dom());
                    assert(entry_key(ne[top]) == k);
                    assert forall|j: int| 0 <= j < ne.len() implies #[trigger] nm.contains_key(
                        entry_key(ne[j]),
                    ) && nm[entry_key(ne[j])] == ne[j].mk@ by {
                        if j == top {
                        } else if j == i {
                            assert(ne[j] == old_e[last]);
                            assert(entry_key(old_e[i as int]) != entry_key(old_e[last]));
                            assert(old_m.contains_key(entry_key(old_e[last])));
                        } else {
                            assert(ne[j] == old_e[j]);
                            if j < i {
                                assert(entry_key(old_e[j]) != entry_key(old_e[i as int]));
                            } else {
                                assert(entry_key(old_e[i as int]) != entry_key(old_e[j]));
                            }
                            assert(old_m.contains_key(entry_key(old_e[j])));
                        }
                    }
                    assert forall|a: int, b: int| 0 <= a < b < ne.len() implies entry_key(
                        #[trigger] ne[a],
                    ) != entry_key(#[trigger] ne[b]) by {
                        if b == top {
                            let oa = if a == i {
                                last
                            } else {
                                a
                            };
                            assert(ne[a] == old_e[oa]);
                            assert(oa != i);
                            if oa < i {
                                assert(entry_key(old_e[oa]) != entry_key(old_e[i as int]));
                            } else {
                                assert(entry_key(old_e[i as int]) != entry_key(old_e[oa]));
                            }
                        } else {
                            let oa = if a == i {
                                last
                            } else {
                                a
                            };
                            let ob = if b == i {
                                last
                            } else {
                                b
                            };
                            assert(ne[a] == old_e[oa]);
                            assert(ne[b] == old_e[ob]);
                            if oa < ob {
                                assert(entry_key(old_e[oa]) != entry_key(old_e[ob]));
                            } else {
                                assert(entry_key(old_e[ob]) != entry_key(old_e[oa]));
                            }
                        }
                    }
                    assert forall|kk: (Seq<u8>, u64)| #[trigger] nm.contains_key(kk) implies exists|
                        j: int,
                    |
                        0 <= j < ne.len() && entry_key(#[trigger] ne[j]) == kk by {
                        if kk == k {
                            assert(entry_key(ne[top]) == kk);
                        } else {
                            assert(old_m.contains_key(kk));
                            let j0 = choose|j: int|
                                0 <= j < old_e.len() && entry_key(#[trigger] old_e[j]) == kk;
                            assert(j0 != i);
                            if j0 == last {
                                assert(ne[i as int] == old_e[last]);
                            } else {
                                assert(ne[j0] == old_e[j0]);
                            }
                        }
                    }
                }
            },
            None => {
                self.entries.push(SkippedEntry { hk, n, mk });
                self.model = Ghost(old_m.insert(k, v));
                proof {
                    let ne = self.entries@;
                    let nm = self.model@;
                    let top = ne.len() - 1;
                    assert(!old_m.dom().contains(k));
                    assert(nm.dom() =~= old_m.dom().insert(k));
                    assert(entry_key(ne[top]) == k);
                    assert forall|j: int| 0 <= j < ne.len() implies #[trigger] nm.contains_key(
                        entry_key(ne[j]),
                    ) && nm[entry_key(ne[j])] == ne[j].mk@ by {
                        if j != top {
                            assert(ne[j] == old_e[j]);
                            assert(old_m.contains_key(entry_key(old_e[j])));
                        }
                    }
                    assert forall|a: int, b: int| 0 <= a < b < ne.len() implies entry_key(
                        #[trigger] ne[a],
                    ) != entry_key(#[trigger] ne[b]) by {
                        assert(ne[a] == old_e[a]);
                        if b == top {
                            assert(old_m.contains_key(entry_key(old_e[a])));
                        } else {
                            assert(ne[b] == old_e[b]);
                        }
                    }
                    assert forall|kk: (Seq<u8>, u64)| #[trigger] nm.contains_key(kk) implies exists|
                        j: int,
                    |
                        0 <= j < ne.len() && entry_key(#[trigger] ne[j]) == kk by {
                        if kk == k {
                            assert(entry_key(ne[top]) == kk);
                        } else {
                            assert(old_m.contains_key(kk));
                            let j0 = choose|j: int|
                                0 <= j < old_e.len() && entry_key(#[trigger] old_e[j]) == kk;
                            assert(ne[j0] == old_e[j0]);
                        }
                    }
                }
            },
        }
        Ok(())
    }

    /// The number of stored keys.
    pub fn len(&self) -> (r: usize)
        requires
            self.wf(),
        ensures
            r == self.count(),
    {
        self.entries.len()
    }
}

} // verus!
