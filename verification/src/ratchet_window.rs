//! Messages of one sending chain may arrive in any order within the skip
//! window: whichever of them comes next is decrypted, and every other one
//! stays deliverable. This holds from the very first message a receiver
//! gets, which also starts its first ratchet step.

use crate::constants::{MAX_SKIP, MAX_SKIPPED_KEYS};
use crate::primitives::{aead_len_ok, dh_agrees, x25519_public, x25519_shared};
use crate::ratchet::{
    bound_ad, chain_message_key, chain_next, decrypt_model, encrypt_model, header_outcome,
    init_receiver_model, init_sender_model, ratchet_step_model, receive_in_chain, sent_opens,
    skip_loop, skip_model, skip_store_key, RatchetError, SessionView,
};
use crate::ratchet_header::{lemma_header_roundtrip, RatchetHeader};
use vstd::prelude::*;

verus! {

/// The chain key `j` steps after `ck`.
pub open spec fn chain_at(ck: Seq<u8>, j: nat) -> Seq<u8>
    decreases j,
{
    if j == 0 {
        ck
    } else {
        chain_next(chain_at(ck, (j - 1) as nat))
    }
}

/// Stepping `x` and then `y` times is stepping `x + y` times.
pub proof fn lemma_chain_at_add(ck: Seq<u8>, x: nat, y: nat)
    ensures
        chain_at(chain_at(ck, x), y) == chain_at(ck, x + y),
    decreases y,
{
    if y > 0 {
        lemma_chain_at_add(ck, x, (y - 1) as nat);
    }
}

/// Stepping from the next chain key is stepping once more.
proof fn lemma_chain_at_shift(ck: Seq<u8>, j: nat)
    ensures
        chain_at(chain_next(ck), j) == chain_at(ck, j + 1),
{
    assert(chain_at(ck, 1) == chain_next(chain_at(ck, 0)));
    lemma_chain_at_add(ck, 1, j);
}

/// Skipping from `s.nr` to `until` with room in the store stores the key of
/// each skipped position under `hk`, and nothing else changes but the
/// position and the receiving chain.
proof fn lemma_skip_loop_stores(s: SessionView, ck: Seq<u8>, hk: Seq<u8>, until: u64)
    requires
        s.nr <= until,
        s.skipped.dom().finite(),
        s.skipped.dom().len() + (until - s.nr) <= MAX_SKIPPED_KEYS,
        forall|p: u64| p >= s.nr ==> !#[trigger] s.skipped.contains_key((hk, p)),
    ensures
        ({
            let (t, r) = skip_loop(s, ck, hk, until);
            &&& r is Ok
            &&& t == SessionView {
                skipped: t.skipped,
                nr: until,
                recv_chain: Some(chain_at(ck, (until - s.nr) as nat)),
                ..s
            }
            &&& t.skipped.dom().finite()
            &&& t.skipped.dom().len() == s.skipped.dom().len() + (until - s.nr)
            &&& forall|k: (Seq<u8>, u64)|
                #[trigger] t.skipped.contains_key(k) <==> (s.skipped.contains_key(k) || (k.0 == hk
                    && s.nr <= k.1 < until))
            &&& forall|k: (Seq<u8>, u64)|
                s.skipped.contains_key(k) ==> #[trigger] t.skipped[k] == s.skipped[k]
            &&& forall|p: u64|
                s.nr <= p < until ==> #[trigger] t.skipped[(hk, p)] == chain_message_key(
                    chain_at(ck, (p - s.nr) as nat),
                )
        }),
    decreases until - s.nr,
{
    if s.nr >= until {
    } else {
        let next = SessionView {
            skipped: s.skipped.insert((hk, s.nr), chain_message_key(ck)),
            nr: (s.nr + 1) as u64,
            ..s
        };
        assert(!s.skipped.contains_key((hk, s.nr)));
        assert(next.skipped.dom() == s.skipped.dom().insert((hk, s.nr)));
        lemma_skip_loop_stores(next, chain_next(ck), hk, until);
        let (t, r) = skip_loop(next, chain_next(ck), hk, until);
        assert(skip_loop(s, ck, hk, until) == (t, r));
        lemma_chain_at_shift(ck, (until - s.nr - 1) as nat);
        assert forall|p: u64| s.nr <= p < until implies #[trigger] t.skipped[(hk, p)]
            == chain_message_key(chain_at(ck, (p - s.nr) as nat)) by {
            if p > s.nr {
                lemma_chain_at_shift(ck, (p - s.nr - 1) as nat);
            } else {
                assert(next.skipped.contains_key((hk, p)));
            }
        }
        assert forall|k: (Seq<u8>, u64)| s.skipped.contains_key(k) implies #[trigger] t.skipped[k]
            == s.skipped[k] by {
            assert(next.skipped.contains_key(k));
        }
    }
}

/// The sender `a` after `j` more messages on its current sending chain.
pub open spec fn sender_after(a: SessionView, j: nat) -> SessionView {
    SessionView { send_chain: Some(chain_at(a.send_chain->Some_0, j)), ns: (a.ns + j) as u64, ..a }
}

/// `b` receives the chain on which `a` sends, from `a`'s position on: it
/// holds `a`'s header key and ratchet key, its receiving chain is the chain
/// at its position, each stored key of a passed position is that
/// position's message key, and nothing is stored at or after its position.
pub open spec fn holds_chain(b: SessionView, a: SessionView) -> bool {
    let hk = a.hk_send->Some_0;
    let ck = a.send_chain->Some_0;
    &&& a.send_chain is Some
    &&& a.hk_send is Some
    &&& b.hk_recv == a.hk_send
    &&& b.their_dh_pub == Some(a.our_dh_pub)
    &&& a.ns <= b.nr
    &&& b.recv_chain == Some(chain_at(ck, (b.nr - a.ns) as nat))
    &&& b.skipped.dom().finite()
    &&& forall|p: u64|
        a.ns <= p < b.nr && #[trigger] b.skipped.contains_key((hk, p)) ==> b.skipped[(hk, p)]
            == chain_message_key(chain_at(ck, (p - a.ns) as nat))
    &&& forall|p: u64| p >= b.nr ==> !#[trigger] b.skipped.contains_key((hk, p))
}

/// The message at position `n` of `a`'s chain can still be delivered to
/// `b`: either it lies ahead, within the skip window and with room in the
/// store for the keys skipped over, or its key is stored.
pub open spec fn deliverable(b: SessionView, a: SessionView, n: u64) -> bool {
    if n >= b.nr {
        &&& n - b.nr <= MAX_SKIP
        &&& b.skipped.dom().len() + (n - b.nr) <= MAX_SKIPPED_KEYS
    } else {
        a.ns <= n && b.skipped.contains_key((a.hk_send->Some_0, n))
    }
}

/// Sending the message at position `a.ns + j` goes on to position
/// `a.ns + j + 1` of the same chain.
pub proof fn lemma_sender_steps(a: SessionView, j: nat, plaintext: Seq<u8>, ad: Seq<u8>)
    requires
        a.send_chain is Some,
        a.hk_send is Some,
        a.ns + j + 1 <= u64::MAX,
        aead_len_ok(plaintext.len()),
    ensures
        encrypt_model(sender_after(a, j), plaintext, ad).0 == sender_after(a, j + 1),
        encrypt_model(sender_after(a, j), plaintext, ad).1 is Ok,
{
}

/// The encrypted header of the message at position `a.ns + j`.
pub open spec fn header_at(a: SessionView, j: nat) -> RatchetHeader {
    RatchetHeader { dh_pub: a.our_dh_pub, pn: a.pn, n: (a.ns + j) as u64 }
}

/// Receiving on the chain, from a position at or before the message's:
/// the keys skipped over are stored, the message decrypts to its
/// plaintext, and the receiver goes on holding the chain.
proof fn lemma_receive_ahead(
    s: SessionView,
    a: SessionView,
    j: nat,
    plaintext: Seq<u8>,
    ad: Seq<u8>,
)
    requires
        holds_chain(s, a),
        a.ns + j + 1 <= u64::MAX,
        a.ns + j >= s.nr,
        deliverable(s, a, (a.ns + j) as u64),
        aead_len_ok(plaintext.len()),
        sent_opens(sender_after(a, j), plaintext, ad),
    ensures
        ({
            let msg = encrypt_model(sender_after(a, j), plaintext, ad).1->Ok_0;
            let (t, r) = receive_in_chain(
                s,
                header_at(a, j),
                msg.payload,
                bound_ad(ad, msg.header),
            );
            let hk = a.hk_send->Some_0;
            let n = (a.ns + j) as u64;
            &&& r == Ok::<Seq<u8>, RatchetError>(plaintext)
            &&& holds_chain(t, a)
            &&& t.nr == n + 1
            &&& t.skipped.dom().len() == s.skipped.dom().len() + (n - s.nr)
            &&& forall|k: (Seq<u8>, u64)|
                #[trigger] t.skipped.contains_key(k) <==> (s.skipped.contains_key(k) || (k.0 == hk
                    && s.nr <= k.1 < n))
        }),
{
    let hk = a.hk_send->Some_0;
    let ck = a.send_chain->Some_0;
    let n = (a.ns + j) as u64;
    let aj = sender_after(a, j);
    let msg = encrypt_model(aj, plaintext, ad).1->Ok_0;
    let ckb = s.recv_chain->Some_0;
    assert(skip_store_key(s.hk_recv) == hk);
    lemma_skip_loop_stores(s, ckb, hk, n);
    let (t0, r0) = skip_loop(s, ckb, hk, n);
    assert(skip_model(s, n) == (t0, r0));
    lemma_chain_at_add(ck, (s.nr - a.ns) as nat, (n - s.nr) as nat);
    assert(t0.recv_chain == Some(chain_at(ck, j)));
    assert forall|p: u64| a.ns <= p < n + 1 && #[trigger] t0.skipped.contains_key((hk, p))
        implies t0.skipped[(hk, p)] == chain_message_key(chain_at(ck, (p - a.ns) as nat)) by {
        if p >= s.nr {
            lemma_chain_at_add(ck, (s.nr - a.ns) as nat, (p - s.nr) as nat);
        }
    }
    lemma_chain_at_shift(chain_at(ck, (n - a.ns) as nat), 0);
}


/// The header of the message at position `a.ns + j` opens under the
/// receiving header key of a receiver holding `a`'s chain.
proof fn lemma_header_opens(b: SessionView, a: SessionView, j: nat, plaintext: Seq<u8>, ad: Seq<u8>)
    requires
        holds_chain(b, a),
        a.ns + j + 1 <= u64::MAX,
        aead_len_ok(plaintext.len()),
        sent_opens(sender_after(a, j), plaintext, ad),
    ensures
        header_outcome(b, encrypt_model(sender_after(a, j), plaintext, ad).1->Ok_0.header)
            == Some((header_at(a, j), a.hk_send->Some_0)),
{
    lemma_header_roundtrip(header_at(a, j));
}

/// Messages of one chain may arrive in any order within the skip window:
/// when `b` holds the chain on which `a` sends, the message at any position
/// still deliverable decrypts to its plaintext, whatever ratchet secret `b`
/// draws. Afterwards `b` still holds the chain, that message is no longer
/// deliverable, and every other message that was deliverable still is.
pub proof fn law_chain_any_order(
    a: SessionView,
    b: SessionView,
    j: nat,
    plaintext: Seq<u8>,
    ad: Seq<u8>,
    fresh: [u8; 32],
)
    requires
        holds_chain(b, a),
        a.ns + j + 1 <= u64::MAX,
        deliverable(b, a, (a.ns + j) as u64),
        aead_len_ok(plaintext.len()),
        sent_opens(sender_after(a, j), plaintext, ad),
    ensures
        ({
            let n = (a.ns + j) as u64;
            let sent = encrypt_model(sender_after(a, j), plaintext, ad).1;
            let (b1, r) = decrypt_model(b, sent->Ok_0, ad, fresh);
            &&& sent is Ok
            &&& r == Ok::<Seq<u8>, RatchetError>(plaintext)
            &&& holds_chain(b1, a)
            &&& !deliverable(b1, a, n)
            &&& forall|m: u64| m != n && deliverable(b, a, m) ==> #[trigger] deliverable(b1, a, m)
        }),
{
    let hk = a.hk_send->Some_0;
    let ck = a.send_chain->Some_0;
    let n = (a.ns + j) as u64;
    lemma_sender_steps(a, j, plaintext, ad);
    lemma_header_opens(b, a, j, plaintext, ad);
    let msg = encrypt_model(sender_after(a, j), plaintext, ad).1->Ok_0;
    let (b1, r) = decrypt_model(b, msg, ad, fresh);
    if n >= b.nr {
        assert(!b.skipped.contains_key((hk, n)));
        lemma_receive_ahead(b, a, j, plaintext, ad);
        assert(b1.nr == n + 1);
        assert forall|m: u64| m != n && deliverable(b, a, m) implies #[trigger] deliverable(b1, a, m) by {
            if m < b.nr {
                assert(b1.skipped.contains_key((hk, m)));
            } else if m < n {
                assert(b1.skipped.contains_key((hk, m)));
            }
        }
    } else {
        assert(b.skipped.contains_key((hk, n)));
        assert(b1.skipped == b.skipped.remove((hk, n)));
        assert(b1.skipped.dom() == b.skipped.dom().remove((hk, n)));
        assert(b1.skipped.dom().len() == b.skipped.dom().len() - 1);
        assert forall|m: u64| m != n && deliverable(b, a, m) implies #[trigger] deliverable(b1, a, m) by {
            if m < b.nr {
                assert(b1.skipped.contains_key((hk, m)));
            }
        }
    }
}


/// The first message a receiver gets may be any of the first `MAX_SKIP + 1`
/// messages of the sender's first chain: it decrypts to its plaintext,
/// whatever ratchet secret the receiver draws for the ratchet step it
/// takes; afterwards the receiver holds the sender's chain, and every other
/// message among those positions is deliverable.
pub proof fn law_first_receipt_any_position(
    shared_secret: [u8; 32],
    bob_dh: [u8; 32],
    alice_dh: [u8; 32],
    j: nat,
    fresh: [u8; 32],
    plaintext: Seq<u8>,
    ad: Seq<u8>,
)
    requires
        j <= MAX_SKIP,
        aead_len_ok(plaintext.len()),
        dh_agrees(alice_dh, x25519_public(bob_dh)),
        sent_opens(
            sender_after(init_sender_model(shared_secret@, x25519_public(bob_dh), alice_dh), j),
            plaintext,
            ad,
        ),
    ensures
        ({
            let alice = init_sender_model(shared_secret@, x25519_public(bob_dh), alice_dh);
            let bob = init_receiver_model(shared_secret@, bob_dh);
            let sent = encrypt_model(sender_after(alice, j), plaintext, ad).1;
            let (bob1, r) = decrypt_model(bob, sent->Ok_0, ad, fresh);
            &&& sent is Ok
            &&& r == Ok::<Seq<u8>, RatchetError>(plaintext)
            &&& holds_chain(bob1, alice)
            &&& bob1.nr == j + 1
            &&& !deliverable(bob1, alice, j as u64)
            &&& forall|m: u64| m != j && m <= MAX_SKIP ==> #[trigger] deliverable(bob1, alice, m)
        }),
{
    let alice = init_sender_model(shared_secret@, x25519_public(bob_dh), alice_dh);
    let bob = init_receiver_model(shared_secret@, bob_dh);
    let hk = alice.hk_send->Some_0;
    lemma_sender_steps(alice, j, plaintext, ad);
    lemma_header_roundtrip(header_at(alice, j));
    let msg = encrypt_model(sender_after(alice, j), plaintext, ad).1->Ok_0;
    assert(header_outcome(bob, msg.header) == Some((header_at(alice, j), hk)));
    assert(!bob.skipped.contains_key((hk, j as u64)));
    assert(skip_model(bob, 0) == (bob, Ok::<(), RatchetError>(())));
    assert(x25519_shared(bob_dh, x25519_public(alice_dh)) == x25519_shared(
        alice_dh,
        x25519_public(bob_dh),
    ));
    let stepped = ratchet_step_model(bob, alice.our_dh_pub, fresh);
    assert(stepped.recv_chain == alice.send_chain);
    assert(stepped.skipped == Map::<(Seq<u8>, u64), Seq<u8>>::empty());
    assert(stepped.skipped.dom() =~= Set::<(Seq<u8>, u64)>::empty());
    assert(holds_chain(stepped, alice));
    lemma_receive_ahead(stepped, alice, j, plaintext, ad);
    let (bob1, r) = decrypt_model(bob, msg, ad, fresh);
    assert(bob1.nr == j + 1);
    assert forall|m: u64| m != j && m <= MAX_SKIP implies #[trigger] deliverable(bob1, alice, m) by {
        if m < j {
            assert(bob1.skipped.contains_key((hk, m)));
        }
    }
}

/// Sending does not disturb receiving: a receiver that holds a chain still
/// holds it after encrypting a message of its own, and the same messages
/// are deliverable.
pub proof fn law_sending_keeps_chain(b: SessionView, a: SessionView, plaintext: Seq<u8>, ad: Seq<u8>)
    requires
        holds_chain(b, a),
    ensures
        holds_chain(encrypt_model(b, plaintext, ad).0, a),
        forall|m: u64|
            deliverable(b, a, m) <==> #[trigger] deliverable(encrypt_model(b, plaintext, ad).0, a, m),
{
}


} // verus!
