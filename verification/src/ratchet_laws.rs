//! What a pair of ratchet sessions promises each other: a message that one
//! side encrypts, the other side decrypts.
//!
//! These laws rest on two properties of the primitives, which the trusted
//! wrappers state for each call they make: ChaCha20-Poly1305 opens what it
//! sealed (`sent_opens`, which `encrypt` states of the message it sends),
//! and X25519 gives both parties the same shared secret (`dh_agrees`, which
//! starting a sender and taking a ratchet step state of the keys they
//! combine).

use crate::aead::nonce_of;
use crate::primitives::{
    aead_len_ok, aead_open, aead_seal, dh_agrees, x25519_public, x25519_shared,
};
use crate::ratchet::{
    bound_ad, chain_message_key, decrypt_model, encrypt_model, header_outcome,
    init_receiver_model, init_sender_model, ratchet_step_model, root_output, skip_model, third,
    RatchetError, SessionView, skip_loop, chain_next, open_header_with, skip_store_key,
    lemma_skip_loop_done, sent_opens, takes_step,
};
use crate::aead::SealedView;
use crate::bytes::{lemma_u32_be_injective, lemma_u64_be_roundtrip, u32_be, u64_be};
use crate::constants::INFO_BOB_RATCHET;
use crate::primitives::hkdf_sha256;
use vstd::string::StringSliceAdditionalSpecFns;
use crate::constants::MAX_SKIPPED_KEYS;
use crate::ratchet_header::{lemma_header_roundtrip, RatchetHeader};
use vstd::prelude::*;

verus! {

/// The associated data bound to a payload determines both the caller's
/// data and the encrypted header: two bindings are equal only when the
/// data and the headers are, as long as the data is shorter than 2^32
/// bytes (its length prefix holds 32 bits).
pub proof fn law_bound_ad_is_unambiguous(
    ad1: Seq<u8>,
    h1: SealedView,
    ad2: Seq<u8>,
    h2: SealedView,
)
    requires
        ad1.len() < 0x1_0000_0000,
        ad2.len() < 0x1_0000_0000,
        bound_ad(ad1, h1) == bound_ad(ad2, h2),
    ensures
        ad1 == ad2,
        h1 == h2,
{
    let b = bound_ad(ad1, h1);
    let l1 = ad1.len() as int;
    let l2 = ad2.len() as int;
    assert(b.subrange(0, 4) =~= u32_be(ad1.len() as u32));
    assert(b.subrange(0, 4) =~= u32_be(ad2.len() as u32));
    lemma_u32_be_injective(ad1.len() as u32, ad2.len() as u32);
    assert(l1 == l2);
    assert(b.subrange(4, 4 + l1) =~= ad1);
    assert(b.subrange(4, 4 + l2) =~= ad2);
    assert(b.subrange(4 + l1, 12 + l1) =~= u64_be(h1.nonce));
    assert(b.subrange(4 + l2, 12 + l2) =~= u64_be(h2.nonce));
    lemma_u64_be_roundtrip(h1.nonce);
    lemma_u64_be_roundtrip(h2.nonce);
    assert(b.subrange(12 + l1, b.len() as int) =~= h1.ciphertext);
    assert(b.subrange(12 + l2, b.len() as int) =~= h2.ciphertext);
}

/// A receiver started with ratchet secret `bob_dh`, and a sender started
/// towards its public key with the same shared secret, are in step: the
/// receiver decrypts the sender's first message to its plaintext, whatever
/// ratchet secret it draws.
pub proof fn law_first_message_delivered(
    shared_secret: [u8; 32],
    bob_dh: [u8; 32],
    alice_dh: [u8; 32],
    fresh: [u8; 32],
    plaintext: Seq<u8>,
    ad: Seq<u8>,
)
    requires
        aead_len_ok(plaintext.len()),
        dh_agrees(alice_dh, x25519_public(bob_dh)),
        sent_opens(
            init_sender_model(shared_secret@, x25519_public(bob_dh), alice_dh),
            plaintext,
            ad,
        ),
    ensures
        ({
            let alice = init_sender_model(shared_secret@, x25519_public(bob_dh), alice_dh);
            let bob = init_receiver_model(shared_secret@, bob_dh);
            let sent = encrypt_model(alice, plaintext, ad).1;
            &&& sent is Ok
            &&& decrypt_model(bob, sent->Ok_0, ad, fresh).1 == Ok::<Seq<u8>, RatchetError>(
                plaintext,
            )
        }),
{
    let alice = init_sender_model(shared_secret@, x25519_public(bob_dh), alice_dh);
    let bob = init_receiver_model(shared_secret@, bob_dh);
    let header = RatchetHeader { dh_pub: alice.our_dh_pub, pn: 0, n: 0 };
    lemma_header_roundtrip(header);
    assert(aead_len_ok(header.encoding().len()));
    assert(x25519_shared(bob_dh, x25519_public(alice_dh)) == x25519_shared(
        alice_dh,
        x25519_public(bob_dh),
    ));
    let hk = alice.hk_send->Some_0;
    assert(aead_open(hk, nonce_of(0), aead_seal(hk, nonce_of(0), header.encoding(), seq![]), seq![])
        == Some(header.encoding()));
}

/// The conversation goes on in both directions: after the receiver has
/// decrypted the sender's first message, the receiver's reply is decrypted
/// by the sender. This fails only when the receiver's new ratchet key
/// happens to equal its initial one, so that the sender sees no new key.
pub proof fn law_reply_delivered(
    shared_secret: [u8; 32],
    bob_dh: [u8; 32],
    alice_dh: [u8; 32],
    bob_fresh: [u8; 32],
    alice_fresh: [u8; 32],
    first: Seq<u8>,
    first_ad: Seq<u8>,
    reply: Seq<u8>,
    reply_ad: Seq<u8>,
)
    requires
        aead_len_ok(first.len()),
        aead_len_ok(reply.len()),
        x25519_public(bob_fresh) != x25519_public(bob_dh),
        dh_agrees(alice_dh, x25519_public(bob_dh)),
        ({
            let alice0 = init_sender_model(shared_secret@, x25519_public(bob_dh), alice_dh);
            let bob0 = init_receiver_model(shared_secret@, bob_dh);
            let sent = encrypt_model(alice0, first, first_ad).1;
            let bob1 = decrypt_model(bob0, sent->Ok_0, first_ad, bob_fresh).0;
            &&& sent_opens(alice0, first, first_ad)
            &&& takes_step(bob0, sent->Ok_0) matches Some(k) ==> dh_agrees(bob_fresh, k)
            &&& sent_opens(bob1, reply, reply_ad)
        }),
    ensures
        ({
            let alice0 = init_sender_model(shared_secret@, x25519_public(bob_dh), alice_dh);
            let bob0 = init_receiver_model(shared_secret@, bob_dh);
            let (alice1, sent) = encrypt_model(alice0, first, first_ad);
            let (bob1, _) = decrypt_model(bob0, sent->Ok_0, first_ad, bob_fresh);
            let answer = encrypt_model(bob1, reply, reply_ad).1;
            &&& answer is Ok
            &&& decrypt_model(alice1, answer->Ok_0, reply_ad, alice_fresh).1 == Ok::<
                Seq<u8>,
                RatchetError,
            >(reply)
        }),
{
    law_first_message_delivered(shared_secret, bob_dh, alice_dh, bob_fresh, first, first_ad);
    let alice0 = init_sender_model(shared_secret@, x25519_public(bob_dh), alice_dh);
    let bob0 = init_receiver_model(shared_secret@, bob_dh);
    let (alice1, sent) = encrypt_model(alice0, first, first_ad);
    let (bob1, _) = decrypt_model(bob0, sent->Ok_0, first_ad, bob_fresh);
    let first_header = RatchetHeader { dh_pub: x25519_public(alice_dh), pn: 0, n: 0 };
    lemma_header_roundtrip(first_header);
    assert(aead_len_ok(first_header.encoding().len()));
    let hks = alice0.hk_send->Some_0;
    assert(aead_open(
        hks,
        nonce_of(0),
        aead_seal(hks, nonce_of(0), first_header.encoding(), seq![]),
        seq![],
    ) == Some(first_header.encoding()));
    assert(header_outcome(bob0, sent->Ok_0.header) == Some((first_header, hks)));
    assert(skip_model(bob0, 0) == (bob0, Ok::<(), RatchetError>(())));
    assert(takes_step(bob0, sent->Ok_0) == Some(x25519_public(alice_dh)));
    let header = RatchetHeader { dh_pub: x25519_public(bob_fresh), pn: 0, n: 0 };
    lemma_header_roundtrip(header);
    assert(aead_len_ok(header.encoding().len()));
    assert(bob1.hk_send == alice1.nhk_recv);
    assert(bob1.our_dh_pub == x25519_public(bob_fresh));
    assert(x25519_shared(alice_dh, x25519_public(bob_fresh)) == x25519_shared(
        bob_fresh,
        x25519_public(alice_dh),
    ));
    let hk = bob1.hk_send->Some_0;
    assert(aead_open(hk, nonce_of(0), aead_seal(hk, nonce_of(0), header.encoding(), seq![]), seq![])
        == Some(header.encoding()));
    assert(bob1.send_chain is Some);
    assert(bob1.ns == 0 && bob1.pn == 0);
    let (bob2, answer) = encrypt_model(bob1, reply, reply_ad);
    assert(answer is Ok);
    let msg = answer->Ok_0;
    assert(alice1.hk_recv is None);
    assert(header_outcome(alice1, msg.header) == Some((header, hk)));
    assert(!alice1.skipped.contains_key((hk, 0u64)));
    assert(alice1.their_dh_pub == Some(x25519_public(bob_dh)));
    assert(skip_model(alice1, 0) == (alice1, Ok::<(), RatchetError>(())));
    assert(x25519_shared(bob_dh, x25519_public(alice_dh)) == x25519_shared(
        alice_dh,
        x25519_public(bob_dh),
    ));
    let bob_step = ratchet_step_model(bob0, x25519_public(alice_dh), bob_fresh);
    let m1 = root_output(bob0.root, x25519_shared(bob_dh, x25519_public(alice_dh))@);
    assert(third(m1, 0) == alice1.root);
    assert(bob1.send_chain == bob_step.send_chain);
    let stepped = ratchet_step_model(alice1, x25519_public(bob_fresh), alice_fresh);
    assert(stepped.recv_chain == bob1.send_chain);
}

/// A sender `a` and a receiver `b` are in step on one chain: the receiver
/// holds the sender's sending chain and header key, expects the sender's
/// next message number, knows the sender's ratchet key, and holds no skipped
/// key of this chain at or after that number.
pub open spec fn in_step(a: SessionView, b: SessionView) -> bool {
    &&& a.send_chain is Some
    &&& a.hk_send is Some
    &&& b.recv_chain == a.send_chain
    &&& b.hk_recv == a.hk_send
    &&& b.nr == a.ns
    &&& b.their_dh_pub == Some(a.our_dh_pub)
    &&& forall|n: u64| n >= b.nr ==> !#[trigger] b.skipped.contains_key((a.hk_send->Some_0, n))
}

/// Messages on a chain arrive in order: when the two sides are in step, the
/// receiver decrypts the sender's next message to its plaintext, whatever
/// ratchet secret it draws, and the two sides stay in step; a ratchet step
/// of the receiver that is ready for the sender stays ready.
pub proof fn law_chain_delivery(
    a: SessionView,
    b: SessionView,
    plaintext: Seq<u8>,
    ad: Seq<u8>,
    fresh: [u8; 32],
)
    requires
        in_step(a, b),
        a.ns < u64::MAX,
        aead_len_ok(plaintext.len()),
        sent_opens(a, plaintext, ad),
    ensures
        ({
            let (a1, sent) = encrypt_model(a, plaintext, ad);
            &&& sent is Ok
            &&& decrypt_model(b, sent->Ok_0, ad, fresh).1 == Ok::<Seq<u8>, RatchetError>(plaintext)
            &&& in_step(a1, decrypt_model(b, sent->Ok_0, ad, fresh).0)
            &&& turn_ready(b, a) ==> turn_ready(decrypt_model(b, sent->Ok_0, ad, fresh).0, a1)
        }),
{
    let hk = a.hk_send->Some_0;
    let ck = a.send_chain->Some_0;
    let header = RatchetHeader { dh_pub: a.our_dh_pub, pn: a.pn, n: a.ns };
    lemma_header_roundtrip(header);
    assert(aead_len_ok(header.encoding().len()));
    assert(aead_open(hk, nonce_of(a.ns), aead_seal(hk, nonce_of(a.ns), header.encoding(), seq![]), seq![])
        == Some(header.encoding()));
    let (a1, sent) = encrypt_model(a, plaintext, ad);
    let msg = sent->Ok_0;
    assert(header_outcome(b, msg.header) == Some((header, hk)));
    assert(!b.skipped.contains_key((hk, a.ns)));
    assert(skip_model(b, a.ns) == (b, Ok::<(), RatchetError>(())));
    let mk = chain_message_key(ck);
    let aad = bound_ad(ad, msg.header);
    assert(aead_open(mk, nonce_of(a.ns), aead_seal(mk, nonce_of(a.ns), plaintext, aad), aad) == Some(
        plaintext,
    ));
    let b1 = decrypt_model(b, msg, ad, fresh).0;
    assert(b1.skipped == b.skipped);
    assert(b1.nr == a1.ns);
}

/// After the first message, the sender and the receiver are in step, so
/// that every further message of the sender's chain is delivered in turn
/// (`law_chain_delivery`); and the receiver's own ratchet step is ready for
/// its reply (`law_turn_delivery`) unless its fresh ratchet key happens to
/// equal its initial one.
pub proof fn law_first_message_starts_chain(
    shared_secret: [u8; 32],
    bob_dh: [u8; 32],
    alice_dh: [u8; 32],
    fresh: [u8; 32],
    plaintext: Seq<u8>,
    ad: Seq<u8>,
)
    requires
        aead_len_ok(plaintext.len()),
        dh_agrees(alice_dh, x25519_public(bob_dh)),
        ({
            let alice = init_sender_model(shared_secret@, x25519_public(bob_dh), alice_dh);
            let bob = init_receiver_model(shared_secret@, bob_dh);
            let sent = encrypt_model(alice, plaintext, ad).1;
            &&& sent_opens(alice, plaintext, ad)
            &&& takes_step(bob, sent->Ok_0) matches Some(k) ==> dh_agrees(fresh, k)
        }),
    ensures
        ({
            let alice = init_sender_model(shared_secret@, x25519_public(bob_dh), alice_dh);
            let bob = init_receiver_model(shared_secret@, bob_dh);
            let (alice1, sent) = encrypt_model(alice, plaintext, ad);
            let bob1 = decrypt_model(bob, sent->Ok_0, ad, fresh).0;
            &&& in_step(alice1, bob1)
            &&& x25519_public(fresh) != x25519_public(bob_dh) ==> turn_ready(bob1, alice1)
        }),
{
    law_first_message_delivered(shared_secret, bob_dh, alice_dh, fresh, plaintext, ad);
    let alice = init_sender_model(shared_secret@, x25519_public(bob_dh), alice_dh);
    let bob = init_receiver_model(shared_secret@, bob_dh);
    let header = RatchetHeader { dh_pub: alice.our_dh_pub, pn: 0, n: 0 };
    lemma_header_roundtrip(header);
    assert(aead_len_ok(header.encoding().len()));
    let hk = alice.hk_send->Some_0;
    assert(aead_open(hk, nonce_of(0), aead_seal(hk, nonce_of(0), header.encoding(), seq![]), seq![])
        == Some(header.encoding()));
    let (alice1, sent) = encrypt_model(alice, plaintext, ad);
    assert(header_outcome(bob, sent->Ok_0.header) == Some((header, hk)));
    assert(skip_model(bob, 0) == (bob, Ok::<(), RatchetError>(())));
    assert(x25519_shared(bob_dh, x25519_public(alice_dh)) == x25519_shared(
        alice_dh,
        x25519_public(bob_dh),
    ));
    let stepped = ratchet_step_model(bob, alice.our_dh_pub, fresh);
    assert(stepped.recv_chain == alice.send_chain);
    assert(skip_model(stepped, 0) == (stepped, Ok::<(), RatchetError>(())));
    let bob1 = decrypt_model(bob, sent->Ok_0, ad, fresh).0;
    assert(bob1.skipped == Map::<(Seq<u8>, u64), Seq<u8>>::empty());
    assert(x25519_shared(alice_dh, x25519_public(fresh)) == x25519_shared(
        fresh,
        x25519_public(alice_dh),
    ));
}

/// Messages on a chain may arrive out of order: when the two sides are in
/// step and the receiver's store of skipped keys has room, the sender's next
/// two messages, received second first, both decrypt to their plaintexts;
/// afterwards the two sides are in step again.
pub proof fn law_out_of_order_delivery(
    a: SessionView,
    b: SessionView,
    first: Seq<u8>,
    second: Seq<u8>,
    ad: Seq<u8>,
    fresh1: [u8; 32],
    fresh2: [u8; 32],
)
    requires
        in_step(a, b),
        a.ns < u64::MAX - 1,
        b.skipped.dom().len() < MAX_SKIPPED_KEYS,
        aead_len_ok(first.len()),
        aead_len_ok(second.len()),
        sent_opens(a, first, ad),
        sent_opens(encrypt_model(a, first, ad).0, second, ad),
    ensures
        ({
            let (a1, m1) = encrypt_model(a, first, ad);
            let (a2, m2) = encrypt_model(a1, second, ad);
            let (b1, r2) = decrypt_model(b, m2->Ok_0, ad, fresh1);
            let (b2, r1) = decrypt_model(b1, m1->Ok_0, ad, fresh2);
            &&& m1 is Ok
            &&& m2 is Ok
            &&& r2 == Ok::<Seq<u8>, RatchetError>(second)
            &&& r1 == Ok::<Seq<u8>, RatchetError>(first)
            &&& in_step(a2, b2)
        }),
{
    let hk = a.hk_send->Some_0;
    let ck = a.send_chain->Some_0;
    let k = a.ns;
    let h1 = RatchetHeader { dh_pub: a.our_dh_pub, pn: a.pn, n: k };
    let h2 = RatchetHeader { dh_pub: a.our_dh_pub, pn: a.pn, n: (k + 1) as u64 };
    lemma_header_roundtrip(h1);
    lemma_header_roundtrip(h2);
    assert(aead_len_ok(h1.encoding().len()));
    assert(aead_open(hk, nonce_of(k), aead_seal(hk, nonce_of(k), h1.encoding(), seq![]), seq![])
        == Some(h1.encoding()));
    assert(aead_open(
        hk,
        nonce_of((k + 1) as u64),
        aead_seal(hk, nonce_of((k + 1) as u64), h2.encoding(), seq![]),
        seq![],
    ) == Some(h2.encoding()));
    let (a1, m1) = encrypt_model(a, first, ad);
    let (a2, m2) = encrypt_model(a1, second, ad);
    let msg1 = m1->Ok_0;
    let msg2 = m2->Ok_0;
    assert(a1.send_chain == Some(chain_next(ck)));
    assert(header_outcome(b, msg2.header) == Some((h2, hk)));
    assert(!b.skipped.contains_key((hk, (k + 1) as u64)));
    let stored = b.skipped.insert((hk, k), chain_message_key(ck));
    let after_skip = SessionView { skipped: stored, nr: (k + 1) as u64, ..b };
    assert(skip_loop(after_skip, chain_next(ck), hk, (k + 1) as u64) == (
        SessionView { recv_chain: Some(chain_next(ck)), ..after_skip },
        Ok::<(), RatchetError>(()),
    ));
    assert(skip_loop(b, ck, hk, (k + 1) as u64) == skip_loop(after_skip, chain_next(ck), hk, (k + 1) as u64));
    let mk2 = chain_message_key(chain_next(ck));
    let aad2 = bound_ad(ad, msg2.header);
    assert(aead_open(mk2, nonce_of((k + 1) as u64), aead_seal(mk2, nonce_of((k + 1) as u64), second, aad2), aad2)
        == Some(second));
    let (b1, r2) = decrypt_model(b, msg2, ad, fresh1);
    assert(b1.skipped == stored);
    assert(b1.hk_recv == Some(hk));
    assert(header_outcome(b1, msg1.header) == Some((h1, hk)));
    assert(stored.contains_key((hk, k)));
    let mk1 = chain_message_key(ck);
    let aad1 = bound_ad(ad, msg1.header);
    assert(aead_open(mk1, nonce_of(k), aead_seal(mk1, nonce_of(k), first, aad1), aad1) == Some(first));
    let (b2, r1) = decrypt_model(b1, msg1, ad, fresh2);
    assert(b2.skipped =~= b.skipped);
}

/// The encrypted header of the next message that `a` sends.
pub open spec fn next_header(a: SessionView) -> SealedView {
    SealedView {
        nonce: a.ns,
        ciphertext: aead_seal(
            a.hk_send->Some_0,
            nonce_of(a.ns),
            RatchetHeader { dh_pub: a.our_dh_pub, pn: a.pn, n: a.ns }.encoding(),
            seq![],
        ),
    }
}

/// `x` has taken a ratchet step towards `y`'s ratchet key that `y` has not
/// seen yet: `x`'s new root and sending chain are what `y` derives on
/// seeing `x`'s new key, `y` expects `x`'s header key next, `x` expects
/// `y`'s next header key, and each side has received all that the other
/// sent on its current chain.
pub open spec fn turn_ready(x: SessionView, y: SessionView) -> bool {
    let m = root_output(y.root, x25519_shared(y.our_dh, x.our_dh_pub)@);
    &&& x.root == third(m, 0)
    &&& x.send_chain == Some(third(m, 1))
    &&& x.nhk_send == Some(third(m, 2))
    &&& x.hk_send is Some
    &&& y.nhk_recv == x.hk_send
    &&& y.nhk_send is Some
    &&& x.nhk_recv == y.nhk_send
    &&& x.ns == 0
    &&& x.our_dh_pub == x25519_public(x.our_dh)
    &&& y.our_dh_pub == x25519_public(y.our_dh)
    &&& x.their_dh_pub == Some(y.our_dh_pub)
    &&& y.their_dh_pub != Some(x.our_dh_pub)
    &&& y.nr >= x.pn
    &&& x.nr >= y.ns
}

/// The conversation changes direction: when `a` has taken a ratchet step
/// that `b` has not seen, `b` decrypts `a`'s first message on the new
/// chain to its plaintext, taking a ratchet step of its own with `fresh`;
/// afterwards `a` and `b` are in step on the new chain and `b`'s step is
/// ready for `a`. It needs that `b` stores no skipped key under `a`'s
/// header key, that `b`'s current header key does not open `a`'s new
/// header, and that `fresh` gives a ratchet key other than `b`'s current
/// one.
pub proof fn law_turn_delivery(
    a: SessionView,
    b: SessionView,
    plaintext: Seq<u8>,
    ad: Seq<u8>,
    fresh: [u8; 32],
)
    requires
        sent_opens(a, plaintext, ad),
        takes_step(b, encrypt_model(a, plaintext, ad).1->Ok_0) matches Some(k) ==> dh_agrees(
            fresh,
            k,
        ),
        turn_ready(a, b),
        forall|n: u64| !#[trigger] b.skipped.contains_key((a.hk_send->Some_0, n)),
        open_header_with(b.hk_recv, next_header(a)) is None,
        x25519_public(fresh) != b.our_dh_pub,
        aead_len_ok(plaintext.len()),
    ensures
        ({
            let (a1, sent) = encrypt_model(a, plaintext, ad);
            let (b1, r) = decrypt_model(b, sent->Ok_0, ad, fresh);
            &&& sent is Ok
            &&& r == Ok::<Seq<u8>, RatchetError>(plaintext)
            &&& in_step(a1, b1)
            &&& turn_ready(b1, a1)
        }),
{
    let hk = a.hk_send->Some_0;
    let header = RatchetHeader { dh_pub: a.our_dh_pub, pn: a.pn, n: 0 };
    lemma_header_roundtrip(header);
    assert(aead_len_ok(header.encoding().len()));
    assert(aead_open(hk, nonce_of(0), aead_seal(hk, nonce_of(0), header.encoding(), seq![]), seq![])
        == Some(header.encoding()));
    let (a1, sent) = encrypt_model(a, plaintext, ad);
    let msg = sent->Ok_0;
    assert(msg.header == next_header(a));
    assert(open_header_with(b.nhk_recv, msg.header) == Some(header));
    assert(header_outcome(b, msg.header) == Some((header, hk)));
    assert(!b.skipped.contains_key((hk, 0u64)));
    let (b1s, r1) = skip_model(b, a.pn);
    if b.recv_chain is Some {
        lemma_skip_loop_done(b, b.recv_chain->Some_0, skip_store_key(b.hk_recv), a.pn);
    }
    assert(b1s == b && r1 is Ok);
    let stepped = ratchet_step_model(b, a.our_dh_pub, fresh);
    let m1 = root_output(b.root, x25519_shared(b.our_dh, a.our_dh_pub)@);
    assert(stepped.recv_chain == a.send_chain);
    assert(skip_model(stepped, 0) == (stepped, Ok::<(), RatchetError>(())));
    let ck = a.send_chain->Some_0;
    let mk = chain_message_key(ck);
    let aad = bound_ad(ad, msg.header);
    assert(aead_open(mk, nonce_of(0), aead_seal(mk, nonce_of(0), plaintext, aad), aad) == Some(
        plaintext,
    ));
    let (b1, r) = decrypt_model(b, msg, ad, fresh);
    assert(b1.skipped == b.skipped);
    assert(x25519_shared(a.our_dh, x25519_public(fresh)) == x25519_shared(
        fresh,
        x25519_public(a.our_dh),
    ));
}

/// The handshake sets up sessions that talk: the dialer (ephemeral secret
/// `dialer_eph`) and the listener (ephemeral secret `listener_eph`) each
/// compute the shared secret from their own secret and the other's public
/// key, and the ratchet key derived from it (`bob_dh` on the listener's
/// side, its public key on the dialer's); the dialer's first message then
/// reaches the listener.
pub proof fn law_handshake_sessions_talk(
    dialer_eph: [u8; 32],
    listener_eph: [u8; 32],
    bob_dh: [u8; 32],
    alice_dh: [u8; 32],
    fresh: [u8; 32],
    plaintext: Seq<u8>,
    ad: Seq<u8>,
)
    requires
        aead_len_ok(plaintext.len()),
        dh_agrees(dialer_eph, x25519_public(listener_eph)),
        dh_agrees(alice_dh, x25519_public(bob_dh)),
        sent_opens(
            init_sender_model(
                x25519_shared(dialer_eph, x25519_public(listener_eph))@,
                x25519_public(bob_dh),
                alice_dh,
            ),
            plaintext,
            ad,
        ),
        bob_dh@ == hkdf_sha256(
            x25519_shared(listener_eph, x25519_public(dialer_eph))@,
            None,
            INFO_BOB_RATCHET.spec_bytes(),
            32,
        ),
    ensures
        ({
            let dialer_secret = x25519_shared(dialer_eph, x25519_public(listener_eph));
            let listener_secret = x25519_shared(listener_eph, x25519_public(dialer_eph));
            let alice = init_sender_model(dialer_secret@, x25519_public(bob_dh), alice_dh);
            let bob = init_receiver_model(listener_secret@, bob_dh);
            let sent = encrypt_model(alice, plaintext, ad).1;
            &&& dialer_secret == listener_secret
            &&& sent is Ok
            &&& decrypt_model(bob, sent->Ok_0, ad, fresh).1 == Ok::<Seq<u8>, RatchetError>(
                plaintext,
            )
        }),
{
    assert(x25519_shared(dialer_eph, x25519_public(listener_eph)) == x25519_shared(
        listener_eph,
        x25519_public(dialer_eph),
    ));
    law_first_message_delivered(
        x25519_shared(listener_eph, x25519_public(dialer_eph)),
        bob_dh,
        alice_dh,
        fresh,
        plaintext,
        ad,
    );
}

} // verus!
