//! The multi-recipient envelope:
//! `ephemeral public key (32) ‖ N (1) ‖ N wrapped-key slots (60 each) ‖ payload blob`.
use crate::encryption::{
    bytes_of, decrypt_data, decryption, encrypt_data, is_blob_of, max_input, Scheme,
    BLOB_OVERHEAD, KEY_LEN,
};
use crate::error::Error;
use crate::hex::array32;
use crate::secret::Secret;
use crate::x25519::{
    lemma_ephemeral_key_len, shared_secret, x25519_public_of, EphemeralKey, PublicKey,
    UserSecretKey, POINT_LEN,
};
use vstd::prelude::*;
use vstd::slice::{slice_subrange, slice_to_vec};

verus! {

/// Bytes before the first slot: the ephemeral public key and the count.
pub const HEADER_LEN: usize = 33;

/// Bytes of one wrapped-key slot: key, tag and nonce.
pub const SLOT_LEN: usize = 60;

/// Most recipients the one-byte count can name.
pub const MAX_RECIPIENTS: usize = 255;

/// The ephemeral public key at the head of an envelope.
pub open spec fn ephemeral_public(env: Seq<u8>) -> Seq<u8> {
    env.subrange(0, POINT_LEN as int)
}

/// The recipient count an envelope declares.
pub open spec fn recipient_count(env: Seq<u8>) -> int {
    env[32] as int
}

/// The region of an envelope that holds `n` slots.
pub open spec fn slots_of(env: Seq<u8>, n: int) -> Seq<u8> {
    env.subrange(HEADER_LEN as int, HEADER_LEN + SLOT_LEN * n)
}

/// What follows `n` slots: the payload blob.
pub open spec fn payload_of(env: Seq<u8>, n: int) -> Seq<u8> {
    env.subrange(HEADER_LEN + SLOT_LEN * n, env.len() as int)
}

/// Slot `i` of a slot region.
pub open spec fn slot_in(slots: Seq<u8>, i: int) -> Seq<u8> {
    slots.subrange(SLOT_LEN * i, SLOT_LEN * i + SLOT_LEN)
}

/// The first slot, from `from` on and before `n`, that opens under `key`.
pub open spec fn first_open_slot(scheme: Scheme, key: Seq<u8>, slots: Seq<u8>, from: int, n: int) -> Option<int>
    decreases n - from,
{
    if from >= n {
        None
    } else if decryption(scheme, key, slot_in(slots, from)) is Ok {
        Some(from)
    } else {
        first_open_slot(scheme, key, slots, from + 1, n)
    }
}

/// The key that wraps file keys for the holder of `secret`.
pub open spec fn wrapping_key(env: Seq<u8>, secret: Seq<u8>) -> Seq<u8> {
    shared_secret(secret, ephemeral_public(env), KEY_LEN as nat)
}

/// What slot `i` of an envelope opens to for the holder of `secret`.
pub open spec fn slot_opening(scheme: Scheme, env: Seq<u8>, secret: Seq<u8>, i: int) -> Result<Seq<u8>, Error> {
    decryption(scheme, wrapping_key(env, secret), slot_in(slots_of(env, recipient_count(env)), i))
}

/// What decrypting an envelope with the private key `secret` gives.
pub open spec fn envelope_decryption(scheme: Scheme, env: Seq<u8>, secret: Seq<u8>) -> Result<Seq<u8>, Error> {
    if env.len() < HEADER_LEN || env.len() < HEADER_LEN + SLOT_LEN * recipient_count(env) {
        Err(Error::MalformedEnvelope)
    } else {
        let n = recipient_count(env);
        let wrap = wrapping_key(env, secret);
        match first_open_slot(scheme, wrap, slots_of(env, n), 0, n) {
            None => Err(Error::RecipientNotFound),
            Some(i) => {
                let file_key = decryption(scheme, wrap, slot_in(slots_of(env, n), i))->Ok_0;
                match decryption(scheme, file_key, payload_of(env, n)) {
                    Ok(p) => Ok(p),
                    Err(Error::MalformedBlob) => Err(Error::MalformedEnvelope),
                    Err(e) => Err(e),
                }
            },
        }
    }
}

/// No slot before `i` opens, for the holder of `secret`, to anything but what
/// slot `i` opens to.
pub open spec fn earlier_slots_agree(scheme: Scheme, env: Seq<u8>, secret: Seq<u8>, i: int) -> bool {
    forall|j: int|
        0 <= j < i ==> (#[trigger] slot_opening(scheme, env, secret, j)) is Err || slot_opening(
            scheme,
            env,
            secret,
            j,
        ) == slot_opening(scheme, env, secret, i)
}

/// The points of a list of public keys.
pub open spec fn points(keys: Seq<PublicKey>) -> Seq<Seq<u8>> {
    keys.map_values(|k: PublicKey| k@)
}

/// Every holder of a private key whose public point is among `recipients`
/// gets `plaintext` back from `env`, unless a slot before theirs happens to
/// open under their key to something else.
pub open spec fn opens_for_recipients(
    scheme: Scheme,
    env: Seq<u8>,
    recipients: Seq<Seq<u8>>,
    plaintext: Seq<u8>,
) -> bool {
    forall|i: int, secret: Seq<u8>|
        0 <= i < recipients.len() && secret.len() == POINT_LEN && x25519_public_of(secret)
            == recipients[i] && #[trigger] earlier_slots_agree(scheme, env, secret, i)
            ==> envelope_decryption(scheme, env, secret) == Ok::<Seq<u8>, Error>(plaintext)
}

/// The first slot that opens is found when slot `i` opens and every slot
/// from `from` to `i` either fails or agrees with it.
proof fn lemma_first_open_slot(scheme: Scheme, key: Seq<u8>, slots: Seq<u8>, from: int, i: int, n: int)
    requires
        0 <= from <= i < n,
        decryption(scheme, key, slot_in(slots, i)) is Ok,
        forall|j: int|
            from <= j < i ==> (#[trigger] decryption(scheme, key, slot_in(slots, j))) is Err
                || decryption(scheme, key, slot_in(slots, j)) == decryption(
                scheme,
                key,
                slot_in(slots, i),
            ),
    ensures
        first_open_slot(scheme, key, slots, from, n) is Some,
        decryption(scheme, key, slot_in(slots, first_open_slot(scheme, key, slots, from, n)->Some_0))
            == decryption(scheme, key, slot_in(slots, i)),
    decreases i - from,
{
    if from < i && decryption(scheme, key, slot_in(slots, from)) is Err {
        lemma_first_open_slot(scheme, key, slots, from + 1, i, n);
    }
}

/// An envelope that names no recipient is well formed and opens for nobody.
pub proof fn lemma_no_recipient_opens(scheme: Scheme, env: Seq<u8>, secret: Seq<u8>)
    requires
        env.len() >= HEADER_LEN,
        recipient_count(env) == 0,
    ensures
        envelope_decryption(scheme, env, secret) == Err::<Seq<u8>, Error>(Error::RecipientNotFound),
{
}

/// Scans the first `amount` slots of `slots` in order and returns the file
/// key from the first that opens under `shared`, with the number of slots
/// after it; later slots are not looked at.
pub fn find_encrypted_key(slots: &[u8], shared: Secret, amount: u8, scheme: Scheme) -> (r: (Option<Secret>, u8))
    requires
        slots@.len() >= SLOT_LEN * amount,
    ensures
        match first_open_slot(scheme, shared@, slots@, 0, amount as int) {
            None => r.0 is None && r.1 == 0,
            Some(i) => r.0 is Some && decryption(scheme, shared@, slot_in(slots@, i)) == Ok::<
                Seq<u8>,
                Error,
            >(r.0->Some_0@) && r.1 == amount - 1 - i && r.0->Some_0@.len() == KEY_LEN,
        },
{
    let key_size = scheme.get_encrypted_key_size();
    let mut i: u8 = 0;
    while i < amount
        invariant
            0 <= i <= amount,
            key_size == SLOT_LEN,
            slots@.len() >= SLOT_LEN * amount,
            first_open_slot(scheme, shared@, slots@, 0, amount as int) == first_open_slot(
                scheme,
                shared@,
                slots@,
                i as int,
                amount as int,
            ),
        decreases amount - i,
    {
        let start = i as usize * key_size;
        let encrypted_key = slice_to_vec(slice_subrange(slots, start, start + key_size));
        assert(encrypted_key@ =~= slot_in(slots@, i as int));
        match decrypt_data(shared.as_bytes(), encrypted_key, scheme) {
            Ok(key) => {
                return (Some(Secret::from_vec(key)), amount - 1 - i);
            },
            Err(_) => {},
        }
        i = i + 1;
    }
    (None, 0)
}

/// `env` is the envelope that the ephemeral scalar `eph` and the file key
/// `file_key` give for `recipients` and `plaintext`: the ephemeral public key,
/// the count, slot `j` holding the file key sealed under the key agreed with
/// recipient `j`, then the plaintext sealed under the file key.
pub open spec fn is_envelope_of(
    scheme: Scheme,
    env: Seq<u8>,
    eph: Seq<u8>,
    file_key: Seq<u8>,
    recipients: Seq<Seq<u8>>,
    plaintext: Seq<u8>,
) -> bool {
    let n = recipients.len() as int;
    &&& env.len() == HEADER_LEN + SLOT_LEN * n + plaintext.len() + BLOB_OVERHEAD
    &&& ephemeral_public(env) == x25519_public_of(eph)
    &&& recipient_count(env) == n
    &&& forall|j: int|
        0 <= j < n ==> is_blob_of(
            scheme,
            shared_secret(eph, recipients[j], KEY_LEN as nat),
            file_key,
            #[trigger] slot_in(slots_of(env, n), j),
        )
    &&& is_blob_of(scheme, file_key, plaintext, payload_of(env, n))
}

/// Slot `j` opens, for every holder of a private key whose public point is
/// recipient `j`, to `file_key`, and the payload opens under `file_key` to
/// `plaintext`.
pub open spec fn wraps_for_recipients(
    scheme: Scheme,
    env: Seq<u8>,
    file_key: Seq<u8>,
    recipients: Seq<Seq<u8>>,
    plaintext: Seq<u8>,
) -> bool {
    let n = recipients.len() as int;
    &&& forall|j: int, s: Seq<u8>|
        0 <= j < n && s.len() == POINT_LEN && #[trigger] x25519_public_of(s) == recipients[j]
            ==> decryption(scheme, wrapping_key(env, s), #[trigger] slot_in(slots_of(env, n), j))
            == Ok::<Seq<u8>, Error>(file_key)
    &&& decryption(scheme, file_key, payload_of(env, n)) == Ok::<Seq<u8>, Error>(plaintext)
}

/// Builds the envelope of `input` for `keys` from an ephemeral key and a
/// file key that the caller drew: the ephemeral public key, the count, one
/// slot per recipient in order, then the sealed input.
pub fn seal_envelope(
    input: Vec<u8>,
    keys: &Vec<PublicKey>,
    scheme: Scheme,
    file_key: &Secret,
    ephemeral: &EphemeralKey,
) -> (r: Result<Vec<u8>, Error>)
    requires
        file_key@.len() == KEY_LEN,
        keys@.len() <= MAX_RECIPIENTS,
    ensures
        match r {
            Ok(env) => {
                &&& is_envelope_of(scheme, env@, ephemeral@, file_key@, points(keys@), input@)
                &&& wraps_for_recipients(scheme, env@, file_key@, points(keys@), input@)
                &&& opens_for_recipients(scheme, env@, points(keys@), input@)
            },
            Err(e) => e == Error::RandomGenerationFailed || (e == Error::EncryptionFailed
                && input@.len() > max_input(scheme)),
        },
        input@.len() > max_input(scheme) ==> r is Err,
{
    proof {
        lemma_ephemeral_key_len(ephemeral);
    }
    let ghost recipients = points(keys@);
    let ephemeral_point = ephemeral.get_public();
    let ghost epk = ephemeral_point@;
    let mut out: Vec<u8> = Vec::new();
    out.extend_from_slice(ephemeral_point.as_bytes().as_slice());
    out.push(keys.len() as u8);
    // The slots written so far, each the file key wrapped for one recipient.
    let ghost mut wrapped: Seq<Seq<u8>> = Seq::empty();
    let mut i: usize = 0;
    while i < keys.len()
        invariant
            0 <= i <= keys@.len() <= MAX_RECIPIENTS,
            recipients == points(keys@),
            file_key@.len() == KEY_LEN,
            ephemeral@.len() == POINT_LEN,
            epk == x25519_public_of(ephemeral@),
            epk.len() == POINT_LEN,
            wrapped.len() == i,
            out@.len() == HEADER_LEN + SLOT_LEN * i,
            out@.subrange(0, POINT_LEN as int) == epk,
            out@[32] == keys@.len() as u8,
            forall|j: int| 0 <= j < i ==> #[trigger] out@.subrange(HEADER_LEN + SLOT_LEN * j, HEADER_LEN + SLOT_LEN * j + SLOT_LEN) == wrapped[j],
            forall|j: int|
                0 <= j < i ==> is_blob_of(
                    scheme,
                    shared_secret(ephemeral@, recipients[j], KEY_LEN as nat),
                    file_key@,
                    #[trigger] wrapped[j],
                ),
            forall|j: int, s: Seq<u8>|
                0 <= j < i && s.len() == POINT_LEN && #[trigger] x25519_public_of(s) == recipients[j]
                    ==> decryption(scheme, shared_secret(s, epk, KEY_LEN as nat), #[trigger] wrapped[j])
                    == Ok::<Seq<u8>, Error>(file_key@),
        decreases keys@.len() - i,
    {
        let shared = ephemeral.derive_secret(&keys[i], KEY_LEN);
        proof {
            assert(recipients[i as int] == keys@[i as int]@);
        }
        let enc_key = match encrypt_data(shared.as_bytes(), slice_to_vec(file_key.as_bytes()), scheme) {
            Ok(c) => c,
            Err(e) => return Err(e),
        };
        let ghost old_out = out@;
        out.extend_from_slice(enc_key.as_slice());
        proof {
            wrapped = wrapped.push(enc_key@);
            assert forall|j: int| 0 <= j < i + 1 implies #[trigger] out@.subrange(HEADER_LEN + SLOT_LEN * j, HEADER_LEN + SLOT_LEN * j + SLOT_LEN) == wrapped[j] by {
                if j < i {
                    assert(out@.subrange(HEADER_LEN + SLOT_LEN * j, HEADER_LEN + SLOT_LEN * j + SLOT_LEN) =~= old_out.subrange(HEADER_LEN + SLOT_LEN * j, HEADER_LEN + SLOT_LEN * j + SLOT_LEN));
                } else {
                    assert(out@.subrange(HEADER_LEN + SLOT_LEN * j, HEADER_LEN + SLOT_LEN * j + SLOT_LEN) =~= enc_key@);
                }
            }
            assert(out@.subrange(0, POINT_LEN as int) =~= old_out.subrange(0, POINT_LEN as int));
        }
        i = i + 1;
    }
    let enc_file = match encrypt_data(file_key.as_bytes(), input, scheme) {
        Ok(c) => c,
        Err(e) => return Err(e),
    };
    let ghost slots_end = out@;
    out.extend_from_slice(enc_file.as_slice());
    proof {
        let env = out@;
        let n = keys@.len() as int;
        assert(recipient_count(env) == n);
        assert(ephemeral_public(env) =~= epk);
        assert(payload_of(env, n) =~= enc_file@);
        assert forall|j: int| 0 <= j < n implies #[trigger] slot_in(slots_of(env, n), j) == wrapped[j] by {
            assert(slot_in(slots_of(env, n), j) =~= slots_end.subrange(HEADER_LEN + SLOT_LEN * j, HEADER_LEN + SLOT_LEN * j + SLOT_LEN));
        }
        assert forall|j: int, s: Seq<u8>|
            0 <= j < n && s.len() == POINT_LEN && #[trigger] x25519_public_of(s) == recipients[j]
            implies decryption(scheme, wrapping_key(env, s), #[trigger] slot_in(slots_of(env, n), j))
                == Ok::<Seq<u8>, Error>(file_key@) by {
            assert(slot_in(slots_of(env, n), j) == wrapped[j]);
        }
        assert(wraps_for_recipients(scheme, env, file_key@, recipients, input@));
        assert forall|i: int, secret: Seq<u8>|
            0 <= i < recipients.len() && secret.len() == POINT_LEN && x25519_public_of(secret)
                == recipients[i] && #[trigger] earlier_slots_agree(scheme, env, secret, i)
            implies envelope_decryption(scheme, env, secret) == Ok::<Seq<u8>, Error>(input@) by {
            let wrap = wrapping_key(env, secret);
            let slots = slots_of(env, n);
            assert(wrapped[i] == slot_in(slots, i));
            assert(decryption(scheme, wrap, slot_in(slots, i)) == Ok::<Seq<u8>, Error>(file_key@));
            assert forall|j: int| 0 <= j < i implies (#[trigger] decryption(scheme, wrap, slot_in(slots, j))) is Err
                || decryption(scheme, wrap, slot_in(slots, j)) == decryption(scheme, wrap, slot_in(slots, i)) by {
                assert(slot_opening(scheme, env, secret, j) == decryption(scheme, wrap, slot_in(slots, j)));
            }
            lemma_first_open_slot(scheme, wrap, slots, 0, i, n);
        }
        assert(is_envelope_of(scheme, env, ephemeral@, file_key@, recipients, input@));
    }
    Ok(out)
}

/// Encrypts `input` once for every key of `keys`, in that order, under a
/// fresh file key and a fresh ephemeral key (see `seal_envelope`).
pub fn encrypt_file_with_keys(input: Vec<u8>, keys: Vec<PublicKey>, scheme: Scheme) -> (r: Result<Vec<u8>, Error>)
    ensures
        keys@.len() > MAX_RECIPIENTS <==> r == Err::<Vec<u8>, Error>(Error::RecipientCountOverflow),
        keys@.len() <= MAX_RECIPIENTS ==> match r {
            Ok(env) => {
                &&& exists|eph: Seq<u8>, file_key: Seq<u8>|
                    eph.len() == POINT_LEN && file_key.len() == KEY_LEN && #[trigger] is_envelope_of(
                        scheme,
                        env@,
                        eph,
                        file_key,
                        points(keys@),
                        input@,
                    ) && wraps_for_recipients(scheme, env@, file_key, points(keys@), input@)
                &&& opens_for_recipients(scheme, env@, points(keys@), input@)
            },
            Err(e) => e == Error::RandomGenerationFailed || (e == Error::EncryptionFailed
                && input@.len() > max_input(scheme)),
        },
        keys@.len() <= MAX_RECIPIENTS && input@.len() > max_input(scheme) ==> r is Err,
        keys@.len() == 0 && r is Ok ==> forall|secret: Seq<u8>|
            envelope_decryption(scheme, r->Ok_0@, secret) == Err::<Seq<u8>, Error>(
                Error::RecipientNotFound,
            ),
{
    if keys.len() > MAX_RECIPIENTS {
        return Err(Error::RecipientCountOverflow);
    }
    let file_key = match Secret::generate32() {
        Ok(k) => k,
        Err(e) => return Err(e),
    };
    let ephemeral = match EphemeralKey::new() {
        Ok(k) => k,
        Err(e) => return Err(e),
    };
    let r = seal_envelope(input, &keys, scheme, &file_key, &ephemeral);
    proof {
        if r is Ok {
            let env = r->Ok_0@;
            assert(is_envelope_of(scheme, env, ephemeral@, file_key@, points(keys@), input@));
            if keys@.len() == 0 {
                assert forall|secret: Seq<u8>| envelope_decryption(scheme, env, secret) == Err::<Seq<u8>, Error>(Error::RecipientNotFound) by {
                    lemma_no_recipient_opens(scheme, env, secret);
                }
            }
        }
    }
    r
}

/// Decrypts an envelope with a recipient's private key: derives the wrapping
/// key against the envelope's ephemeral public key, takes the file key from
/// the first slot that opens, and opens the payload with it.
pub fn decrypt_file_with_keys(input: &[u8], key: UserSecretKey, scheme: Scheme) -> (r: Result<Vec<u8>, Error>)
    ensures
        bytes_of(r) == envelope_decryption(scheme, input@, key@),
        r is Err ==> r->Err_0 == Error::MalformedEnvelope || r->Err_0 == Error::RecipientNotFound
            || r->Err_0 == Error::DecryptionFailed,
{
    if input.len() < HEADER_LEN {
        return Err(Error::MalformedEnvelope);
    }
    let pubkey = PublicKey::from_bytes(array32(slice_subrange(input, 0, POINT_LEN)));
    let amount = input[32];
    let key_size = scheme.get_encrypted_key_size();
    let slots_len = amount as usize * key_size;
    if input.len() - HEADER_LEN < slots_len {
        return Err(Error::MalformedEnvelope);
    }
    let shared = key.derive_secret(&pubkey, KEY_LEN);
    let slots = slice_subrange(input, HEADER_LEN, HEADER_LEN + slots_len);
    let (file_key, _left) = find_encrypted_key(slots, shared, amount, scheme);
    let file_key = match file_key {
        Some(k) => k,
        None => return Err(Error::RecipientNotFound),
    };
    let data = slice_to_vec(slice_subrange(input, HEADER_LEN + slots_len, input.len()));
    proof {
        assert(slots@ =~= slots_of(input@, amount as int));
        assert(data@ =~= payload_of(input@, amount as int));
    }
    match decrypt_data(file_key.as_bytes(), data, scheme) {
        Ok(p) => Ok(p),
        Err(Error::MalformedBlob) => Err(Error::MalformedEnvelope),
        Err(e) => Err(e),
    }
}

} // verus!
