//! Encoding, decoding and change detection, on plain values.
//!
//! Nothing here touches a file. A load starts from what was read, a store
//! ends in the text to write, and a mutation ends in the text to write if its
//! encoding changed and in nothing if it did not.

use vstd::prelude::*;
use vstd::std_specs::hash::DefaultHasherAdditionalSpecFns;
use vstd::utf8::encode_utf8;
use std::collections::hash_map::DefaultHasher;
use std::hash::Hasher;
use crate::errors::IoFailure;
use crate::errors::StoreError;
use crate::json::decoder_returns;
use crate::json::encoder_returns;

verus! {

/// The digest of an encoded text: what the default hasher makes of the
/// text's bytes followed by the byte that ends a string.
pub open spec fn text_digest(text: Seq<char>) -> u64 {
    DefaultHasher::spec_finish(seq![encode_utf8(text), seq![0xffu8]])
}

/// Whether `digest` is the digest of `text`.
pub open spec fn is_fingerprint(text: Seq<char>, digest: u64) -> bool {
    digest == text_digest(text)
}

/// What has to be written after a mutation: the new encoding where it
/// differs from the old one, nothing where it does not.
pub open spec fn write_after(before: Seq<char>, after: Seq<char>) -> Option<Seq<char>> {
    if before == after {
        None
    } else {
        Some(after)
    }
}

/// What the file holds once `pending` has been carried out on a file that
/// held `disk`.
pub open spec fn file_after(disk: Seq<char>, pending: Option<Seq<char>>) -> Seq<char> {
    match pending {
        Some(text) => text,
        None => disk,
    }
}

/// The view of a text that may be absent.
pub open spec fn text_of(pending: Option<String>) -> Option<Seq<char>> {
    match pending {
        Some(text) => Some(text@),
        None => None,
    }
}

/// Whether `e` is the failure of the encoder on `value`.
pub open spec fn encoding_fails<T: serde::Serialize>(value: T, pretty: bool, e: StoreError) -> bool {
    e matches StoreError::Encode(cause) && encoder_returns(value, pretty, Err(cause))
}

/// Whether `e` is the failure of the decoder on `text`, for a `T`.
pub open spec fn decoding_fails<T: serde::de::DeserializeOwned>(
    text: Seq<char>,
    e: StoreError,
) -> bool {
    e matches StoreError::Decode(cause) && decoder_returns::<T>(text, Err(cause))
}

/// Whether `pending` is what has to be written once a value that was `was`
/// has become `is`: the encoder returned a text for each, and `pending` is
/// the second text where the two differ and nothing where they do not.
pub open spec fn settles<T: serde::Serialize>(
    was: T,
    is: T,
    pretty: bool,
    pending: Option<Seq<char>>,
) -> bool {
    exists|before: String, after: String|
        #![trigger encoder_returns(was, pretty, Ok(before)), encoder_returns(is, pretty, Ok(after))]
        encoder_returns(was, pretty, Ok(before)) && encoder_returns(is, pretty, Ok(after))
            && pending == write_after(before@, after@)
}

/// The digest of `text`.
pub fn fingerprint(text: &str) -> (digest: u64)
    ensures
        digest == text_digest(text@),
{
    let mut hasher = DefaultHasher::new();
    hasher.write(text.as_bytes());
    let end: [u8; 1] = [0xff];
    hasher.write(end.as_slice());
    proof {
        assert(end@ =~= seq![0xffu8]);
        assert(hasher@ =~= seq![encode_utf8(text@), seq![0xffu8]]);
    }
    hasher.finish()
}

/// Reports what the encoder returned: the text, or the failure as
/// [`StoreError::Encode`] with its cause.
pub fn encoded(outcome: Result<String, serde_json::Error>) -> (r: Result<String, StoreError>)
    ensures
        match outcome {
            Ok(text) => r == Ok::<String, StoreError>(text),
            Err(cause) => r == Err::<String, StoreError>(StoreError::Encode(cause)),
        },
{
    match outcome {
        Ok(text) => Ok(text),
        Err(cause) => Err(StoreError::Encode(cause)),
    }
}

/// Reports what the decoder returned: the value, or the failure as
/// [`StoreError::Decode`] with its cause.
pub fn decoded<T>(outcome: Result<T, serde_json::Error>) -> (r: Result<T, StoreError>)
    ensures
        match outcome {
            Ok(value) => r == Ok::<T, StoreError>(value),
            Err(cause) => r == Err::<T, StoreError>(StoreError::Decode(cause)),
        },
{
    match outcome {
        Ok(value) => Ok(value),
        Err(cause) => Err(StoreError::Decode(cause)),
    }
}

/// Pairs what the encoder returned with its digest: the change detector's
/// view of a value at one point in time.
pub fn with_fingerprint(outcome: Result<String, serde_json::Error>) -> (r: Result<
    (String, u64),
    StoreError,
>)
    ensures
        match outcome {
            Ok(text) => r == Ok::<(String, u64), StoreError>((text, text_digest(text@))),
            Err(cause) => r == Err::<(String, u64), StoreError>(StoreError::Encode(cause)),
        },
{
    match encoded(outcome) {
        Ok(text) => {
            let digest = fingerprint(text.as_str());
            Ok((text, digest))
        },
        Err(e) => Err(e),
    }
}

/// Encodes `data`, compactly or indented, and returns the text with its
/// digest, so that the text can be written without encoding again.
///
/// Whether encoding succeeds is for the value's `Serialize` to decide; a
/// failure is reported as [`StoreError::Encode`].
pub fn hash_by_serialize<T>(data: &T, pretty: bool) -> (r: Result<(String, u64), StoreError>)
    where T: serde::Serialize
    ensures
        match r {
            Ok(pair) => encoder_returns(*data, pretty, Ok(pair.0))
                && is_fingerprint(pair.0@, pair.1),
            Err(e) => encoding_fails(*data, pretty, e),
        },
{
    if pretty {
        with_fingerprint(serde_json::to_string_pretty(data))
    } else {
        with_fingerprint(serde_json::to_string(data))
    }
}

/// Decodes what was read from the backing file.
///
/// `read` is the file's whole text, or the step at which reading it failed.
/// A failed read is reported as [`StoreError::Io`] with that step; a text
/// that is no encoding of a `T` as [`StoreError::Decode`].
pub fn just_load<T>(read: Result<String, IoFailure>) -> (r: Result<T, StoreError>)
    where T: serde::de::DeserializeOwned
    ensures
        match read {
            Err(step) => r == Err::<T, StoreError>(StoreError::Io(step)),
            Ok(text) => match r {
                Ok(value) => decoder_returns(text@, Ok(value)),
                Err(e) => decoding_fails::<T>(text@, e),
            },
        },
{
    match read {
        Err(step) => Err(StoreError::Io(step)),
        Ok(text) => decoded(serde_json::from_str::<T>(text.as_str())),
    }
}

/// Encodes `contents`, compactly or indented: the text that the backing
/// file has to hold, whole.
///
/// A failure is reported as [`StoreError::Encode`].
pub fn just_write<T>(contents: &T, pretty: bool) -> (r: Result<String, StoreError>)
    where T: serde::Serialize
    ensures
        match r {
            Ok(text) => encoder_returns(*contents, pretty, Ok(text)),
            Err(e) => encoding_fails(*contents, pretty, e),
        },
{
    if pretty {
        encoded(serde_json::to_string_pretty(contents))
    } else {
        encoded(serde_json::to_string(contents))
    }
}

/// Whether two views of a value differ.
///
/// Digests are compared first, and the texts only where the digests agree:
/// two texts with one digest are still told apart. For digests that belong
/// to their texts the answer is exactly whether the texts differ.
pub fn changed(before: &(String, u64), after: &(String, u64)) -> (r: bool)
    ensures
        r == (before.1 != after.1 || before.0@ != after.0@),
        is_fingerprint(before.0@, before.1) && is_fingerprint(after.0@, after.1)
            ==> r == (before.0@ != after.0@),
{
    before.1 != after.1 || before.0 != after.0
}

/// What has to be written after a mutation that took a value from `before`
/// to `after`: the new text if the encoding changed, nothing if it did not.
pub fn pending_write(before: &(String, u64), after: (String, u64)) -> (r: Option<String>)
    ensures
        r == (if before.1 != after.1 || before.0@ != after.0@ {
            Some(after.0)
        } else {
            None
        }),
        is_fingerprint(before.0@, before.1) && is_fingerprint(after.0@, after.1)
            ==> text_of(r) == write_after(before.0@, after.0@),
{
    if changed(before, &after) {
        Some(after.0)
    } else {
        None
    }
}

/// Runs `action` on `value` and says what has to be written afterwards: the
/// value's new encoding if it differs from the one it had before the call,
/// nothing if it does not.
///
/// The value is encoded before and after the call. If the first encoding
/// fails, `action` is not run and the value stays as it was. If the second
/// fails, `action` has run and what it did to the value stays. Either way
/// the failure is [`StoreError::Encode`].
pub fn apply_mutation<T, F, R>(value: &mut T, pretty: bool, action: F) -> (r: Result<
    (R, Option<String>),
    StoreError,
>)
    where T: serde::Serialize, F: FnOnce(&mut T) -> R
    requires
        forall|m: &mut T| *m == *old(value) ==> call_requires(action, (m,)),
    ensures
        match r {
            Ok(done) => (exists|m: &mut T, ret: R|
                *m == *old(value) && *final(m) == *final(value) && ret == done.0
                    && #[trigger] call_ensures(action, (m,), ret))
                && settles(*old(value), *final(value), pretty, text_of(done.1)),
            Err(e) => (*final(value) == *old(value) && encoding_fails(*old(value), pretty, e))
                || ((exists|m: &mut T, ret: R|
                    *m == *old(value) && *final(m) == *final(value)
                        && #[trigger] call_ensures(action, (m,), ret))
                    && encoding_fails(*final(value), pretty, e)),
        },
{
    let before = match hash_by_serialize(&*value, pretty) {
        Ok(pair) => pair,
        Err(e) => {
            return Err(e);
        },
    };
    let ret = action(value);
    let after = match hash_by_serialize(&*value, pretty) {
        Ok(pair) => pair,
        Err(e) => {
            return Err(e);
        },
    };
    Ok((ret, pending_write(&before, after)))
}

/// Keeps a loaded value, or starts from the default where loading failed.
///
/// A loaded value asks for no write. Where loading failed, for whatever
/// reason, the value is `T::default()` and its encoding has to be written;
/// only a failure to encode it is reported.
pub fn loaded_or_default<T>(loaded: Result<T, StoreError>, pretty: bool) -> (r: Result<
    (T, Option<String>),
    StoreError,
>)
    where T: serde::Serialize + Default
    ensures
        match loaded {
            Ok(value) => r == Ok::<(T, Option<String>), StoreError>((value, None)),
            Err(_) => match r {
                Ok(seeded) => call_ensures(T::default, (), seeded.0) && (seeded.1 matches Some(text)
                    && encoder_returns(seeded.0, pretty, Ok(text))),
                Err(e) => exists|value: T| #[trigger]
                    call_ensures(T::default, (), value) && encoding_fails(value, pretty, e),
            },
        },
{
    match loaded {
        Ok(value) => Ok((value, None)),
        Err(_) => {
            let value = T::default();
            match just_write(&value, pretty) {
                Ok(text) => Ok((value, Some(text))),
                Err(e) => Err(e),
            }
        },
    }
}

/// Fingerprints track texts: two texts, each with its own digest, make the
/// same pair exactly when they are the same text. Equal digests alone do
/// not show equal texts, which is why [`changed`] compares the pairs.
pub proof fn lemma_fingerprint_tracks_text(a: Seq<char>, digest_a: u64, b: Seq<char>, digest_b: u64)
    requires
        is_fingerprint(a, digest_a),
        is_fingerprint(b, digest_b),
    ensures
        ((a, digest_a) == (b, digest_b)) <==> a == b,
        digest_a != digest_b ==> a != b,
{
}

/// Whether the encoder returns one text only for `value`, as often as it
/// is asked.
pub open spec fn encodes_one_way<T: serde::Serialize>(value: T, pretty: bool) -> bool {
    forall|a: String, b: String|
        #![trigger encoder_returns(value, pretty, Ok(a)), encoder_returns(value, pretty, Ok(b))]
        encoder_returns(value, pretty, Ok(a)) && encoder_returns(value, pretty, Ok(b))
            ==> a@ == b@
}

/// Whether a value that was `was` and has become `is` has kept its encoded
/// form: whatever the encoder returns for the one is, as a text, what it
/// returns for the other.
pub open spec fn encoding_kept<T: serde::Serialize>(was: T, is: T, pretty: bool) -> bool {
    forall|before: String, after: String|
        #![trigger encoder_returns(was, pretty, Ok(before)), encoder_returns(is, pretty, Ok(after))]
        encoder_returns(was, pretty, Ok(before)) && encoder_returns(is, pretty, Ok(after))
            ==> before@ == after@
}

/// Whether a value that was `was` and has become `is` has changed its
/// encoded form: nothing that the encoder returns for the one is, as a text,
/// what it returns for the other.
pub open spec fn encoding_changed<T: serde::Serialize>(was: T, is: T, pretty: bool) -> bool {
    forall|before: String, after: String|
        #![trigger encoder_returns(was, pretty, Ok(before)), encoder_returns(is, pretty, Ok(after))]
        encoder_returns(was, pretty, Ok(before)) && encoder_returns(is, pretty, Ok(after))
            ==> before@ != after@
}

/// A mutation that leaves the encoded form as it was asks for no write.
pub proof fn lemma_unchanged_writes_nothing<T: serde::Serialize>(
    was: T,
    is: T,
    pretty: bool,
    pending: Option<Seq<char>>,
)
    requires
        settles(was, is, pretty, pending),
        encoding_kept(was, is, pretty),
    ensures
        pending is None,
{
}

/// A mutation that changes the encoded form asks for a write, and the text
/// to be written is an encoding of the value as it now is.
pub proof fn lemma_changed_writes_new_encoding<T: serde::Serialize>(
    was: T,
    is: T,
    pretty: bool,
    pending: Option<Seq<char>>,
)
    requires
        settles(was, is, pretty, pending),
        encoding_changed(was, is, pretty),
    ensures
        pending matches Some(text) && exists|after: String| #[trigger]
            encoder_returns(is, pretty, Ok(after)) && after@ == text,
{
}

/// Whether every text that the encoder returns for `value` is one for which
/// the decoder returns `value`.
pub open spec fn decodes_back<T: serde::Serialize + serde::de::DeserializeOwned>(
    value: T,
    pretty: bool,
) -> bool {
    forall|text: String| #[trigger]
        encoder_returns(value, pretty, Ok(text)) ==> decoder_returns::<T>(text@, Ok(value))
}

/// After a mutation that changes the encoded form, the text to be written
/// decodes to the value in memory, with a codec that takes every encoding of
/// the value back to it.
pub proof fn lemma_changed_file_decodes_to_value<T: serde::Serialize + serde::de::DeserializeOwned>(
    was: T,
    is: T,
    pretty: bool,
    pending: Option<Seq<char>>,
)
    requires
        settles(was, is, pretty, pending),
        encoding_changed(was, is, pretty),
        decodes_back(is, pretty),
    ensures
        pending matches Some(text) && decoder_returns::<T>(text, Ok(is)),
{
}

/// The file follows the value: a file that held an encoding of the value
/// before a mutation holds an encoding of the value after it, once what is
/// pending has been written, whether the mutation changed the encoding or
/// not. This needs an encoder that returns one text only for the value as it
/// was.
pub proof fn lemma_file_follows_value<T: serde::Serialize>(
    was: T,
    is: T,
    pretty: bool,
    pending: Option<Seq<char>>,
    disk: String,
)
    requires
        settles(was, is, pretty, pending),
        encoder_returns(was, pretty, Ok(disk)),
        encodes_one_way(was, pretty),
    ensures
        exists|after: String| #[trigger]
            encoder_returns(is, pretty, Ok(after)) && file_after(disk@, pending) == after@,
{
    let (before, after) = choose|before: String, after: String|
        #![trigger encoder_returns(was, pretty, Ok(before)), encoder_returns(is, pretty, Ok(after))]
        encoder_returns(was, pretty, Ok(before)) && encoder_returns(is, pretty, Ok(after))
            && pending == write_after(before@, after@);
    assert(before@ == disk@);
    assert(encoder_returns(is, pretty, Ok(after)) && file_after(disk@, pending) == after@);
}

} // verus!
