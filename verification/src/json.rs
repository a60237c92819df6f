//! What the store assumes of `serde_json`, and the words in which its
//! contracts speak of an encoding.
//!
//! Nothing is assumed of what the encoder and the decoder return: a value's
//! own `Serialize` and `Deserialize` decide that, and need not even decide
//! the same way twice. The contracts of this crate therefore never say what
//! *the* encoding of a value is. They say that a text is one that the
//! encoder returned for the value, with [`encoder_returns`], and that a
//! value is one that the decoder returned for a text, with
//! [`decoder_returns`].

use vstd::prelude::*;

verus! {

/// `serde_json::Error`, the cause that an encoding or decoding failure
/// carries. Nothing is known of what it holds.
#[verifier::external_type_specification]
#[verifier::external_body]
pub struct ExJsonError(serde_json::Error);

/// `serde_json::to_string`: the compact JSON text of a value, or the failure
/// that the value's own `Serialize` reported. Nothing is claimed of the text.
pub assume_specification<T>[ serde_json::to_string::<T> ](value: &T) -> (text: serde_json::Result<
    String,
>) where T: ?Sized + serde::Serialize
;

/// `serde_json::to_string_pretty`: the indented JSON text of a value, or the
/// failure that the value's own `Serialize` reported. Nothing is claimed of
/// the text.
pub assume_specification<T>[ serde_json::to_string_pretty::<T> ](value: &T) -> (text:
    serde_json::Result<String>) where T: ?Sized + serde::Serialize
;

/// `serde_json::from_str`: the value that a JSON text describes, or the
/// reason for which the text is no encoding of a `T`. Nothing is claimed of
/// the value.
pub assume_specification<'a, T>[ serde_json::from_str::<'a, T> ](s: &'a str) -> (value:
    serde_json::Result<T>) where T: serde::de::Deserialize<'a>
;

/// Whether `outcome` is what the encoder returned for `value`: the compact
/// encoder, or the indented one where `pretty` is set.
pub open spec fn encoder_returns<T: serde::Serialize>(
    value: T,
    pretty: bool,
    outcome: Result<String, serde_json::Error>,
) -> bool {
    if pretty {
        call_ensures(serde_json::to_string_pretty::<T>, (&value,), outcome)
    } else {
        call_ensures(serde_json::to_string::<T>, (&value,), outcome)
    }
}

/// Whether `outcome` is what the decoder returned for `text`.
pub open spec fn decoder_returns<T: serde::de::DeserializeOwned>(
    text: Seq<char>,
    outcome: Result<T, serde_json::Error>,
) -> bool {
    exists|s: &str| s@ == text && #[trigger] call_ensures(serde_json::from_str::<T>, (s,), outcome)
}

} // verus!
