//! Typed values out of JSON trees.

use crate::json::Json;
use crate::quantity::Quantity;
use crate::string_map::{distinct_keys, lemma_put_distinct, put, StringMap};
use vstd::prelude::*;

verus! {

/// Why a body does not decode.
#[derive(Clone, Copy, Debug, PartialEq, Eq, Structural)]
pub enum DecodeError {
    /// The body is not a JSON document.
    Syntax,
    /// An object lacks a member that has to be there.
    Missing,
    /// A value of another kind stands where a value is expected.
    Mismatch,
}

impl DecodeError {
    /// The error in words.
    pub open spec fn spec_message(self) -> &'static str {
        match self {
            DecodeError::Syntax => "the body is not a JSON document",
            DecodeError::Missing => "the body lacks a member",
            DecodeError::Mismatch => "the body holds a value of another kind than expected",
        }
    }

    /// The error in words.
    #[verifier::when_used_as_spec(spec_message)]
    pub fn message(self) -> (message: &'static str)
        ensures
            message == self.spec_message(),
    {
        match self {
            DecodeError::Syntax => "the body is not a JSON document",
            DecodeError::Missing => "the body lacks a member",
            DecodeError::Mismatch => "the body holds a value of another kind than expected",
        }
    }
}

/// A result with its value by its view.
pub open spec fn view_of<T: View>(result: Result<T, DecodeError>) -> Result<T::V, DecodeError> {
    match result {
        Ok(value) => Ok(value@),
        Err(error) => Err(error),
    }
}

/// A type that is read from a JSON value.
pub trait Decode: View + Sized {
    /// What `json` decodes to.
    spec fn decoded(json: Json) -> Result<Self::V, DecodeError>;

    /// Decodes `json`.
    fn decode(json: &Json) -> (result: Result<Self, DecodeError>)
        ensures
            view_of(result) == Self::decoded(*json),
    ;
}

impl Decode for Quantity {
    /// Any number, as a double.
    open spec fn decoded(json: Json) -> Result<Quantity, DecodeError> {
        match json {
            Json::Number(number) => match number.real {
                Some(bits) => Ok(Quantity { bits }),
                None => Err(DecodeError::Mismatch),
            },
            _ => Err(DecodeError::Mismatch),
        }
    }

    fn decode(json: &Json) -> (result: Result<Quantity, DecodeError>) {
        match json {
            Json::Number(number) => match number.real {
                Some(bits) => Ok(Quantity { bits }),
                None => Err(DecodeError::Mismatch),
            },
            _ => Err(DecodeError::Mismatch),
        }
    }
}

impl Decode for u32 {
    /// A number written as an unsigned integer that fits 32 bits.
    open spec fn decoded(json: Json) -> Result<u32, DecodeError> {
        match json {
            Json::Number(number) => match number.unsigned {
                Some(n) => if n <= u32::MAX {
                    Ok(n as u32)
                } else {
                    Err(DecodeError::Mismatch)
                },
                None => Err(DecodeError::Mismatch),
            },
            _ => Err(DecodeError::Mismatch),
        }
    }

    fn decode(json: &Json) -> (result: Result<u32, DecodeError>) {
        match json {
            Json::Number(number) => match number.unsigned {
                Some(n) => if n <= u32::MAX as u64 {
                    Ok(n as u32)
                } else {
                    Err(DecodeError::Mismatch)
                },
                None => Err(DecodeError::Mismatch),
            },
            _ => Err(DecodeError::Mismatch),
        }
    }
}

impl Decode for bool {
    /// `true` or `false`.
    open spec fn decoded(json: Json) -> Result<bool, DecodeError> {
        match json {
            Json::Bool(b) => Ok(b),
            _ => Err(DecodeError::Mismatch),
        }
    }

    fn decode(json: &Json) -> (result: Result<bool, DecodeError>) {
        match json {
            Json::Bool(b) => Ok(*b),
            _ => Err(DecodeError::Mismatch),
        }
    }
}

impl Decode for String {
    /// A string, character for character.
    open spec fn decoded(json: Json) -> Result<Seq<char>, DecodeError> {
        match json {
            Json::Text(text) => Ok(text@),
            _ => Err(DecodeError::Mismatch),
        }
    }

    fn decode(json: &Json) -> (result: Result<String, DecodeError>) {
        match json {
            Json::Text(text) => Ok(text.clone()),
            _ => Err(DecodeError::Mismatch),
        }
    }
}

/// What the member `key` of `json` decodes to, where the member has to be there.
pub open spec fn field<T: Decode>(json: Json, key: Seq<char>) -> Result<T::V, DecodeError> {
    if !(json is Object) {
        Err(DecodeError::Mismatch)
    } else {
        match json.member(key) {
            Some(value) => T::decoded(value),
            None => Err(DecodeError::Missing),
        }
    }
}

/// What the member `key` of `json` decodes to, where the member may be left
/// out or be `null`.
pub open spec fn optional_field<T: Decode>(json: Json, key: Seq<char>) -> Result<
    Option<T::V>,
    DecodeError,
> {
    if !(json is Object) {
        Err(DecodeError::Mismatch)
    } else {
        match json.member(key) {
            None => Ok(None),
            Some(Json::Null) => Ok(None),
            Some(value) => match T::decoded(value) {
                Ok(v) => Ok(Some(v)),
                Err(error) => Err(error),
            },
        }
    }
}

/// Decodes the member `key` of `json`, which has to be there.
pub fn decode_field<T: Decode>(json: &Json, key: &str) -> (result: Result<T, DecodeError>)
    ensures
        view_of(result) == field::<T>(*json, key@),
{
    if !json.is_object() {
        return Err(DecodeError::Mismatch);
    }
    match json.get(key) {
        Some(value) => T::decode(value),
        None => Err(DecodeError::Missing),
    }
}

/// Decodes the member `key` of `json`, which may be left out or be `null`.
pub fn decode_optional_field<T: Decode>(json: &Json, key: &str) -> (result: Result<
    Option<T>,
    DecodeError,
>)
    ensures
        optional_field::<T>(*json, key@) == match result {
            Ok(Some(value)) => Ok::<Option<T::V>, DecodeError>(Some(value@)),
            Ok(None) => Ok(None),
            Err(error) => Err(error),
        },
{
    if !json.is_object() {
        return Err(DecodeError::Mismatch);
    }
    match json.get(key) {
        None => Ok(None),
        Some(Json::Null) => Ok(None),
        Some(value) => match T::decode(value) {
            Ok(v) => Ok(Some(v)),
            Err(error) => Err(error),
        },
    }
}

/// What the members decode to, member after member: the first error, or the
/// values under their keys.
pub open spec fn decoded_entries<T: Decode>(members: Seq<(Seq<char>, Json)>) -> Result<
    Seq<(Seq<char>, T::V)>,
    DecodeError,
>
    decreases members.len(),
{
    if members.len() == 0 {
        Ok(Seq::empty())
    } else {
        match decoded_entries::<T>(members.drop_last()) {
            Err(error) => Err(error),
            Ok(entries) => match T::decoded(members.last().1) {
                Err(error) => Err(error),
                Ok(value) => Ok(put(entries, members.last().0, value)),
            },
        }
    }
}

impl<T: Decode> Decode for StringMap<T> {
    /// An object, each member decoded under its key.
    open spec fn decoded(json: Json) -> Result<Seq<(Seq<char>, T::V)>, DecodeError> {
        if !(json is Object) {
            Err(DecodeError::Mismatch)
        } else {
            decoded_entries::<T>(json.members())
        }
    }

    fn decode(json: &Json) -> (result: Result<StringMap<T>, DecodeError>) {
        match json {
            Json::Object(members) => {
                let ghost all = json.members();
                let mut map: StringMap<T> = StringMap::new();
                let mut i: usize = 0;
                while i < members.len()
                    invariant
                        i <= members.len(),
                        *json is Object,
                        all == json.members(),
                        all.len() == members@.len(),
                        forall|k: int|
                            0 <= k < all.len() ==> all[k] == (members@[k].0@, members@[k].1),
                        decoded_entries::<T>(all.take(i as int)) == Ok::<
                            Seq<(Seq<char>, T::V)>,
                            DecodeError,
                        >(map@),
                    decreases members.len() - i,
                {
                    assert(all.take(i + 1).drop_last() =~= all.take(i as int));
                    assert(all.take(i + 1).last() == all[i as int]);
                    match T::decode(&members[i].1) {
                        Ok(value) => {
                            map.insert(members[i].0.clone(), value);
                        },
                        Err(error) => {
                            proof {
                                assert(T::decoded(all[i as int].1) == Err::<T::V, DecodeError>(
                                    error,
                                ));
                                assert(decoded_entries::<T>(all.take(i + 1)) == Err::<
                                    Seq<(Seq<char>, T::V)>,
                                    DecodeError,
                                >(error));
                                lemma_error_stays::<T>(all, i + 1);
                            }
                            return Err(error);
                        },
                    }
                    i += 1;
                }
                assert(all.take(i as int) =~= all);
                Ok(map)
            },
            _ => Err(DecodeError::Mismatch),
        }
    }
}

/// An error among the first `n` members is the error of all of them.
pub proof fn lemma_error_stays<T: Decode>(members: Seq<(Seq<char>, Json)>, n: int)
    requires
        0 <= n <= members.len(),
        decoded_entries::<T>(members.take(n)) is Err,
    ensures
        decoded_entries::<T>(members) == decoded_entries::<T>(members.take(n)),
    decreases members.len(),
{
    if n < members.len() {
        assert(members.drop_last().take(n) =~= members.take(n));
        lemma_error_stays::<T>(members.drop_last(), n);
    } else {
        assert(members.take(n) =~= members);
    }
}

/// What an object decodes to has no key twice, whatever the object holds.
pub proof fn lemma_decoded_entries_distinct<T: Decode>(members: Seq<(Seq<char>, Json)>)
    ensures
        decoded_entries::<T>(members) matches Ok(entries) ==> distinct_keys(entries),
    decreases members.len(),
{
    if members.len() > 0 {
        lemma_decoded_entries_distinct::<T>(members.drop_last());
        if let Ok(entries) = decoded_entries::<T>(members.drop_last()) {
            if let Ok(value) = T::decoded(members.last().1) {
                lemma_put_distinct(entries, members.last().0, value);
            }
        }
    }
}

} // verus!
