//! JSON values as `serde_json` holds them, and the decoding of an array
//! element by element.
//!
//! A `Value` is opaque here. What the library reads from one has a name:
//! its elements if it is an array, a member of it if it is an object, its
//! content if it is a string, and the text it is written as.

use serde_json::Value;
use vstd::prelude::*;

verus! {

/// `serde_json::Value`: opaque here.
#[verifier::external_type_specification]
#[verifier::external_body]
pub struct ExValue(Value);

/// The value that `serde_json::from_str` reads from a text, if the text is
/// one JSON document.
pub uninterp spec fn json_reading(text: Seq<char>) -> Option<Value>;

/// The elements of a JSON array, in order; nothing for any other value.
pub uninterp spec fn json_elements(value: Value) -> Option<Seq<Value>>;

/// The member of a JSON object under a key; nothing where the object has no
/// such member, or the value is no object.
pub uninterp spec fn json_member(value: Value, key: Seq<char>) -> Option<Value>;

/// The content of a JSON string; nothing for any other value.
pub uninterp spec fn json_string(value: Value) -> Option<Seq<char>>;

/// The compact JSON text that `serde_json` writes for a value.
pub uninterp spec fn json_text(value: Value) -> Seq<char>;

/// `serde_json::from_str` at the type `Value`, its error dropped: the same
/// text is always read as the same value, or always refused.
#[verifier::external_body]
pub(crate) fn read_json(text: &str) -> (value: Option<Value>)
    ensures
        value == json_reading(text@),
{
    serde_json::from_str::<Value>(text).ok()
}

/// `Value::as_array`: the vector that an array holds, and nothing for any
/// other value.
pub assume_specification[ Value::as_array ](value: &Value) -> (elements: Option<&Vec<Value>>)
    ensures
        elements is Some <==> json_elements(*value) is Some,
        elements is Some ==> json_elements(*value) == Some(elements->0@),
;

/// `Value::as_str`: the content of a string, and nothing for any other
/// value.
pub assume_specification[ Value::as_str ](value: &Value) -> (content: Option<&str>)
    ensures
        content is Some <==> json_string(*value) is Some,
        content is Some ==> json_string(*value) == Some(content->0@),
;

/// `Value::get` with a text key: the member of an object under that key,
/// and nothing where there is none or the value is no object.
#[verifier::external_body]
pub(crate) fn member<'a>(value: &'a Value, key: &str) -> (found: Option<&'a Value>)
    ensures
        found is Some <==> json_member(*value, key@) is Some,
        found is Some ==> json_member(*value, key@) == Some(*found->0),
{
    value.get(key)
}

/// `ToString::to_string`, which writes a `Value` through its `Display`:
/// the compact JSON text of the value.
#[verifier::external_body]
pub(crate) fn write_json(value: &Value) -> (text: String)
    ensures
        text@ == json_text(*value),
{
    value.to_string()
}

/// An array element that could not be decoded.
#[derive(Debug, PartialEq, Eq)]
pub struct DecodeError<E> {
    /// Position of the element in the array.
    pub index: usize,
    /// What the decoder said of it.
    pub reason: E,
}

/// Decoding of JSON arrays into typed lists.
pub trait JArrayExtensions {
    /// The elements of the array, as far as this value is one.
    spec fn elements(&self) -> Option<Seq<Value>>;

    /// Decodes each element of a JSON array with `decode`, all or nothing.
    ///
    /// A value that is no array gives the empty list. The first element that
    /// `decode` refuses ends the work: the error names it, and what was
    /// decoded before it is dropped.
    fn to_typed_array<T, E, D>(&self, decode: D) -> (list: Result<Vec<T>, DecodeError<E>>) where
        D: Fn(&Value) -> Result<T, E>,

        requires
            self.elements() is Some ==> forall|i: int|
                0 <= i < self.elements()->0.len() ==> decode.requires(
                    (&#[trigger] self.elements()->0[i],),
                ),
        ensures
            self.elements() is None ==> list is Ok && list->Ok_0@.len() == 0,
            self.elements() is Some ==> decoded_all_or_nothing(self.elements()->0, decode, list),
    ;
}

/// Whether `decode` may accept `element`.
pub open spec fn accepts<T, E, D: Fn(&Value) -> Result<T, E>>(decode: D, element: Value) -> bool {
    exists|item: T| decode.ensures((&element,), Ok(item))
}

/// What decoding `elements` one after the other with `decode` may give:
/// the list of what each element decodes to, or the first element that
/// fails with what `decode` said of it.
pub open spec fn decoded_all_or_nothing<T, E, D: Fn(&Value) -> Result<T, E>>(
    elements: Seq<Value>,
    decode: D,
    list: Result<Vec<T>, DecodeError<E>>,
) -> bool {
    match list {
        Ok(items) => {
            &&& items@.len() == elements.len()
            &&& forall|i: int|
                #![trigger items@[i]]
                #![trigger elements[i]]
                0 <= i < elements.len() ==> decode.ensures((&elements[i],), Ok(items@[i]))
        },
        Err(error) => {
            &&& error.index < elements.len()
            &&& decode.ensures((&elements[error.index as int],), Err(error.reason))
            &&& forall|i: int|
                #![trigger elements[i]]
                0 <= i < error.index ==> accepts(decode, elements[i])
        },
    }
}

impl JArrayExtensions for Value {
    open spec fn elements(&self) -> Option<Seq<Value>> {
        json_elements(*self)
    }

    fn to_typed_array<T, E, D>(&self, decode: D) -> (list: Result<Vec<T>, DecodeError<E>>) where
        D: Fn(&Value) -> Result<T, E>,
     {
        let mut results: Vec<T> = Vec::new();
        if let Some(array) = self.as_array() {
            let mut index: usize = 0;
            assert(self.elements() == Some(array@));
            assert forall|i: int| 0 <= i < array@.len() implies decode.requires(
                (&#[trigger] array@[i],),
            ) by {
                assert(decode.requires((&self.elements()->0[i],)));
            }
            while index < array.len()
                invariant
                    json_elements(*self) == Some(array@),
                    index <= array.len(),
                    results@.len() == index,
                    forall|i: int|
                        0 <= i < array@.len() ==> decode.requires((&#[trigger] array@[i],)),
                    forall|i: int|
                        0 <= i < index ==> decode.ensures((&array@[i],), Ok(#[trigger] results@[i])),
                decreases array.len() - index,
            {
                match decode(&array[index]) {
                    Ok(item) => results.push(item),
                    Err(reason) => {
                        proof {
                            assert forall|i: int| 0 <= i < index implies accepts(
                                decode,
                                #[trigger] array@[i],
                            ) by {
                                assert(decode.ensures((&array@[i],), Ok(results@[i])));
                            }
                        }
                        return Err(DecodeError { index, reason });
                    },
                }
                index += 1;
            }
        }
        Ok(results)
    }
}

} // verus!
