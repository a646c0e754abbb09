//! A map accessor that falls back to the value type's default.

use std::collections::HashMap;
use std::hash::Hash;
use vstd::prelude::*;
use vstd::std_specs::hash::obeys_key_model;

verus! {

/// The value stored under `key`, cloned, or the default of the value type
/// when the map has no such key.
///
/// What a hash map holds is known only for key types whose hashing and
/// equality follow the model of `vstd`, as the integer types do.
pub fn get_or_default<K, V>(map: &HashMap<K, V>, key: K) -> (value: V) where
    K: Eq + Hash,
    V: Default + Clone,

    ensures
        obeys_key_model::<K>() ==> (if map@.contains_key(key) {
            cloned(map@[key], value)
        } else {
            call_ensures(V::default, (), value)
        }),
{
    match map.get(&key) {
        Some(value) => value.clone(),
        None => V::default(),
    }
}

} // verus!
