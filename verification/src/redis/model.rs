//! Keys and values of the key-value store, as texts.
use vstd::prelude::*;

verus! {

/// A key of the key-value store.
pub trait RedisKey {
    /// What the store holds under such a key.
    type Value: RedisValue;

    /// The key as the store holds it, in contracts.
    spec fn key_text(&self) -> Seq<char>;

    /// The key as the store holds it.
    fn inner(&self) -> (r: String)
        ensures
            r@ == self.key_text(),
    ;
}

/// A value of the key-value store.
pub trait RedisValue {
    /// The value as the store holds it, in contracts.
    spec fn value_text(&self) -> Seq<char>;

    /// The value as the store holds it.
    fn inner(&self) -> (r: String)
        ensures
            r@ == self.value_text(),
    ;
}

/// Why a text of the store is no value.
#[derive(Debug)]
pub enum RedisValueError {
    /// Holds the parser's message.
    ParsingError(String),
}

pub type RedisValueResult<T> = Result<T, RedisValueError>;

} // verus!
