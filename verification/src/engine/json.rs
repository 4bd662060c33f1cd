//! A plain model of JSON-like row data.
//!
//! Rows arrive as semi-structured objects. This module holds them as plain
//! values the verifier can reason about: numbers keep the representation a
//! JSON parser distinguishes (non-negative integer, negative integer, or
//! float), and floats are carried as IEEE 754 bit patterns.

use vstd::prelude::*;

verus! {

/// A JSON number as a parser represents it: a non-negative integer, a
/// negative integer, or a float (held as its IEEE 754 bit pattern).
#[derive(Clone, Copy)]
pub enum JsonNum {
    PosInt(u64),
    NegInt(i64),
    Float(u64),
}

/// The bit pattern of the 64-bit float nearest to the given non-negative
/// whole number.
pub uninterp spec fn uint_f64_bits(u: u64) -> u64;

/// The bit pattern of the 64-bit float nearest to the given whole number.
pub uninterp spec fn int_f64_bits(i: i64) -> u64;

/// Relies on serde_json::Number::as_f64: a number built from a `u64` reads
/// back as the nearest 64-bit float, whose bit pattern is returned.
#[verifier::external_body]
fn uint_to_f64_bits(u: u64) -> (r: u64)
    ensures
        r == uint_f64_bits(u),
{
    serde_json::Number::from(u).as_f64().unwrap().to_bits()
}

/// Relies on serde_json::Number::as_f64: a number built from an `i64` reads
/// back as the nearest 64-bit float, whose bit pattern is returned.
#[verifier::external_body]
fn int_to_f64_bits(i: i64) -> (r: u64)
    ensures
        r == int_f64_bits(i),
{
    serde_json::Number::from(i).as_f64().unwrap().to_bits()
}

impl JsonNum {
    /// Whether the number is representable as a signed 64-bit integer.
    pub open spec fn spec_is_i64(self) -> bool {
        match self {
            JsonNum::PosInt(u) => u <= i64::MAX,
            JsonNum::NegInt(_) => true,
            JsonNum::Float(_) => false,
        }
    }

    /// The number as a signed 64-bit integer, when representable.
    pub open spec fn spec_as_i64(self) -> i64
        recommends
            self.spec_is_i64(),
    {
        match self {
            JsonNum::PosInt(u) => u as i64,
            JsonNum::NegInt(i) => i,
            JsonNum::Float(_) => 0,
        }
    }

    /// Whether the number was written in floating-point form.
    pub open spec fn spec_is_f64(self) -> bool {
        self is Float
    }

    /// The number as 64-bit float bits: floats keep their bits, whole
    /// numbers convert to the nearest float.
    pub open spec fn spec_f64_bits(self) -> u64 {
        match self {
            JsonNum::PosInt(u) => uint_f64_bits(u),
            JsonNum::NegInt(i) => int_f64_bits(i),
            JsonNum::Float(b) => b,
        }
    }

    /// Whether the number is representable as a signed 64-bit integer.
    pub fn is_i64(&self) -> (r: bool)
        ensures
            r == self.spec_is_i64(),
    {
        match self {
            JsonNum::PosInt(u) => *u <= i64::MAX as u64,
            JsonNum::NegInt(_) => true,
            JsonNum::Float(_) => false,
        }
    }

    /// The number as a signed 64-bit integer, when representable.
    pub fn as_i64(&self) -> (r: Option<i64>)
        ensures
            r == if self.spec_is_i64() {
                Some(self.spec_as_i64())
            } else {
                None::<i64>
            },
    {
        match self {
            JsonNum::PosInt(u) => {
                if *u <= i64::MAX as u64 {
                    Some(*u as i64)
                } else {
                    None
                }
            },
            JsonNum::NegInt(i) => Some(*i),
            JsonNum::Float(_) => None,
        }
    }

    /// Whether the number was written in floating-point form.
    pub fn is_f64(&self) -> (r: bool)
        ensures
            r == self.spec_is_f64(),
    {
        match self {
            JsonNum::Float(_) => true,
            _ => false,
        }
    }

    /// The number as 64-bit float bits.
    pub fn to_f64_bits(&self) -> (r: u64)
        ensures
            r == self.spec_f64_bits(),
    {
        match self {
            JsonNum::PosInt(u) => uint_to_f64_bits(*u),
            JsonNum::NegInt(i) => int_to_f64_bits(*i),
            JsonNum::Float(b) => *b,
        }
    }
}

/// A JSON-like value: the shape of one submitted row or of one of its
/// fields. An object is an ordered list of name/value pairs.
pub enum JsonValue {
    Null,
    Bool(bool),
    Num(JsonNum),
    Str(String),
    Arr(Vec<JsonValue>),
    Obj(Vec<(String, JsonValue)>),
}

/// The value under the first pair with the given name, if any.
pub open spec fn spec_lookup(pairs: Seq<(String, JsonValue)>, name: Seq<char>) -> Option<
    JsonValue,
>
    decreases pairs.len(),
{
    if pairs.len() == 0 {
        None
    } else if pairs[0].0@ == name {
        Some(pairs[0].1)
    } else {
        spec_lookup(pairs.skip(1), name)
    }
}

/// Finds the value under the first pair with the given name.
pub fn lookup<'a>(pairs: &'a Vec<(String, JsonValue)>, name: &String) -> (r: Option<
    &'a JsonValue,
>)
    ensures
        match r {
            Some(v) => spec_lookup(pairs@, name@) == Some(*v),
            None => spec_lookup(pairs@, name@) is None,
        },
{
    let n = pairs.len();
    let mut i: usize = 0;
    proof {
        assert(pairs@.skip(0) =~= pairs@);
    }
    while i < n
        invariant
            n == pairs@.len(),
            i <= n,
            spec_lookup(pairs@, name@) == spec_lookup(pairs@.skip(i as int), name@),
        decreases n - i,
    {
        proof {
            assert(pairs@.skip(i as int)[0] == pairs@[i as int]);
            assert(pairs@.skip(i as int).skip(1) =~= pairs@.skip(i as int + 1));
        }
        if pairs[i].0 == *name {
            return Some(&pairs[i].1);
        }
        i += 1;
    }
    proof {
        assert(pairs@.skip(n as int) =~= Seq::<(String, JsonValue)>::empty());
    }
    None
}

} // verus!
