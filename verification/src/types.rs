//! The scalar values that cross the boundary between host and guest.
//!
//! A float is held by its bit pattern: the layer moves floats, it does not
//! compute with them.
use crate::decimal::decimal_int;
use crate::decimal::i64_to_decimal;
use crate::engine::ZenArgExtern;
use crate::engine::ZenValueExtern;
use crate::utils::c_str_bytes;
use crate::utils::rust_str_to_c_str;
use vstd::prelude::*;

verus! {

/// The kind of a scalar value.
#[derive(Clone, Copy, PartialEq, Eq, Structural, Debug)]
pub enum ZenValueType {
    I32,
    I64,
    F32,
    F64,
}

impl ZenValueType {
    /// The tag by which the engine knows the kind.
    pub open spec fn tag(&self) -> int {
        match self {
            ZenValueType::I32 => 0,
            ZenValueType::I64 => 1,
            ZenValueType::F32 => 2,
            ZenValueType::F64 => 3,
        }
    }

    /// The kind that the engine knows by `tag`, if there is one.
    pub open spec fn of_tag(tag: int) -> Option<ZenValueType> {
        if tag == 0 {
            Some(ZenValueType::I32)
        } else if tag == 1 {
            Some(ZenValueType::I64)
        } else if tag == 2 {
            Some(ZenValueType::F32)
        } else if tag == 3 {
            Some(ZenValueType::F64)
        } else {
            None
        }
    }

    /// The tag by which the engine knows the kind.
    pub fn to_i32(&self) -> (tag: i32)
        ensures
            tag == self.tag(),
    {
        match self {
            ZenValueType::I32 => 0,
            ZenValueType::I64 => 1,
            ZenValueType::F32 => 2,
            ZenValueType::F64 => 3,
        }
    }

    /// The kind that the engine knows by `tag`; `None` for a tag that names no
    /// kind.
    pub fn from_i32(tag: i32) -> (kind: Option<ZenValueType>)
        ensures
            kind == Self::of_tag(tag as int),
    {
        match tag {
            0 => Some(ZenValueType::I32),
            1 => Some(ZenValueType::I64),
            2 => Some(ZenValueType::F32),
            3 => Some(ZenValueType::F64),
            _ => None,
        }
    }
}

/// Every kind is found again by its tag, and no two kinds share a tag.
pub proof fn lemma_tag_round_trip(kind: ZenValueType)
    ensures
        ZenValueType::of_tag(kind.tag()) == Some(kind),
{
}

/// A tag that names a kind is the tag of that kind.
pub proof fn lemma_tag_of_kind(tag: int)
    ensures
        ZenValueType::of_tag(tag) matches Some(kind) ==> kind.tag() == tag,
        ZenValueType::of_tag(tag) is Some <==> 0 <= tag <= 3,
{
}

/// A scalar value with its kind. The float kinds hold the bit pattern of the
/// float.
#[derive(Clone, Copy, PartialEq, Eq, Structural, Debug)]
pub enum ZenValue {
    ZenI32Value(i32),
    ZenI64Value(i64),
    ZenF32Value(u32),
    ZenF64Value(u64),
}

/// What decoding answers to a record whose tag names no kind.
pub open spec fn invalid_value_type_message() -> Seq<char> {
    "invalid wasm func return value type"@
}

impl ZenValue {
    /// The kind of the value.
    pub open spec fn kind(&self) -> ZenValueType {
        match self {
            ZenValue::ZenI32Value(_) => ZenValueType::I32,
            ZenValue::ZenI64Value(_) => ZenValueType::I64,
            ZenValue::ZenF32Value(_) => ZenValueType::F32,
            ZenValue::ZenF64Value(_) => ZenValueType::F64,
        }
    }

    /// The 64-bit payload that carries the value: an integer itself, widened with
    /// its sign; a float by its bits, in the low end of the payload.
    pub open spec fn payload(&self) -> i64 {
        match self {
            ZenValue::ZenI32Value(v) => *v as i64,
            ZenValue::ZenI64Value(v) => *v,
            ZenValue::ZenF32Value(bits) => *bits as i64,
            ZenValue::ZenF64Value(bits) => *bits as i64,
        }
    }

    /// The record that carries the value.
    pub open spec fn record(&self) -> ZenValueExtern {
        ZenValueExtern { value_type: self.kind().tag() as i32, value: self.payload() }
    }

    /// The value that `record` carries: the payload read at the width of the kind
    /// that the tag names. `None` where the tag names no kind.
    pub open spec fn of_record(record: ZenValueExtern) -> Option<ZenValue> {
        match ZenValueType::of_tag(record.value_type as int) {
            Some(ZenValueType::I32) => Some(ZenValue::ZenI32Value(record.value as i32)),
            Some(ZenValueType::I64) => Some(ZenValue::ZenI64Value(record.value)),
            Some(ZenValueType::F32) => Some(ZenValue::ZenF32Value(record.value as u32)),
            Some(ZenValueType::F64) => Some(ZenValue::ZenF64Value(record.value as u64)),
            None => None,
        }
    }

    /// The decimal text of an integer value. A float has none here.
    pub open spec fn decimal(&self) -> Option<Seq<char>> {
        match self {
            ZenValue::ZenI32Value(v) => Some(decimal_int(*v as int)),
            ZenValue::ZenI64Value(v) => Some(decimal_int(*v as int)),
            ZenValue::ZenF32Value(_) => None,
            ZenValue::ZenF64Value(_) => None,
        }
    }

    /// The value as an argument of a call: for an integer the C string of its
    /// decimal text, for a float its bits.
    pub open spec fn is_arg(&self, arg: ZenArgExtern) -> bool {
        match self {
            ZenValue::ZenI32Value(_) | ZenValue::ZenI64Value(_) => arg matches ZenArgExtern::Text(
                bytes,
            ) && bytes@ == c_str_bytes(self.decimal()->0),
            ZenValue::ZenF32Value(bits) => arg == ZenArgExtern::Float32(*bits),
            ZenValue::ZenF64Value(bits) => arg == ZenArgExtern::Float64(*bits),
        }
    }

    /// The kind of the value.
    pub fn value_type(&self) -> (kind: ZenValueType)
        ensures
            kind == self.kind(),
    {
        match self {
            ZenValue::ZenI32Value(_) => ZenValueType::I32,
            ZenValue::ZenI64Value(_) => ZenValueType::I64,
            ZenValue::ZenF32Value(_) => ZenValueType::F32,
            ZenValue::ZenF64Value(_) => ZenValueType::F64,
        }
    }

    /// The record that carries the value.
    pub fn to_extern(&self) -> (record: ZenValueExtern)
        ensures
            record == self.record(),
    {
        let value: i64 = match self {
            ZenValue::ZenI32Value(v) => *v as i64,
            ZenValue::ZenI64Value(v) => *v,
            ZenValue::ZenF32Value(bits) => *bits as i64,
            ZenValue::ZenF64Value(bits) => #[verifier::truncate]
            (*bits as i64),
        };
        ZenValueExtern { value_type: self.value_type().to_i32(), value }
    }

    /// The value that `record` carries; an error for a tag that names no kind.
    pub fn from_extern(record: &ZenValueExtern) -> (value: Result<ZenValue, String>)
        ensures
            match Self::of_record(*record) {
                Some(v) => value == Ok::<ZenValue, String>(v),
                None => value is Err && value->Err_0@ == invalid_value_type_message(),
            },
    {
        match ZenValueType::from_i32(record.value_type) {
            Some(ZenValueType::I32) => Ok(
                ZenValue::ZenI32Value(
                    #[verifier::truncate]
                    (record.value as i32),
                ),
            ),
            Some(ZenValueType::I64) => Ok(ZenValue::ZenI64Value(record.value)),
            Some(ZenValueType::F32) => Ok(
                ZenValue::ZenF32Value(
                    #[verifier::truncate]
                    (record.value as u32),
                ),
            ),
            Some(ZenValueType::F64) => Ok(
                ZenValue::ZenF64Value(
                    #[verifier::truncate]
                    (record.value as u64),
                ),
            ),
            None => Err("invalid wasm func return value type".to_owned()),
        }
    }

    /// The decimal text of an integer value; `None` for a float, whose text is
    /// not made here.
    pub fn to_string(&self) -> (text: Option<String>)
        ensures
            text is Some <==> self.decimal() is Some,
            text is Some ==> text->0@ == self.decimal()->0,
    {
        match self {
            ZenValue::ZenI32Value(v) => Some(i64_to_decimal(*v as i64)),
            ZenValue::ZenI64Value(v) => Some(i64_to_decimal(*v)),
            ZenValue::ZenF32Value(_) => None,
            ZenValue::ZenF64Value(_) => None,
        }
    }

    /// The decimal text of an integer value as a C string; `None` for a float.
    pub fn to_c_str_bytes(&self) -> (bytes: Option<Vec<u8>>)
        ensures
            bytes is Some <==> self.decimal() is Some,
            bytes is Some ==> bytes->0@ == c_str_bytes(self.decimal()->0),
    {
        match self.to_string() {
            Some(value_str) => Some(rust_str_to_c_str(value_str.as_str())),
            None => None,
        }
    }

    /// The value as an argument of a call.
    pub fn to_arg(&self) -> (arg: ZenArgExtern)
        ensures
            self.is_arg(arg),
    {
        match self {
            ZenValue::ZenF32Value(bits) => ZenArgExtern::Float32(*bits),
            ZenValue::ZenF64Value(bits) => ZenArgExtern::Float64(*bits),
            _ => {
                let bytes = self.to_c_str_bytes();
                ZenArgExtern::Text(bytes.unwrap())
            },
        }
    }
}

/// A value is found again in the record that carries it: the integers exactly,
/// the floats bit for bit.
pub proof fn lemma_record_round_trip(value: ZenValue)
    ensures
        ZenValue::of_record(value.record()) == Some(value),
{
    match value {
        ZenValue::ZenI32Value(v) => {
            assert((v as i64) as i32 == v) by (bit_vector);
        },
        ZenValue::ZenI64Value(v) => {},
        ZenValue::ZenF32Value(bits) => {
            assert((bits as i64) as u32 == bits) by (bit_vector);
        },
        ZenValue::ZenF64Value(bits) => {
            assert((bits as i64) as u64 == bits) by (bit_vector);
        },
    }
}

} // verus!
