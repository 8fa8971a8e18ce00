//! Register values and their decoding from raw Modbus words.

use crate::config::{DataType, RegisterConfig, RegisterConfigView};
use crate::text::clone_optional;
use crate::timestamp::Timestamp;
use vstd::prelude::*;

verus! {

/// Represents a register value with metadata. `value` is the engineering
/// value as an IEEE-754 binary64 bit pattern.
#[derive(Debug)]
pub struct RegisterValue {
    pub name: String,
    pub raw: Vec<u16>,
    pub value: u64,
    pub unit: Option<String>,
    pub timestamp: Timestamp,
}

pub struct RegisterValueView {
    pub name: Seq<char>,
    pub raw: Seq<u16>,
    pub value: u64,
    pub unit: Option<Seq<char>>,
    pub timestamp: Timestamp,
}

impl DeepView for RegisterValue {
    type V = RegisterValueView;

    open spec fn deep_view(&self) -> RegisterValueView {
        RegisterValueView {
            name: self.name@,
            raw: self.raw@,
            value: self.value,
            unit: self.unit.deep_view(),
            timestamp: self.timestamp,
        }
    }
}

impl Clone for RegisterValue {
    fn clone(&self) -> (copy: Self)
        ensures
            copy.deep_view() == self.deep_view(),
    {
        RegisterValue {
            name: self.name.clone(),
            raw: self.raw.clone(),
            value: self.value,
            unit: clone_optional(&self.unit),
            timestamp: self.timestamp,
        }
    }
}

impl RegisterValue {
    /// The value that a successful read of `register` at `timestamp` yields:
    /// it takes its name and unit from the descriptor.
    pub open spec fn of_read(
        register: RegisterConfigView,
        raw: Seq<u16>,
        value: u64,
        timestamp: Timestamp,
    ) -> RegisterValueView {
        RegisterValueView { name: register.name, raw, value, unit: register.unit, timestamp }
    }

    /// Builds the value of a successful read. `value` is the calibrated
    /// engineering value as binary64 bits, `timestamp` the instant the read
    /// completed.
    pub fn from_read(register: &RegisterConfig, raw: Vec<u16>, value: u64, timestamp: Timestamp) -> (read:
        RegisterValue)
        ensures
            read.deep_view() == Self::of_read(register.deep_view(), raw@, value, timestamp),
    {
        RegisterValue {
            name: register.name.clone(),
            raw,
            value,
            unit: clone_optional(&register.unit),
            timestamp,
        }
    }
}

/// What the raw words of a register stand for before calibration: an exact
/// integer, or the bit pattern of an IEEE-754 binary32 number.
#[derive(Debug, Clone, Copy, PartialEq, Eq, Structural)]
pub enum Decoded {
    Integer(i64),
    Float32(u32),
}

impl Decoded {
    /// The decoded quantity is zero (for a binary32 pattern: positive zero).
    pub open spec fn is_zero(self) -> bool {
        match self {
            Decoded::Integer(n) => n == 0,
            Decoded::Float32(bits) => bits == 0,
        }
    }
}

/// Two words as one 32-bit quantity, high word first.
pub open spec fn word_pair(high: u16, low: u16) -> int {
    high as int * 0x1_0000 + low as int
}

/// A word read as a two's-complement 16-bit number.
pub open spec fn signed16(word: u16) -> int {
    if word >= 0x8000 {
        word as int - 0x1_0000
    } else {
        word as int
    }
}

/// A 32-bit quantity read as a two's-complement number.
pub open spec fn signed32(quantity: int) -> int {
    if quantity >= 0x8000_0000 {
        quantity - 0x1_0000_0000
    } else {
        quantity
    }
}

/// The decoding of raw words under a data type. Words beyond those the type
/// needs are ignored; with too few words the result is zero.
pub open spec fn decoded(raw: Seq<u16>, data_type: DataType) -> Decoded {
    match data_type {
        DataType::U16 => Decoded::Integer(
            if raw.len() >= 1 {
                raw[0] as i64
            } else {
                0
            },
        ),
        DataType::I16 => Decoded::Integer(
            if raw.len() >= 1 {
                signed16(raw[0]) as i64
            } else {
                0
            },
        ),
        DataType::U32 => Decoded::Integer(
            if raw.len() >= 2 {
                word_pair(raw[0], raw[1]) as i64
            } else {
                0
            },
        ),
        DataType::I32 => Decoded::Integer(
            if raw.len() >= 2 {
                signed32(word_pair(raw[0], raw[1])) as i64
            } else {
                0
            },
        ),
        DataType::F32 => Decoded::Float32(
            if raw.len() >= 2 {
                word_pair(raw[0], raw[1]) as u32
            } else {
                0
            },
        ),
        DataType::Bool => Decoded::Integer(
            if raw.len() >= 1 && raw[0] != 0 {
                1
            } else {
                0
            },
        ),
    }
}

fn join_words(high: u16, low: u16) -> (joined: u32)
    ensures
        joined == word_pair(high, low),
{
    let joined = ((high as u32) << 16) | (low as u32);
    assert(((high as u32) << 16) | (low as u32) == (high as u32) * 0x1_0000 + (low as u32))
        by (bit_vector);
    joined
}

/// Convert raw register values to the quantity they encode under the
/// register's data type. Calibration by scale and offset is floating-point
/// arithmetic and is applied to this result outside the verified core.
pub fn convert_value(raw: &[u16], config: &RegisterConfig) -> (value: Decoded)
    ensures
        value == decoded(raw@, config.data_type),
{
    match config.data_type {
        DataType::U16 => Decoded::Integer(
            if raw.len() >= 1 {
                raw[0] as i64
            } else {
                0
            },
        ),
        DataType::I16 => Decoded::Integer(
            if raw.len() >= 1 {
                if raw[0] >= 0x8000 {
                    raw[0] as i64 - 0x1_0000
                } else {
                    raw[0] as i64
                }
            } else {
                0
            },
        ),
        DataType::U32 => Decoded::Integer(
            if raw.len() >= 2 {
                join_words(raw[0], raw[1]) as i64
            } else {
                0
            },
        ),
        DataType::I32 => Decoded::Integer(
            if raw.len() >= 2 {
                let joined = join_words(raw[0], raw[1]);
                if joined >= 0x8000_0000 {
                    joined as i64 - 0x1_0000_0000
                } else {
                    joined as i64
                }
            } else {
                0
            },
        ),
        DataType::F32 => Decoded::Float32(
            if raw.len() >= 2 {
                join_words(raw[0], raw[1])
            } else {
                0
            },
        ),
        DataType::Bool => Decoded::Integer(
            if raw.len() >= 1 && raw[0] != 0 {
                1
            } else {
                0
            },
        ),
    }
}

/// One word decodes to its unsigned value as `U16`, and to its
/// two's-complement value as `I16`: the number in `-32768..32768` that
/// differs from the word by a multiple of 65536.
pub proof fn lemma_decode_single_word(word: u16)
    ensures
        decoded(seq![word], DataType::U16) == Decoded::Integer(word as i64),
        decoded(seq![word], DataType::I16) == Decoded::Integer(signed16(word) as i64),
        -0x8000 <= signed16(word) < 0x8000,
        signed16(word) == word || signed16(word) == word - 0x1_0000,
{
}

/// Two words decode high word first: as `U32` to `(high << 16) | low`, as
/// `I32` to the two's-complement reading of that quantity, and as `F32` to
/// the binary32 number with that bit pattern.
pub proof fn lemma_decode_word_pair(high: u16, low: u16)
    ensures
        word_pair(high, low) == ((high as u32) << 16) | (low as u32),
        decoded(seq![high, low], DataType::U32) == Decoded::Integer(word_pair(high, low) as i64),
        decoded(seq![high, low], DataType::I32) == Decoded::Integer(
            signed32(word_pair(high, low)) as i64,
        ),
        decoded(seq![high, low], DataType::F32) == Decoded::Float32(word_pair(high, low) as u32),
        -0x8000_0000 <= signed32(word_pair(high, low)) < 0x8000_0000,
        signed32(word_pair(high, low)) == word_pair(high, low) || signed32(word_pair(high, low))
            == word_pair(high, low) - 0x1_0000_0000,
{
    assert(((high as u32) << 16) | (low as u32) == (high as u32) * 0x1_0000 + (low as u32))
        by (bit_vector);
}

/// No words decode to zero, whatever the data type.
pub proof fn lemma_decode_empty(data_type: DataType)
    ensures
        decoded(Seq::empty(), data_type).is_zero(),
{
}

/// Too few words decode to zero.
pub proof fn lemma_decode_short(raw: Seq<u16>, data_type: DataType)
    requires
        raw.len() < data_type.words_needed(),
    ensures
        decoded(raw, data_type).is_zero(),
{
}

} // verus!
