//! How the scalar types of the schemas stand in a slot. A scalar that has its
//! type's default value is left off the wire, and a missing field reads as the
//! default.

use vstd::prelude::*;
use vstd::arithmetic::div_mod::lemma_mod_multiples_vanish;
use vstd::arithmetic::div_mod::lemma_small_mod;
use vstd::slice::slice_to_vec;
use vstd::utf8::decode_utf8;
use vstd::utf8::encode_utf8;
use vstd::utf8::encode_utf8_decode_utf8;
use vstd::utf8::encode_utf8_valid_utf8;
use vstd::utf8::valid_utf8;
use crate::protocol::wire::FieldValue;
use crate::protocol::wire::SlotValue;
use crate::protocol::wire::slot_view;
use crate::utf8::string_from_utf8;

verus! {

/// The signed 32-bit value that the low 32 bits of `v` stand for.
pub open spec fn int32_of(v: u64) -> i32 {
    let low = v % 0x1_0000_0000;
    if low < 0x8000_0000 {
        low as i32
    } else {
        (low - 0x1_0000_0000) as i32
    }
}

/// The 64-bit pattern that `d` is written as: a negative value is extended by
/// its sign.
pub open spec fn int32_bits(d: i32) -> u64 {
    if d >= 0 {
        d as u64
    } else {
        (d + 0x1_0000_0000_0000_0000) as u64
    }
}

/// A signed 32-bit field read from its slot.
pub open spec fn slot_int32(v: Option<FieldValue>) -> i32 {
    match v {
        Some(FieldValue::Varint(x)) => int32_of(x),
        _ => 0,
    }
}

/// The slot of a signed 32-bit field.
pub open spec fn int32_slot(d: i32) -> Option<FieldValue> {
    if d == 0 {
        None
    } else {
        Some(FieldValue::Varint(int32_bits(d)))
    }
}

/// An unsigned 32-bit field read from its slot: the low 32 bits.
pub open spec fn slot_uint32(v: Option<FieldValue>) -> u32 {
    match v {
        Some(FieldValue::Varint(x)) => (x % 0x1_0000_0000) as u32,
        _ => 0,
    }
}

/// The slot of an unsigned 32-bit field.
pub open spec fn uint32_slot(d: u32) -> Option<FieldValue> {
    if d == 0 {
        None
    } else {
        Some(FieldValue::Varint(d as u64))
    }
}

/// An unsigned 64-bit field read from its slot.
pub open spec fn slot_uint64(v: Option<FieldValue>) -> u64 {
    match v {
        Some(FieldValue::Varint(x)) => x,
        _ => 0,
    }
}

/// The slot of an unsigned 64-bit field.
pub open spec fn uint64_slot(d: u64) -> Option<FieldValue> {
    if d == 0 {
        None
    } else {
        Some(FieldValue::Varint(d))
    }
}

/// A boolean field read from its slot: true for any value but zero.
pub open spec fn slot_bool(v: Option<FieldValue>) -> bool {
    match v {
        Some(FieldValue::Varint(x)) => x != 0,
        _ => false,
    }
}

/// The slot of a boolean field.
pub open spec fn bool_slot(b: bool) -> Option<FieldValue> {
    if b {
        Some(FieldValue::Varint(1))
    } else {
        None
    }
}

/// A byte-block field read from its slot.
pub open spec fn slot_bytes(v: Option<FieldValue>) -> Seq<u8> {
    match v {
        Some(FieldValue::Bytes(b)) => b,
        _ => Seq::empty(),
    }
}

/// The slot of a byte-block field.
pub open spec fn bytes_slot(b: Seq<u8>) -> Option<FieldValue> {
    if b.len() == 0 {
        None
    } else {
        Some(FieldValue::Bytes(b))
    }
}

/// A text field read from its slot; `None` where the bytes are not valid
/// UTF-8.
pub open spec fn slot_string(v: Option<FieldValue>) -> Option<Seq<char>> {
    match v {
        Some(FieldValue::Bytes(b)) => if valid_utf8(b) {
            Some(decode_utf8(b))
        } else {
            None
        },
        _ => Some(Seq::empty()),
    }
}

/// The slot of a text field.
pub open spec fn string_slot(s: Seq<char>) -> Option<FieldValue> {
    if s.len() == 0 {
        None
    } else {
        Some(FieldValue::Bytes(encode_utf8(s)))
    }
}

/// An optional text field read from its slot; the outer `None` where the
/// bytes are not valid UTF-8.
pub open spec fn slot_opt_string(v: Option<FieldValue>) -> Option<Option<Seq<char>>> {
    match v {
        Some(FieldValue::Bytes(b)) => if valid_utf8(b) {
            Some(Some(decode_utf8(b)))
        } else {
            None
        },
        _ => Some(None),
    }
}

/// The slot of an optional text field: a present text is written even where
/// it is empty.
pub open spec fn opt_string_slot(s: Option<Seq<char>>) -> Option<FieldValue> {
    match s {
        Some(text) => Some(FieldValue::Bytes(encode_utf8(text))),
        None => None,
    }
}

/// Every signed 32-bit value is read back from its pattern.
pub proof fn lemma_int32_roundtrip(d: i32)
    ensures
        slot_int32(int32_slot(d)) == d,
{
    if d < 0 {
        let low: int = d + 0x1_0000_0000;
        assert(int32_bits(d) == 0x1_0000_0000 * 0xffff_ffff + low);
        lemma_mod_multiples_vanish(0xffff_ffff, low, 0x1_0000_0000);
        lemma_small_mod(low as nat, 0x1_0000_0000);
    } else if d > 0 {
        lemma_small_mod(d as nat, 0x1_0000_0000);
    }
}

/// Every text is read back from its slot, and what stands for it in the
/// slot is valid UTF-8.
pub proof fn lemma_string_roundtrip(s: Seq<char>)
    ensures
        slot_string(string_slot(s)) == Some(s),
        slot_opt_string(opt_string_slot(Some(s))) == Some(Some(s)),
        valid_utf8(encode_utf8(s)),
{
    encode_utf8_valid_utf8(s);
    encode_utf8_decode_utf8(s);
    if s.len() == 0 {
        assert(s =~= Seq::<char>::empty());
    }
}

/// Reads a signed 32-bit field.
pub fn get_int32(slot: &Option<SlotValue>) -> (d: i32)
    ensures
        d == slot_int32(slot_view(*slot)),
{
    match slot {
        Some(SlotValue::Varint(x)) => {
            let low: u64 = *x % 0x1_0000_0000;
            if low < 0x8000_0000 {
                low as i32
            } else {
                (low as i64 - 0x1_0000_0000) as i32
            }
        },
        _ => 0,
    }
}

/// The slot of a signed 32-bit field.
pub fn set_int32(d: i32) -> (slot: Option<SlotValue>)
    ensures
        slot_view(slot) == int32_slot(d),
{
    if d == 0 {
        None
    } else if d > 0 {
        Some(SlotValue::Varint(d as u64))
    } else {
        let magnitude: u64 = (-(d as i64)) as u64;
        Some(SlotValue::Varint(u64::MAX - (magnitude - 1)))
    }
}

/// Reads an unsigned 32-bit field.
pub fn get_uint32(slot: &Option<SlotValue>) -> (d: u32)
    ensures
        d == slot_uint32(slot_view(*slot)),
{
    match slot {
        Some(SlotValue::Varint(x)) => (*x % 0x1_0000_0000) as u32,
        _ => 0,
    }
}

/// The slot of an unsigned 32-bit field.
pub fn set_uint32(d: u32) -> (slot: Option<SlotValue>)
    ensures
        slot_view(slot) == uint32_slot(d),
{
    if d == 0 {
        None
    } else {
        Some(SlotValue::Varint(d as u64))
    }
}

/// Reads an unsigned 64-bit field.
pub fn get_uint64(slot: &Option<SlotValue>) -> (d: u64)
    ensures
        d == slot_uint64(slot_view(*slot)),
{
    match slot {
        Some(SlotValue::Varint(x)) => *x,
        _ => 0,
    }
}

/// The slot of an unsigned 64-bit field.
pub fn set_uint64(d: u64) -> (slot: Option<SlotValue>)
    ensures
        slot_view(slot) == uint64_slot(d),
{
    if d == 0 {
        None
    } else {
        Some(SlotValue::Varint(d))
    }
}

/// Reads a boolean field.
pub fn get_bool(slot: &Option<SlotValue>) -> (b: bool)
    ensures
        b == slot_bool(slot_view(*slot)),
{
    match slot {
        Some(SlotValue::Varint(x)) => *x != 0,
        _ => false,
    }
}

/// The slot of a boolean field.
pub fn set_bool(b: bool) -> (slot: Option<SlotValue>)
    ensures
        slot_view(slot) == bool_slot(b),
{
    if b {
        Some(SlotValue::Varint(1))
    } else {
        None
    }
}

/// Reads a byte-block field.
pub fn get_bytes(slot: Option<SlotValue>) -> (b: Vec<u8>)
    ensures
        b@ == slot_bytes(slot_view(slot)),
{
    match slot {
        Some(SlotValue::Bytes(b)) => b,
        _ => Vec::new(),
    }
}

/// The slot of a byte-block field.
pub fn set_bytes(b: &[u8]) -> (slot: Option<SlotValue>)
    ensures
        slot_view(slot) == bytes_slot(b@),
{
    if b.len() == 0 {
        None
    } else {
        Some(SlotValue::Bytes(slice_to_vec(b)))
    }
}

/// Reads a text field.
pub fn get_string(slot: Option<SlotValue>) -> (s: Option<String>)
    ensures
        match s {
            Some(text) => slot_string(slot_view(slot)) == Some(text@),
            None => slot_string(slot_view(slot)) is None,
        },
{
    match slot {
        Some(SlotValue::Bytes(b)) => string_from_utf8(b),
        _ => Some(String::new()),
    }
}

/// The slot of a text field.
pub fn set_string(s: &String) -> (slot: Option<SlotValue>)
    ensures
        slot_view(slot) == string_slot(s@),
{
    let text = s.as_str();
    if text.is_empty() {
        None
    } else {
        Some(SlotValue::Bytes(slice_to_vec(text.as_bytes())))
    }
}

/// Reads an optional text field.
pub fn get_opt_string(slot: Option<SlotValue>) -> (s: Option<Option<String>>)
    ensures
        match s {
            Some(Some(text)) => slot_opt_string(slot_view(slot)) == Some(Some(text@)),
            Some(None) => slot_opt_string(slot_view(slot)) == Some(None::<Seq<char>>),
            None => slot_opt_string(slot_view(slot)) is None,
        },
{
    match slot {
        Some(SlotValue::Bytes(b)) => match string_from_utf8(b) {
            Some(text) => Some(Some(text)),
            None => None,
        },
        _ => Some(None),
    }
}

/// The slot of an optional text field.
pub fn set_opt_string(s: &Option<String>) -> (slot: Option<SlotValue>)
    ensures
        slot_view(slot) == opt_string_slot(
            match *s {
                Some(text) => Some(text@),
                None => None,
            },
        ),
{
    match s {
        Some(text) => Some(SlotValue::Bytes(slice_to_vec(text.as_str().as_bytes()))),
        None => None,
    }
}

/// The byte block of a slot that must hold one.
pub open spec fn slot_block(v: Option<FieldValue>) -> Option<Seq<u8>> {
    match v {
        Some(FieldValue::Bytes(b)) => Some(b),
        _ => None,
    }
}

/// Takes the byte block out of a slot; `None` where the slot holds none.
pub fn get_block(slot: Option<SlotValue>) -> (b: Option<Vec<u8>>)
    ensures
        match b {
            Some(block) => slot_block(slot_view(slot)) == Some(block@),
            None => slot_block(slot_view(slot)) is None,
        },
{
    match slot {
        Some(SlotValue::Bytes(b)) => Some(b),
        _ => None,
    }
}

} // verus!
