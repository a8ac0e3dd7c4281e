//! Field-level wire format. A message body is a sequence of fields, each a
//! key (field number and wire type) followed by its value. A schema here has
//! at most four fields, numbered 1 to 4, so a decoded body is held as four
//! slots. A number, a byte block or a text that occurs again replaces the
//! earlier one; every occurrence of a text has to be valid UTF-8, the ones
//! that are replaced too. An embedded message that occurs again continues the
//! earlier one: the slot holds the bodies of all its occurrences in a row, so
//! that reading the slot merges them, field by field, in the order in which
//! they came. Every one of these bodies has to be a sequence of whole fields.

use vstd::prelude::*;
use vstd::slice::slice_subrange;
use vstd::slice::slice_to_vec;
use vstd::utf8::valid_utf8;
use crate::protocol::varint::decode_varint;
use crate::protocol::varint::encode_varint;
use crate::protocol::varint::lemma_decode_varint_of_varint;
use crate::protocol::varint::lemma_raw_varint_bounds;
use crate::protocol::varint::lemma_raw_varint_prefix;
use crate::protocol::varint::lemma_varint_len_u64;
use crate::protocol::varint::read_varint;
use crate::protocol::varint::varint;
use crate::utf8::string_from_utf8;

verus! {

/// Wire type of a variable-length integer.
pub const WIRE_VARINT: u64 = 0;

/// Wire type of eight fixed bytes.
pub const WIRE_FIXED64: u64 = 1;

/// Wire type of a length-prefixed byte block.
pub const WIRE_BYTES: u64 = 2;

/// Wire type of four fixed bytes.
pub const WIRE_FIXED32: u64 = 5;

/// The value of one field as it stands on the wire.
pub ghost enum FieldValue {
    Varint(u64),
    Fixed64(Seq<u8>),
    Bytes(Seq<u8>),
    Fixed32(Seq<u8>),
}

/// One field of a message body.
pub ghost struct Field {
    pub number: nat,
    pub value: FieldValue,
}

/// Reads one field from the front of `bytes`: the field and the number of
/// bytes it occupies. `None` where the key is malformed, the field number is
/// zero, the wire type is not one of the four above, or the value is cut off.
pub open spec fn parse_field(bytes: Seq<u8>) -> Option<(Field, nat)> {
    match decode_varint(bytes) {
        None => None,
        Some((key, kn)) => {
            let number = (key / 8) as nat;
            let wire_type = key % 8;
            let rest = bytes.skip(kn as int);
            if key > u32::MAX || number == 0 {
                None
            } else if wire_type == WIRE_VARINT {
                match decode_varint(rest) {
                    Some((v, vn)) => Some((Field { number, value: FieldValue::Varint(v) }, kn + vn)),
                    None => None,
                }
            } else if wire_type == WIRE_FIXED64 {
                if rest.len() >= 8 {
                    Some((Field { number, value: FieldValue::Fixed64(rest.take(8)) }, kn + 8))
                } else {
                    None
                }
            } else if wire_type == WIRE_BYTES {
                match decode_varint(rest) {
                    Some((len, ln)) => if rest.len() - ln >= len {
                        Some(
                            (
                                Field {
                                    number,
                                    value: FieldValue::Bytes(rest.subrange(ln as int, ln + len)),
                                },
                                kn + ln + len as nat,
                            ),
                        )
                    } else {
                        None
                    },
                    None => None,
                }
            } else if wire_type == WIRE_FIXED32 {
                if rest.len() >= 4 {
                    Some((Field { number, value: FieldValue::Fixed32(rest.take(4)) }, kn + 4))
                } else {
                    None
                }
            } else {
                None
            }
        },
    }
}

/// The field that `parse_field` reads, where it reads one.
pub open spec fn parsed_field(bytes: Seq<u8>) -> Field {
    let (field, n) = parse_field(bytes).unwrap();
    field
}

/// The number of bytes that `parse_field` reads, where it reads a field.
pub open spec fn parsed_len(bytes: Seq<u8>) -> nat {
    let (field, n) = parse_field(bytes).unwrap();
    n
}

/// The bytes of a field with a value of one of the two kinds that the
/// schemas use; empty for the other two.
pub open spec fn encode_field(number: nat, value: FieldValue) -> Seq<u8> {
    match value {
        FieldValue::Varint(v) => varint(number * 8 + 0) + varint(v as nat),
        FieldValue::Bytes(b) => varint(number * 8 + 2) + varint(b.len()) + b,
        _ => Seq::empty(),
    }
}

/// What a schema expects under one field number.
#[derive(Clone, Copy, PartialEq, Eq, Structural)]
pub enum Kind {
    /// The schema has no such field: an occurrence is skipped.
    Unknown,
    /// A variable-length integer.
    Varint,
    /// A length-prefixed byte block.
    Bytes,
    /// A length-prefixed byte block that is a text in UTF-8.
    Text,
    /// A length-prefixed byte block that is the body of an embedded message.
    Message,
}

/// One field number of a schema: its kind, and whether it is a member of the
/// schema's one-of group.
#[derive(Clone, Copy)]
pub struct SlotKind {
    pub kind: Kind,
    pub exclusive: bool,
}

/// A schema as far as the wire is concerned.
#[derive(Clone, Copy)]
pub struct Shape {
    pub k1: SlotKind,
    pub k2: SlotKind,
    pub k3: SlotKind,
    pub k4: SlotKind,
}

/// A schema slot that holds a variable-length integer.
pub open spec fn spec_varint_slot() -> SlotKind {
    SlotKind { kind: Kind::Varint, exclusive: false }
}

/// A schema slot that holds a byte block.
pub open spec fn spec_bytes_slot() -> SlotKind {
    SlotKind { kind: Kind::Bytes, exclusive: false }
}

/// A schema slot that holds a text.
pub open spec fn spec_text_slot() -> SlotKind {
    SlotKind { kind: Kind::Text, exclusive: false }
}

/// A schema slot that holds a text and belongs to the one-of group.
pub open spec fn spec_text_choice_slot() -> SlotKind {
    SlotKind { kind: Kind::Text, exclusive: true }
}

/// A schema slot that holds an embedded message.
pub open spec fn spec_message_slot() -> SlotKind {
    SlotKind { kind: Kind::Message, exclusive: false }
}

/// A schema slot that holds an embedded message and belongs to the one-of
/// group.
pub open spec fn spec_message_choice_slot() -> SlotKind {
    SlotKind { kind: Kind::Message, exclusive: true }
}

/// A field number that the schema does not use.
pub open spec fn spec_unused_slot() -> SlotKind {
    SlotKind { kind: Kind::Unknown, exclusive: false }
}

/// A schema slot that holds a variable-length integer.
pub fn varint_slot() -> (k: SlotKind)
    ensures
        k == spec_varint_slot(),
{
    SlotKind { kind: Kind::Varint, exclusive: false }
}

/// A schema slot that holds a byte block.
pub fn bytes_slot_kind() -> (k: SlotKind)
    ensures
        k == spec_bytes_slot(),
{
    SlotKind { kind: Kind::Bytes, exclusive: false }
}

/// A schema slot that holds a text.
pub fn text_slot() -> (k: SlotKind)
    ensures
        k == spec_text_slot(),
{
    SlotKind { kind: Kind::Text, exclusive: false }
}

/// A schema slot that holds a text and belongs to the one-of group.
pub fn text_choice_slot() -> (k: SlotKind)
    ensures
        k == spec_text_choice_slot(),
{
    SlotKind { kind: Kind::Text, exclusive: true }
}

/// A schema slot that holds an embedded message.
pub fn message_slot() -> (k: SlotKind)
    ensures
        k == spec_message_slot(),
{
    SlotKind { kind: Kind::Message, exclusive: false }
}

/// A schema slot that holds an embedded message and belongs to the one-of
/// group.
pub fn message_choice_slot() -> (k: SlotKind)
    ensures
        k == spec_message_choice_slot(),
{
    SlotKind { kind: Kind::Message, exclusive: true }
}

/// A field number that the schema does not use.
pub fn unused_slot() -> (k: SlotKind)
    ensures
        k == spec_unused_slot(),
{
    SlotKind { kind: Kind::Unknown, exclusive: false }
}

impl Shape {
    /// The kind expected under `number`: that of the schema for the numbers
    /// 1 to 4, and that of an unused number for every other.
    pub open spec fn slot(self, number: nat) -> SlotKind {
        if number == 1 {
            self.k1
        } else if number == 2 {
            self.k2
        } else if number == 3 {
            self.k3
        } else if number == 4 {
            self.k4
        } else {
            spec_unused_slot()
        }
    }
}

/// A value held in a slot.
pub enum SlotValue {
    Varint(u64),
    Bytes(Vec<u8>),
}

impl View for SlotValue {
    type V = FieldValue;

    open spec fn view(&self) -> FieldValue {
        match self {
            SlotValue::Varint(v) => FieldValue::Varint(*v),
            SlotValue::Bytes(b) => FieldValue::Bytes(b@),
        }
    }
}

/// The view of an optional slot value.
pub open spec fn slot_view(s: Option<SlotValue>) -> Option<FieldValue> {
    match s {
        Some(v) => Some(v@),
        None => None,
    }
}

/// The four slots of a decoded body.
pub struct Slots {
    pub f1: Option<SlotValue>,
    pub f2: Option<SlotValue>,
    pub f3: Option<SlotValue>,
    pub f4: Option<SlotValue>,
}

/// Mathematical content of `Slots`.
pub ghost struct SlotsView {
    pub f1: Option<FieldValue>,
    pub f2: Option<FieldValue>,
    pub f3: Option<FieldValue>,
    pub f4: Option<FieldValue>,
}

impl View for Slots {
    type V = SlotsView;

    open spec fn view(&self) -> SlotsView {
        SlotsView {
            f1: slot_view(self.f1),
            f2: slot_view(self.f2),
            f3: slot_view(self.f3),
            f4: slot_view(self.f4),
        }
    }
}

impl SlotsView {
    /// Four empty slots.
    pub open spec fn empty() -> SlotsView {
        SlotsView { f1: None, f2: None, f3: None, f4: None }
    }

    /// What stands under `number`; nothing for a number other than 1 to 4.
    pub open spec fn get(self, number: nat) -> Option<FieldValue> {
        if number == 1 {
            self.f1
        } else if number == 2 {
            self.f2
        } else if number == 3 {
            self.f3
        } else if number == 4 {
            self.f4
        } else {
            None
        }
    }

    /// The slots after a value was stored under `number`: a member of the
    /// one-of group first empties the group's other members, and the body of
    /// an embedded message is joined to the one that its slot holds. There
    /// is no slot for a number other than 1 to 4, so nothing is stored for
    /// one.
    pub open spec fn put(self, number: nat, value: FieldValue, shape: Shape) -> SlotsView {
        let excl = shape.slot(number).exclusive;
        let value = joined(self.get(number), value, shape.slot(number).kind);
        let base = SlotsView {
            f1: if excl && shape.k1.exclusive { None } else { self.f1 },
            f2: if excl && shape.k2.exclusive { None } else { self.f2 },
            f3: if excl && shape.k3.exclusive { None } else { self.f3 },
            f4: if excl && shape.k4.exclusive { None } else { self.f4 },
        };
        if number == 1 {
            SlotsView { f1: Some(value), ..base }
        } else if number == 2 {
            SlotsView { f2: Some(value), ..base }
        } else if number == 3 {
            SlotsView { f3: Some(value), ..base }
        } else if number == 4 {
            SlotsView { f4: Some(value), ..base }
        } else {
            self
        }
    }

    /// The slots after one field was read. A field that the schema does not
    /// know is skipped; one whose wire type is not the schema's is refused,
    /// and so are a text that is not valid UTF-8 and an embedded message
    /// whose body is no sequence of fields.
    pub open spec fn place(self, field: Field, shape: Shape) -> Option<SlotsView> {
        if field.number < 1 || field.number > 4 {
            Some(self)
        } else {
            match shape.slot(field.number).kind {
                Kind::Unknown => Some(self),
                Kind::Varint => if field.value is Varint {
                    Some(self.put(field.number, field.value, shape))
                } else {
                    None
                },
                Kind::Bytes => if field.value is Bytes {
                    Some(self.put(field.number, field.value, shape))
                } else {
                    None
                },
                Kind::Text => if field.value is Bytes && valid_utf8(field.value->Bytes_0) {
                    Some(self.put(field.number, field.value, shape))
                } else {
                    None
                },
                Kind::Message => if field.value is Bytes && is_body(field.value->Bytes_0) {
                    Some(self.put(field.number, field.value, shape))
                } else {
                    None
                },
            }
        }
    }

    /// Whether these slots are what an encoder for `shape` may hold: every
    /// value of its slot's kind, every text valid UTF-8, every embedded
    /// message a sequence of fields, and at most one member of the one-of
    /// group.
    pub open spec fn conforms(self, shape: Shape) -> bool {
        &&& slot_conforms(self.f1, shape.k1)
        &&& slot_conforms(self.f2, shape.k2)
        &&& slot_conforms(self.f3, shape.k3)
        &&& slot_conforms(self.f4, shape.k4)
        &&& exclusive_count(self.f1, shape.k1) + exclusive_count(self.f2, shape.k2)
            + exclusive_count(self.f3, shape.k3) + exclusive_count(self.f4, shape.k4) <= 1
    }
}

/// Whether an optional value fits a slot of kind `k`.
pub open spec fn slot_conforms(v: Option<FieldValue>, k: SlotKind) -> bool {
    match v {
        None => true,
        Some(FieldValue::Varint(_)) => k.kind == Kind::Varint,
        Some(FieldValue::Bytes(b)) => {
            ||| k.kind == Kind::Bytes
            ||| (k.kind == Kind::Text && valid_utf8(b))
            ||| (k.kind == Kind::Message && is_body(b))
        },
        Some(_) => false,
    }
}

/// What a slot of kind `kind` holds after `value` came for it while it held
/// `held`: the body of an embedded message continues the body that is there,
/// every other value replaces what is there.
pub open spec fn joined(held: Option<FieldValue>, value: FieldValue, kind: Kind) -> FieldValue {
    match (held, value) {
        (Some(FieldValue::Bytes(earlier)), FieldValue::Bytes(later)) => if kind == Kind::Message {
            FieldValue::Bytes(earlier + later)
        } else {
            value
        },
        _ => value,
    }
}

/// Whether `bytes` are a sequence of whole fields, whatever their numbers.
pub open spec fn is_body(bytes: Seq<u8>) -> bool
    decreases bytes.len(),
{
    if bytes.len() == 0 {
        true
    } else {
        match parse_field(bytes) {
            None => false,
            Some((field, n)) => 0 < n <= bytes.len() && is_body(bytes.skip(n as int)),
        }
    }
}

/// One for a filled member of the one-of group, zero otherwise.
pub open spec fn exclusive_count(v: Option<FieldValue>, k: SlotKind) -> nat {
    if v is Some && k.exclusive {
        1
    } else {
        0
    }
}

/// The bytes of one slot: nothing for an empty one.
pub open spec fn encode_slot(number: nat, v: Option<FieldValue>) -> Seq<u8> {
    match v {
        Some(value) => encode_field(number, value),
        None => Seq::empty(),
    }
}

/// The body that holds the filled slots in the order of their numbers.
pub open spec fn encode_slots(s: SlotsView) -> Seq<u8> {
    encode_slot(1, s.f1) + encode_slot(2, s.f2) + encode_slot(3, s.f3) + encode_slot(4, s.f4)
}

/// The slots that reading `bytes` to their end leaves, starting from `acc`.
/// `None` where a field is malformed or refused.
pub open spec fn decode_slots_from(bytes: Seq<u8>, shape: Shape, acc: SlotsView) -> Option<
    SlotsView,
>
    decreases bytes.len(),
{
    if bytes.len() == 0 {
        Some(acc)
    } else {
        match parse_field(bytes) {
            None => None,
            Some((field, n)) => match acc.place(field, shape) {
                None => None,
                Some(next) => if 0 < n <= bytes.len() {
                    decode_slots_from(bytes.skip(n as int), shape, next)
                } else {
                    None
                },
            },
        }
    }
}

/// The slots of a whole body.
pub open spec fn decode_slots(bytes: Seq<u8>, shape: Shape) -> Option<SlotsView> {
    decode_slots_from(bytes, shape, SlotsView::empty())
}

/// Appends `data` to `out`.
pub fn append_bytes(out: &mut Vec<u8>, data: &[u8])
    ensures
        final(out)@ == old(out)@ + data@,
{
    let mut i: usize = 0;
    while i < data.len()
        invariant
            i <= data.len(),
            out@ == old(out)@ + data@.take(i as int),
        decreases data.len() - i,
    {
        proof {
            assert(data@.take(i as int + 1) =~= data@.take(i as int).push(data@[i as int]));
            assert((old(out)@ + data@.take(i as int)).push(data@[i as int]) =~= old(out)@
                + data@.take(i as int + 1));
        }
        out.push(data[i]);
        i = i + 1;
    }
    proof {
        assert(data@.take(i as int) =~= data@);
    }
}

/// Appends the bytes of one slot under its field number.
pub fn write_slot(number: u32, slot: &Option<SlotValue>, out: &mut Vec<u8>)
    ensures
        final(out)@ == old(out)@ + encode_slot(number as nat, slot_view(*slot)),
{
    match slot {
        None => {
            proof {
                assert(out@ + Seq::<u8>::empty() =~= out@);
            }
        },
        Some(SlotValue::Varint(v)) => {
            let key: u64 = number as u64 * 8;
            encode_varint(key, out);
            encode_varint(*v, out);
            proof {
                assert(final(out)@ =~= old(out)@ + (varint((number * 8) as nat) + varint(*v as nat)));
            }
        },
        Some(SlotValue::Bytes(b)) => {
            let key: u64 = number as u64 * 8 + 2;
            encode_varint(key, out);
            encode_varint(b.len() as u64, out);
            append_bytes(out, b.as_slice());
            proof {
                assert(final(out)@ =~= old(out)@ + (varint((number * 8 + 2) as nat) + varint(b@.len())
                    + b@));
            }
        },
    }
}

/// The body that holds the filled slots in the order of their numbers.
pub fn write_slots(slots: &Slots) -> (out: Vec<u8>)
    ensures
        out@ == encode_slots(slots@),
{
    let mut out: Vec<u8> = Vec::new();
    write_slot(1, &slots.f1, &mut out);
    write_slot(2, &slots.f2, &mut out);
    write_slot(3, &slots.f3, &mut out);
    write_slot(4, &slots.f4, &mut out);
    proof {
        assert(out@ =~= encode_slots(slots@));
    }
    out
}

/// Reads the field that starts at `start`: its number, its value where it is
/// of a kind that a slot can hold, and the number of bytes read.
pub fn read_field(bytes: &[u8], start: usize) -> (r: Option<(u32, Option<SlotValue>, usize)>)
    requires
        start <= bytes.len(),
    ensures
        match r {
            Some((number, value, n)) => {
                &&& 1 <= n
                &&& start + n <= bytes.len()
                &&& parse_field(bytes@.skip(start as int)) is Some
                &&& parsed_len(bytes@.skip(start as int)) == n
                &&& parsed_field(bytes@.skip(start as int)).number == number
                &&& match value {
                    Some(v) => parsed_field(bytes@.skip(start as int)).value == v@,
                    None => parsed_field(bytes@.skip(start as int)).value is Fixed64
                        || parsed_field(bytes@.skip(start as int)).value is Fixed32,
                }
            },
            None => parse_field(bytes@.skip(start as int)) is None,
        },
{
    let ghost s = bytes@.skip(start as int);
    let (key, kn) = match read_varint(bytes, start) {
        Some(r) => r,
        None => {
            return None;
        },
    };
    proof {
        crate::protocol::varint::lemma_raw_varint_bounds(s);
    }
    if key > 0xffff_ffff || key / 8 == 0 {
        return None;
    }
    let number: u32 = (key / 8) as u32;
    let wire_type: u64 = key % 8;
    let at: usize = start + kn;
    let ghost rest = s.skip(kn as int);
    proof {
        assert(rest =~= bytes@.skip(at as int));
    }
    if wire_type == WIRE_VARINT {
        match read_varint(bytes, at) {
            Some((v, vn)) => {
                proof {
                    crate::protocol::varint::lemma_raw_varint_bounds(rest);
                }
                Some((number, Some(SlotValue::Varint(v)), kn + vn))
            },
            None => None,
        }
    } else if wire_type == WIRE_FIXED64 {
        if bytes.len() - at >= 8 {
            Some((number, None, kn + 8))
        } else {
            None
        }
    } else if wire_type == WIRE_BYTES {
        match read_varint(bytes, at) {
            Some((len, ln)) => {
                proof {
                    crate::protocol::varint::lemma_raw_varint_bounds(rest);
                }
                let from: usize = at + ln;
                if len <= (bytes.len() - from) as u64 {
                    let to: usize = from + len as usize;
                    let payload = slice_to_vec(slice_subrange(bytes, from, to));
                    proof {
                        assert(payload@ =~= rest.subrange(ln as int, ln + len));
                    }
                    Some((number, Some(SlotValue::Bytes(payload)), kn + ln + len as usize))
                } else {
                    None
                }
            },
            None => None,
        }
    } else if wire_type == WIRE_FIXED32 {
        if bytes.len() - at >= 4 {
            Some((number, None, kn + 4))
        } else {
            None
        }
    } else {
        None
    }
}

/// The kind that `shape` expects under `number`.
pub fn shape_slot(shape: &Shape, number: u32) -> (k: SlotKind)
    ensures
        k == shape.slot(number as nat),
{
    if number == 1 {
        shape.k1
    } else if number == 2 {
        shape.k2
    } else if number == 3 {
        shape.k3
    } else if number == 4 {
        shape.k4
    } else {
        unused_slot()
    }
}

/// Whether `bytes` are a sequence of whole fields.
pub fn check_body(bytes: &[u8]) -> (whole: bool)
    ensures
        whole == is_body(bytes@),
{
    let mut pos: usize = 0;
    proof {
        assert(bytes@.skip(0) =~= bytes@);
    }
    while pos < bytes.len()
        invariant
            pos <= bytes.len(),
            is_body(bytes@) == is_body(bytes@.skip(pos as int)),
        decreases bytes.len() - pos,
    {
        match read_field(bytes, pos) {
            None => {
                return false;
            },
            Some((_, _, n)) => {
                proof {
                    assert(bytes@.skip(pos as int).skip(n as int) =~= bytes@.skip(pos + n));
                }
                pos = pos + n;
            },
        }
    }
    true
}

/// What a slot of kind `kind` holds after `value` came for it while it held
/// `held`.
pub fn join_values(held: Option<SlotValue>, value: SlotValue, kind: Kind) -> (stored: SlotValue)
    ensures
        stored@ == joined(slot_view(held), value@, kind),
{
    match kind {
        Kind::Message => match held {
            Some(SlotValue::Bytes(earlier)) => match value {
                SlotValue::Bytes(later) => {
                    let mut whole = earlier;
                    append_bytes(&mut whole, later.as_slice());
                    SlotValue::Bytes(whole)
                },
                SlotValue::Varint(v) => SlotValue::Varint(v),
            },
            _ => value,
        },
        _ => value,
    }
}

/// Stores `value` under `number`, emptying the other members of the one-of
/// group where `number` is one of them, and joining the body of an embedded
/// message to the one that is there.
pub fn put_slot(slots: &mut Slots, number: u32, value: SlotValue, shape: &Shape)
    ensures
        final(slots)@ == old(slots)@.put(number as nat, value@, *shape),
{
    if number < 1 || number > 4 {
        return ;
    }
    let mut held: Option<SlotValue> = None;
    if number == 1 {
        core::mem::swap(&mut held, &mut slots.f1);
    } else if number == 2 {
        core::mem::swap(&mut held, &mut slots.f2);
    } else if number == 3 {
        core::mem::swap(&mut held, &mut slots.f3);
    } else {
        core::mem::swap(&mut held, &mut slots.f4);
    }
    let value = join_values(held, value, shape_slot(shape, number).kind);
    if shape_slot(shape, number).exclusive {
        if shape.k1.exclusive {
            slots.f1 = None;
        }
        if shape.k2.exclusive {
            slots.f2 = None;
        }
        if shape.k3.exclusive {
            slots.f3 = None;
        }
        if shape.k4.exclusive {
            slots.f4 = None;
        }
    }
    if number == 1 {
        slots.f1 = Some(value);
    } else if number == 2 {
        slots.f2 = Some(value);
    } else if number == 3 {
        slots.f3 = Some(value);
    } else {
        slots.f4 = Some(value);
    }
}

/// Reads a whole body into slots.
pub fn read_slots(bytes: &[u8], shape: &Shape) -> (r: Option<Slots>)
    ensures
        match r {
            Some(s) => decode_slots(bytes@, *shape) == Some(s@),
            None => decode_slots(bytes@, *shape) is None,
        },
{
    let mut slots = Slots { f1: None, f2: None, f3: None, f4: None };
    let mut pos: usize = 0;
    proof {
        assert(bytes@.skip(0) =~= bytes@);
    }
    while pos < bytes.len()
        invariant
            pos <= bytes.len(),
            decode_slots(bytes@, *shape) == decode_slots_from(
                bytes@.skip(pos as int),
                *shape,
                slots@,
            ),
        decreases bytes.len() - pos,
    {
        let ghost here = bytes@.skip(pos as int);
        let ghost before = slots@;
        match read_field(bytes, pos) {
            None => {
                return None;
            },
            Some((number, value, n)) => {
                let ghost field = parsed_field(here);
                if 1 <= number && number <= 4 {
                    let want = shape_slot(shape, number);
                    match want.kind {
                        Kind::Unknown => {},
                        Kind::Varint => {
                            match value {
                                Some(SlotValue::Varint(v)) => {
                                    put_slot(&mut slots, number, SlotValue::Varint(v), shape);
                                },
                                _ => {
                                    return None;
                                },
                            }
                        },
                        Kind::Bytes => {
                            match value {
                                Some(SlotValue::Bytes(b)) => {
                                    put_slot(&mut slots, number, SlotValue::Bytes(b), shape);
                                },
                                _ => {
                                    return None;
                                },
                            }
                        },
                        Kind::Text => {
                            match value {
                                Some(SlotValue::Bytes(b)) => {
                                    if string_from_utf8(slice_to_vec(b.as_slice())).is_none() {
                                        return None;
                                    }
                                    put_slot(&mut slots, number, SlotValue::Bytes(b), shape);
                                },
                                _ => {
                                    return None;
                                },
                            }
                        },
                        Kind::Message => {
                            match value {
                                Some(SlotValue::Bytes(b)) => {
                                    if !check_body(b.as_slice()) {
                                        return None;
                                    }
                                    put_slot(&mut slots, number, SlotValue::Bytes(b), shape);
                                },
                                _ => {
                                    return None;
                                },
                            }
                        },
                    }
                }
                proof {
                    assert(before.place(field, *shape) == Some(slots@));
                    assert(here.skip(n as int) =~= bytes@.skip(pos + n));
                }
                pos = pos + n;
            },
        }
    }
    Some(slots)
}

/// A field that `encode_field` wrote is read back as it was, whatever
/// follows it.
pub proof fn lemma_parse_encoded_field(number: nat, value: FieldValue, rest: Seq<u8>)
    requires
        1 <= number <= 4,
        value is Varint || (value is Bytes && value->Bytes_0.len() <= u64::MAX),
    ensures
        parse_field(encode_field(number, value) + rest) == Some(
            (Field { number, value }, encode_field(number, value).len()),
        ),
        encode_field(number, value).len() >= 1,
{
    let all = encode_field(number, value) + rest;
    match value {
        FieldValue::Varint(v) => {
            let key = (number * 8) as u64;
            let tail = varint(v as nat) + rest;
            assert(all =~= varint(key as nat) + tail);
            lemma_decode_varint_of_varint(key, tail);
            lemma_varint_len_u64(key);
            let kn = varint(key as nat).len();
            assert(all.skip(kn as int) =~= tail);
            lemma_decode_varint_of_varint(v, rest);
        },
        FieldValue::Bytes(b) => {
            let key = (number * 8 + 2) as u64;
            let len = b.len() as u64;
            let tail = varint(len as nat) + b + rest;
            assert(all =~= varint(key as nat) + tail);
            lemma_decode_varint_of_varint(key, tail);
            lemma_varint_len_u64(key);
            let kn = varint(key as nat).len();
            assert(all.skip(kn as int) =~= tail);
            assert(tail =~= varint(len as nat) + (b + rest));
            lemma_decode_varint_of_varint(len, b + rest);
            let ln = varint(len as nat).len();
            assert(tail.subrange(ln as int, ln + len) =~= b);
        },
        _ => {},
    }
}

/// Reading a body that starts with an encoded slot places that slot's value
/// and goes on with the rest.
pub proof fn lemma_decode_encoded_slot(
    number: nat,
    v: Option<FieldValue>,
    rest: Seq<u8>,
    shape: Shape,
    acc: SlotsView,
)
    requires
        1 <= number <= 4,
        slot_conforms(v, shape.slot(number)),
        slot_bounded(v),
    ensures
        decode_slots_from(encode_slot(number, v) + rest, shape, acc) == decode_slots_from(
            rest,
            shape,
            match v {
                Some(value) => acc.put(number, value, shape),
                None => acc,
            },
        ),
{
    match v {
        None => {
            assert(encode_slot(number, v) + rest =~= rest);
        },
        Some(value) => {
            lemma_parse_encoded_field(number, value, rest);
            let all = encode_slot(number, v) + rest;
            let n = encode_field(number, value).len();
            assert(all.skip(n as int) =~= rest);
        },
    }
}

/// Slots that conform to a schema survive encoding and decoding.
pub proof fn lemma_slots_roundtrip(s: SlotsView, shape: Shape)
    requires
        s.conforms(shape),
        slot_bounded(s.f1),
        slot_bounded(s.f2),
        slot_bounded(s.f3),
        slot_bounded(s.f4),
    ensures
        decode_slots(encode_slots(s), shape) == Some(s),
{
    let e = SlotsView::empty();
    let b4 = encode_slot(4, s.f4);
    let b3 = encode_slot(3, s.f3) + b4;
    let b2 = encode_slot(2, s.f2) + b3;
    assert(encode_slots(s) =~= encode_slot(1, s.f1) + b2);
    lemma_decode_encoded_slot(1, s.f1, b2, shape, e);
    let a1 = match s.f1 {
        Some(value) => e.put(1, value, shape),
        None => e,
    };
    lemma_decode_encoded_slot(2, s.f2, b3, shape, a1);
    let a2 = match s.f2 {
        Some(value) => a1.put(2, value, shape),
        None => a1,
    };
    lemma_decode_encoded_slot(3, s.f3, b4, shape, a2);
    let a3 = match s.f3 {
        Some(value) => a2.put(3, value, shape),
        None => a2,
    };
    assert(b4 =~= b4 + Seq::<u8>::empty());
    lemma_decode_encoded_slot(4, s.f4, Seq::<u8>::empty(), shape, a3);
    let a4 = match s.f4 {
        Some(value) => a3.put(4, value, shape),
        None => a3,
    };
    assert(a4 == s);
}

/// Whether a slot holds nothing, or a value that an encoder writes.
pub open spec fn slot_written(v: Option<FieldValue>) -> bool {
    match v {
        None => true,
        Some(value) => value is Varint || value is Bytes,
    }
}

/// Bytes that start with an encoded slot are a sequence of fields where what
/// follows the slot is one.
pub proof fn lemma_encoded_slot_starts_a_body(number: nat, v: Option<FieldValue>, rest: Seq<u8>)
    requires
        1 <= number <= 4,
        slot_written(v),
        slot_bounded(v),
        is_body(rest),
    ensures
        is_body(encode_slot(number, v) + rest),
{
    match v {
        None => {
            assert(encode_slot(number, v) + rest =~= rest);
        },
        Some(value) => {
            lemma_parse_encoded_field(number, value, rest);
            let all = encode_slot(number, v) + rest;
            let n = encode_field(number, value).len();
            assert(all.skip(n as int) =~= rest);
        },
    }
}

/// The body that an encoder writes for four slots is a sequence of fields.
pub proof fn lemma_encoded_slots_are_a_body(s: SlotsView)
    requires
        slot_written(s.f1),
        slot_written(s.f2),
        slot_written(s.f3),
        slot_written(s.f4),
        slot_bounded(s.f1),
        slot_bounded(s.f2),
        slot_bounded(s.f3),
        slot_bounded(s.f4),
    ensures
        is_body(encode_slots(s)),
{
    let b4 = encode_slot(4, s.f4);
    let b3 = encode_slot(3, s.f3) + b4;
    let b2 = encode_slot(2, s.f2) + b3;
    assert(b4 =~= b4 + Seq::<u8>::empty());
    lemma_encoded_slot_starts_a_body(4, s.f4, Seq::<u8>::empty());
    lemma_encoded_slot_starts_a_body(3, s.f3, b4);
    lemma_encoded_slot_starts_a_body(2, s.f2, b3);
    lemma_encoded_slot_starts_a_body(1, s.f1, b2);
    assert(encode_slots(s) =~= encode_slot(1, s.f1) + b2);
}

/// A field is read the same whatever follows it.
pub proof fn lemma_parse_with_more(head: Seq<u8>, rest: Seq<u8>)
    requires
        parse_field(head) is Some,
    ensures
        parse_field(head + rest) == parse_field(head),
{
    let all = head + rest;
    lemma_raw_varint_bounds(head);
    lemma_raw_varint_prefix(head, rest);
    let (key, kn) = decode_varint(head).unwrap();
    let wire_type = key % 8;
    let inner = head.skip(kn as int);
    assert(all.skip(kn as int) =~= inner + rest);
    if wire_type == WIRE_VARINT {
        lemma_raw_varint_prefix(inner, rest);
    } else if wire_type == WIRE_FIXED64 {
        assert((inner + rest).take(8) =~= inner.take(8));
    } else if wire_type == WIRE_BYTES {
        lemma_raw_varint_bounds(inner);
        lemma_raw_varint_prefix(inner, rest);
        let (len, ln) = decode_varint(inner).unwrap();
        assert((inner + rest).subrange(ln as int, ln + len) =~= inner.subrange(
            ln as int,
            ln + len,
        ));
    } else if wire_type == WIRE_FIXED32 {
        assert((inner + rest).take(4) =~= inner.take(4));
    }
}

/// Reading two sequences of fields in a row is reading the later one into
/// what the earlier one left: the later body continues the earlier one.
pub proof fn lemma_bodies_in_a_row(earlier: Seq<u8>, later: Seq<u8>, shape: Shape, acc: SlotsView)
    requires
        is_body(earlier),
    ensures
        decode_slots_from(earlier + later, shape, acc) == match decode_slots_from(
            earlier,
            shape,
            acc,
        ) {
            Some(next) => decode_slots_from(later, shape, next),
            None => None,
        },
    decreases earlier.len(),
{
    if earlier.len() == 0 {
        assert(earlier + later =~= later);
    } else {
        let (field, n) = parse_field(earlier).unwrap();
        lemma_parse_with_more(earlier, later);
        assert((earlier + later).skip(n as int) =~= earlier.skip(n as int) + later);
        match acc.place(field, shape) {
            None => {},
            Some(next) => {
                lemma_bodies_in_a_row(earlier.skip(n as int), later, shape, next);
            },
        }
    }
}

/// An embedded message that stands twice in a body is read as one message
/// whose body is the two bodies in a row.
pub proof fn lemma_repeated_message_continues(
    number: nat,
    earlier: Seq<u8>,
    later: Seq<u8>,
    shape: Shape,
)
    requires
        1 <= number <= 4,
        shape.slot(number).kind == Kind::Message,
        is_body(earlier),
        is_body(later),
        earlier.len() <= u64::MAX,
        later.len() <= u64::MAX,
    ensures
        decode_slots(
            encode_field(number, FieldValue::Bytes(earlier)) + encode_field(
                number,
                FieldValue::Bytes(later),
            ),
            shape,
        ) == Some(
            SlotsView::empty().put(number, FieldValue::Bytes(earlier), shape).put(
                number,
                FieldValue::Bytes(later),
                shape,
            ),
        ),
        SlotsView::empty().put(number, FieldValue::Bytes(earlier), shape).put(
            number,
            FieldValue::Bytes(later),
            shape,
        ).get(number) == Some(FieldValue::Bytes(earlier + later)),
{
    let first = Some(FieldValue::Bytes(earlier));
    let second = Some(FieldValue::Bytes(later));
    let none = Seq::<u8>::empty();
    let rest = encode_slot(number, second);
    let one = SlotsView::empty().put(number, FieldValue::Bytes(earlier), shape);
    lemma_decode_encoded_slot(number, first, rest, shape, SlotsView::empty());
    assert(rest =~= rest + none);
    lemma_decode_encoded_slot(number, second, none, shape, one);
}

/// Whether a slot's byte block, if it holds one, is short enough for its
/// length to be written as a 64-bit integer.
pub open spec fn slot_bounded(v: Option<FieldValue>) -> bool {
    match v {
        Some(FieldValue::Bytes(b)) => b.len() <= u64::MAX,
        _ => true,
    }
}

} // verus!
