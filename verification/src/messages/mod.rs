//! The parameter catalog, the requests that name its entries, and the codec
//! between 4-byte wire values and the values they stand for.

use crate::messages::endian::{
    bits_of, le_bytes_u32, le_value_u32, lemma_bytes_of_value, lemma_signed_bits,
    lemma_value_of_bytes, read_i32, read_u32, signed_of, write_i32, write_u32,
};
use crate::messages::led::LEDParameter;
use vstd::prelude::*;
use vstd::std_specs::convert::FromSpecImpl;

pub mod endian;
pub mod led;

verus! {

/// The unit in which every parameter value travels: always four bytes.
pub type BeacnValue = [u8; 4];

/// The id of the LED group.
pub const LED_GROUP: u8 = 0x01;

/// The type of value that a parameter carries, by which its codec is chosen.
#[derive(Clone, Copy, Debug, PartialEq, Eq)]
pub enum ValueKind {
    Unsigned,
    Signed,
    Float,
    Colour,
}

/// A numeric identity, fixed once per catalog entry.
pub trait GetId<T> {
    /// The identity in contracts.
    spec fn id(&self) -> T;

    fn get_id(&self) -> (id: T)
        ensures
            id == self.id(),
    ;
}

/// A request to the device actor.
#[derive(Clone, Copy, Debug, PartialEq, Eq)]
pub enum Message {
    QUIT,
    FETCH(BeacnParameter),
    SET((BeacnParameter, BeacnValue)),
}

/// An addressable parameter of the device: a group and a child within it.
#[derive(Clone, Copy, Debug, PartialEq, Eq)]
pub enum BeacnParameter {
    LED(LEDParameter),
}

impl GetId<u8> for BeacnParameter {
    /// The id of the group that the parameter belongs to.
    open spec fn id(&self) -> u8 {
        match self {
            BeacnParameter::LED(_) => LED_GROUP,
        }
    }

    fn get_id(&self) -> (id: u8) {
        match self {
            BeacnParameter::LED(_) => LED_GROUP,
        }
    }
}

impl BeacnParameter {
    /// The id of the parameter within its group.
    pub open spec fn child_id(&self) -> u16 {
        match self {
            BeacnParameter::LED(v) => v.id(),
        }
    }

    pub fn get_child_id(&self) -> (id: u16)
        ensures
            id == self.child_id(),
    {
        match self {
            BeacnParameter::LED(v) => v.get_id(),
        }
    }
}

/// A colour of the ring. `alpha` is read from the wire and never written.
#[derive(Clone, Copy, Debug, PartialEq, Eq)]
pub struct RGB {
    pub red: u8,
    pub green: u8,
    pub blue: u8,
    pub alpha: u8,
}

impl RGB {
    /// The colour with the given red, green and blue, and alpha zero.
    pub fn from_channels(channels: [u8; 3]) -> (colour: RGB)
        ensures
            colour == (RGB { red: channels[0], green: channels[1], blue: channels[2], alpha: 0 }),
    {
        RGB { red: channels[0], green: channels[1], blue: channels[2], alpha: 0 }
    }

    /// Red, green and blue of the colour, in this order.
    pub fn channels(&self) -> (channels: [u8; 3])
        ensures
            channels@ == seq![self.red, self.green, self.blue],
    {
        let channels = [self.red, self.green, self.blue];
        assert(channels@ =~= seq![self.red, self.green, self.blue]);
        channels
    }
}

impl Default for RGB {
    fn default() -> (colour: Self)
        ensures
            colour == (RGB { red: 0, green: 0, blue: 0, alpha: 0 }),
    {
        RGB { red: 0, green: 0, blue: 0, alpha: 0 }
    }
}

/// The IEEE-754 bit pattern of a 32-bit float. The codec carries it as it
/// is: patterns of NaN and of subnormal numbers are not touched.
#[derive(Clone, Copy, Debug, PartialEq, Eq)]
pub struct FloatBits(pub u32);

/// A decoded value, tagged by its type so that the codec is chosen with it.
pub struct MessageValue<T>(pub T);

/// The wire value whose bytes are the four elements of `bytes`.
pub open spec fn wire_of(bytes: Seq<u8>) -> BeacnValue
    recommends
        bytes.len() == 4,
{
    [bytes[0], bytes[1], bytes[2], bytes[3]]
}

/// The colour that a wire value holds: blue first, then green, red, alpha.
pub open spec fn decode_rgb(wire: BeacnValue) -> RGB {
    RGB { red: wire[2], green: wire[1], blue: wire[0], alpha: wire[3] }
}

/// The wire value of a colour: blue, green, red, and zero in place of alpha.
pub open spec fn encode_rgb(colour: RGB) -> BeacnValue {
    [colour.blue, colour.green, colour.red, 0u8]
}

/// The unsigned number that a wire value holds, least significant byte first.
pub open spec fn decode_u32(wire: BeacnValue) -> u32 {
    le_value_u32(wire@)
}

/// The wire value of an unsigned number, least significant byte first.
pub open spec fn encode_u32(v: u32) -> BeacnValue {
    wire_of(le_bytes_u32(v))
}

/// The signed number that a wire value holds, in two's complement.
pub open spec fn decode_i32(wire: BeacnValue) -> i32 {
    signed_of(le_value_u32(wire@))
}

/// The wire value of a signed number, in two's complement.
pub open spec fn encode_i32(v: i32) -> BeacnValue {
    wire_of(le_bytes_u32(bits_of(v)))
}

/// The bit pattern of the float that a wire value holds.
pub open spec fn decode_float(wire: BeacnValue) -> FloatBits {
    FloatBits(le_value_u32(wire@))
}

/// The wire value of a float, given by its bit pattern.
pub open spec fn encode_float(v: FloatBits) -> BeacnValue {
    wire_of(le_bytes_u32(v.0))
}

impl From<BeacnValue> for MessageValue<RGB> {
    fn from(value: BeacnValue) -> (decoded: Self) {
        Self(RGB { red: value[2], green: value[1], blue: value[0], alpha: value[3] })
    }
}

impl FromSpecImpl<BeacnValue> for MessageValue<RGB> {
    open spec fn obeys_from_spec() -> bool {
        true
    }

    open spec fn from_spec(value: BeacnValue) -> Self {
        MessageValue(decode_rgb(value))
    }
}

impl From<MessageValue<RGB>> for BeacnValue {
    fn from(value: MessageValue<RGB>) -> (wire: Self) {
        // The format for this is ARGB, but little endian.
        [value.0.blue, value.0.green, value.0.red, 0]
    }
}

impl FromSpecImpl<MessageValue<RGB>> for BeacnValue {
    open spec fn obeys_from_spec() -> bool {
        true
    }

    open spec fn from_spec(value: MessageValue<RGB>) -> Self {
        encode_rgb(value.0)
    }
}

impl From<BeacnValue> for MessageValue<u32> {
    fn from(value: BeacnValue) -> (decoded: Self) {
        Self(read_u32(&value))
    }
}

impl FromSpecImpl<BeacnValue> for MessageValue<u32> {
    open spec fn obeys_from_spec() -> bool {
        true
    }

    open spec fn from_spec(value: BeacnValue) -> Self {
        MessageValue(decode_u32(value))
    }
}

impl From<MessageValue<u32>> for BeacnValue {
    fn from(value: MessageValue<u32>) -> (wire: Self) {
        let mut buf = [0; 4];
        write_u32(&mut buf, value.0);
        assert(buf == encode_u32(value.0));
        buf
    }
}

impl FromSpecImpl<MessageValue<u32>> for BeacnValue {
    open spec fn obeys_from_spec() -> bool {
        true
    }

    open spec fn from_spec(value: MessageValue<u32>) -> Self {
        encode_u32(value.0)
    }
}

impl From<BeacnValue> for MessageValue<i32> {
    fn from(value: BeacnValue) -> (decoded: Self) {
        Self(read_i32(&value))
    }
}

impl FromSpecImpl<BeacnValue> for MessageValue<i32> {
    open spec fn obeys_from_spec() -> bool {
        true
    }

    open spec fn from_spec(value: BeacnValue) -> Self {
        MessageValue(decode_i32(value))
    }
}

impl From<MessageValue<i32>> for BeacnValue {
    fn from(value: MessageValue<i32>) -> (wire: Self) {
        let mut buffer = [0; 4];
        write_i32(&mut buffer, value.0);
        assert(buffer == encode_i32(value.0));
        buffer
    }
}

impl FromSpecImpl<MessageValue<i32>> for BeacnValue {
    open spec fn obeys_from_spec() -> bool {
        true
    }

    open spec fn from_spec(value: MessageValue<i32>) -> Self {
        encode_i32(value.0)
    }
}

impl From<BeacnValue> for MessageValue<FloatBits> {
    fn from(value: BeacnValue) -> (decoded: Self) {
        Self(FloatBits(read_u32(&value)))
    }
}

impl FromSpecImpl<BeacnValue> for MessageValue<FloatBits> {
    open spec fn obeys_from_spec() -> bool {
        true
    }

    open spec fn from_spec(value: BeacnValue) -> Self {
        MessageValue(decode_float(value))
    }
}

impl From<MessageValue<FloatBits>> for BeacnValue {
    fn from(value: MessageValue<FloatBits>) -> (wire: Self) {
        let mut buffer = [0; 4];
        write_u32(&mut buffer, value.0.0);
        assert(buffer == encode_float(value.0));
        buffer
    }
}

impl FromSpecImpl<MessageValue<FloatBits>> for BeacnValue {
    open spec fn obeys_from_spec() -> bool {
        true
    }

    open spec fn from_spec(value: MessageValue<FloatBits>) -> Self {
        encode_float(value.0)
    }
}

/// The decoded meaning of a wire value, under one of the four types that a
/// parameter can carry.
#[derive(Clone, Copy, Debug, PartialEq, Eq)]
pub enum DomainValue {
    Unsigned(u32),
    Signed(i32),
    Float(FloatBits),
    Colour(RGB),
}

impl DomainValue {
    /// The type of the value.
    pub open spec fn kind_of(self) -> ValueKind {
        match self {
            DomainValue::Unsigned(_) => ValueKind::Unsigned,
            DomainValue::Signed(_) => ValueKind::Signed,
            DomainValue::Float(_) => ValueKind::Float,
            DomainValue::Colour(_) => ValueKind::Colour,
        }
    }

    /// What `wire` means when it is read as a value of type `kind`. Every
    /// wire value means something under every type.
    pub open spec fn spec_decode(kind: ValueKind, wire: BeacnValue) -> DomainValue {
        match kind {
            ValueKind::Unsigned => DomainValue::Unsigned(decode_u32(wire)),
            ValueKind::Signed => DomainValue::Signed(decode_i32(wire)),
            ValueKind::Float => DomainValue::Float(decode_float(wire)),
            ValueKind::Colour => DomainValue::Colour(decode_rgb(wire)),
        }
    }

    /// The wire value of the value.
    pub open spec fn spec_encode(self) -> BeacnValue {
        match self {
            DomainValue::Unsigned(v) => encode_u32(v),
            DomainValue::Signed(v) => encode_i32(v),
            DomainValue::Float(v) => encode_float(v),
            DomainValue::Colour(v) => encode_rgb(v),
        }
    }

    /// The value as it comes back from the wire: itself, but for a colour,
    /// whose alpha is lost.
    pub open spec fn on_return(self) -> DomainValue {
        match self {
            DomainValue::Colour(colour) => DomainValue::Colour(RGB { alpha: 0, ..colour }),
            _ => self,
        }
    }

    pub fn kind(&self) -> (kind: ValueKind)
        ensures
            kind == self.kind_of(),
    {
        match self {
            DomainValue::Unsigned(_) => ValueKind::Unsigned,
            DomainValue::Signed(_) => ValueKind::Signed,
            DomainValue::Float(_) => ValueKind::Float,
            DomainValue::Colour(_) => ValueKind::Colour,
        }
    }

    /// Reads `wire` as a value of type `kind`. Which type a parameter
    /// carries is for the catalog to say: with another type the same four
    /// bytes decode without complaint to something else.
    pub fn decode(kind: ValueKind, wire: BeacnValue) -> (value: DomainValue)
        ensures
            value == Self::spec_decode(kind, wire),
            value.kind_of() == kind,
    {
        match kind {
            ValueKind::Unsigned => DomainValue::Unsigned(MessageValue::<u32>::from(wire).0),
            ValueKind::Signed => DomainValue::Signed(MessageValue::<i32>::from(wire).0),
            ValueKind::Float => DomainValue::Float(MessageValue::<FloatBits>::from(wire).0),
            ValueKind::Colour => DomainValue::Colour(MessageValue::<RGB>::from(wire).0),
        }
    }

    /// The wire value that carries the value.
    pub fn encode(&self) -> (wire: BeacnValue)
        ensures
            wire == self.spec_encode(),
    {
        match self {
            DomainValue::Unsigned(v) => BeacnValue::from(MessageValue(*v)),
            DomainValue::Signed(v) => BeacnValue::from(MessageValue(*v)),
            DomainValue::Float(v) => BeacnValue::from(MessageValue(*v)),
            DomainValue::Colour(v) => BeacnValue::from(MessageValue(*v)),
        }
    }
}

/// A wire value is its four bytes and nothing else.
pub proof fn lemma_wire_of(bytes: Seq<u8>, wire: BeacnValue)
    requires
        bytes.len() == 4,
    ensures
        wire_of(bytes)@ == bytes,
        wire_of(wire@) == wire,
{
    assert(wire_of(bytes)@ =~= bytes);
    assert(wire_of(wire@)@ =~= wire@);
    assert(wire_of(wire@) =~= wire);
}

/// Decoding the wire value of an unsigned number gives the number back, and
/// encoding what a wire value decodes to gives the wire value back.
pub proof fn lemma_round_trip_u32(v: u32, wire: BeacnValue)
    ensures
        decode_u32(encode_u32(v)) == v,
        encode_u32(decode_u32(wire)) == wire,
{
    lemma_value_of_bytes(v);
    lemma_wire_of(le_bytes_u32(v), wire);
    lemma_bytes_of_value(wire@);
}

/// Decoding the wire value of a signed number gives the number back, and
/// encoding what a wire value decodes to gives the wire value back.
pub proof fn lemma_round_trip_i32(v: i32, wire: BeacnValue)
    ensures
        decode_i32(encode_i32(v)) == v,
        encode_i32(decode_i32(wire)) == wire,
{
    lemma_signed_bits(v, le_value_u32(wire@));
    lemma_round_trip_u32(bits_of(v), wire);
}

/// A float goes through the codec bit for bit, whatever its pattern.
pub proof fn lemma_round_trip_float(v: FloatBits, wire: BeacnValue)
    ensures
        decode_float(encode_float(v)) == v,
        encode_float(decode_float(wire)) == wire,
{
    lemma_round_trip_u32(v.0, wire);
}

/// The codec keeps the order of unsigned and of signed numbers: of two
/// numbers, the smaller is the one whose wire value decodes to less.
pub proof fn lemma_order_kept(a: u32, b: u32, c: i32, d: i32)
    ensures
        a < b <==> decode_u32(encode_u32(a)) < decode_u32(encode_u32(b)),
        c < d <==> decode_i32(encode_i32(c)) < decode_i32(encode_i32(d)),
{
    lemma_round_trip_u32(a, encode_u32(a));
    lemma_round_trip_u32(b, encode_u32(b));
    lemma_round_trip_i32(c, encode_i32(c));
    lemma_round_trip_i32(d, encode_i32(d));
}

/// A colour comes back from the codec with its three channels and with
/// alpha zero, whatever alpha it had; so it comes back whole exactly when
/// its alpha was zero. A wire value comes back with its last byte zeroed.
pub proof fn lemma_round_trip_rgb(colour: RGB, wire: BeacnValue)
    ensures
        decode_rgb(encode_rgb(colour)) == (RGB { alpha: 0, ..colour }),
        decode_rgb(encode_rgb(colour)).alpha == 0,
        decode_rgb(encode_rgb(colour)) == colour <==> colour.alpha == 0,
        encode_rgb(decode_rgb(wire))@ == wire@.update(3, 0u8),
{
}


/// A value of any type comes back from the codec as it went in, but for the
/// alpha of a colour; and what is decoded has the type it was decoded as.
pub proof fn lemma_round_trip_domain(value: DomainValue, kind: ValueKind, wire: BeacnValue)
    ensures
        DomainValue::spec_decode(value.kind_of(), value.spec_encode()) == value.on_return(),
        DomainValue::spec_decode(kind, wire).kind_of() == kind,
        !(kind is Colour) ==> DomainValue::spec_decode(kind, wire).spec_encode() == wire,
{
    match value {
        DomainValue::Unsigned(v) => lemma_round_trip_u32(v, wire),
        DomainValue::Signed(v) => lemma_round_trip_i32(v, wire),
        DomainValue::Float(v) => lemma_round_trip_float(v, wire),
        DomainValue::Colour(v) => lemma_round_trip_rgb(v, wire),
    }
    lemma_round_trip_u32(0, wire);
    lemma_round_trip_i32(0, wire);
    lemma_round_trip_float(FloatBits(0), wire);
}

} // verus!
