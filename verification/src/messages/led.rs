//! The parameters of the LED ring.

use crate::messages::{GetId, ValueKind};
use vstd::prelude::*;

verus! {

/// A setting of the LED ring. The order of the variants is the order in
/// which the catalog lists them.
#[derive(Clone, Copy, Debug, PartialEq, Eq)]
pub enum LEDParameter {
    Mode,
    Colour1,
    Colour2,
    Speed,
    Brightness,
    MeterSource,
    MeterSensitivity,
    MuteMode,
    MuteColour,
    SuspendMode,
    SuspendBrightness,
}

impl GetId<u16> for LEDParameter {
    /// The child id of the parameter within the LED group. The ids 3 and 10
    /// are reserved and belong to no parameter.
    open spec fn id(&self) -> u16 {
        match self {
            LEDParameter::Mode => 0,
            LEDParameter::Colour1 => 1,
            LEDParameter::Colour2 => 2,
            LEDParameter::Speed => 4,
            LEDParameter::Brightness => 5,
            LEDParameter::MeterSource => 6,
            LEDParameter::MeterSensitivity => 7,
            LEDParameter::MuteMode => 8,
            LEDParameter::MuteColour => 9,
            LEDParameter::SuspendMode => 11,
            LEDParameter::SuspendBrightness => 12,
        }
    }

    fn get_id(&self) -> (id: u16) {
        match self {
            LEDParameter::Mode => 0,
            LEDParameter::Colour1 => 1,
            LEDParameter::Colour2 => 2,
            LEDParameter::Speed => 4,
            LEDParameter::Brightness => 5,
            LEDParameter::MeterSource => 6,
            LEDParameter::MeterSensitivity => 7,
            LEDParameter::MuteMode => 8,
            LEDParameter::MuteColour => 9,
            LEDParameter::SuspendMode => 11,
            LEDParameter::SuspendBrightness => 12,
        }
    }
}

impl LEDParameter {
    /// Every parameter of the LED group, once each, in the order in which
    /// the ring's settings are loaded.
    pub open spec fn catalog() -> Seq<LEDParameter> {
        seq![
            LEDParameter::Mode,
            LEDParameter::Colour1,
            LEDParameter::Colour2,
            LEDParameter::Speed,
            LEDParameter::Brightness,
            LEDParameter::MeterSource,
            LEDParameter::MeterSensitivity,
            LEDParameter::MuteMode,
            LEDParameter::MuteColour,
            LEDParameter::SuspendMode,
            LEDParameter::SuspendBrightness,
        ]
    }

    /// The type of value that the parameter carries.
    pub open spec fn kind_of(self) -> ValueKind {
        match self {
            LEDParameter::Mode => ValueKind::Unsigned,
            LEDParameter::Colour1 => ValueKind::Colour,
            LEDParameter::Colour2 => ValueKind::Colour,
            LEDParameter::Speed => ValueKind::Signed,
            LEDParameter::Brightness => ValueKind::Signed,
            LEDParameter::MeterSource => ValueKind::Unsigned,
            LEDParameter::MeterSensitivity => ValueKind::Float,
            LEDParameter::MuteMode => ValueKind::Unsigned,
            LEDParameter::MuteColour => ValueKind::Colour,
            LEDParameter::SuspendMode => ValueKind::Unsigned,
            LEDParameter::SuspendBrightness => ValueKind::Unsigned,
        }
    }

    /// All parameters of the group, always in the same order.
    pub fn all() -> (list: Vec<LEDParameter>)
        ensures
            list@ == Self::catalog(),
    {
        let list = vec![
            LEDParameter::Mode,
            LEDParameter::Colour1,
            LEDParameter::Colour2,
            LEDParameter::Speed,
            LEDParameter::Brightness,
            LEDParameter::MeterSource,
            LEDParameter::MeterSensitivity,
            LEDParameter::MuteMode,
            LEDParameter::MuteColour,
            LEDParameter::SuspendMode,
            LEDParameter::SuspendBrightness,
        ];
        assert(list@ =~= Self::catalog());
        list
    }

    /// The type with which the parameter's wire value is to be decoded.
    pub fn kind(&self) -> (kind: ValueKind)
        ensures
            kind == self.kind_of(),
    {
        match self {
            LEDParameter::Mode => ValueKind::Unsigned,
            LEDParameter::Colour1 => ValueKind::Colour,
            LEDParameter::Colour2 => ValueKind::Colour,
            LEDParameter::Speed => ValueKind::Signed,
            LEDParameter::Brightness => ValueKind::Signed,
            LEDParameter::MeterSource => ValueKind::Unsigned,
            LEDParameter::MeterSensitivity => ValueKind::Float,
            LEDParameter::MuteMode => ValueKind::Unsigned,
            LEDParameter::MuteColour => ValueKind::Colour,
            LEDParameter::SuspendMode => ValueKind::Unsigned,
            LEDParameter::SuspendBrightness => ValueKind::Unsigned,
        }
    }
}

/// The catalog lists every parameter, and none twice.
pub proof fn lemma_catalog_complete(p: LEDParameter)
    ensures
        LEDParameter::catalog().len() == 11,
        LEDParameter::catalog().contains(p),
        LEDParameter::catalog().no_duplicates(),
{
    let c = LEDParameter::catalog();
    let i: int = match p {
        LEDParameter::Mode => 0,
        LEDParameter::Colour1 => 1,
        LEDParameter::Colour2 => 2,
        LEDParameter::Speed => 3,
        LEDParameter::Brightness => 4,
        LEDParameter::MeterSource => 5,
        LEDParameter::MeterSensitivity => 6,
        LEDParameter::MuteMode => 7,
        LEDParameter::MuteColour => 8,
        LEDParameter::SuspendMode => 9,
        LEDParameter::SuspendBrightness => 10,
    };
    assert(c[i] == p);
}

/// No two parameters share a child id, the reserved ids 3 and 10 are not in
/// use, and the catalog lists the parameters by rising id.
pub proof fn lemma_ids_distinct(p: LEDParameter, q: LEDParameter)
    ensures
        p.id() == q.id() <==> p == q,
        p.id() != 3 && p.id() != 10 && p.id() <= 12,
        forall|i: int, j: int|
            0 <= i < j < LEDParameter::catalog().len() ==> LEDParameter::catalog()[i].id()
                < LEDParameter::catalog()[j].id(),
{
}

} // verus!
