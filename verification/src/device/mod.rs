//! The command protocol of the device: how a request is framed, how a reply
//! is held against the request it answers, and how the device is told from
//! the others on the bus. Nothing here touches the transport.

use crate::messages::endian::{le_bytes_u16, write_u16};
use crate::messages::{BeacnParameter, BeacnValue, GetId};
use vstd::prelude::*;

pub mod actor;

verus! {

/// The vendor id of the microphone.
pub const VID_BEACN_MIC: u16 = 0x33ae;

/// The product id of the microphone.
pub const PID_BEACN_MIC: u16 = 0x0001;

/// The interface that carries the command channel.
pub const INTERFACE: u8 = 3;

/// The alternate setting of that interface.
pub const ALT_SETTING: u8 = 1;

/// The bulk endpoint that requests are written to.
pub const ENDPOINT_OUT: u8 = 0x03;

/// The bulk endpoint that replies are read from.
pub const ENDPOINT_IN: u8 = 0x83;

/// The time allowed to one bulk transfer, in seconds.
pub const TRANSFER_TIMEOUT_SECS: u64 = 3;

/// The opcode of a request that reads a parameter.
pub const OPCODE_READ: u8 = 0xa3;

/// The opcode of a request that writes a parameter. The device answers a
/// read with this opcode too.
pub const OPCODE_WRITE: u8 = 0xa4;

/// Why a request got no value.
#[derive(Clone, Copy, Debug, PartialEq, Eq)]
pub enum Fault {
    /// A bulk transfer failed or ran out of time.
    Transport,
    /// The reply does not answer the request: the session is out of step.
    Protocol,
    /// The device did not take the value that was written.
    Mismatch,
}

/// What a caller gets for a request: the wire value, or the fault.
pub type Reply = Result<BeacnValue, Fault>;

/// The identity that a device on the bus reports of itself.
#[derive(Clone, Copy, Debug, PartialEq, Eq)]
pub struct UsbId {
    pub vendor_id: u16,
    pub product_id: u16,
}

impl UsbId {
    /// Whether this is the identity of the microphone.
    pub open spec fn is_beacn_mic(self) -> bool {
        self.vendor_id == VID_BEACN_MIC && self.product_id == PID_BEACN_MIC
    }
}

/// The frame that asks for the value of `param`: group, child id with its
/// low byte first, and the read opcode.
pub open spec fn spec_fetch_frame(param: BeacnParameter) -> [u8; 4] {
    [param.id(), le_bytes_u16(param.child_id())[0], le_bytes_u16(param.child_id())[1], OPCODE_READ]
}

/// The frame that writes `value` to `param`: the header of a fetch frame
/// with the write opcode, then the four bytes of the value.
pub open spec fn spec_set_frame(param: BeacnParameter, value: BeacnValue) -> [u8; 8] {
    [
        param.id(),
        le_bytes_u16(param.child_id())[0],
        le_bytes_u16(param.child_id())[1],
        OPCODE_WRITE,
        value[0],
        value[1],
        value[2],
        value[3],
    ]
}

/// The fetch frame for the parameter that a set frame addresses.
pub open spec fn spec_lookup_frame(request: [u8; 8]) -> [u8; 4] {
    [request[0], request[1], request[2], OPCODE_READ]
}

/// The value that a set frame or a reply carries in its last four bytes.
pub open spec fn spec_payload(frame: [u8; 8]) -> BeacnValue {
    [frame[4], frame[5], frame[6], frame[7]]
}

/// Whether `reply` answers the fetch frame `request`: the group and the low
/// byte of the child id are those of the request, and the opcode is the
/// write opcode. The high byte of the child id is not looked at.
pub open spec fn reply_accepted(request: [u8; 4], reply: [u8; 8]) -> bool {
    reply[0] == request[0] && reply[1] == request[1] && reply[3] == OPCODE_WRITE
}

/// What a fetch yields once the reply is in: its value, or a protocol fault.
pub open spec fn spec_check_reply(request: [u8; 4], reply: [u8; 8]) -> Reply {
    if reply_accepted(request, reply) {
        Ok(spec_payload(reply))
    } else {
        Err(Fault::Protocol)
    }
}

/// What a set yields once the value was read back: that value if it is the
/// one that was written, else a mismatch fault.
pub open spec fn spec_confirm(request: [u8; 8], value: BeacnValue) -> Reply {
    if value == spec_payload(request) {
        Ok(value)
    } else {
        Err(Fault::Mismatch)
    }
}

/// The shape of the frames. A fetch frame has four bytes and ends in the
/// read opcode; a set frame has eight, the same address under the write
/// opcode, then the value; and the fetch that confirms a set is the fetch
/// frame of the same parameter.
pub proof fn lemma_frame_shape(param: BeacnParameter, value: BeacnValue)
    ensures
        spec_fetch_frame(param)@.len() == 4,
        spec_fetch_frame(param)[3] == 0xa3,
        spec_set_frame(param, value)@.len() == 8,
        spec_set_frame(param, value)[3] == 0xa4,
        forall|i: int| 0 <= i < 3 ==> spec_set_frame(param, value)[i] == spec_fetch_frame(param)[i],
        spec_payload(spec_set_frame(param, value)) == value,
        spec_lookup_frame(spec_set_frame(param, value)) == spec_fetch_frame(param),
{
    assert(spec_payload(spec_set_frame(param, value)) =~= value);
    assert(spec_lookup_frame(spec_set_frame(param, value)) =~= spec_fetch_frame(param));
}

/// A reply is accepted exactly on its header: when its first two bytes are
/// those of the request and its fourth is the write opcode. Then the fetch
/// yields the last four bytes of the reply; any other reply is a protocol
/// fault. A set is confirmed exactly by the value that it wrote.
pub proof fn lemma_reply_validation(request: [u8; 4], reply: [u8; 8], set: [u8; 8], value: BeacnValue)
    ensures
        spec_check_reply(request, reply) is Ok <==> reply[0] == request[0] && reply[1]
            == request[1] && reply[3] == 0xa4,
        spec_check_reply(request, reply) is Ok ==> spec_check_reply(request, reply) == Ok::<
            BeacnValue,
            Fault,
        >(spec_payload(reply)),
        !(spec_check_reply(request, reply) is Ok) ==> spec_check_reply(request, reply) == Err::<
            BeacnValue,
            Fault,
        >(Fault::Protocol),
        spec_confirm(set, value) is Ok <==> value@ == seq![set[4], set[5], set[6], set[7]],
        !(spec_confirm(set, value) is Ok) ==> spec_confirm(set, value) == Err::<BeacnValue, Fault>(
            Fault::Mismatch,
        ),
{
    if value@ == seq![set[4], set[5], set[6], set[7]] {
        assert(value =~= spec_payload(set));
    } else {
        assert(spec_payload(set)@ =~= seq![set[4], set[5], set[6], set[7]]);
    }
}

/// Builds the FETCH frame for `param`.
pub fn fetch_frame(param: &BeacnParameter) -> (request: [u8; 4])
    ensures
        request == spec_fetch_frame(*param),
        request@.len() == 4,
        request[3] == OPCODE_READ,
{
    let mut child = [0u8; 2];
    write_u16(&mut child, param.get_child_id());
    let mut request = [0u8; 4];
    request[0] = param.get_id();
    request[1] = child[0];
    request[2] = child[1];
    request[3] = OPCODE_READ;
    assert(request =~= spec_fetch_frame(*param));
    request
}

/// Builds the SET frame that writes `value` to `param`.
pub fn set_frame(param: &BeacnParameter, value: BeacnValue) -> (request: [u8; 8])
    ensures
        request == spec_set_frame(*param, value),
        request@.len() == 8,
        request[3] == OPCODE_WRITE,
        spec_payload(request) == value,
{
    let mut child = [0u8; 2];
    write_u16(&mut child, param.get_child_id());
    let mut request = [0u8; 8];
    request[0] = param.get_id();
    request[1] = child[0];
    request[2] = child[1];
    request[3] = OPCODE_WRITE;
    request[4] = value[0];
    request[5] = value[1];
    request[6] = value[2];
    request[7] = value[3];
    assert(request =~= spec_set_frame(*param, value));
    assert(spec_payload(request) =~= value);
    request
}

/// Builds the FETCH frame by which a SET is confirmed: the address of the
/// set frame under the read opcode.
pub fn lookup_frame(request: &[u8; 8]) -> (lookup: [u8; 4])
    ensures
        lookup == spec_lookup_frame(*request),
{
    let mut lookup = [0u8; 4];
    lookup[0] = request[0];
    lookup[1] = request[1];
    lookup[2] = request[2];
    lookup[3] = OPCODE_READ;
    assert(lookup =~= spec_lookup_frame(*request));
    lookup
}

/// The last four bytes of a set frame or of a reply.
pub fn payload(frame: &[u8; 8]) -> (value: BeacnValue)
    ensures
        value == spec_payload(*frame),
{
    let mut value = [0u8; 4];
    value[0] = frame[4];
    value[1] = frame[5];
    value[2] = frame[6];
    value[3] = frame[7];
    assert(value =~= spec_payload(*frame));
    value
}

/// Holds a reply against the fetch frame that it should answer, and hands
/// out the value it carries. A reply with another header is a protocol
/// fault, whatever it carries.
pub fn check_reply(request: &[u8; 4], reply: &[u8; 8]) -> (result: Reply)
    ensures
        result == spec_check_reply(*request, *reply),
        result is Ok <==> reply_accepted(*request, *reply),
{
    if reply[0] != request[0] || reply[1] != request[1] || reply[3] != OPCODE_WRITE {
        return Err(Fault::Protocol);
    }
    Ok(payload(reply))
}

/// Holds the value that was read back against the set frame that wrote it.
pub fn confirm(request: &[u8; 8], value: BeacnValue) -> (result: Reply)
    ensures
        result == spec_confirm(*request, value),
        result is Ok <==> value == spec_payload(*request),
{
    let written = payload(request);
    if value[0] != written[0] || value[1] != written[1] || value[2] != written[2] || value[3]
        != written[3] {
        return Err(Fault::Mismatch);
    }
    assert(value =~= written);
    Ok(value)
}

/// Picks the microphone among the devices on the bus, given what each
/// reports of itself: the first in the list that carries its ids.
pub fn find_devices(ids: &Vec<UsbId>) -> (found: Option<usize>)
    ensures
        match found {
            Some(i) => i < ids.len() && ids[i as int].is_beacn_mic() && forall|j: int|
                0 <= j < i ==> !ids[j].is_beacn_mic(),
            None => forall|j: int| 0 <= j < ids.len() ==> !ids[j].is_beacn_mic(),
        },
{
    let mut i: usize = 0;
    while i < ids.len()
        invariant
            i <= ids.len(),
            forall|j: int| 0 <= j < i ==> !ids[j].is_beacn_mic(),
        decreases ids.len() - i,
    {
        if ids[i].vendor_id == VID_BEACN_MIC && ids[i].product_id == PID_BEACN_MIC {
            return Some(i);
        }
        i += 1;
    }
    None
}

} // verus!
