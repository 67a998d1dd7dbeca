use vstd::prelude::*;

verus! {

/// Index of the queue on which the device posts input events.
pub const QUEUE_EVENT: u16 = 0;

/// Index of the queue reserved for driver-to-device status events.
pub const QUEUE_STATUS: u16 = 1;

/// Number of event slots kept posted to the event queue.
pub const QUEUE_SIZE: usize = 32;

/// Size in bytes of one event record on the wire.
pub const EVENT_WIRE_LEN: usize = 8;

/// Width in bytes of the data block of the config space.
pub const CONFIG_DATA_LEN: usize = 128;

/// Failures of the driver and of the collaborators it drives.
#[derive(Clone, Copy, Debug, PartialEq, Eq, Structural)]
pub enum Error {
    /// A register or queue access of the transport failed.
    IoError,
    /// The queue has no free descriptor left.
    QueueFull,
    /// The queue was already set up, or is not set up.
    AlreadyUsed,
    /// The ring reported a token that does not match an outstanding slot.
    WrongToken,
    /// The device reported a config response larger than its data block.
    InvalidParam,
    /// The output buffer is too small for the config response.
    BufferTooSmall,
}

/// One input event as the device writes it: type, code and value.
#[derive(Clone, Copy, Debug, PartialEq, Eq, Structural)]
pub struct InputEvent {
    pub event_type: u16,
    pub code: u16,
    pub value: u32,
}

impl InputEvent {
    /// The all-zero record that fills a slot before the device writes it.
    pub open spec fn zero() -> InputEvent {
        InputEvent { event_type: 0, code: 0, value: 0 }
    }

    /// The record's wire bytes: type, code and value, each little-endian.
    pub open spec fn wire(self) -> Seq<u8> {
        seq![
            (self.event_type % 256) as u8,
            (self.event_type / 256) as u8,
            (self.code % 256) as u8,
            (self.code / 256) as u8,
            (self.value % 256) as u8,
            (self.value / 256 % 256) as u8,
            (self.value / 65536 % 256) as u8,
            (self.value / 16777216) as u8,
        ]
    }

    /// The record whose wire bytes are `b`.
    pub open spec fn from_wire(b: Seq<u8>) -> InputEvent {
        InputEvent {
            event_type: (b[0] + 256 * b[1]) as u16,
            code: (b[2] + 256 * b[3]) as u16,
            value: (b[4] + 256 * b[5] + 65536 * b[6] + 16777216 * b[7]) as u32,
        }
    }

    /// Encodes the record in the device's wire layout.
    pub fn to_bytes(&self) -> (r: [u8; EVENT_WIRE_LEN])
        ensures
            r@ == self.wire(),
    {
        let r = [
            (self.event_type % 256) as u8,
            (self.event_type / 256) as u8,
            (self.code % 256) as u8,
            (self.code / 256) as u8,
            (self.value % 256) as u8,
            (self.value / 256 % 256) as u8,
            (self.value / 65536 % 256) as u8,
            (self.value / 16777216) as u8,
        ];
        assert(r@ =~= self.wire());
        r
    }

    /// Decodes a record from the device's wire layout.
    pub fn from_bytes(b: &[u8; EVENT_WIRE_LEN]) -> (r: InputEvent)
        ensures
            r == InputEvent::from_wire(b@),
    {
        let b0 = b[0] as u16;
        let b1 = b[1] as u16;
        let b2 = b[2] as u16;
        let b3 = b[3] as u16;
        let v0 = b[4] as u32;
        let v1 = b[5] as u32;
        let v2 = b[6] as u32;
        let v3 = b[7] as u32;
        assert(b0 + 256 * b1 <= 65535) by (nonlinear_arith)
            requires
                b0 <= 255,
                b1 <= 255,
        ;
        assert(b2 + 256 * b3 <= 65535) by (nonlinear_arith)
            requires
                b2 <= 255,
                b3 <= 255,
        ;
        assert(v0 + 256 * v1 + 65536 * v2 + 16777216 * v3 <= 0xffff_ffff) by (nonlinear_arith)
            requires
                v0 <= 255,
                v1 <= 255,
                v2 <= 255,
                v3 <= 255,
        ;
        InputEvent {
            event_type: b0 + 256 * b1,
            code: b2 + 256 * b3,
            value: v0 + 256 * v1 + 65536 * v2 + 16777216 * v3,
        }
    }
}

/// Decoding the wire bytes of a record gives the record back.
pub proof fn wire_round_trip(e: InputEvent)
    ensures
        InputEvent::from_wire(e.wire()) == e,
{
    let t = e.event_type as int;
    let c = e.code as int;
    let v = e.value as int;
    assert(t % 256 + 256 * (t / 256) == t) by (nonlinear_arith);
    assert(c % 256 + 256 * (c / 256) == c) by (nonlinear_arith);
    assert(v % 256 + 256 * (v / 256 % 256) + 65536 * (v / 65536 % 256) + 16777216 * (v / 16777216)
        == v) by (nonlinear_arith)
        requires
            0 <= v < 0x1_0000_0000,
    ;
}

/// Encoding the record decoded from eight bytes gives those bytes back.
pub proof fn wire_bytes_round_trip(b: Seq<u8>)
    requires
        b.len() == EVENT_WIRE_LEN,
    ensures
        InputEvent::from_wire(b).wire() == b,
{
    let e = InputEvent::from_wire(b);
    let b0 = b[0] as int;
    let b1 = b[1] as int;
    let b2 = b[2] as int;
    let b3 = b[3] as int;
    let b4 = b[4] as int;
    let b5 = b[5] as int;
    let b6 = b[6] as int;
    let b7 = b[7] as int;
    assert((b0 + 256 * b1) % 256 == b0 && (b0 + 256 * b1) / 256 == b1) by (nonlinear_arith)
        requires
            0 <= b0 < 256,
            0 <= b1 < 256,
    ;
    assert((b2 + 256 * b3) % 256 == b2 && (b2 + 256 * b3) / 256 == b3) by (nonlinear_arith)
        requires
            0 <= b2 < 256,
            0 <= b3 < 256,
    ;
    let v = b4 + 256 * b5 + 65536 * b6 + 16777216 * b7;
    assert(v % 256 == b4 && v / 256 % 256 == b5 && v / 65536 % 256 == b6 && v / 16777216 == b7)
        by (nonlinear_arith)
        requires
            0 <= b4 < 256,
            0 <= b5 < 256,
            0 <= b6 < 256,
            0 <= b7 < 256,
            v == b4 + 256 * b5 + 65536 * b6 + 16777216 * b7,
    ;
    assert(e.wire() =~= b);
}

impl Default for InputEvent {
    fn default() -> (r: InputEvent)
        ensures
            r == InputEvent::zero(),
    {
        InputEvent { event_type: 0, code: 0, value: 0 }
    }
}

/// Which piece of device metadata a config query addresses.
#[derive(Clone, Copy, Debug, PartialEq, Eq, Structural)]
pub enum InputConfigSelect {
    /// Returns the name of the device in the data block, subsel is zero.
    IdName,
    /// Returns the serial number of the device in the data block, subsel is zero.
    IdSerial,
    /// Returns the bus type, vendor, product and version ids, subsel is zero.
    IdDevids,
    /// Returns the input properties bitmap, subsel is zero.
    PropBits,
    /// subsel is the event type; returns the bitmap of supported event codes.
    EvBits,
    /// subsel is the absolute axis; returns its range information.
    AbsInfo,
}

impl InputConfigSelect {
    /// The register value of each selector, as the virtio protocol fixes it.
    pub open spec fn spec_code(self) -> u8 {
        match self {
            InputConfigSelect::IdName => 0x01,
            InputConfigSelect::IdSerial => 0x02,
            InputConfigSelect::IdDevids => 0x03,
            InputConfigSelect::PropBits => 0x10,
            InputConfigSelect::EvBits => 0x11,
            InputConfigSelect::AbsInfo => 0x12,
        }
    }

    /// The byte written to the select register for this selector.
    pub fn code(self) -> (r: u8)
        ensures
            r == self.spec_code(),
    {
        match self {
            InputConfigSelect::IdName => 0x01,
            InputConfigSelect::IdSerial => 0x02,
            InputConfigSelect::IdDevids => 0x03,
            InputConfigSelect::PropBits => 0x10,
            InputConfigSelect::EvBits => 0x11,
            InputConfigSelect::AbsInfo => 0x12,
        }
    }
}

} // verus!
