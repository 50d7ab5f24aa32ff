//! Wire codes of the controller's registers and the values they stand for.
//!
//! Everything here is a pure function between raw register bytes and domain
//! values. Each executable function is paired with a spec function that says
//! what it computes; the laws at the end relate encoders and decoders.

use vstd::prelude::*;

verus! {

/// Control-register bit: interrupt while a finger is on the panel.
pub const INT_MODE_TOUCH: u8 = 0x40;

/// Control-register bit: interrupt when the touch state changes.
pub const INT_MODE_CHANGE: u8 = 0x20;

/// Control-register bit: interrupt when a gesture is recognised.
pub const INT_MODE_MOTION: u8 = 0x10;

/// Control-register bit: interrupt on a long press.
pub const INT_MODE_LONGPRESS: u8 = 0x01;

/// A swipe or tap pattern that the controller recognised by itself.
#[derive(Debug, Clone, Copy, PartialEq, Eq, Structural)]
pub enum Gesture {
    /// No gesture was recognised.
    NoGesture,
    SwipeUp,
    SwipeDown,
    SwipeLeft,
    SwipeRight,
    SingleClick,
    DoubleClick,
    LongPress,
}

/// A gesture byte that is bound to no [`Gesture`]; holds the byte.
#[derive(Debug, Clone, Copy, PartialEq, Eq, Structural)]
pub struct InvalidGestureType(pub u8);

impl Gesture {
    /// The byte that stands for this gesture on the wire.
    pub open spec fn spec_code(self) -> u8 {
        match self {
            Gesture::NoGesture => 0x00,
            Gesture::SwipeUp => 0x01,
            Gesture::SwipeDown => 0x02,
            Gesture::SwipeLeft => 0x03,
            Gesture::SwipeRight => 0x04,
            Gesture::SingleClick => 0x05,
            Gesture::DoubleClick => 0x0B,
            Gesture::LongPress => 0x0C,
        }
    }

    /// The byte that stands for this gesture on the wire.
    #[verifier::when_used_as_spec(spec_code)]
    pub fn code(self) -> (byte: u8)
        ensures
            byte == self.spec_code(),
    {
        match self {
            Gesture::NoGesture => 0x00,
            Gesture::SwipeUp => 0x01,
            Gesture::SwipeDown => 0x02,
            Gesture::SwipeLeft => 0x03,
            Gesture::SwipeRight => 0x04,
            Gesture::SingleClick => 0x05,
            Gesture::DoubleClick => 0x0B,
            Gesture::LongPress => 0x0C,
        }
    }
}

/// The gesture that `byte` stands for, or the byte itself as an error when
/// it is the code of none.
pub open spec fn gesture_of(byte: u8) -> Result<Gesture, InvalidGestureType> {
    match byte {
        0x00 => Ok(Gesture::NoGesture),
        0x01 => Ok(Gesture::SwipeUp),
        0x02 => Ok(Gesture::SwipeDown),
        0x03 => Ok(Gesture::SwipeLeft),
        0x04 => Ok(Gesture::SwipeRight),
        0x05 => Ok(Gesture::SingleClick),
        0x0B => Ok(Gesture::DoubleClick),
        0x0C => Ok(Gesture::LongPress),
        _ => Err(InvalidGestureType(byte)),
    }
}

/// Decodes a gesture byte. Only the eight defined codes are accepted.
pub fn decode_gesture(byte: u8) -> (decoded: Result<Gesture, InvalidGestureType>)
    ensures
        decoded == gesture_of(byte),
        decoded matches Ok(g) ==> g.spec_code() == byte,
        decoded matches Err(e) ==> e == InvalidGestureType(byte) && forall|g: Gesture|
            g.spec_code() != byte,
{
    match byte {
        0x00 => Ok(Gesture::NoGesture),
        0x01 => Ok(Gesture::SwipeUp),
        0x02 => Ok(Gesture::SwipeDown),
        0x03 => Ok(Gesture::SwipeLeft),
        0x04 => Ok(Gesture::SwipeRight),
        0x05 => Ok(Gesture::SingleClick),
        0x0B => Ok(Gesture::DoubleClick),
        0x0C => Ok(Gesture::LongPress),
        v => Err(InvalidGestureType(v)),
    }
}

impl TryFrom<u8> for Gesture {
    type Error = InvalidGestureType;

    fn try_from(value: u8) -> (decoded: Result<Self, Self::Error>) {
        decode_gesture(value)
    }
}

impl vstd::std_specs::convert::TryFromSpecImpl<u8> for Gesture {
    open spec fn obeys_try_from_spec() -> bool {
        true
    }

    open spec fn try_from_spec(v: u8) -> Result<Self, Self::Error> {
        gesture_of(v)
    }
}

/// The chip that answered a version query.
#[derive(Debug, Clone, Copy, PartialEq, Eq, Structural)]
pub enum DeviceType {
    /// A chip id that this driver does not know.
    Unknown,
    Cst716,
    Cst816S,
    Cst816T,
    Cst816D,
}

impl DeviceType {
    /// The chip id byte of this device type; `Unknown` has the id 0.
    pub open spec fn spec_code(self) -> u8 {
        match self {
            DeviceType::Unknown => 0x00,
            DeviceType::Cst716 => 0x20,
            DeviceType::Cst816S => 0xB4,
            DeviceType::Cst816T => 0xB5,
            DeviceType::Cst816D => 0xB6,
        }
    }

    /// The chip id byte of this device type; `Unknown` has the id 0.
    #[verifier::when_used_as_spec(spec_code)]
    pub fn code(self) -> (byte: u8)
        ensures
            byte == self.spec_code(),
    {
        match self {
            DeviceType::Unknown => 0x00,
            DeviceType::Cst716 => 0x20,
            DeviceType::Cst816S => 0xB4,
            DeviceType::Cst816T => 0xB5,
            DeviceType::Cst816D => 0xB6,
        }
    }
}

/// The device type that a chip id byte stands for. Every byte stands for
/// one: those that name no known chip stand for `Unknown`.
pub open spec fn device_type_of(byte: u8) -> DeviceType {
    match byte {
        0x20 => DeviceType::Cst716,
        0xB4 => DeviceType::Cst816S,
        0xB5 => DeviceType::Cst816T,
        0xB6 => DeviceType::Cst816D,
        _ => DeviceType::Unknown,
    }
}

/// Decodes a chip id byte. Never fails: an unrecognised id is `Unknown`.
pub fn decode_device_type(byte: u8) -> (device: DeviceType)
    ensures
        device == device_type_of(byte),
        device != DeviceType::Unknown ==> device.spec_code() == byte,
        device == DeviceType::Unknown <==> forall|d: DeviceType|
            d != DeviceType::Unknown ==> d.spec_code() != byte,
{
    let device = match byte {
        0x20 => DeviceType::Cst716,
        0xB4 => DeviceType::Cst816S,
        0xB5 => DeviceType::Cst816T,
        0xB6 => DeviceType::Cst816D,
        _ => DeviceType::Unknown,
    };
    assert(device != DeviceType::Unknown ==> device.spec_code() == byte);
    device
}

impl From<u8> for DeviceType {
    fn from(value: u8) -> (device: Self) {
        decode_device_type(value)
    }
}

impl vstd::std_specs::convert::FromSpecImpl<u8> for DeviceType {
    open spec fn obeys_from_spec() -> bool {
        true
    }

    open spec fn from_spec(v: u8) -> Self {
        device_type_of(v)
    }
}

impl Default for DeviceType {
    fn default() -> (device: Self)
        ensures
            device == DeviceType::Unknown,
    {
        DeviceType::Unknown
    }
}

/// Which conditions make the controller raise its interrupt line.
#[derive(Debug, Clone, Copy, PartialEq, Eq, Structural)]
pub enum TouchMode {
    /// An interrupt every 10 ms while a finger is down.
    Touch,
    /// An interrupt when the finger changes position.
    Change,
    /// An interrupt after a single click or a swipe.
    Fast,
    /// An interrupt after any gesture, double click and long press included.
    Motion,
}

impl Default for TouchMode {
    fn default() -> (mode: Self)
        ensures
            mode == TouchMode::Touch,
    {
        TouchMode::Touch
    }
}

impl TouchMode {
    /// The value of the motion mask register for this mode: continuous
    /// left-right and up-down sliding stay off, and double click is enabled
    /// in `Motion` only.
    pub open spec fn spec_motion_mask_byte(&self) -> u8 {
        match self {
            TouchMode::Motion => 0b001,
            _ => 0b000,
        }
    }

    /// The value to write to the motion mask register.
    #[verifier::when_used_as_spec(spec_motion_mask_byte)]
    pub fn motion_mask_byte(&self) -> (byte: u8)
        ensures
            byte == self.spec_motion_mask_byte(),
    {
        match self {
            TouchMode::Motion => 0b001,
            _ => 0b000,
        }
    }

    /// The value of the interrupt control register for this mode.
    pub open spec fn spec_int_control_byte(&self) -> u8 {
        match self {
            TouchMode::Touch => 0x40,
            TouchMode::Change => 0x20,
            TouchMode::Fast => 0x10,
            TouchMode::Motion => 0x11,
        }
    }

    /// The value to write to the interrupt control register.
    #[verifier::when_used_as_spec(spec_int_control_byte)]
    pub fn int_control_byte(&self) -> (byte: u8)
        ensures
            byte == self.spec_int_control_byte(),
    {
        match self {
            TouchMode::Touch => INT_MODE_TOUCH,
            TouchMode::Change => INT_MODE_CHANGE,
            TouchMode::Fast => INT_MODE_MOTION,
            TouchMode::Motion => {
                assert(0x10u8 | 0x01u8 == 0x11u8) by (bit_vector);
                INT_MODE_MOTION | INT_MODE_LONGPRESS
            },
        }
    }
}

/// The two control bytes of a mode: the motion mask first, the interrupt
/// control byte second.
pub open spec fn mode_bytes(mode: TouchMode) -> (u8, u8) {
    (mode.spec_motion_mask_byte(), mode.spec_int_control_byte())
}

/// Encodes a mode as its motion mask byte and its interrupt control byte.
pub fn encode_mode(mode: TouchMode) -> (bytes: (u8, u8))
    ensures
        bytes == mode_bytes(mode),
{
    (mode.motion_mask_byte(), mode.int_control_byte())
}

/// What the finger did when the sample was taken.
#[derive(Debug, Clone, Copy, PartialEq, Eq, Structural)]
pub enum TouchEvent {
    Down,
    Up,
    Contact,
}

/// An event code that is bound to no [`TouchEvent`]; holds the code.
#[derive(Debug, Clone, Copy, PartialEq, Eq, Structural)]
pub struct InvalidEventType(pub u8);

impl TouchEvent {
    /// The two-bit code of this event.
    pub open spec fn spec_code(self) -> u8 {
        match self {
            TouchEvent::Down => 0,
            TouchEvent::Up => 1,
            TouchEvent::Contact => 2,
        }
    }

    /// The two-bit code of this event.
    #[verifier::when_used_as_spec(spec_code)]
    pub fn code(self) -> (bits: u8)
        ensures
            bits == self.spec_code(),
    {
        match self {
            TouchEvent::Down => 0,
            TouchEvent::Up => 1,
            TouchEvent::Contact => 2,
        }
    }
}

/// The event that a code stands for. The codes 0, 1 and 2 are bound; 3,
/// which two bits can also hold, and everything above are not.
pub open spec fn event_of(bits: u8) -> Result<TouchEvent, InvalidEventType> {
    match bits {
        0 => Ok(TouchEvent::Down),
        1 => Ok(TouchEvent::Up),
        2 => Ok(TouchEvent::Contact),
        _ => Err(InvalidEventType(bits)),
    }
}

/// Decodes an event code, as found in the top two bits of a status byte.
pub fn decode_event(top_two_bits: u8) -> (decoded: Result<TouchEvent, InvalidEventType>)
    ensures
        decoded == event_of(top_two_bits),
        decoded is Ok <==> top_two_bits <= 2,
        decoded matches Ok(e) ==> e.spec_code() == top_two_bits,
        decoded matches Err(e) ==> e == InvalidEventType(top_two_bits),
{
    match top_two_bits {
        0 => Ok(TouchEvent::Down),
        1 => Ok(TouchEvent::Up),
        2 => Ok(TouchEvent::Contact),
        v => Err(InvalidEventType(v)),
    }
}

/// What a version query returns.
#[derive(Debug, Clone, Copy, PartialEq, Eq, Structural)]
pub struct VersionInfo {
    pub chip_id: DeviceType,
    pub proj_id: u8,
    pub fw_version: u8,
    pub factory_id: u8,
}

impl Default for VersionInfo {
    fn default() -> (info: Self)
        ensures
            info == (VersionInfo {
                chip_id: DeviceType::Unknown,
                proj_id: 0,
                fw_version: 0,
                factory_id: 0,
            }),
    {
        VersionInfo { chip_id: DeviceType::Unknown, proj_id: 0, fw_version: 0, factory_id: 0 }
    }
}

/// The version that the four bytes of the version register stand for.
pub open spec fn version_of(bytes: Seq<u8>) -> VersionInfo
    recommends
        bytes.len() == 4,
{
    VersionInfo {
        chip_id: device_type_of(bytes[0]),
        proj_id: bytes[1],
        fw_version: bytes[2],
        factory_id: bytes[3],
    }
}

/// Decodes the four bytes of the version register.
pub fn decode_version(bytes: [u8; 4]) -> (info: VersionInfo)
    ensures
        info == version_of(bytes@),
{
    VersionInfo {
        chip_id: decode_device_type(bytes[0]),
        proj_id: bytes[1],
        fw_version: bytes[2],
        factory_id: bytes[3],
    }
}

/// The largest value of a coordinate: twelve bits.
pub const COORDINATE_MAX: u16 = 4095;

/// One touch sample, as the controller reports it.
#[derive(Debug, Clone, Copy, PartialEq, Eq, Structural)]
pub struct TouchData {
    pub gesture: Gesture,
    /// How many fingers touch the panel.
    pub points: u8,
    pub event: TouchEvent,
    pub x: u16,
    pub y: u16,
}

impl TouchData {
    /// The sample that a driver holds before anything was captured.
    pub open spec fn initial() -> TouchData {
        TouchData { gesture: Gesture::NoGesture, points: 0, event: TouchEvent::Down, x: 0, y: 0 }
    }

    /// Both coordinates fit in twelve bits.
    pub open spec fn in_range(self) -> bool {
        self.x <= COORDINATE_MAX && self.y <= COORDINATE_MAX
    }
}

impl Default for TouchData {
    fn default() -> (data: Self)
        ensures
            data == TouchData::initial(),
    {
        TouchData { gesture: Gesture::NoGesture, points: 0, event: TouchEvent::Down, x: 0, y: 0 }
    }
}

/// Why a touch frame could not be decoded.
#[derive(Debug, Clone, Copy, PartialEq, Eq, Structural)]
pub enum DecodeError {
    /// The gesture byte is the code of no gesture; holds the byte.
    InvalidGesture(u8),
    /// The event bits are the code of no event; holds the two-bit code.
    InvalidEvent(u8),
}

/// The coordinate that a high and a low byte stand for: the low four bits
/// of `high` are its bits 8 to 11, and `low` its bits 0 to 7.
pub open spec fn coordinate_of(high: u8, low: u8) -> int {
    (high % 16) * 256 + low
}

/// The event code in a status byte: its top two bits.
pub open spec fn event_bits_of(status: u8) -> u8 {
    status / 64
}

/// The sample that the six bytes of a touch frame stand for. The gesture
/// byte is looked at first, so a frame in which both the gesture and the
/// event are invalid is reported as an invalid gesture.
pub open spec fn touch_sample_of(bytes: Seq<u8>) -> Result<TouchData, DecodeError>
    recommends
        bytes.len() == 6,
{
    match gesture_of(bytes[0]) {
        Err(e) => Err(DecodeError::InvalidGesture(e.0)),
        Ok(gesture) => match event_of(event_bits_of(bytes[2])) {
            Err(e) => Err(DecodeError::InvalidEvent(e.0)),
            Ok(event) => Ok(
                TouchData {
                    gesture,
                    points: bytes[1],
                    event,
                    x: coordinate_of(bytes[2], bytes[3]) as u16,
                    y: coordinate_of(bytes[4], bytes[5]) as u16,
                },
            ),
        },
    }
}

/// Joins the low four bits of `high` and the eight bits of `low`.
fn decode_coordinate(high: u8, low: u8) -> (value: u16)
    ensures
        value == coordinate_of(high, low),
        value <= COORDINATE_MAX,
{
    assert((((high & 0x0F) as u16) << 8) | (low as u16) == (high % 16) * 256 + low)
        by (bit_vector);
    (((high & 0x0F) as u16) << 8) | (low as u16)
}

/// Decodes the six bytes that the controller returns from register 0x01
/// on: gesture, finger count, event and high bits of x, low byte of x,
/// high bits of y, low byte of y.
pub fn decode_touch_sample(bytes: [u8; 6]) -> (decoded: Result<TouchData, DecodeError>)
    ensures
        decoded == touch_sample_of(bytes@),
        decoded is Ok <==> gesture_of(bytes[0]) is Ok && bytes[2] < 192,
        decoded matches Ok(data) ==> data.in_range(),
{
    let gesture = match decode_gesture(bytes[0]) {
        Ok(gesture) => gesture,
        Err(e) => {
            return Err(DecodeError::InvalidGesture(e.0));
        },
    };
    let status = bytes[2];
    assert(status >> 6 == status / 64) by (bit_vector);
    let event = match decode_event(status >> 6) {
        Ok(event) => event,
        Err(e) => {
            return Err(DecodeError::InvalidEvent(e.0));
        },
    };
    Ok(
        TouchData {
            gesture,
            points: bytes[1],
            event,
            x: decode_coordinate(bytes[2], bytes[3]),
            y: decode_coordinate(bytes[4], bytes[5]),
        },
    )
}

/// Decoding the code of a gesture gives that gesture back, for each of the
/// eight gestures.
pub proof fn lemma_gesture_round_trip(gesture: Gesture)
    ensures
        gesture_of(gesture.spec_code()) == Ok::<Gesture, InvalidGestureType>(gesture),
{
}

/// A byte decodes to a gesture exactly when it is the code of one, and
/// then to that one; every other byte fails, and the error holds the byte.
pub proof fn lemma_gesture_decode_exact(byte: u8)
    ensures
        gesture_of(byte) is Ok <==> exists|g: Gesture| g.spec_code() == byte,
        gesture_of(byte) is Ok <==> byte <= 0x05 || byte == 0x0B || byte == 0x0C,
        gesture_of(byte) matches Ok(g) ==> g.spec_code() == byte,
        gesture_of(byte) is Err ==> gesture_of(byte) == Err::<Gesture, InvalidGestureType>(
            InvalidGestureType(byte),
        ),
{
    match gesture_of(byte) {
        Ok(g) => {
            assert(g.spec_code() == byte);
        },
        Err(_) => {
            assert forall|g: Gesture| g.spec_code() != byte by {}
        },
    }
}

/// Decoding the chip id of a device type gives that device type back, for
/// each of the four known chips and for `Unknown`.
pub proof fn lemma_device_type_round_trip(device: DeviceType)
    ensures
        device_type_of(device.spec_code()) == device,
{
}

/// Every byte decodes to a device type: to the chip whose id it is, and to
/// `Unknown` when it is the id of none of the four.
pub proof fn lemma_device_type_total(byte: u8)
    ensures
        byte == 0x20 ==> device_type_of(byte) == DeviceType::Cst716,
        byte == 0xB4 ==> device_type_of(byte) == DeviceType::Cst816S,
        byte == 0xB5 ==> device_type_of(byte) == DeviceType::Cst816T,
        byte == 0xB6 ==> device_type_of(byte) == DeviceType::Cst816D,
        byte != 0x20 && byte != 0xB4 && byte != 0xB5 && byte != 0xB6 ==> device_type_of(byte)
            == DeviceType::Unknown,
        device_type_of(byte) != DeviceType::Unknown ==> device_type_of(byte).spec_code() == byte,
{
}

/// Decoding the code of an event gives that event back; a code decodes
/// exactly when it is 0, 1 or 2.
pub proof fn lemma_event_round_trip(event: TouchEvent, bits: u8)
    ensures
        event_of(event.spec_code()) == Ok::<TouchEvent, InvalidEventType>(event),
        event_of(bits) is Ok <==> bits <= 2,
        event_of(bits) matches Ok(e) ==> e.spec_code() == bits,
{
}

/// The coordinate of any two bytes fits in twelve bits, and every twelve-bit
/// value is the coordinate of its own high and low byte.
pub proof fn lemma_coordinate_range(high: u8, low: u8, value: u16)
    ensures
        0 <= coordinate_of(high, low) <= COORDINATE_MAX,
        value <= COORDINATE_MAX ==> coordinate_of((value / 256) as u8, (value % 256) as u8)
            == value,
{
}

} // verus!
