//! Binary codec of the Fitness Machine Service.
//!
//! Every multi-byte field is little-endian. Speeds on the wire are in
//! hundredths of km/h, inclinations in tenths of a percent.

use vstd::prelude::*;

verus! {

/// Flags of a treadmill data frame: total distance, inclination with ramp
/// angle, and elapsed time follow the instantaneous speed.
pub const TREADMILL_DATA_FLAGS: u16 = 0x040C;

/// Length in bytes of a treadmill data frame.
pub const TREADMILL_DATA_LEN: usize = 13;

/// The two bytes of an unsigned 16-bit field, least significant first.
pub open spec fn le16(x: u16) -> Seq<u8> {
    seq![(x % 256) as u8, (x / 256) as u8]
}

/// The unsigned 16-bit pattern that stands for `x` in two's complement.
pub open spec fn twos_complement16(x: i16) -> u16 {
    if x < 0 {
        (x + 0x1_0000) as u16
    } else {
        x as u16
    }
}

/// The two bytes of a signed 16-bit field, least significant first.
pub open spec fn le16_signed(x: i16) -> Seq<u8> {
    le16(twos_complement16(x))
}

/// The low three bytes of `x`, least significant first.
pub open spec fn le24(x: u32) -> Seq<u8> {
    seq![(x % 256) as u8, (x / 0x100 % 256) as u8, (x / 0x1_0000 % 256) as u8]
}

/// The four bytes of an unsigned 32-bit field, least significant first.
pub open spec fn le32(x: u32) -> Seq<u8> {
    seq![
        (x % 256) as u8,
        (x / 0x100 % 256) as u8,
        (x / 0x1_0000 % 256) as u8,
        (x / 0x100_0000) as u8,
    ]
}

/// The unsigned 16-bit value whose little-endian bytes are `lo`, `hi`.
pub open spec fn u16_from_le(lo: u8, hi: u8) -> u16 {
    (lo + 256 * hi) as u16
}

/// The signed 16-bit value whose little-endian bytes are `lo`, `hi`.
pub open spec fn i16_from_le(lo: u8, hi: u8) -> i16 {
    if hi >= 128 {
        (lo + 256 * hi - 0x1_0000) as i16
    } else {
        (lo + 256 * hi) as i16
    }
}

/// The unsigned 24-bit value whose little-endian bytes are `b0`, `b1`, `b2`.
pub open spec fn u24_from_le(b0: u8, b1: u8, b2: u8) -> u32 {
    (b0 + 0x100 * b1 + 0x1_0000 * b2) as u32
}

/// The unsigned 32-bit value whose little-endian bytes are `b0` to `b3`.
pub open spec fn u32_from_le(b0: u8, b1: u8, b2: u8, b3: u8) -> u32 {
    (b0 + 0x100 * b1 + 0x1_0000 * b2 + 0x100_0000 * b3) as u32
}

/// Reads an unsigned 16-bit field from its two little-endian bytes.
pub fn read_u16_le(lo: u8, hi: u8) -> (x: u16)
    ensures
        x == u16_from_le(lo, hi),
        le16(x) == seq![lo, hi],
{
    let x: u16 = lo as u16 + 256 * (hi as u16);
    assert(le16(x) =~= seq![lo, hi]);
    x
}

/// Reads a signed 16-bit field from its two little-endian bytes.
pub fn read_i16_le(lo: u8, hi: u8) -> (x: i16)
    ensures
        x == i16_from_le(lo, hi),
        le16_signed(x) == seq![lo, hi],
{
    let raw: i32 = lo as i32 + 256 * (hi as i32);
    let x: i16 = if hi >= 128 {
        (raw - 0x1_0000) as i16
    } else {
        raw as i16
    };
    assert(le16_signed(x) =~= seq![lo, hi]);
    x
}

/// Appends the two little-endian bytes of `x` to `buf`.
pub fn put_u16_le(buf: &mut Vec<u8>, x: u16)
    ensures
        final(buf)@ == old(buf)@ + le16(x),
{
    buf.push((x % 256) as u8);
    buf.push((x / 256) as u8);
    assert(buf@ =~= old(buf)@ + le16(x));
}

/// Appends the two little-endian bytes of `x`, in two's complement, to `buf`.
pub fn put_i16_le(buf: &mut Vec<u8>, x: i16)
    ensures
        final(buf)@ == old(buf)@ + le16_signed(x),
{
    let raw: u16 = if x < 0 {
        (x as i32 + 0x1_0000) as u16
    } else {
        x as u16
    };
    put_u16_le(buf, raw);
}

/// Appends the low three bytes of `x`, least significant first, to `buf`.
pub fn put_u24_le(buf: &mut Vec<u8>, x: u32)
    ensures
        final(buf)@ == old(buf)@ + le24(x),
{
    buf.push((x % 256) as u8);
    buf.push((x / 0x100 % 256) as u8);
    buf.push((x / 0x1_0000 % 256) as u8);
    assert(buf@ =~= old(buf)@ + le24(x));
}

/// The treadmill data frame for the given readings: flags, speed, the low
/// 24 bits of the distance, inclination, a zero ramp angle, elapsed time.
pub open spec fn treadmill_data_frame(
    speed_kmh_hundredths: u16,
    incline_tenths: i16,
    distance_meters: u32,
    elapsed_secs: u16,
) -> Seq<u8> {
    le16(TREADMILL_DATA_FLAGS) + le16(speed_kmh_hundredths) + le24(distance_meters) + le16_signed(
        incline_tenths,
    ) + le16_signed(0) + le16(elapsed_secs)
}

/// Encodes the Treadmill Data characteristic. The frame always has 13
/// bytes; a distance above 16,777,215 m keeps its low 24 bits only.
pub fn encode_treadmill_data(
    speed_kmh_hundredths: u16,
    incline_tenths: i16,
    distance_meters: u32,
    elapsed_secs: u16,
) -> (frame: Vec<u8>)
    ensures
        frame@ == treadmill_data_frame(
            speed_kmh_hundredths,
            incline_tenths,
            distance_meters,
            elapsed_secs,
        ),
        frame@.len() == TREADMILL_DATA_LEN,
{
    let mut buf: Vec<u8> = Vec::with_capacity(TREADMILL_DATA_LEN);
    put_u16_le(&mut buf, TREADMILL_DATA_FLAGS);
    put_u16_le(&mut buf, speed_kmh_hundredths);
    put_u24_le(&mut buf, distance_meters);
    put_i16_le(&mut buf, incline_tenths);
    put_i16_le(&mut buf, 0);
    put_u16_le(&mut buf, elapsed_secs);
    buf
}

/// Fitness machine features advertised: total distance, inclination and
/// elapsed time are supported.
pub const MACHINE_FEATURES: u32 = 0x0000_100C;

/// Target setting features advertised: speed and inclination targets.
pub const TARGET_FEATURES: u32 = 0x0000_0003;

/// Length in bytes of the Fitness Machine Feature value.
pub const FEATURE_LEN: usize = 8;

/// Slowest supported speed, in hundredths of km/h.
pub const SPEED_RANGE_MIN: u16 = 80;

/// Fastest supported speed, in hundredths of km/h.
pub const SPEED_RANGE_MAX: u16 = 1931;

/// Smallest supported speed step, in hundredths of km/h.
pub const SPEED_RANGE_STEP: u16 = 16;

/// Lowest supported inclination, in tenths of a percent.
pub const INCLINE_RANGE_MIN: i16 = 0;

/// Highest supported inclination, in tenths of a percent.
pub const INCLINE_RANGE_MAX: i16 = 150;

/// Smallest supported inclination step, in tenths of a percent.
pub const INCLINE_RANGE_STEP: i16 = 10;

/// Length in bytes of a supported-range value.
pub const RANGE_LEN: usize = 6;

/// The four little-endian bytes of `x`.
fn u32_le_bytes(x: u32) -> (b: [u8; 4])
    ensures
        b@ == le32(x),
{
    let b: [u8; 4] = [
        (x % 256) as u8,
        (x / 0x100 % 256) as u8,
        (x / 0x1_0000 % 256) as u8,
        (x / 0x100_0000) as u8,
    ];
    assert(b@ =~= le32(x));
    b
}

/// The two little-endian bytes of `x`.
fn u16_le_bytes(x: u16) -> (b: [u8; 2])
    ensures
        b@ == le16(x),
{
    let b: [u8; 2] = [(x % 256) as u8, (x / 256) as u8];
    assert(b@ =~= le16(x));
    b
}

/// The two little-endian bytes of `x` in two's complement.
fn i16_le_bytes(x: i16) -> (b: [u8; 2])
    ensures
        b@ == le16_signed(x),
{
    let raw: u16 = if x < 0 {
        (x as i32 + 0x1_0000) as u16
    } else {
        x as u16
    };
    u16_le_bytes(raw)
}

/// The Fitness Machine Feature value: the machine features, then the
/// target setting features.
pub open spec fn feature_frame() -> Seq<u8> {
    le32(MACHINE_FEATURES) + le32(TARGET_FEATURES)
}

/// Encodes the Fitness Machine Feature characteristic.
pub fn encode_feature() -> (frame: [u8; 8])
    ensures
        frame@ == feature_frame(),
        frame@ == seq![0x0Cu8, 0x10, 0x00, 0x00, 0x03, 0x00, 0x00, 0x00],
        frame@.len() == FEATURE_LEN,
{
    let machine: [u8; 4] = u32_le_bytes(MACHINE_FEATURES);
    let target: [u8; 4] = u32_le_bytes(TARGET_FEATURES);
    let frame: [u8; 8] = [
        machine[0],
        machine[1],
        machine[2],
        machine[3],
        target[0],
        target[1],
        target[2],
        target[3],
    ];
    assert(frame@ =~= feature_frame());
    assert(frame@ =~= seq![0x0Cu8, 0x10, 0x00, 0x00, 0x03, 0x00, 0x00, 0x00]);
    frame
}

/// The Supported Speed Range value: minimum, maximum and step.
pub open spec fn speed_range_frame() -> Seq<u8> {
    le16(SPEED_RANGE_MIN) + le16(SPEED_RANGE_MAX) + le16(SPEED_RANGE_STEP)
}

/// Encodes the Supported Speed Range characteristic.
pub fn encode_speed_range() -> (frame: [u8; 6])
    ensures
        frame@ == speed_range_frame(),
        frame@ == seq![0x50u8, 0x00, 0x8B, 0x07, 0x10, 0x00],
        frame@.len() == RANGE_LEN,
{
    let min: [u8; 2] = u16_le_bytes(SPEED_RANGE_MIN);
    let max: [u8; 2] = u16_le_bytes(SPEED_RANGE_MAX);
    let step: [u8; 2] = u16_le_bytes(SPEED_RANGE_STEP);
    let frame: [u8; 6] = [min[0], min[1], max[0], max[1], step[0], step[1]];
    assert(frame@ =~= speed_range_frame());
    assert(frame@ =~= seq![0x50u8, 0x00, 0x8B, 0x07, 0x10, 0x00]);
    frame
}

/// The Supported Inclination Range value: minimum, maximum and step.
pub open spec fn incline_range_frame() -> Seq<u8> {
    le16_signed(INCLINE_RANGE_MIN) + le16_signed(INCLINE_RANGE_MAX) + le16_signed(
        INCLINE_RANGE_STEP,
    )
}

/// Encodes the Supported Inclination Range characteristic.
pub fn encode_incline_range() -> (frame: [u8; 6])
    ensures
        frame@ == incline_range_frame(),
        frame@ == seq![0x00u8, 0x00, 0x96, 0x00, 0x0A, 0x00],
        frame@.len() == RANGE_LEN,
{
    let min: [u8; 2] = i16_le_bytes(INCLINE_RANGE_MIN);
    let max: [u8; 2] = i16_le_bytes(INCLINE_RANGE_MAX);
    let step: [u8; 2] = i16_le_bytes(INCLINE_RANGE_STEP);
    let frame: [u8; 6] = [min[0], min[1], max[0], max[1], step[0], step[1]];
    assert(frame@ =~= incline_range_frame());
    assert(frame@ =~= seq![0x00u8, 0x00, 0x96, 0x00, 0x0A, 0x00]);
    frame
}

/// A command written to the Fitness Machine Control Point.
#[derive(Debug, Clone, Copy, PartialEq, Eq, Structural)]
pub enum ControlCommand {
    /// The client asks for control of the machine.
    RequestControl,
    /// Target speed in hundredths of km/h.
    SetTargetSpeed(u16),
    /// Target inclination in tenths of a percent.
    SetTargetInclination(i16),
    /// Start, or resume after a pause.
    StartOrResume,
    /// Stop (parameter 1) or pause (parameter 2).
    StopOrPause(u8),
}

/// Opcode of Request Control.
pub const OPCODE_REQUEST_CONTROL: u8 = 0x00;

/// Opcode of Set Target Speed.
pub const OPCODE_SET_TARGET_SPEED: u8 = 0x02;

/// Opcode of Set Target Inclination.
pub const OPCODE_SET_TARGET_INCLINATION: u8 = 0x03;

/// Opcode of Start or Resume.
pub const OPCODE_START_OR_RESUME: u8 = 0x07;

/// Opcode of Stop or Pause.
pub const OPCODE_STOP_OR_PAUSE: u8 = 0x08;

/// Parameter of Stop or Pause: stop.
pub const STOP_PARAM_STOP: u8 = 0x01;

/// Parameter of Stop or Pause: pause.
pub const STOP_PARAM_PAUSE: u8 = 0x02;

/// Result code: the command was carried out.
pub const RESULT_SUCCESS: u8 = 0x01;

/// Result code: the opcode is not supported, or its parameter is cut short.
pub const RESULT_NOT_SUPPORTED: u8 = 0x02;

/// Result code: the parameter is invalid.
pub const RESULT_INVALID_PARAM: u8 = 0x03;

/// Result code: the machine could not carry the command out.
pub const RESULT_FAILED: u8 = 0x04;

/// The result of a control-point request, as the response reports it.
#[derive(Debug, Clone, Copy, PartialEq, Eq, Structural)]
pub enum ResultCode {
    /// The command was carried out.
    Success,
    /// The opcode is not supported, or its parameter is cut short.
    NotSupported,
    /// The parameter is invalid.
    InvalidParameter,
    /// The machine could not carry the command out.
    Failed,
}

impl ResultCode {
    /// The byte that stands for the result on the wire.
    pub open spec fn spec_code(self) -> u8 {
        match self {
            ResultCode::Success => RESULT_SUCCESS,
            ResultCode::NotSupported => RESULT_NOT_SUPPORTED,
            ResultCode::InvalidParameter => RESULT_INVALID_PARAM,
            ResultCode::Failed => RESULT_FAILED,
        }
    }

    /// The result that a byte stands for, if it stands for one.
    pub open spec fn spec_from_code(code: u8) -> Option<ResultCode> {
        if code == RESULT_SUCCESS {
            Some(ResultCode::Success)
        } else if code == RESULT_NOT_SUPPORTED {
            Some(ResultCode::NotSupported)
        } else if code == RESULT_INVALID_PARAM {
            Some(ResultCode::InvalidParameter)
        } else if code == RESULT_FAILED {
            Some(ResultCode::Failed)
        } else {
            None
        }
    }

    /// The byte that stands for the result on the wire.
    #[verifier::when_used_as_spec(spec_code)]
    pub fn code(self) -> (code: u8)
        ensures
            code == self.spec_code(),
            ResultCode::spec_from_code(code) == Some(self),
    {
        match self {
            ResultCode::Success => RESULT_SUCCESS,
            ResultCode::NotSupported => RESULT_NOT_SUPPORTED,
            ResultCode::InvalidParameter => RESULT_INVALID_PARAM,
            ResultCode::Failed => RESULT_FAILED,
        }
    }

    /// Reads a result from its byte; `None` for a byte that stands for none.
    pub fn from_code(code: u8) -> (result: Option<ResultCode>)
        ensures
            result == ResultCode::spec_from_code(code),
            result matches Some(r) ==> r.spec_code() == code,
    {
        if code == RESULT_SUCCESS {
            Some(ResultCode::Success)
        } else if code == RESULT_NOT_SUPPORTED {
            Some(ResultCode::NotSupported)
        } else if code == RESULT_INVALID_PARAM {
            Some(ResultCode::InvalidParameter)
        } else if code == RESULT_FAILED {
            Some(ResultCode::Failed)
        } else {
            None
        }
    }
}

/// First byte of every control-point response.
pub const RESPONSE_CODE: u8 = 0x80;

/// Length in bytes of a control-point response.
pub const CONTROL_RESPONSE_LEN: usize = 3;

impl ControlCommand {
    /// The opcode that introduces this command on the wire.
    pub open spec fn spec_opcode(self) -> u8 {
        match self {
            ControlCommand::RequestControl => OPCODE_REQUEST_CONTROL,
            ControlCommand::SetTargetSpeed(_) => OPCODE_SET_TARGET_SPEED,
            ControlCommand::SetTargetInclination(_) => OPCODE_SET_TARGET_INCLINATION,
            ControlCommand::StartOrResume => OPCODE_START_OR_RESUME,
            ControlCommand::StopOrPause(_) => OPCODE_STOP_OR_PAUSE,
        }
    }

    /// The opcode that introduces this command on the wire.
    #[verifier::when_used_as_spec(spec_opcode)]
    pub fn opcode(self) -> (op: u8)
        ensures
            op == self.spec_opcode(),
    {
        match self {
            ControlCommand::RequestControl => OPCODE_REQUEST_CONTROL,
            ControlCommand::SetTargetSpeed(_) => OPCODE_SET_TARGET_SPEED,
            ControlCommand::SetTargetInclination(_) => OPCODE_SET_TARGET_INCLINATION,
            ControlCommand::StartOrResume => OPCODE_START_OR_RESUME,
            ControlCommand::StopOrPause(_) => OPCODE_STOP_OR_PAUSE,
        }
    }
}

/// What a control-point payload means. The first byte is the opcode; a
/// known opcode wants its parameter bytes behind it and ignores anything
/// after them. An empty payload, an unknown opcode and a parameter cut
/// short all mean nothing. Parameters are taken as they come: no range is
/// checked here.
pub open spec fn parsed_control_point(bytes: Seq<u8>) -> Option<ControlCommand> {
    if bytes.len() == 0 {
        None
    } else if bytes[0] == OPCODE_REQUEST_CONTROL {
        Some(ControlCommand::RequestControl)
    } else if bytes[0] == OPCODE_SET_TARGET_SPEED {
        if bytes.len() >= 3 {
            Some(ControlCommand::SetTargetSpeed(u16_from_le(bytes[1], bytes[2])))
        } else {
            None
        }
    } else if bytes[0] == OPCODE_SET_TARGET_INCLINATION {
        if bytes.len() >= 3 {
            Some(ControlCommand::SetTargetInclination(i16_from_le(bytes[1], bytes[2])))
        } else {
            None
        }
    } else if bytes[0] == OPCODE_START_OR_RESUME {
        Some(ControlCommand::StartOrResume)
    } else if bytes[0] == OPCODE_STOP_OR_PAUSE {
        if bytes.len() >= 2 {
            Some(ControlCommand::StopOrPause(bytes[1]))
        } else {
            None
        }
    } else {
        None
    }
}

/// Parses a write to the Fitness Machine Control Point. Returns `None` for
/// an empty payload, an unknown opcode or a parameter cut short.
pub fn parse_control_point(bytes: &[u8]) -> (cmd: Option<ControlCommand>)
    ensures
        cmd == parsed_control_point(bytes@),
{
    if bytes.len() == 0 {
        return None;
    }
    let opcode: u8 = bytes[0];
    if opcode == OPCODE_REQUEST_CONTROL {
        Some(ControlCommand::RequestControl)
    } else if opcode == OPCODE_SET_TARGET_SPEED {
        if bytes.len() < 3 {
            return None;
        }
        Some(ControlCommand::SetTargetSpeed(read_u16_le(bytes[1], bytes[2])))
    } else if opcode == OPCODE_SET_TARGET_INCLINATION {
        if bytes.len() < 3 {
            return None;
        }
        Some(ControlCommand::SetTargetInclination(read_i16_le(bytes[1], bytes[2])))
    } else if opcode == OPCODE_START_OR_RESUME {
        Some(ControlCommand::StartOrResume)
    } else if opcode == OPCODE_STOP_OR_PAUSE {
        if bytes.len() < 2 {
            return None;
        }
        Some(ControlCommand::StopOrPause(bytes[1]))
    } else {
        None
    }
}

/// The response to a control-point request: the response code, the opcode
/// of the request, the result code.
pub open spec fn control_response_frame(request_opcode: u8, result: u8) -> Seq<u8> {
    seq![RESPONSE_CODE, request_opcode, result]
}

/// Encodes a control-point response indication.
pub fn encode_control_response(request_opcode: u8, result: u8) -> (frame: Vec<u8>)
    ensures
        frame@ == control_response_frame(request_opcode, result),
        frame@.len() == CONTROL_RESPONSE_LEN,
{
    let mut frame: Vec<u8> = Vec::with_capacity(CONTROL_RESPONSE_LEN);
    frame.push(RESPONSE_CODE);
    frame.push(request_opcode);
    frame.push(result);
    assert(frame@ =~= control_response_frame(request_opcode, result));
    frame
}

/// Largest speed in tenths of mph whose value in hundredths of km/h still
/// fits in 16 bits.
pub const MPH_TENTHS_EXACT_MAX: u16 = 4073;

/// Hundredths of km/h for a speed in tenths of mph: the speed times
/// 1609/100, rounded down, of which the 16-bit result keeps the low 16 bits.
pub open spec fn kmh_hundredths_of(mph_tenths: u16) -> u16 {
    ((mph_tenths * 1609 / 100) % 0x1_0000) as u16
}

/// Tenths of mph for a speed in hundredths of km/h: the speed times
/// 100/1609, rounded down.
pub open spec fn mph_tenths_of(kmh_hundredths: u16) -> u16 {
    (kmh_hundredths * 100 / 1609) as u16
}

/// Converts a speed from tenths of mph to hundredths of km/h. Up to
/// `MPH_TENTHS_EXACT_MAX` the result is the speed times 1609/100, rounded
/// down; above it the product no longer fits and its low 16 bits are kept.
pub fn mph_tenths_to_kmh_hundredths(mph_tenths: u16) -> (kmh_hundredths: u16)
    ensures
        kmh_hundredths == kmh_hundredths_of(mph_tenths),
        mph_tenths <= MPH_TENTHS_EXACT_MAX ==> kmh_hundredths == mph_tenths * 1609 / 100,
{
    let wide: u32 = (mph_tenths as u32) * 1609 / 100;
    (wide % 0x1_0000) as u16
}

/// Converts a speed from hundredths of km/h to tenths of mph, rounding down.
pub fn kmh_hundredths_to_mph_tenths(kmh_hundredths: u16) -> (mph_tenths: u16)
    ensures
        mph_tenths == mph_tenths_of(kmh_hundredths),
        mph_tenths == kmh_hundredths * 100 / 1609,
        mph_tenths <= MPH_TENTHS_EXACT_MAX,
{
    let wide: u32 = (kmh_hundredths as u32) * 100 / 1609;
    wide as u16
}

/// How a 32-bit number falls into its four bytes.
proof fn lemma_u32_bytes(x: u32)
    ensures
        x == (x % 256) + 0x100 * (x / 0x100 % 256) + 0x1_0000 * (x / 0x1_0000 % 256) + 0x100_0000
            * (x / 0x100_0000),
        x % 0x100_0000 == (x % 256) + 0x100 * (x / 0x100 % 256) + 0x1_0000 * (x / 0x1_0000
            % 256),
        x / 0x100_0000 < 256,
{
    assert(x == (x % 256) + 0x100 * (x / 0x100 % 256) + 0x1_0000 * (x / 0x1_0000 % 256)
        + 0x100_0000 * (x / 0x100_0000)) by (bit_vector);
    assert(x % 0x100_0000 == (x % 256) + 0x100 * (x / 0x100 % 256) + 0x1_0000 * (x / 0x1_0000
        % 256)) by (bit_vector);
    assert(x / 0x100_0000 < 256) by (bit_vector);
}

/// An unsigned 16-bit field reads back from its bytes as it was written.
pub proof fn lemma_u16_le_round_trip(x: u16)
    ensures
        le16(x).len() == 2,
        u16_from_le(le16(x)[0], le16(x)[1]) == x,
{
    assert(x % 256 + 256 * (x / 256) == x);
}

/// A signed 16-bit field reads back from its bytes as it was written.
pub proof fn lemma_i16_le_round_trip(x: i16)
    ensures
        le16_signed(x).len() == 2,
        i16_from_le(le16_signed(x)[0], le16_signed(x)[1]) == x,
{
    let raw = twos_complement16(x);
    assert(raw % 256 + 256 * (raw / 256) == raw);
    assert(raw / 256 >= 128 <==> x < 0);
}

/// Of a number written as a 24-bit field, the low 24 bits read back.
pub proof fn lemma_u24_le_keeps_low_bits(x: u32)
    ensures
        le24(x).len() == 3,
        u24_from_le(le24(x)[0], le24(x)[1], le24(x)[2]) == x % 0x100_0000,
{
    lemma_u32_bytes(x);
}

/// An unsigned 32-bit field reads back from its bytes as it was written.
pub proof fn lemma_u32_le_round_trip(x: u32)
    ensures
        le32(x).len() == 4,
        u32_from_le(le32(x)[0], le32(x)[1], le32(x)[2], le32(x)[3]) == x,
{
    lemma_u32_bytes(x);
}

/// The static frames read back as the capabilities they advertise.
pub proof fn lemma_static_frames_read_back()
    ensures
        ({
            let f = feature_frame();
            &&& f.len() == 8
            &&& u32_from_le(f[0], f[1], f[2], f[3]) == MACHINE_FEATURES
            &&& u32_from_le(f[4], f[5], f[6], f[7]) == TARGET_FEATURES
        }),
        ({
            let r = speed_range_frame();
            &&& r.len() == 6
            &&& u16_from_le(r[0], r[1]) == SPEED_RANGE_MIN
            &&& u16_from_le(r[2], r[3]) == SPEED_RANGE_MAX
            &&& u16_from_le(r[4], r[5]) == SPEED_RANGE_STEP
        }),
        ({
            let r = incline_range_frame();
            &&& r.len() == 6
            &&& i16_from_le(r[0], r[1]) == INCLINE_RANGE_MIN
            &&& i16_from_le(r[2], r[3]) == INCLINE_RANGE_MAX
            &&& i16_from_le(r[4], r[5]) == INCLINE_RANGE_STEP
        }),
{
    assert(feature_frame() =~= seq![0x0Cu8, 0x10, 0x00, 0x00, 0x03, 0x00, 0x00, 0x00]);
    assert(speed_range_frame() =~= seq![0x50u8, 0x00, 0x8B, 0x07, 0x10, 0x00]);
    assert(incline_range_frame() =~= seq![0x00u8, 0x00, 0x96, 0x00, 0x0A, 0x00]);
}

/// Every field of a treadmill data frame reads back as it was written,
/// except the distance, of which the low 24 bits read back.
pub proof fn lemma_treadmill_data_round_trip(
    speed_kmh_hundredths: u16,
    incline_tenths: i16,
    distance_meters: u32,
    elapsed_secs: u16,
)
    ensures
        ({
            let f = treadmill_data_frame(
                speed_kmh_hundredths,
                incline_tenths,
                distance_meters,
                elapsed_secs,
            );
            &&& f.len() == 13
            &&& u16_from_le(f[0], f[1]) == TREADMILL_DATA_FLAGS
            &&& u16_from_le(f[2], f[3]) == speed_kmh_hundredths
            &&& u24_from_le(f[4], f[5], f[6]) == distance_meters % 0x100_0000
            &&& i16_from_le(f[7], f[8]) == incline_tenths
            &&& i16_from_le(f[9], f[10]) == 0
            &&& u16_from_le(f[11], f[12]) == elapsed_secs
        }),
{
    let f = treadmill_data_frame(
        speed_kmh_hundredths,
        incline_tenths,
        distance_meters,
        elapsed_secs,
    );
    let flags = le16(TREADMILL_DATA_FLAGS);
    let speed = le16(speed_kmh_hundredths);
    let distance = le24(distance_meters);
    let incline = le16_signed(incline_tenths);
    let ramp = le16_signed(0);
    let elapsed = le16(elapsed_secs);
    assert(f =~= seq![
        flags[0],
        flags[1],
        speed[0],
        speed[1],
        distance[0],
        distance[1],
        distance[2],
        incline[0],
        incline[1],
        ramp[0],
        ramp[1],
        elapsed[0],
        elapsed[1],
    ]);
    lemma_u16_le_round_trip(TREADMILL_DATA_FLAGS);
    lemma_u16_le_round_trip(speed_kmh_hundredths);
    lemma_u24_le_keeps_low_bits(distance_meters);
    lemma_i16_le_round_trip(incline_tenths);
    lemma_i16_le_round_trip(0);
    lemma_u16_le_round_trip(elapsed_secs);
}

/// A payload of one byte is a command exactly when the byte is the opcode
/// of Request Control or of Start or Resume.
pub proof fn lemma_single_byte_payload(byte: u8)
    ensures
        parsed_control_point(seq![byte]) == if byte == OPCODE_REQUEST_CONTROL {
            Some(ControlCommand::RequestControl)
        } else if byte == OPCODE_START_OR_RESUME {
            Some(ControlCommand::StartOrResume)
        } else {
            None::<ControlCommand>
        },
{
}

/// Bytes behind a command's parameter do not change what the payload means.
pub proof fn lemma_trailing_bytes_ignored(bytes: Seq<u8>, extra: Seq<u8>)
    requires
        parsed_control_point(bytes) is Some,
    ensures
        parsed_control_point(bytes + extra) == parsed_control_point(bytes),
{
}

/// The opcode of a parsed command is the first byte of its payload.
pub proof fn lemma_parsed_opcode_is_first_byte(bytes: Seq<u8>)
    requires
        parsed_control_point(bytes) is Some,
    ensures
        bytes.len() > 0,
        parsed_control_point(bytes)->0.spec_opcode() == bytes[0],
{
}

/// Up to `MPH_TENTHS_EXACT_MAX`, a speed converted to hundredths of km/h and
/// back comes out as itself or one tenth of mph lower.
pub proof fn lemma_speed_round_trip(mph_tenths: u16)
    requires
        mph_tenths <= MPH_TENTHS_EXACT_MAX,
    ensures
        mph_tenths - 1 <= mph_tenths_of(kmh_hundredths_of(mph_tenths)) <= mph_tenths,
{
    let kmh: int = mph_tenths * 1609 / 100;
    assert(100 * kmh <= mph_tenths * 1609 < 100 * kmh + 100);
    assert(kmh < 0x1_0000);
    assert(kmh_hundredths_of(mph_tenths) == kmh);
    let back: int = kmh * 100 / 1609;
    assert(1609 * back <= 100 * kmh < 1609 * back + 1609);
    assert(mph_tenths_of(kmh_hundredths_of(mph_tenths)) == back);
}

/// A 128-bit UUID of the `uuid` crate. Nothing of its inside is visible
/// here but the number that `uuid_bits` names.
#[verifier::external_type_specification]
#[verifier::external_body]
pub struct ExUuid(uuid::Uuid);

/// The 128 bits that a UUID holds, as `uuid::Uuid::as_u128` returns them:
/// its sixteen bytes read as one big-endian number.
pub uninterp spec fn uuid_bits(id: uuid::Uuid) -> u128;

/// Calls `uuid::Uuid::from_u128`. The claim: the UUID made holds the
/// number's sixteen big-endian bytes, so that the number reads back from it.
#[verifier::external_body]
pub(crate) fn uuid_from_u128(bits: u128) -> (id: uuid::Uuid)
    ensures
        uuid_bits(id) == bits,
{
    uuid::Uuid::from_u128(bits)
}

/// The Bluetooth base UUID, `00000000-0000-1000-8000-00805f9b34fb`.
pub const BLUETOOTH_BASE_UUID: u128 = 0x0000_0000_0000_1000_8000_0080_5f9b_34fb;

/// Short UUID of the Fitness Machine Service.
pub const FTMS_SERVICE_UUID16: u16 = 0x1826;

/// Short UUID of the Fitness Machine Feature characteristic.
pub const FEATURE_UUID16: u16 = 0x2ACC;

/// Short UUID of the Treadmill Data characteristic.
pub const TREADMILL_DATA_UUID16: u16 = 0x2ACD;

/// Short UUID of the Training Status characteristic.
pub const TRAINING_STATUS_UUID16: u16 = 0x2AD3;

/// Short UUID of the Supported Speed Range characteristic.
pub const SPEED_RANGE_UUID16: u16 = 0x2AD4;

/// Short UUID of the Supported Inclination Range characteristic.
pub const INCLINE_RANGE_UUID16: u16 = 0x2AD5;

/// Short UUID of the Fitness Machine Control Point characteristic.
pub const CONTROL_POINT_UUID16: u16 = 0x2AD9;

/// Short UUID of the Fitness Machine Status characteristic.
pub const MACHINE_STATUS_UUID16: u16 = 0x2ADA;

/// The 128 bits of a 16-bit short UUID: the base UUID with the short form
/// in bits 96 to 111, `0000xxxx-0000-1000-8000-00805f9b34fb`.
pub open spec fn ble_uuid_value(short: u16) -> u128 {
    (short * 0x1_0000_0000_0000_0000_0000_0000 + BLUETOOTH_BASE_UUID) as u128
}

/// Computes the 128 bits of a 16-bit short UUID.
pub fn ble_uuid_u128(short: u16) -> (bits: u128)
    ensures
        bits == ble_uuid_value(short),
{
    let wide: u128 = short as u128;
    assert((wide << 96) | 0x0000_0000_0000_1000_8000_0080_5f9b_34fbu128 == wide
        * 0x1_0000_0000_0000_0000_0000_0000 + 0x0000_0000_0000_1000_8000_0080_5f9b_34fbu128)
        by (bit_vector)
        requires
            wide < 0x1_0000,
    ;
    (wide << 96) | BLUETOOTH_BASE_UUID
}

/// Expands a 16-bit short UUID under the Bluetooth base UUID.
pub fn ble_uuid(short: u16) -> (id: uuid::Uuid)
    ensures
        uuid_bits(id) == ble_uuid_value(short),
{
    uuid_from_u128(ble_uuid_u128(short))
}

/// Different short UUIDs expand to different UUIDs.
pub proof fn lemma_ble_uuid_distinct(a: u16, b: u16)
    requires
        a != b,
    ensures
        ble_uuid_value(a) != ble_uuid_value(b),
{
}

} // verus!
