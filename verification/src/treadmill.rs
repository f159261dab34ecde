//! Live treadmill state and the decisions of the backend state client:
//! what a line from the hardware controller means, how a status sample
//! changes the state, and how long to wait before reconnecting.

use crate::json::{
    get_text, get_unsigned, json_document, parse_document, text_member, unsigned_member,
};
use crate::protocol::{
    encode_treadmill_data, kmh_hundredths_of, mph_tenths_to_kmh_hundredths, treadmill_data_frame,
};
use crate::text::{
    append_decimal, append_signed_decimal, decimal_text, signed_decimal_text, text_is,
};
use vstd::prelude::*;
use vstd::string::StringExecFns;

verus! {

/// Live treadmill readings, written by the backend state client and read by
/// the notifiers.
#[derive(Debug, Clone, Copy, PartialEq, Eq, Structural)]
pub struct TreadmillState {
    /// Belt speed in tenths of mph.
    pub speed_tenths_mph: u16,
    /// Incline in whole percent.
    pub incline_percent: u16,
    /// Seconds since the belt first moved in this connection.
    pub elapsed_secs: u16,
    /// Distance covered in this connection, in meters.
    pub distance_meters: u32,
    /// Whether the connection to the hardware controller is up.
    pub connected: bool,
}

impl Default for TreadmillState {
    /// A stopped, level treadmill with no connection.
    fn default() -> (state: TreadmillState)
        ensures
            state == (TreadmillState {
                speed_tenths_mph: 0,
                incline_percent: 0,
                elapsed_secs: 0,
                distance_meters: 0,
                connected: false,
            }),
    {
        TreadmillState {
            speed_tenths_mph: 0,
            incline_percent: 0,
            elapsed_secs: 0,
            distance_meters: 0,
            connected: false,
        }
    }
}

/// Tenths of a percent for an incline in whole percent: ten times the
/// incline, of which the signed 16-bit field keeps the low 16 bits.
pub open spec fn incline_tenths_of(incline_percent: u16) -> i16 {
    let low = (incline_percent * 10) % 0x1_0000;
    if low >= 0x8000 {
        (low - 0x1_0000) as i16
    } else {
        low as i16
    }
}

/// Largest incline in whole percent whose tenths fit the signed field.
pub const INCLINE_PERCENT_EXACT_MAX: u16 = 3276;

/// Converts an incline from whole percent to tenths of a percent.
pub fn incline_percent_to_tenths(incline_percent: u16) -> (tenths: i16)
    ensures
        tenths == incline_tenths_of(incline_percent),
        incline_percent <= INCLINE_PERCENT_EXACT_MAX ==> tenths == incline_percent * 10,
{
    let low: u32 = (incline_percent as u32 * 10) % 0x1_0000;
    if low >= 0x8000 {
        (low as i32 - 0x1_0000) as i16
    } else {
        low as i16
    }
}

impl TreadmillState {
    /// The treadmill data frame that reports this state.
    pub open spec fn ftms_frame(self) -> Seq<u8> {
        treadmill_data_frame(
            kmh_hundredths_of(self.speed_tenths_mph),
            incline_tenths_of(self.incline_percent),
            self.distance_meters,
            self.elapsed_secs,
        )
    }

    /// Marks the connection to the hardware controller lost. The readings
    /// stay as they were until the next connection replaces them.
    pub fn mark_disconnected(&mut self)
        ensures
            *final(self) == (TreadmillState { connected: false, ..*old(self) }),
    {
        self.connected = false;
    }

    /// Encodes the state as a Treadmill Data frame, converting the speed to
    /// hundredths of km/h and the incline to tenths of a percent.
    pub fn encode_ftms_data(&self) -> (frame: Vec<u8>)
        ensures
            frame@ == self.ftms_frame(),
            frame@.len() == 13,
    {
        let speed_kmh: u16 = mph_tenths_to_kmh_hundredths(self.speed_tenths_mph);
        let incline_tenths: i16 = incline_percent_to_tenths(self.incline_percent);
        encode_treadmill_data(speed_kmh, incline_tenths, self.distance_meters, self.elapsed_secs)
    }
}

/// What a line from the hardware controller says.
#[derive(Debug, Clone, Copy, PartialEq, Eq, Structural)]
pub enum BackendMessage {
    /// A status report with the raw speed and incline.
    Status {
        /// Belt speed in tenths of mph.
        speed_tenths_mph: u16,
        /// Incline in whole percent.
        incline_percent: u16,
    },
    /// A key-value report from the serial bus; informational.
    Kv,
    /// A JSON document of another type, or of none.
    Unknown,
    /// Text that is no JSON document.
    Malformed,
}

/// The low 16 bits of a reported number.
pub open spec fn low16(value: u64) -> u16 {
    (value % 0x1_0000) as u16
}

/// What a document means, given its `type`, `emu_speed` and `emu_incline`
/// members. Only the type `status` is acted on. A status report takes a
/// missing or non-integer reading as 0 and keeps the low 16 bits of a
/// larger one.
pub open spec fn classified_message(
    msg_type: Option<Seq<char>>,
    emu_speed: Option<u64>,
    emu_incline: Option<u64>,
) -> BackendMessage {
    if msg_type == Some("status"@) {
        BackendMessage::Status {
            speed_tenths_mph: low16(
                match emu_speed {
                    Some(v) => v,
                    None => 0,
                },
            ),
            incline_percent: low16(
                match emu_incline {
                    Some(v) => v,
                    None => 0,
                },
            ),
        }
    } else if msg_type == Some("kv"@) {
        BackendMessage::Kv
    } else {
        BackendMessage::Unknown
    }
}

/// Classifies a document by the members that were read from it.
pub fn classify_message(
    msg_type: Option<&str>,
    emu_speed: Option<u64>,
    emu_incline: Option<u64>,
) -> (msg: BackendMessage)
    ensures
        msg == classified_message(
            match msg_type {
                Some(t) => Some(t@),
                None => None,
            },
            emu_speed,
            emu_incline,
        ),
{
    match msg_type {
        Some(t) => {
            if text_is(t, "status") {
                let speed: u64 = match emu_speed {
                    Some(v) => v,
                    None => 0,
                };
                let incline: u64 = match emu_incline {
                    Some(v) => v,
                    None => 0,
                };
                BackendMessage::Status {
                    speed_tenths_mph: (speed % 0x1_0000) as u16,
                    incline_percent: (incline % 0x1_0000) as u16,
                }
            } else if text_is(t, "kv") {
                BackendMessage::Kv
            } else {
                BackendMessage::Unknown
            }
        },
        None => BackendMessage::Unknown,
    }
}

/// What a line of text from the hardware controller means: `Malformed`
/// where it is no JSON document, else the document's class by its members.
pub open spec fn backend_message_of(line: Seq<char>) -> BackendMessage {
    match json_document(line) {
        None => BackendMessage::Malformed,
        Some(document) => classified_message(
            text_member(document, "type"@),
            unsigned_member(document, "emu_speed"@),
            unsigned_member(document, "emu_incline"@),
        ),
    }
}

/// Parses one line received from the hardware controller.
pub fn parse_backend_line(line: &str) -> (msg: BackendMessage)
    ensures
        msg == backend_message_of(line@),
{
    match parse_document(line) {
        Err(_) => BackendMessage::Malformed,
        Ok(document) => {
            let msg_type: Option<&str> = get_text(&document, "type");
            let emu_speed: Option<u64> = get_unsigned(&document, "emu_speed");
            let emu_incline: Option<u64> = get_unsigned(&document, "emu_incline");
            classify_message(msg_type, emu_speed, emu_incline)
        },
    }
}

/// Nanoseconds in a second.
pub const NANOS_PER_SEC: u64 = 1_000_000_000;

/// Seconds between two heartbeats on the status connection.
pub const HEARTBEAT_PERIOD_SECS: u64 = 1;

/// Whole seconds from `start` to `now`, both in nanoseconds on one
/// monotonic clock, of which the 16-bit reading keeps the low 16 bits. A
/// `now` before `start` counts as no time at all.
pub open spec fn elapsed_secs_between(start: u64, now: u64) -> u16 {
    if now <= start {
        0
    } else {
        (((now - start) / (NANOS_PER_SEC as int)) % 0x1_0000) as u16
    }
}

/// Nanoseconds from `earlier` to `now`; none where `now` is not later.
pub open spec fn nanos_between(earlier: u64, now: u64) -> u64 {
    if now <= earlier {
        0
    } else {
        (now - earlier) as u64
    }
}

/// The elapsed-time anchor after a sample: the first sample with a moving
/// belt sets it, and nothing moves it afterwards.
pub open spec fn anchor_after(anchor: Option<u64>, speed_tenths_mph: u16, now: u64) -> Option<u64> {
    if anchor is None && speed_tenths_mph > 0 {
        Some(now)
    } else {
        anchor
    }
}

/// The state after a status sample. Speed and incline are the sample's.
/// The distance is the total handed in, and never goes back. The elapsed
/// time runs from the anchor, and stays as it was while there is none.
pub open spec fn state_after_status(
    state: TreadmillState,
    anchor: Option<u64>,
    speed_tenths_mph: u16,
    incline_percent: u16,
    now: u64,
    distance_meters: u32,
) -> TreadmillState {
    TreadmillState {
        speed_tenths_mph,
        incline_percent,
        elapsed_secs: match anchor_after(anchor, speed_tenths_mph, now) {
            Some(start) => elapsed_secs_between(start, now),
            None => state.elapsed_secs,
        },
        distance_meters: if distance_meters >= state.distance_meters {
            distance_meters
        } else {
            state.distance_meters
        },
        connected: state.connected,
    }
}

/// Hundredths of a meter in a mile, as the distance sum takes it.
pub const CENTIMETERS_PER_MILE: u32 = 160_934;

/// One stretch of the distance sum: a speed held for a time. The sum
/// itself is kept in floating point by the caller, who hands its whole
/// meters to `record_status`.
#[derive(Debug, Clone, Copy, PartialEq, Eq, Structural)]
pub struct DistanceStep {
    /// The speed held, in tenths of mph.
    pub speed_tenths_mph: u16,
    /// How long it was held, in nanoseconds.
    pub nanos: u64,
}

/// What the client keeps for the length of one connection: when the last
/// line came in, and when the belt first moved. Times are nanoseconds on a
/// monotonic clock of the caller's.
#[derive(Debug)]
pub struct BackendSession {
    last_update: u64,
    workout_start: Option<u64>,
}

impl BackendSession {
    /// When the last line came in, or the connection was made.
    pub closed spec fn last_update(self) -> u64 {
        self.last_update
    }

    /// When the belt was first seen moving in this connection, if it was.
    pub closed spec fn anchor(self) -> Option<u64> {
        self.workout_start
    }

    /// Starts the bookkeeping of a fresh connection. The state is marked
    /// connected; distance and elapsed time start again from zero, while
    /// speed and incline stay until the first status sample replaces them.
    pub fn connect(state: &mut TreadmillState, now: u64) -> (session: BackendSession)
        ensures
            session.last_update() == now,
            session.anchor() is None,
            *final(state) == (TreadmillState {
                connected: true,
                distance_meters: 0,
                elapsed_secs: 0,
                ..*old(state)
            }),
    {
        state.connected = true;
        state.distance_meters = 0;
        state.elapsed_secs = 0;
        BackendSession { last_update: now, workout_start: None }
    }

    /// Notes that a line came in at `now`, whatever it says, and returns
    /// what the line adds to the distance if it is a status sample: the
    /// belt ran at the speed of the sample before it for the time since the
    /// line before it.
    pub fn observe_line(&mut self, state: &TreadmillState, now: u64) -> (step: DistanceStep)
        ensures
            step.speed_tenths_mph == state.speed_tenths_mph,
            step.nanos == nanos_between(old(self).last_update(), now),
            final(self).last_update() == now,
            final(self).anchor() == old(self).anchor(),
    {
        let nanos: u64 = now.saturating_sub(self.last_update);
        self.last_update = now;
        DistanceStep { speed_tenths_mph: state.speed_tenths_mph, nanos }
    }

    /// Takes a status sample into the state. `distance_meters` is the
    /// distance of this connection so far, as the caller has summed it up.
    pub fn record_status(
        &mut self,
        state: &mut TreadmillState,
        speed_tenths_mph: u16,
        incline_percent: u16,
        now: u64,
        distance_meters: u32,
    )
        ensures
            final(self).anchor() == anchor_after(old(self).anchor(), speed_tenths_mph, now),
            final(self).last_update() == old(self).last_update(),
            *final(state) == state_after_status(
                *old(state),
                old(self).anchor(),
                speed_tenths_mph,
                incline_percent,
                now,
                distance_meters,
            ),
            final(state).distance_meters >= old(state).distance_meters,
    {
        if speed_tenths_mph > 0 && self.workout_start.is_none() {
            self.workout_start = Some(now);
        }
        state.speed_tenths_mph = speed_tenths_mph;
        state.incline_percent = incline_percent;
        if distance_meters >= state.distance_meters {
            state.distance_meters = distance_meters;
        }
        match self.workout_start {
            Some(start) => {
                let whole: u64 = now.saturating_sub(start) / NANOS_PER_SEC;
                state.elapsed_secs = (whole % 0x1_0000) as u16;
            },
            None => {},
        }
    }
}

/// Delay before the first reconnect, in seconds.
pub const BACKOFF_START_SECS: u64 = 1;

/// Longest delay between reconnects, in seconds.
pub const BACKOFF_CAP_SECS: u64 = 10;

/// The delay that follows `delay_secs`: twice as long, up to the cap.
pub open spec fn backoff_after(delay_secs: u64) -> u64 {
    if delay_secs * 2 >= BACKOFF_CAP_SECS {
        BACKOFF_CAP_SECS
    } else {
        (delay_secs * 2) as u64
    }
}

/// The delay before reconnect number `n`, counted from 0.
pub open spec fn backoff_schedule(n: nat) -> u64
    decreases n,
{
    if n == 0 {
        BACKOFF_START_SECS
    } else {
        backoff_after(backoff_schedule((n - 1) as nat))
    }
}

/// The growing delay between reconnects. There is no limit to how often
/// it is asked: the client reconnects for as long as the process lives.
#[derive(Debug, Clone, Copy)]
pub struct Backoff {
    delay_secs: u64,
}

impl Backoff {
    #[verifier::type_invariant]
    spec fn in_range(self) -> bool {
        BACKOFF_START_SECS <= self.delay_secs <= BACKOFF_CAP_SECS
    }

    /// The delay before the next reconnect, in seconds.
    pub closed spec fn delay(self) -> u64 {
        self.delay_secs
    }

    /// The backoff of a client that has not lost a connection yet.
    pub fn new() -> (backoff: Backoff)
        ensures
            backoff.delay() == BACKOFF_START_SECS,
    {
        Backoff { delay_secs: BACKOFF_START_SECS }
    }

    /// The delay before the next reconnect, in seconds.
    pub fn delay_secs(&self) -> (secs: u64)
        ensures
            secs == self.delay(),
            BACKOFF_START_SECS <= secs <= BACKOFF_CAP_SECS,
    {
        proof {
            use_type_invariant(self);
        }
        self.delay_secs
    }

    /// Returns the delay to wait now, and doubles the one after it.
    pub fn next_delay(&mut self) -> (secs: u64)
        ensures
            secs == old(self).delay(),
            BACKOFF_START_SECS <= secs <= BACKOFF_CAP_SECS,
            final(self).delay() == backoff_after(old(self).delay()),
    {
        proof {
            use_type_invariant(&*self);
        }
        let secs: u64 = self.delay_secs;
        let doubled: u64 = secs * 2;
        self.delay_secs = if doubled >= BACKOFF_CAP_SECS {
            BACKOFF_CAP_SECS
        } else {
            doubled
        };
        secs
    }
}

/// The delays run 1, 2, 4, 8 seconds and then stay at 10: each is within
/// the bounds, none is shorter than the one before, and from the fifth on
/// all are at the cap.
pub proof fn lemma_backoff_schedule(n: nat)
    ensures
        BACKOFF_START_SECS <= backoff_schedule(n) <= BACKOFF_CAP_SECS,
        backoff_schedule(n) <= backoff_schedule(n + 1),
        n >= 4 ==> backoff_schedule(n) == BACKOFF_CAP_SECS,
    decreases n,
{
    reveal_with_fuel(backoff_schedule, 6);
    if n > 4 {
        lemma_backoff_schedule((n - 1) as nat);
    }
}

/// The line that asks the hardware controller for a status report.
pub open spec fn status_request_text() -> Seq<char> {
    "{\"cmd\":\"status\"}\n"@
}

/// The line that tells the hardware controller the client is alive.
pub open spec fn heartbeat_text() -> Seq<char> {
    "{\"cmd\":\"heartbeat\"}\n"@
}

/// The line that sets the belt speed, given in tenths of mph and written
/// in mph with one decimal.
pub open spec fn speed_command_text(mph_tenths: u16) -> Seq<char> {
    "{\"cmd\":\"speed\",\"value\":"@ + decimal_text((mph_tenths / 10) as nat) + "."@
        + decimal_text((mph_tenths % 10) as nat) + "}\n"@
}

/// The line that sets the incline, in whole percent.
pub open spec fn incline_command_text(percent: i16) -> Seq<char> {
    "{\"cmd\":\"incline\",\"value\":"@ + signed_decimal_text(percent as int) + "}\n"@
}

/// The line that starts the belt.
pub open spec fn start_command_text() -> Seq<char> {
    "{\"cmd\":\"emulate\",\"enabled\":true}\n"@
}

/// Whether a text is one line: it ends in a line feed and holds no other.
pub open spec fn is_one_line(text: Seq<char>) -> bool {
    &&& text.len() > 0
    &&& text.last() == '\n'
    &&& forall|i: int| 0 <= i < text.len() - 1 ==> text[i] != '\n'
}

/// A decimal numeral holds digits only, and at least one.
proof fn lemma_decimal_text_has_no_line_feed(n: nat)
    ensures
        decimal_text(n).len() > 0,
        forall|i: int| 0 <= i < decimal_text(n).len() ==> decimal_text(n)[i] != '\n',
    decreases n,
{
    if n >= 10 {
        lemma_decimal_text_has_no_line_feed(n / 10);
    }
}

/// Every line that is sent to the hardware controller is one line: the
/// controller reads a command a line, and none of them runs over.
pub proof fn lemma_commands_are_one_line(mph_tenths: u16, percent: i16)
    ensures
        is_one_line(status_request_text()),
        is_one_line(heartbeat_text()),
        is_one_line(start_command_text()),
        is_one_line(speed_command_text(mph_tenths)),
        is_one_line(incline_command_text(percent)),
{
    reveal_strlit("{\"cmd\":\"status\"}\n");
    reveal_strlit("{\"cmd\":\"heartbeat\"}\n");
    reveal_strlit("{\"cmd\":\"emulate\",\"enabled\":true}\n");
    reveal_strlit("{\"cmd\":\"speed\",\"value\":");
    reveal_strlit("{\"cmd\":\"incline\",\"value\":");
    reveal_strlit(".");
    reveal_strlit("}\n");
    lemma_decimal_text_has_no_line_feed((mph_tenths / 10) as nat);
    lemma_decimal_text_has_no_line_feed((mph_tenths % 10) as nat);
    if percent < 0 {
        lemma_decimal_text_has_no_line_feed((-percent) as nat);
    } else {
        lemma_decimal_text_has_no_line_feed(percent as nat);
    }
}

/// Writes the status request sent once after connecting.
pub fn status_request() -> (line: String)
    ensures
        line@ == status_request_text(),
{
    String::from_str("{\"cmd\":\"status\"}\n")
}

/// Writes the heartbeat sent once per second.
pub fn heartbeat() -> (line: String)
    ensures
        line@ == heartbeat_text(),
{
    String::from_str("{\"cmd\":\"heartbeat\"}\n")
}

/// Writes the command that sets the belt speed.
pub fn speed_command(mph_tenths: u16) -> (line: String)
    ensures
        line@ == speed_command_text(mph_tenths),
{
    let mut line: String = String::from_str("{\"cmd\":\"speed\",\"value\":");
    append_decimal(&mut line, (mph_tenths / 10) as u32);
    line.append(".");
    append_decimal(&mut line, (mph_tenths % 10) as u32);
    line.append("}\n");
    assert(line@ =~= speed_command_text(mph_tenths));
    line
}

/// Writes the command that sets the incline.
pub fn incline_command(percent: i16) -> (line: String)
    ensures
        line@ == incline_command_text(percent),
{
    let mut line: String = String::from_str("{\"cmd\":\"incline\",\"value\":");
    append_signed_decimal(&mut line, percent as i32);
    line.append("}\n");
    assert(line@ =~= incline_command_text(percent));
    line
}

/// Writes the command that starts the belt.
pub fn start_command() -> (line: String)
    ensures
        line@ == start_command_text(),
{
    String::from_str("{\"cmd\":\"emulate\",\"enabled\":true}\n")
}

} // verus!
