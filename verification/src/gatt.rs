//! What the machine shows of itself over Bluetooth: the advertisement and
//! the table of the Fitness Machine Service's characteristics, with what a
//! client may do with each and what a read or a fresh subscription gets.

use crate::ftms_service::{
    frame_view, STATUS_STOPPED_OR_PAUSED, TRAINING_FLAGS_NONE, TRAINING_IDLE,
};
use crate::protocol::{
    ble_uuid, ble_uuid_value, encode_feature, encode_incline_range, encode_speed_range,
    feature_frame, incline_range_frame, speed_range_frame, uuid_bits, CONTROL_POINT_UUID16,
    FEATURE_UUID16, INCLINE_RANGE_UUID16, MACHINE_STATUS_UUID16, SPEED_RANGE_UUID16,
    STOP_PARAM_STOP, TRAINING_STATUS_UUID16, TREADMILL_DATA_UUID16,
};
use vstd::prelude::*;

verus! {

/// Name under which the machine advertises.
pub const LOCAL_NAME: &'static str = "Precor 9.31";

/// Service data flag: a fitness machine is available.
pub const ADVERT_MACHINE_AVAILABLE: u8 = 0x01;

/// Service data flag: the machine is a treadmill.
pub const ADVERT_TREADMILL: u8 = 0x01;

/// Seconds between two treadmill data notifications.
pub const NOTIFY_PERIOD_SECS: u64 = 1;

/// The service data advertised with the service UUID: the availability
/// flag, then the machine type.
pub fn advertised_service_data() -> (data: Vec<u8>)
    ensures
        data@ == seq![ADVERT_MACHINE_AVAILABLE, ADVERT_TREADMILL],
{
    let mut data: Vec<u8> = Vec::with_capacity(2);
    data.push(ADVERT_MACHINE_AVAILABLE);
    data.push(ADVERT_TREADMILL);
    assert(data@ =~= seq![ADVERT_MACHINE_AVAILABLE, ADVERT_TREADMILL]);
    data
}

/// The characteristics of the Fitness Machine Service.
#[derive(Debug, Clone, Copy, PartialEq, Eq, Structural)]
pub enum Characteristic {
    /// Fitness Machine Feature.
    Feature,
    /// Treadmill Data.
    TreadmillData,
    /// Supported Speed Range.
    SpeedRange,
    /// Supported Inclination Range.
    InclineRange,
    /// Training Status.
    TrainingStatus,
    /// Fitness Machine Control Point.
    ControlPoint,
    /// Fitness Machine Status.
    MachineStatus,
}

/// What a client may do with a characteristic.
#[derive(Debug, Clone, Copy, PartialEq, Eq, Structural)]
pub struct Access {
    /// The value can be read.
    pub read: bool,
    /// The value can be written.
    pub write: bool,
    /// Changes are notified.
    pub notify: bool,
    /// Changes are indicated.
    pub indicate: bool,
    /// Writes and subscriptions come as raw sessions, not one call a time.
    pub raw_io: bool,
}

/// Number of characteristics in the service.
pub const CHARACTERISTIC_COUNT: usize = 7;

impl Characteristic {
    /// The short UUID of the characteristic.
    pub open spec fn spec_short_uuid(self) -> u16 {
        match self {
            Characteristic::Feature => FEATURE_UUID16,
            Characteristic::TreadmillData => TREADMILL_DATA_UUID16,
            Characteristic::SpeedRange => SPEED_RANGE_UUID16,
            Characteristic::InclineRange => INCLINE_RANGE_UUID16,
            Characteristic::TrainingStatus => TRAINING_STATUS_UUID16,
            Characteristic::ControlPoint => CONTROL_POINT_UUID16,
            Characteristic::MachineStatus => MACHINE_STATUS_UUID16,
        }
    }

    /// What a client may do with the characteristic.
    pub open spec fn spec_access(self) -> Access {
        match self {
            Characteristic::Feature => Access {
                read: true,
                write: false,
                notify: false,
                indicate: false,
                raw_io: false,
            },
            Characteristic::TreadmillData => Access {
                read: false,
                write: false,
                notify: true,
                indicate: false,
                raw_io: false,
            },
            Characteristic::SpeedRange => Access {
                read: true,
                write: false,
                notify: false,
                indicate: false,
                raw_io: false,
            },
            Characteristic::InclineRange => Access {
                read: true,
                write: false,
                notify: false,
                indicate: false,
                raw_io: false,
            },
            Characteristic::TrainingStatus => Access {
                read: true,
                write: false,
                notify: true,
                indicate: false,
                raw_io: false,
            },
            Characteristic::ControlPoint => Access {
                read: false,
                write: true,
                notify: false,
                indicate: true,
                raw_io: true,
            },
            Characteristic::MachineStatus => Access {
                read: true,
                write: false,
                notify: true,
                indicate: false,
                raw_io: false,
            },
        }
    }

    /// The value a read returns: the static capability frames, "idle" for
    /// the training status, "stopped by the user" for the machine status.
    pub open spec fn read_frame(self) -> Option<Seq<u8>> {
        match self {
            Characteristic::Feature => Some(feature_frame()),
            Characteristic::SpeedRange => Some(speed_range_frame()),
            Characteristic::InclineRange => Some(incline_range_frame()),
            Characteristic::TrainingStatus => Some(seq![TRAINING_FLAGS_NONE, TRAINING_IDLE]),
            Characteristic::MachineStatus => Some(seq![STATUS_STOPPED_OR_PAUSED, STOP_PARAM_STOP]),
            _ => None,
        }
    }

    /// The value pushed to a notify session as soon as it opens: the two
    /// status characteristics push what a read of them returns.
    pub open spec fn subscribe_frame(self) -> Option<Seq<u8>> {
        match self {
            Characteristic::TrainingStatus => self.read_frame(),
            Characteristic::MachineStatus => self.read_frame(),
            _ => None,
        }
    }

    /// The short UUID of the characteristic.
    #[verifier::when_used_as_spec(spec_short_uuid)]
    pub fn short_uuid(self) -> (short: u16)
        ensures
            short == self.spec_short_uuid(),
    {
        match self {
            Characteristic::Feature => FEATURE_UUID16,
            Characteristic::TreadmillData => TREADMILL_DATA_UUID16,
            Characteristic::SpeedRange => SPEED_RANGE_UUID16,
            Characteristic::InclineRange => INCLINE_RANGE_UUID16,
            Characteristic::TrainingStatus => TRAINING_STATUS_UUID16,
            Characteristic::ControlPoint => CONTROL_POINT_UUID16,
            Characteristic::MachineStatus => MACHINE_STATUS_UUID16,
        }
    }

    /// The full UUID of the characteristic.
    pub fn uuid(self) -> (id: uuid::Uuid)
        ensures
            uuid_bits(id) == ble_uuid_value(self.spec_short_uuid()),
    {
        ble_uuid(self.short_uuid())
    }

    /// What a client may do with the characteristic.
    #[verifier::when_used_as_spec(spec_access)]
    pub fn access(self) -> (access: Access)
        ensures
            access == self.spec_access(),
    {
        let plain: Access = Access {
            read: false,
            write: false,
            notify: false,
            indicate: false,
            raw_io: false,
        };
        match self {
            Characteristic::Feature => Access { read: true, ..plain },
            Characteristic::TreadmillData => Access { notify: true, ..plain },
            Characteristic::SpeedRange => Access { read: true, ..plain },
            Characteristic::InclineRange => Access { read: true, ..plain },
            Characteristic::TrainingStatus => Access { read: true, notify: true, ..plain },
            Characteristic::ControlPoint => Access {
                write: true,
                indicate: true,
                raw_io: true,
                ..plain
            },
            Characteristic::MachineStatus => Access { read: true, notify: true, ..plain },
        }
    }

    /// Answers a read of the characteristic; `None` where it cannot be read.
    pub fn read_value(self) -> (value: Option<Vec<u8>>)
        ensures
            frame_view(value) == self.read_frame(),
            value is Some <==> self.spec_access().read,
    {
        match self {
            Characteristic::Feature => {
                let frame: [u8; 8] = encode_feature();
                Some(bytes_of(frame.as_slice()))
            },
            Characteristic::SpeedRange => {
                let frame: [u8; 6] = encode_speed_range();
                Some(bytes_of(frame.as_slice()))
            },
            Characteristic::InclineRange => {
                let frame: [u8; 6] = encode_incline_range();
                Some(bytes_of(frame.as_slice()))
            },
            Characteristic::TrainingStatus => {
                let mut value: Vec<u8> = Vec::with_capacity(2);
                value.push(TRAINING_FLAGS_NONE);
                value.push(TRAINING_IDLE);
                assert(value@ =~= seq![TRAINING_FLAGS_NONE, TRAINING_IDLE]);
                Some(value)
            },
            Characteristic::MachineStatus => {
                let mut value: Vec<u8> = Vec::with_capacity(2);
                value.push(STATUS_STOPPED_OR_PAUSED);
                value.push(STOP_PARAM_STOP);
                assert(value@ =~= seq![STATUS_STOPPED_OR_PAUSED, STOP_PARAM_STOP]);
                Some(value)
            },
            _ => None,
        }
    }

    /// The value to push as soon as a notify session of the characteristic
    /// opens; `None` where nothing is pushed.
    pub fn subscribe_value(self) -> (value: Option<Vec<u8>>)
        ensures
            frame_view(value) == self.subscribe_frame(),
    {
        match self {
            Characteristic::TrainingStatus => self.read_value(),
            Characteristic::MachineStatus => self.read_value(),
            _ => None,
        }
    }
}

/// Copies a slice of bytes.
fn bytes_of(slice: &[u8]) -> (bytes: Vec<u8>)
    ensures
        bytes@ == slice@,
{
    let mut bytes: Vec<u8> = Vec::with_capacity(slice.len());
    let mut i: usize = 0;
    while i < slice.len()
        invariant
            i <= slice.len(),
            bytes@ == slice@.take(i as int),
        decreases slice.len() - i,
    {
        bytes.push(slice[i]);
        assert(bytes@ =~= slice@.take(i + 1));
        i = i + 1;
    }
    assert(slice@.take(i as int) =~= slice@);
    bytes
}

/// The characteristics in the order in which they are registered.
pub open spec fn characteristic_table() -> Seq<Characteristic> {
    seq![
        Characteristic::Feature,
        Characteristic::TreadmillData,
        Characteristic::SpeedRange,
        Characteristic::InclineRange,
        Characteristic::TrainingStatus,
        Characteristic::ControlPoint,
        Characteristic::MachineStatus,
    ]
}

/// Lists the characteristics in the order in which they are registered.
pub fn characteristics() -> (table: [Characteristic; 7])
    ensures
        table@ == characteristic_table(),
{
    let table: [Characteristic; 7] = [
        Characteristic::Feature,
        Characteristic::TreadmillData,
        Characteristic::SpeedRange,
        Characteristic::InclineRange,
        Characteristic::TrainingStatus,
        Characteristic::ControlPoint,
        Characteristic::MachineStatus,
    ];
    assert(table@ =~= characteristic_table());
    table
}

/// The table names every characteristic once, no two share a UUID, a
/// value is pushed on subscribe only where changes are notified, and the
/// control point alone is written, indicated and served as raw sessions.
pub proof fn lemma_characteristic_table(a: Characteristic, b: Characteristic)
    ensures
        characteristic_table().len() == CHARACTERISTIC_COUNT,
        exists|i: int| 0 <= i < CHARACTERISTIC_COUNT && characteristic_table()[i] == a,
        a != b ==> ble_uuid_value(a.spec_short_uuid()) != ble_uuid_value(b.spec_short_uuid()),
        a.read_frame() is Some <==> a.spec_access().read,
        a.subscribe_frame() is Some ==> a.spec_access().notify,
        a.spec_access().write <==> a == Characteristic::ControlPoint,
        a.spec_access().indicate <==> a == Characteristic::ControlPoint,
        a.spec_access().raw_io <==> a == Characteristic::ControlPoint,
{
    match a {
        Characteristic::Feature => assert(characteristic_table()[0] == a),
        Characteristic::TreadmillData => assert(characteristic_table()[1] == a),
        Characteristic::SpeedRange => assert(characteristic_table()[2] == a),
        Characteristic::InclineRange => assert(characteristic_table()[3] == a),
        Characteristic::TrainingStatus => assert(characteristic_table()[4] == a),
        Characteristic::ControlPoint => assert(characteristic_table()[5] == a),
        Characteristic::MachineStatus => assert(characteristic_table()[6] == a),
    }
}

} // verus!
