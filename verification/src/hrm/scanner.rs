//! The monitor client: Heart Rate Measurement values, the state shared
//! with the servers, the monitors a scan finds, and what the scanner turns
//! to next.

use crate::protocol::{read_u16_le, u16_from_le};
use vstd::prelude::*;
use vstd::seq_lib::{to_multiset_build, to_multiset_remove};
use vstd::string::{StrSliceExecFns, StringExecFns};

verus! {

/// Bit of the flags byte that says the heart rate is a 16-bit field.
pub const HR_FORMAT_16BIT: u8 = 0x01;

/// The heart rate in a Heart Rate Measurement value. Byte 0 holds the
/// flags: with bit 0 clear the rate is byte 1, with bit 0 set it is the
/// little-endian 16-bit value of bytes 1 and 2. A value too short for its
/// format holds no rate, and bytes behind the rate do not count.
pub open spec fn parsed_hr_measurement(data: Seq<u8>) -> Option<u16> {
    if data.len() == 0 {
        None
    } else if data[0] % 2 == 1 {
        if data.len() >= 3 {
            Some(u16_from_le(data[1], data[2]))
        } else {
            None
        }
    } else {
        if data.len() >= 2 {
            Some(data[1] as u16)
        } else {
            None
        }
    }
}

/// Parses a Heart Rate Measurement value into beats per minute. Returns
/// `None` where the value is too short for the format its flags announce.
pub fn parse_hr_measurement(data: &[u8]) -> (bpm: Option<u16>)
    ensures
        bpm == parsed_hr_measurement(data@),
{
    if data.len() == 0 {
        return None;
    }
    let flags: u8 = data[0];
    assert(flags & 0x01 == flags % 2) by (bit_vector);
    let hr_format_16bit: bool = (flags & HR_FORMAT_16BIT) != 0;
    if hr_format_16bit {
        if data.len() < 3 {
            return None;
        }
        Some(read_u16_le(data[1], data[2]))
    } else {
        if data.len() < 2 {
            return None;
        }
        Some(data[1] as u16)
    }
}

/// Short UUID of the Heart Rate Service.
pub const HR_SERVICE_UUID16: u16 = 0x180D;

/// Short UUID of the Heart Rate Measurement characteristic.
pub const HR_MEASUREMENT_UUID16: u16 = 0x2A37;

/// Name shown for a device that reports none.
pub const UNKNOWN_DEVICE_NAME: &'static str = "Unknown";

/// Name of the monitor that the debug console fakes.
pub const MOCK_DEVICE_NAME: &'static str = "Mock HRM";

/// Address of the monitor that the debug console fakes.
pub const MOCK_DEVICE_ADDRESS: &'static str = "00:00:00:00:00:00";

/// How often a connected monitor is asked whether its services are known
/// before they are walked anyway.
pub const SERVICE_RESOLVE_POLLS: u32 = 20;

/// Milliseconds between two such questions.
pub const SERVICE_RESOLVE_POLL_MS: u64 = 250;

/// Seconds one scan lasts.
pub const SCAN_SECS: u64 = 10;

/// Seconds to wait for a choice when several monitors were found.
pub const CHOICE_WAIT_SECS: u64 = 5;

/// Delay before the first rescan, in seconds.
pub const RESCAN_START_SECS: u64 = 1;

/// Longest delay between rescans, in seconds.
pub const RESCAN_CAP_SECS: u64 = 30;

/// A monitor found during a scan.
#[derive(Debug, Clone)]
pub struct BleDevice {
    /// Bluetooth address, as text.
    pub address: String,
    /// Advertised name.
    pub name: String,
    /// Signal strength in dBm.
    pub rssi: i16,
}

/// A found monitor as plain values.
pub struct BleDeviceView {
    /// Bluetooth address, as text.
    pub address: Seq<char>,
    /// Advertised name.
    pub name: Seq<char>,
    /// Signal strength in dBm.
    pub rssi: i16,
}

impl View for BleDevice {
    type V = BleDeviceView;

    open spec fn view(&self) -> BleDeviceView {
        BleDeviceView { address: self.address@, name: self.name@, rssi: self.rssi }
    }
}

/// The found monitors as plain values.
pub open spec fn devices_view(devices: Seq<BleDevice>) -> Seq<BleDeviceView> {
    Seq::new(devices.len(), |i: int| devices[i]@)
}

/// A command for the scanner.
#[derive(Debug, Clone)]
pub enum HrmCommand {
    /// Connect to the monitor with this address.
    Connect(String),
    /// Drop the connection.
    Disconnect,
    /// Drop the connection and forget the saved monitor.
    Forget,
    /// Scan afresh, passing over the saved monitor.
    Scan,
}

/// What the scanner knows, shared with the servers.
#[derive(Debug, Clone)]
pub struct HrmState {
    /// Heart rate in beats per minute; 0 while not connected.
    pub heart_rate: u16,
    /// Whether a monitor is connected.
    pub connected: bool,
    /// Name of the connected monitor; empty while not connected.
    pub device_name: String,
    /// Address of the connected monitor; empty while not connected.
    pub device_address: String,
    /// Whether a scan is under way.
    pub scanning: bool,
    /// Monitors found by the latest scan.
    pub available_devices: Vec<BleDevice>,
}

/// The scanner's state as plain values.
pub struct HrmStateView {
    /// Heart rate in beats per minute.
    pub heart_rate: u16,
    /// Whether a monitor is connected.
    pub connected: bool,
    /// Name of the connected monitor.
    pub device_name: Seq<char>,
    /// Address of the connected monitor.
    pub device_address: Seq<char>,
    /// Whether a scan is under way.
    pub scanning: bool,
    /// Monitors found by the latest scan.
    pub available_devices: Seq<BleDeviceView>,
}

impl View for HrmState {
    type V = HrmStateView;

    open spec fn view(&self) -> HrmStateView {
        HrmStateView {
            heart_rate: self.heart_rate,
            connected: self.connected,
            device_name: self.device_name@,
            device_address: self.device_address@,
            scanning: self.scanning,
            available_devices: devices_view(self.available_devices@),
        }
    }
}

impl Default for HrmState {
    /// No monitor, no scan, nothing found.
    fn default() -> (state: HrmState)
        ensures
            state@ == (HrmStateView {
                heart_rate: 0,
                connected: false,
                device_name: Seq::<char>::empty(),
                device_address: Seq::<char>::empty(),
                scanning: false,
                available_devices: Seq::<BleDeviceView>::empty(),
            }),
    {
        let state: HrmState = HrmState {
            heart_rate: 0,
            connected: false,
            device_name: String::new(),
            device_address: String::new(),
            scanning: false,
            available_devices: Vec::new(),
        };
        assert(devices_view(state.available_devices@) =~= Seq::<BleDeviceView>::empty());
        state
    }
}

impl HrmState {
    /// Marks the monitor gone: no connection, no heart rate, no device.
    /// The scan flag and the found monitors stay.
    pub fn mark_disconnected(&mut self)
        ensures
            final(self)@ == (HrmStateView {
                connected: false,
                heart_rate: 0,
                device_name: Seq::<char>::empty(),
                device_address: Seq::<char>::empty(),
                ..old(self)@
            }),
    {
        self.connected = false;
        self.heart_rate = 0;
        self.device_name = String::new();
        self.device_address = String::new();
    }

    /// Marks a monitor connected. A scan that was under way is over.
    pub fn mark_connected(&mut self, name: &str, address: &str)
        ensures
            final(self)@ == (HrmStateView {
                connected: true,
                device_name: name@,
                device_address: address@,
                scanning: false,
                ..old(self)@
            }),
    {
        self.connected = true;
        self.device_name = String::from_str(name);
        self.device_address = String::from_str(address);
        self.scanning = false;
    }

    /// Marks a scan begun: what the scan before it found is dropped.
    pub fn begin_scan(&mut self)
        ensures
            final(self)@ == (HrmStateView {
                scanning: true,
                available_devices: Seq::<BleDeviceView>::empty(),
                ..old(self)@
            }),
    {
        self.scanning = true;
        self.available_devices = Vec::new();
        assert(devices_view(self.available_devices@) =~= Seq::<BleDeviceView>::empty());
    }

    /// Marks the scan over and keeps what it found.
    pub fn end_scan(&mut self, devices: Vec<BleDevice>)
        ensures
            final(self)@ == (HrmStateView {
                scanning: false,
                available_devices: devices_view(devices@),
                ..old(self)@
            }),
    {
        self.scanning = false;
        self.available_devices = devices;
    }

    /// Takes a Heart Rate Measurement value in. The heart rate follows the
    /// value where it holds one, and stays otherwise. Returns whether it
    /// held one.
    pub fn record_measurement(&mut self, data: &[u8]) -> (parsed: bool)
        ensures
            parsed == parsed_hr_measurement(data@) is Some,
            final(self)@ == (HrmStateView {
                heart_rate: match parsed_hr_measurement(data@) {
                    Some(bpm) => bpm,
                    None => old(self).heart_rate,
                },
                ..old(self)@
            }),
    {
        match parse_hr_measurement(data) {
            Some(bpm) => {
                self.heart_rate = bpm;
                true
            },
            None => false,
        }
    }

    /// Fakes a connected monitor at the given heart rate. A device that is
    /// already named stays; else the mock device stands in. A scan that
    /// was under way is over.
    pub fn mock(&mut self, bpm: u16)
        ensures
            final(self)@ == (HrmStateView {
                connected: true,
                heart_rate: bpm,
                device_name: if old(self).device_name@.len() == 0 {
                    MOCK_DEVICE_NAME@
                } else {
                    old(self).device_name@
                },
                device_address: if old(self).device_name@.len() == 0 {
                    MOCK_DEVICE_ADDRESS@
                } else {
                    old(self).device_address@
                },
                scanning: false,
                ..old(self)@
            }),
    {
        self.connected = true;
        self.heart_rate = bpm;
        if self.device_name.as_str().unicode_len() == 0 {
            self.device_name = String::from_str(MOCK_DEVICE_NAME);
            self.device_address = String::from_str(MOCK_DEVICE_ADDRESS);
        }
        self.scanning = false;
    }
}

/// Whether no two of the monitors share an address.
pub open spec fn distinct_addresses(devices: Seq<BleDevice>) -> bool {
    forall|i: int, j: int|
        0 <= i < devices.len() && 0 <= j < devices.len() && i != j ==> devices[i].address@
            != devices[j].address@
}

/// Where in `devices` the monitor with `address` stands, if it is there.
pub open spec fn position_of(devices: Seq<BleDevice>, address: Seq<char>) -> Option<int> {
    if exists|i: int| 0 <= i < devices.len() && devices[i].address@ == address {
        Some(choose|i: int| 0 <= i < devices.len() && devices[i].address@ == address)
    } else {
        None
    }
}

/// Whether the monitors stand strongest signal first.
pub open spec fn strongest_first(devices: Seq<BleDevice>) -> bool {
    forall|i: int, j: int| 0 <= i <= j < devices.len() ==> devices[i].rssi >= devices[j].rssi
}

/// The monitors that a scan has found so far, one for each address: a
/// monitor seen again takes the place of what was known of it.
#[derive(Debug)]
pub struct FoundDevices {
    devices: Vec<BleDevice>,
}

impl FoundDevices {
    /// The monitors found, in the order in which their addresses were
    /// first seen.
    pub closed spec fn entries(self) -> Seq<BleDevice> {
        self.devices@
    }

    /// Whether the collection is sound: no address stands in it twice.
    pub open spec fn wf(self) -> bool {
        distinct_addresses(self.entries())
    }

    /// Nothing found yet.
    pub fn new() -> (found: FoundDevices)
        ensures
            found.wf(),
            found.entries().len() == 0,
    {
        FoundDevices { devices: Vec::new() }
    }

    /// How many monitors were found.
    pub fn len(&self) -> (count: usize)
        ensures
            count == self.entries().len(),
    {
        self.devices.len()
    }

    /// Takes a monitor in. Where its address is known already, it takes
    /// the place of the monitor known under it; else it joins the others.
    pub fn insert(&mut self, device: BleDevice)
        requires
            old(self).wf(),
        ensures
            final(self).wf(),
            match position_of(old(self).entries(), device.address@) {
                Some(i) => final(self).entries() == old(self).entries().update(i, device),
                None => final(self).entries() == old(self).entries().push(device),
            },
    {
        let ghost before = self.devices@;
        let mut i: usize = 0;
        while i < self.devices.len()
            invariant
                i <= self.devices.len(),
                self.devices@ == before,
                before == old(self).entries(),
                distinct_addresses(before),
                forall|k: int| 0 <= k < i ==> before[k].address@ != device.address@,
            decreases self.devices.len() - i,
        {
            if self.devices[i].address == device.address {
                proof {
                    let found = position_of(before, device.address@);
                    assert(found is Some);
                    assert(found->0 == i);
                }
                self.devices.set(i, device);
                assert(distinct_addresses(self.devices@)) by {
                    assert forall|a: int, b: int|
                        0 <= a < self.devices@.len() && 0 <= b < self.devices@.len() && a
                            != b implies self.devices@[a].address@ != self.devices@[b].address@ by {
                        assert(before[a].address@ != before[b].address@);
                    }
                }
                return ;
            }
            i = i + 1;
        }
        assert(position_of(before, device.address@) is None);
        self.devices.push(device);
        assert(distinct_addresses(self.devices@)) by {
            assert forall|a: int, b: int|
                0 <= a < self.devices@.len() && 0 <= b < self.devices@.len() && a
                    != b implies self.devices@[a].address@ != self.devices@[b].address@ by {
                if a < before.len() && b < before.len() {
                    assert(before[a].address@ != before[b].address@);
                }
            }
        }
    }

    /// Hands the monitors out, strongest signal first. Monitors of equal
    /// strength come in no order that is promised.
    pub fn into_strongest_first(self) -> (sorted: Vec<BleDevice>)
        requires
            self.wf(),
        ensures
            strongest_first(sorted@),
            sorted@.to_multiset() == self.entries().to_multiset(),
            distinct_addresses(sorted@),
    {
        let sorted: Vec<BleDevice> = sort_strongest_first(self.devices);
        proof {
            lemma_distinct_addresses_of_rearranged(self.devices@, sorted@);
        }
        sorted
    }
}

/// Where the strongest of `devices` stands: the first of those that no
/// other outdoes.
fn strongest_index(devices: &Vec<BleDevice>) -> (best: usize)
    requires
        devices@.len() > 0,
    ensures
        best < devices@.len(),
        forall|k: int| 0 <= k < devices@.len() ==> devices@[k].rssi <= devices@[best as int].rssi,
{
    let mut best: usize = 0;
    let mut i: usize = 1;
    while i < devices.len()
        invariant
            1 <= i <= devices.len(),
            best < i,
            forall|k: int| 0 <= k < i ==> devices@[k].rssi <= devices@[best as int].rssi,
        decreases devices.len() - i,
    {
        if devices[i].rssi > devices[best].rssi {
            best = i;
        }
        i = i + 1;
    }
    best
}

/// Puts the monitors in order, strongest signal first. Monitors of equal
/// strength come in no order that is promised.
pub fn sort_strongest_first(devices: Vec<BleDevice>) -> (sorted: Vec<BleDevice>)
    ensures
        strongest_first(sorted@),
        sorted@.to_multiset() == devices@.to_multiset(),
{
    let mut rest: Vec<BleDevice> = devices;
    let mut sorted: Vec<BleDevice> = Vec::new();
    assert(sorted@.to_multiset().add(rest@.to_multiset()) =~= devices@.to_multiset()) by {
        assert(sorted@.to_multiset() =~= vstd::multiset::Multiset::<BleDevice>::empty()) by {
            sorted@.to_multiset_ensures();
        }
    }
    while rest.len() > 0
        invariant
            strongest_first(sorted@),
            sorted@.to_multiset().add(rest@.to_multiset()) == devices@.to_multiset(),
            forall|a: int, b: int|
                0 <= a < sorted@.len() && 0 <= b < rest@.len() ==> sorted@[a].rssi
                    >= rest@[b].rssi,
        decreases rest.len(),
    {
        let best: usize = strongest_index(&rest);
        let ghost rest_before = rest@;
        let ghost sorted_before = sorted@;
        let device: BleDevice = rest.remove(best);
        sorted.push(device);
        proof {
            to_multiset_remove(rest_before, best as int);
            to_multiset_build(sorted_before, device);
            assert(rest_before.to_multiset().count(device) > 0) by {
                rest_before.to_multiset_ensures();
                assert(rest_before.contains(device));
            }
            assert(sorted@.to_multiset().add(rest@.to_multiset())
                =~= sorted_before.to_multiset().add(rest_before.to_multiset()));
            assert forall|a: int, b: int|
                0 <= a < sorted@.len() && 0 <= b < rest@.len() implies sorted@[a].rssi
                >= rest@[b].rssi by {
                let from: int = if b < best {
                    b
                } else {
                    b + 1
                };
                assert(rest@[b] == rest_before[from]);
            }
        }
    }
    assert(rest@.to_multiset() =~= vstd::multiset::Multiset::<BleDevice>::empty()) by {
        rest@.to_multiset_ensures();
    }
    assert(sorted@.to_multiset() =~= devices@.to_multiset());
    sorted
}

/// Monitors with one address each still have one address each however
/// they are rearranged.
pub proof fn lemma_distinct_addresses_of_rearranged(before: Seq<BleDevice>, after: Seq<BleDevice>)
    requires
        distinct_addresses(before),
        after.to_multiset() == before.to_multiset(),
    ensures
        distinct_addresses(after),
{
    before.to_multiset_ensures();
    after.to_multiset_ensures();
    assert forall|i: int, j: int|
        0 <= i < after.len() && 0 <= j < after.len() && i != j implies after[i].address@
        != after[j].address@ by {
        if after[i].address@ == after[j].address@ {
            assert(after.contains(after[i]));
            assert(after.contains(after[j]));
            assert(before.to_multiset().count(after[i]) > 0);
            assert(before.to_multiset().count(after[j]) > 0);
            assert(before.contains(after[i]));
            assert(before.contains(after[j]));
            let a = choose|a: int| 0 <= a < before.len() && before[a] == after[i];
            let b = choose|b: int| 0 <= b < before.len() && before[b] == after[j];
            if a != b {
                assert(before[a].address@ != before[b].address@);
            } else {
                // One monitor of `before` stands twice in `after`.
                assert(after[i] == after[j]);
                before.lemma_multiset_has_no_duplicates();
                after.lemma_multiset_has_no_duplicates_conv();
            }
        }
    }
}

/// Why a text is no Bluetooth address.
#[verifier::external_type_specification]
#[verifier::external_body]
pub struct ExInvalidAddress(bluer::InvalidAddress);

/// The six bytes of the address that `bluer::Address` reads from a text
/// with `from_str`; `None` where it reports an error.
pub uninterp spec fn parsed_address(text: Seq<char>) -> Option<Seq<u8>>;

/// Calls `str::parse` for a `bluer::Address` and hands out its six bytes.
/// The claim: the call depends on the text alone.
#[verifier::external_body]
pub(crate) fn parse_address(text: &str) -> (address: Result<[u8; 6], bluer::InvalidAddress>)
    ensures
        match address {
            Ok(bytes) => parsed_address(text@) == Some(bytes@),
            Err(_) => parsed_address(text@) is None,
        },
{
    text.parse::<bluer::Address>().map(|address| address.0)
}

/// The bytes of an optional address.
pub open spec fn target_view(target: Option<[u8; 6]>) -> Option<Seq<u8>> {
    match target {
        Some(bytes) => Some(bytes@),
        None => None,
    }
}

/// Reads the address to connect to from its text; `None` where the text
/// is no address.
pub fn connect_target(address: &str) -> (target: Option<[u8; 6]>)
    ensures
        target_view(target) == parsed_address(address@),
{
    match parse_address(address) {
        Ok(bytes) => Some(bytes),
        Err(_) => None,
    }
}

/// What the scanner turns to at the top of its loop.
#[derive(Debug, Clone, Copy, PartialEq, Eq, Structural)]
pub enum ScannerStep {
    /// Connect to the address that the command names.
    ConnectRequested,
    /// Connect to the saved monitor.
    ConnectSaved,
    /// Forget the saved monitor, then scan.
    ForgetThenScan,
    /// Scan.
    Scan,
}

/// The kind of a command, without what it carries.
#[derive(Debug, Clone, Copy, PartialEq, Eq, Structural)]
pub enum CommandKind {
    /// Connect to a named monitor.
    Connect,
    /// Drop the connection.
    Disconnect,
    /// Drop the connection and forget the saved monitor.
    Forget,
    /// Scan afresh.
    Scan,
}

impl HrmCommand {
    /// The kind of the command.
    pub open spec fn spec_kind(&self) -> CommandKind {
        match *self {
            HrmCommand::Connect(_) => CommandKind::Connect,
            HrmCommand::Disconnect => CommandKind::Disconnect,
            HrmCommand::Forget => CommandKind::Forget,
            HrmCommand::Scan => CommandKind::Scan,
        }
    }

    /// The kind of the command.
    #[verifier::when_used_as_spec(spec_kind)]
    pub fn kind(&self) -> (kind: CommandKind)
        ensures
            kind == self.spec_kind(),
    {
        match self {
            HrmCommand::Connect(_) => CommandKind::Connect,
            HrmCommand::Disconnect => CommandKind::Disconnect,
            HrmCommand::Forget => CommandKind::Forget,
            HrmCommand::Scan => CommandKind::Scan,
        }
    }
}

/// The step for a pending command, or for none. A command to connect is
/// followed where its address is one, and leads to a scan otherwise. With
/// no command pending, the saved monitor is tried first, where there is
/// one and its address is one.
pub open spec fn scanner_step(
    command: Option<CommandKind>,
    requested_valid: bool,
    saved_valid: bool,
) -> ScannerStep {
    match command {
        Some(CommandKind::Connect) => if requested_valid {
            ScannerStep::ConnectRequested
        } else {
            ScannerStep::Scan
        },
        Some(CommandKind::Disconnect) => ScannerStep::Scan,
        Some(CommandKind::Forget) => ScannerStep::ForgetThenScan,
        Some(CommandKind::Scan) => ScannerStep::Scan,
        None => if saved_valid {
            ScannerStep::ConnectSaved
        } else {
            ScannerStep::Scan
        },
    }
}

/// Picks the step, given the kind of the pending command and whether the
/// requested and the saved address are addresses.
pub fn choose_step(command: Option<CommandKind>, requested_valid: bool, saved_valid: bool) -> (step:
    ScannerStep)
    ensures
        step == scanner_step(command, requested_valid, saved_valid),
{
    match command {
        Some(CommandKind::Connect) => if requested_valid {
            ScannerStep::ConnectRequested
        } else {
            ScannerStep::Scan
        },
        Some(CommandKind::Disconnect) => ScannerStep::Scan,
        Some(CommandKind::Forget) => ScannerStep::ForgetThenScan,
        Some(CommandKind::Scan) => ScannerStep::Scan,
        None => if saved_valid {
            ScannerStep::ConnectSaved
        } else {
            ScannerStep::Scan
        },
    }
}

/// The step at the top of the scanner's loop, with the address to connect
/// to where the step is to connect.
#[derive(Debug, Clone, Copy, PartialEq, Eq)]
pub struct StepPlan {
    /// What to do.
    pub step: ScannerStep,
    /// The six bytes of the address to connect to, where there is one.
    pub target: Option<[u8; 6]>,
}

/// The kind of a pending command.
pub open spec fn pending_kind(command: Option<HrmCommand>) -> Option<CommandKind> {
    match command {
        Some(cmd) => Some(cmd.spec_kind()),
        None => None,
    }
}

/// The address that a pending command asks to connect to, where it names
/// one.
pub open spec fn requested_address(command: Option<HrmCommand>) -> Option<Seq<u8>> {
    match command {
        Some(HrmCommand::Connect(address)) => parsed_address(address@),
        _ => None,
    }
}

/// The address of the saved monitor, where there is one and its address
/// is one.
pub open spec fn saved_address(saved: Option<&str>) -> Option<Seq<u8>> {
    match saved {
        Some(address) => parsed_address(address@),
        None => None,
    }
}

/// The step for a pending command and a saved address.
pub open spec fn planned_step(command: Option<HrmCommand>, saved: Option<&str>) -> ScannerStep {
    scanner_step(
        pending_kind(command),
        requested_address(command) is Some,
        saved_address(saved) is Some,
    )
}

/// The address to connect to in that step.
pub open spec fn planned_target(command: Option<HrmCommand>, saved: Option<&str>) -> Option<
    Seq<u8>,
> {
    match planned_step(command, saved) {
        ScannerStep::ConnectRequested => requested_address(command),
        ScannerStep::ConnectSaved => saved_address(saved),
        _ => None,
    }
}

/// Plans the step at the top of the scanner's loop from the pending
/// command and the address of the saved monitor.
pub fn plan_step(command: &Option<HrmCommand>, saved: Option<&str>) -> (plan: StepPlan)
    ensures
        plan.step == planned_step(*command, saved),
        target_view(plan.target) == planned_target(*command, saved),
{
    let kind: Option<CommandKind> = match command {
        Some(cmd) => Some(cmd.kind()),
        None => None,
    };
    let requested: Option<[u8; 6]> = match command {
        Some(HrmCommand::Connect(address)) => connect_target(address.as_str()),
        _ => None,
    };
    let saved_target: Option<[u8; 6]> = match saved {
        Some(address) => connect_target(address),
        None => None,
    };
    let step: ScannerStep = choose_step(kind, requested.is_some(), saved_target.is_some());
    let target: Option<[u8; 6]> = match step {
        ScannerStep::ConnectRequested => requested,
        ScannerStep::ConnectSaved => saved_target,
        _ => None,
    };
    StepPlan { step, target }
}

/// The command that counts of those that piled up: the last.
pub fn last_command(commands: Vec<HrmCommand>) -> (last: Option<HrmCommand>)
    ensures
        match last {
            Some(cmd) => commands@.len() > 0 && cmd == commands@.last(),
            None => commands@.len() == 0,
        },
{
    let mut commands: Vec<HrmCommand> = commands;
    commands.pop()
}

/// What follows a scan.
#[derive(Debug, Clone, Copy, PartialEq, Eq, Structural)]
pub enum AfterScan {
    /// A command cut the scan short: turn to it.
    HandleCommand,
    /// Nothing was found: wait this many seconds, then scan again.
    RetryAfter(u64),
    /// One monitor was found: connect to it.
    AutoConnect,
    /// Several were found: wait this many seconds for a choice.
    AwaitChoice(u64),
}

/// The delay that follows `delay_secs` between rescans: twice as long, up
/// to the cap.
pub open spec fn rescan_delay_after(delay_secs: u64) -> u64 {
    if delay_secs * 2 >= RESCAN_CAP_SECS {
        RESCAN_CAP_SECS
    } else {
        (delay_secs * 2) as u64
    }
}

/// What follows a scan that found `found` monitors, with `delay_secs` the
/// delay before the next rescan.
pub open spec fn after_scan(found: nat, interrupted: bool, delay_secs: u64) -> AfterScan {
    if interrupted {
        AfterScan::HandleCommand
    } else if found == 0 {
        AfterScan::RetryAfter(delay_secs)
    } else if found == 1 {
        AfterScan::AutoConnect
    } else {
        AfterScan::AwaitChoice(CHOICE_WAIT_SECS)
    }
}

/// The delay before the next rescan once a scan is over: unchanged where
/// a command cut the scan short, doubled where nothing was found, and
/// back at the start where anything was.
pub open spec fn delay_after_scan(found: nat, interrupted: bool, delay_secs: u64) -> u64 {
    if interrupted {
        delay_secs
    } else if found == 0 {
        rescan_delay_after(delay_secs)
    } else {
        RESCAN_START_SECS
    }
}

/// The growing delay between scans that find nothing.
#[derive(Debug, Clone, Copy)]
pub struct RescanBackoff {
    delay_secs: u64,
}

impl RescanBackoff {
    #[verifier::type_invariant]
    spec fn in_range(self) -> bool {
        RESCAN_START_SECS <= self.delay_secs <= RESCAN_CAP_SECS
    }

    /// The delay before the next rescan, in seconds.
    pub closed spec fn delay(self) -> u64 {
        self.delay_secs
    }

    /// The backoff of a scanner that has not scanned yet.
    pub fn new() -> (backoff: RescanBackoff)
        ensures
            backoff.delay() == RESCAN_START_SECS,
    {
        RescanBackoff { delay_secs: RESCAN_START_SECS }
    }

    /// The delay before the next rescan, in seconds.
    pub fn delay_secs(&self) -> (secs: u64)
        ensures
            secs == self.delay(),
            RESCAN_START_SECS <= secs <= RESCAN_CAP_SECS,
    {
        proof {
            use_type_invariant(self);
        }
        self.delay_secs
    }

    /// Puts the delay back at the start: a connection was tried.
    pub fn reset(&mut self)
        ensures
            final(self).delay() == RESCAN_START_SECS,
    {
        self.delay_secs = RESCAN_START_SECS;
    }

    /// Settles a scan: says what follows it and sets the delay before the
    /// rescan after next.
    pub fn settle_scan(&mut self, found: usize, interrupted: bool) -> (next: AfterScan)
        ensures
            next == after_scan(found as nat, interrupted, old(self).delay()),
            final(self).delay() == delay_after_scan(found as nat, interrupted, old(self).delay()),
            next matches AfterScan::RetryAfter(secs) ==> RESCAN_START_SECS <= secs
                <= RESCAN_CAP_SECS,
    {
        proof {
            use_type_invariant(&*self);
        }
        if interrupted {
            AfterScan::HandleCommand
        } else if found == 0 {
            let secs: u64 = self.delay_secs;
            let doubled: u64 = secs * 2;
            self.delay_secs = if doubled >= RESCAN_CAP_SECS {
                RESCAN_CAP_SECS
            } else {
                doubled
            };
            AfterScan::RetryAfter(secs)
        } else if found == 1 {
            self.delay_secs = RESCAN_START_SECS;
            AfterScan::AutoConnect
        } else {
            self.delay_secs = RESCAN_START_SECS;
            AfterScan::AwaitChoice(CHOICE_WAIT_SECS)
        }
    }
}

/// What a command that arrives during a connection leads to. Every command
/// ends the connection, and so does the end of the command channel;
/// `Forget` forgets the saved monitor as well.
pub open spec fn forgets_on_stream_end(command: Option<CommandKind>) -> bool {
    command == Some(CommandKind::Forget)
}

/// Says whether the saved monitor is to be forgotten when a command, or
/// the end of the command channel, ends a connection.
pub fn stream_end_forgets(command: Option<CommandKind>) -> (forget: bool)
    ensures
        forget == forgets_on_stream_end(command),
{
    match command {
        Some(CommandKind::Forget) => true,
        _ => false,
    }
}

} // verus!
