//! Rules of the Fitness Machine Service engine: what a control-point write
//! sets in motion, what is notified and indicated for it, and how the
//! control-point session and the subscriber handles come and go.
//!
//! The engine itself performs no I/O. It plans; the transport and the
//! backend carry the plan out and report how it went.

use crate::protocol::{
    control_response_frame, encode_control_response, kmh_hundredths_to_mph_tenths, le16,
    le16_signed, mph_tenths_of, parse_control_point, parsed_control_point, put_i16_le,
    put_u16_le, ControlCommand, ResultCode, RESPONSE_CODE, RESULT_FAILED,
    RESULT_NOT_SUPPORTED, RESULT_SUCCESS,
};
use crate::treadmill::{
    incline_command, incline_command_text, speed_command, speed_command_text, start_command,
    start_command_text,
};
use vstd::prelude::*;

verus! {

/// Machine status opcode: stopped or paused by the user.
pub const STATUS_STOPPED_OR_PAUSED: u8 = 0x02;

/// Machine status opcode: started or resumed by the user.
pub const STATUS_STARTED_OR_RESUMED: u8 = 0x04;

/// Machine status opcode: target speed changed.
pub const STATUS_TARGET_SPEED_CHANGED: u8 = 0x05;

/// Machine status opcode: target incline changed.
pub const STATUS_TARGET_INCLINE_CHANGED: u8 = 0x06;

/// Training status flags: no status string follows.
pub const TRAINING_FLAGS_NONE: u8 = 0x00;

/// Training status: idle.
pub const TRAINING_IDLE: u8 = 0x01;

/// Training status: manual mode (quick start).
pub const TRAINING_MANUAL_MODE: u8 = 0x0D;

/// Fastest speed ever sent to the backend, in tenths of mph: a safety
/// ceiling that holds whatever speed range is advertised.
pub const SPEED_CEILING_MPH_TENTHS: u16 = 120;

/// Steepest incline ever sent to the backend, in whole percent: a safety
/// ceiling below what the hardware could do.
pub const INCLINE_CEILING_PERCENT: i16 = 15;

/// The Machine Status notification for a command: none for a request for
/// control, else the status opcode with the command's parameter.
pub open spec fn status_notification(cmd: ControlCommand) -> Option<Seq<u8>> {
    match cmd {
        ControlCommand::RequestControl => None,
        ControlCommand::SetTargetSpeed(v) => Some(seq![STATUS_TARGET_SPEED_CHANGED] + le16(v)),
        ControlCommand::SetTargetInclination(v) => Some(
            seq![STATUS_TARGET_INCLINE_CHANGED] + le16_signed(v),
        ),
        ControlCommand::StartOrResume => Some(seq![STATUS_STARTED_OR_RESUMED]),
        ControlCommand::StopOrPause(param) => Some(seq![STATUS_STOPPED_OR_PAUSED, param]),
    }
}

/// The Training Status notification for a command: manual mode on start,
/// idle on stop or pause, none for the other commands.
pub open spec fn training_status(cmd: ControlCommand) -> Option<Seq<u8>> {
    match cmd {
        ControlCommand::StartOrResume => Some(seq![TRAINING_FLAGS_NONE, TRAINING_MANUAL_MODE]),
        ControlCommand::StopOrPause(_) => Some(seq![TRAINING_FLAGS_NONE, TRAINING_IDLE]),
        _ => None,
    }
}

/// The bytes of an optional frame.
pub open spec fn frame_view(frame: Option<Vec<u8>>) -> Option<Seq<u8>> {
    match frame {
        Some(bytes) => Some(bytes@),
        None => None,
    }
}

/// Encodes the Machine Status notification for a command.
pub fn encode_status_notification(cmd: &ControlCommand) -> (frame: Option<Vec<u8>>)
    ensures
        frame_view(frame) == status_notification(*cmd),
{
    match cmd {
        ControlCommand::SetTargetSpeed(kmh_hundredths) => {
            let mut buf: Vec<u8> = Vec::with_capacity(3);
            buf.push(STATUS_TARGET_SPEED_CHANGED);
            put_u16_le(&mut buf, *kmh_hundredths);
            assert(buf@ =~= seq![STATUS_TARGET_SPEED_CHANGED] + le16(*kmh_hundredths));
            Some(buf)
        },
        ControlCommand::SetTargetInclination(incline_tenths) => {
            let mut buf: Vec<u8> = Vec::with_capacity(3);
            buf.push(STATUS_TARGET_INCLINE_CHANGED);
            put_i16_le(&mut buf, *incline_tenths);
            assert(buf@ =~= seq![STATUS_TARGET_INCLINE_CHANGED] + le16_signed(*incline_tenths));
            Some(buf)
        },
        ControlCommand::StartOrResume => {
            let mut buf: Vec<u8> = Vec::with_capacity(1);
            buf.push(STATUS_STARTED_OR_RESUMED);
            assert(buf@ =~= seq![STATUS_STARTED_OR_RESUMED]);
            Some(buf)
        },
        ControlCommand::StopOrPause(param) => {
            let mut buf: Vec<u8> = Vec::with_capacity(2);
            buf.push(STATUS_STOPPED_OR_PAUSED);
            buf.push(*param);
            assert(buf@ =~= seq![STATUS_STOPPED_OR_PAUSED, *param]);
            Some(buf)
        },
        ControlCommand::RequestControl => None,
    }
}

/// Encodes the Training Status notification for a command.
pub fn encode_training_status(cmd: &ControlCommand) -> (frame: Option<Vec<u8>>)
    ensures
        frame_view(frame) == training_status(*cmd),
{
    match cmd {
        ControlCommand::StartOrResume => {
            let mut buf: Vec<u8> = Vec::with_capacity(2);
            buf.push(TRAINING_FLAGS_NONE);
            buf.push(TRAINING_MANUAL_MODE);
            assert(buf@ =~= seq![TRAINING_FLAGS_NONE, TRAINING_MANUAL_MODE]);
            Some(buf)
        },
        ControlCommand::StopOrPause(_) => {
            let mut buf: Vec<u8> = Vec::with_capacity(2);
            buf.push(TRAINING_FLAGS_NONE);
            buf.push(TRAINING_IDLE);
            assert(buf@ =~= seq![TRAINING_FLAGS_NONE, TRAINING_IDLE]);
            Some(buf)
        },
        _ => None,
    }
}

/// What the backend is asked to do for a command.
#[derive(Debug, Clone, Copy, PartialEq, Eq, Structural)]
pub enum BackendAction {
    /// The backend is not involved.
    Nothing,
    /// Set the belt speed, in tenths of mph.
    SetSpeed {
        /// The speed, at most `SPEED_CEILING_MPH_TENTHS`.
        mph_tenths: u16,
    },
    /// Set the incline, in whole percent.
    SetIncline {
        /// The incline, from 0 to `INCLINE_CEILING_PERCENT`.
        percent: i16,
    },
    /// Start the belt.
    Start,
    /// Bring the belt to a full stop: speed to zero, then incline to zero.
    Stop,
}

/// The speed sent to the backend for a target in hundredths of km/h: the
/// target in tenths of mph, held to the safety ceiling.
pub open spec fn backend_speed(kmh_hundredths: u16) -> u16 {
    if mph_tenths_of(kmh_hundredths) > SPEED_CEILING_MPH_TENTHS {
        SPEED_CEILING_MPH_TENTHS
    } else {
        mph_tenths_of(kmh_hundredths)
    }
}

/// A tenth of `incline_tenths`, rounded towards zero.
pub open spec fn whole_percent(incline_tenths: i16) -> int {
    if incline_tenths < 0 {
        -((-incline_tenths) / 10)
    } else {
        incline_tenths / 10
    }
}

/// The incline sent to the backend for a target in tenths of a percent:
/// the target in whole percent, held between level and the safety ceiling.
pub open spec fn backend_incline(incline_tenths: i16) -> i16 {
    if whole_percent(incline_tenths) < 0 {
        0
    } else if whole_percent(incline_tenths) > INCLINE_CEILING_PERCENT {
        INCLINE_CEILING_PERCENT
    } else {
        whole_percent(incline_tenths) as i16
    }
}

/// The action table: what the backend is asked to do for each command.
/// Stop and pause are not told apart; both stop the belt.
pub open spec fn backend_action_for(cmd: ControlCommand) -> BackendAction {
    match cmd {
        ControlCommand::RequestControl => BackendAction::Nothing,
        ControlCommand::SetTargetSpeed(v) => BackendAction::SetSpeed {
            mph_tenths: backend_speed(v),
        },
        ControlCommand::SetTargetInclination(v) => BackendAction::SetIncline {
            percent: backend_incline(v),
        },
        ControlCommand::StartOrResume => BackendAction::Start,
        ControlCommand::StopOrPause(_) => BackendAction::Stop,
    }
}

/// Looks a command up in the action table.
pub fn backend_action(cmd: &ControlCommand) -> (action: BackendAction)
    ensures
        action == backend_action_for(*cmd),
        action matches BackendAction::SetSpeed { mph_tenths } ==> mph_tenths
            <= SPEED_CEILING_MPH_TENTHS,
        action matches BackendAction::SetIncline { percent } ==> 0 <= percent
            <= INCLINE_CEILING_PERCENT,
{
    match cmd {
        ControlCommand::RequestControl => BackendAction::Nothing,
        ControlCommand::SetTargetSpeed(kmh_hundredths) => {
            let mph_tenths: u16 = kmh_hundredths_to_mph_tenths(*kmh_hundredths);
            if mph_tenths > SPEED_CEILING_MPH_TENTHS {
                BackendAction::SetSpeed { mph_tenths: SPEED_CEILING_MPH_TENTHS }
            } else {
                BackendAction::SetSpeed { mph_tenths }
            }
        },
        ControlCommand::SetTargetInclination(incline_tenths) => {
            let tenths: i16 = *incline_tenths;
            if tenths < 0 {
                BackendAction::SetIncline { percent: 0 }
            } else {
                let percent: i16 = tenths / 10;
                if percent > INCLINE_CEILING_PERCENT {
                    BackendAction::SetIncline { percent: INCLINE_CEILING_PERCENT }
                } else {
                    BackendAction::SetIncline { percent }
                }
            }
        },
        ControlCommand::StartOrResume => BackendAction::Start,
        ControlCommand::StopOrPause(_) => BackendAction::Stop,
    }
}

/// The command lines that carry an action to the backend, in the order in
/// which they are sent, each over a connection of its own.
pub open spec fn action_lines(action: BackendAction) -> Seq<Seq<char>> {
    match action {
        BackendAction::Nothing => seq![],
        BackendAction::SetSpeed { mph_tenths } => seq![speed_command_text(mph_tenths)],
        BackendAction::SetIncline { percent } => seq![incline_command_text(percent)],
        BackendAction::Start => seq![start_command_text()],
        BackendAction::Stop => seq![speed_command_text(0), incline_command_text(0)],
    }
}

/// Writes the command lines of an action. They are sent one after the
/// other, and the first that fails ends the action.
pub fn backend_lines(action: &BackendAction) -> (lines: Vec<String>)
    ensures
        lines.deep_view() == action_lines(*action),
{
    let mut lines: Vec<String> = Vec::new();
    match action {
        BackendAction::Nothing => {},
        BackendAction::SetSpeed { mph_tenths } => {
            lines.push(speed_command(*mph_tenths));
        },
        BackendAction::SetIncline { percent } => {
            lines.push(incline_command(*percent));
        },
        BackendAction::Start => {
            lines.push(start_command());
        },
        BackendAction::Stop => {
            lines.push(speed_command(0));
            lines.push(incline_command(0));
        },
    }
    assert(lines.deep_view() =~= action_lines(*action));
    lines
}

/// The result of a command, given whether the backend took the action. A
/// command that asks nothing of the backend always succeeds.
pub open spec fn command_result(cmd: ControlCommand, backend_ok: bool) -> ResultCode {
    if backend_action_for(cmd) == BackendAction::Nothing || backend_ok {
        ResultCode::Success
    } else {
        ResultCode::Failed
    }
}

/// The opcode echoed and the result code for a command, given whether the
/// backend took the action.
pub open spec fn command_outcome(cmd: ControlCommand, backend_ok: bool) -> (u8, u8) {
    (cmd.spec_opcode(), command_result(cmd, backend_ok).spec_code())
}

/// Settles a command once the backend has been asked. `backend_ok` says
/// whether every line of the command's action was sent.
pub fn settle_command(cmd: &ControlCommand, backend_ok: bool) -> (result: ResultCode)
    ensures
        result == command_result(*cmd, backend_ok),
{
    match cmd {
        ControlCommand::RequestControl => ResultCode::Success,
        _ => {
            if backend_ok {
                ResultCode::Success
            } else {
                ResultCode::Failed
            }
        },
    }
}

/// Settles a command once the backend has been asked: returns the opcode
/// to echo and the result code. `backend_ok` says whether every line of
/// the command's action was sent.
pub fn handle_control_command(cmd: &ControlCommand, backend_ok: bool) -> (outcome: (u8, u8))
    ensures
        outcome == command_outcome(*cmd, backend_ok),
{
    (cmd.opcode(), settle_command(cmd, backend_ok).code())
}

/// What a write to the control point sets in motion, in the order in
/// which it is carried out: the two notifications, the backend action, and
/// at last the indicated response. No step waits on the success of another.
#[derive(Debug)]
pub struct WritePlan {
    /// First byte of the payload, echoed in the response.
    pub opcode: u8,
    /// The command, where the payload holds one.
    pub command: Option<ControlCommand>,
    /// The Machine Status notification to push, if any.
    pub machine_status: Option<Vec<u8>>,
    /// The Training Status notification to push, if any.
    pub training_status: Option<Vec<u8>>,
    /// What to ask of the backend.
    pub action: BackendAction,
}

/// The result of a write, given whether the backend took the action: not
/// supported where the payload holds no command, else the command's result.
pub open spec fn write_result(command: Option<ControlCommand>, backend_ok: bool) -> ResultCode {
    match command {
        Some(cmd) => command_result(cmd, backend_ok),
        None => ResultCode::NotSupported,
    }
}

/// The response indicated for a payload that begins with `opcode`: the
/// opcode echoed, with the result of the write.
pub open spec fn response_frame(
    opcode: u8,
    command: Option<ControlCommand>,
    backend_ok: bool,
) -> Seq<u8> {
    control_response_frame(
        match command {
            Some(cmd) => cmd.spec_opcode(),
            None => opcode,
        },
        write_result(command, backend_ok).spec_code(),
    )
}

/// The response indicated for a payload, given whether the backend took
/// the action; none for an empty payload, which has no opcode to echo.
pub open spec fn write_response(payload: Seq<u8>, backend_ok: bool) -> Option<Seq<u8>> {
    if payload.len() == 0 {
        None
    } else {
        Some(response_frame(payload[0], parsed_control_point(payload), backend_ok))
    }
}

impl WritePlan {
    /// Whether this is the plan for `payload`.
    pub open spec fn is_plan_for(self, payload: Seq<u8>) -> bool {
        &&& payload.len() > 0
        &&& self.opcode == payload[0]
        &&& self.command == parsed_control_point(payload)
        &&& frame_view(self.machine_status) == match self.command {
            Some(cmd) => status_notification(cmd),
            None => None,
        }
        &&& frame_view(self.training_status) == match self.command {
            Some(cmd) => training_status(cmd),
            None => None,
        }
        &&& self.action == match self.command {
            Some(cmd) => backend_action_for(cmd),
            None => BackendAction::Nothing,
        }
    }

    /// The result of the write, once the backend has been asked.
    pub fn result(&self, backend_ok: bool) -> (result: ResultCode)
        ensures
            result == write_result(self.command, backend_ok),
    {
        match &self.command {
            Some(cmd) => settle_command(cmd, backend_ok),
            None => ResultCode::NotSupported,
        }
    }

    /// Encodes the response to indicate once the backend has been asked.
    pub fn response(&self, backend_ok: bool) -> (frame: Vec<u8>)
        ensures
            frame@ == response_frame(self.opcode, self.command, backend_ok),
            frame@.len() == 3,
    {
        let echoed: u8 = match &self.command {
            Some(cmd) => cmd.opcode(),
            None => self.opcode,
        };
        encode_control_response(echoed, self.result(backend_ok).code())
    }
}

/// Plans what a write to the control point sets in motion. An empty
/// payload sets nothing in motion and gets no response.
pub fn plan_write(payload: &[u8]) -> (plan: Option<WritePlan>)
    ensures
        match plan {
            Some(p) => p.is_plan_for(payload@),
            None => payload@.len() == 0,
        },
{
    if payload.len() == 0 {
        return None;
    }
    let opcode: u8 = payload[0];
    match parse_control_point(payload) {
        Some(cmd) => {
            let machine_status: Option<Vec<u8>> = encode_status_notification(&cmd);
            let training_status: Option<Vec<u8>> = encode_training_status(&cmd);
            let action: BackendAction = backend_action(&cmd);
            Some(WritePlan { opcode, command: Some(cmd), machine_status, training_status, action })
        },
        None => Some(
            WritePlan {
                opcode,
                command: None,
                machine_status: None,
                training_status: None,
                action: BackendAction::Nothing,
            },
        ),
    }
}

/// One step of carrying out a write to the control point.
#[derive(Debug, Clone, PartialEq, Eq)]
pub enum WriteStep {
    /// Push this value to the Machine Status subscriber, if there is one.
    NotifyMachineStatus(Vec<u8>),
    /// Push this value to the Training Status subscriber, if there is one.
    NotifyTrainingStatus(Vec<u8>),
    /// Ask this of the backend.
    AskBackend(BackendAction),
    /// Indicate the response, which says how the backend fared.
    IndicateResponse,
}

/// A step as plain values.
pub enum WriteStepView {
    /// Push this value to the Machine Status subscriber.
    NotifyMachineStatus(Seq<u8>),
    /// Push this value to the Training Status subscriber.
    NotifyTrainingStatus(Seq<u8>),
    /// Ask this of the backend.
    AskBackend(BackendAction),
    /// Indicate the response.
    IndicateResponse,
}

impl View for WriteStep {
    type V = WriteStepView;

    open spec fn view(&self) -> WriteStepView {
        match *self {
            WriteStep::NotifyMachineStatus(value) => WriteStepView::NotifyMachineStatus(value@),
            WriteStep::NotifyTrainingStatus(value) => WriteStepView::NotifyTrainingStatus(value@),
            WriteStep::AskBackend(action) => WriteStepView::AskBackend(action),
            WriteStep::IndicateResponse => WriteStepView::IndicateResponse,
        }
    }
}

/// The steps that a command sets in motion, in their order: the Machine
/// Status notification and the Training Status notification, where the
/// command has one, then the backend, then the response.
pub open spec fn command_steps(cmd: ControlCommand) -> Seq<WriteStepView> {
    (match status_notification(cmd) {
        Some(value) => seq![WriteStepView::NotifyMachineStatus(value)],
        None => Seq::<WriteStepView>::empty(),
    }) + (match training_status(cmd) {
        Some(value) => seq![WriteStepView::NotifyTrainingStatus(value)],
        None => Seq::<WriteStepView>::empty(),
    }) + seq![
        WriteStepView::AskBackend(backend_action_for(cmd)),
        WriteStepView::IndicateResponse,
    ]
}

/// The steps that a payload sets in motion: none where it is empty, the
/// response alone where it holds no command, else the command's steps.
pub open spec fn write_steps(payload: Seq<u8>) -> Seq<WriteStepView> {
    if payload.len() == 0 {
        Seq::<WriteStepView>::empty()
    } else {
        match parsed_control_point(payload) {
            Some(cmd) => command_steps(cmd),
            None => seq![WriteStepView::IndicateResponse],
        }
    }
}

/// The steps as plain values.
pub open spec fn steps_view(steps: Seq<WriteStep>) -> Seq<WriteStepView> {
    Seq::new(steps.len(), |i: int| steps[i]@)
}

impl WritePlan {
    /// The steps of the plan in the order in which they are carried out.
    pub open spec fn planned_steps(self) -> Seq<WriteStepView> {
        match self.command {
            Some(_) => (match self.machine_status {
                Some(value) => seq![WriteStepView::NotifyMachineStatus(value@)],
                None => Seq::<WriteStepView>::empty(),
            }) + (match self.training_status {
                Some(value) => seq![WriteStepView::NotifyTrainingStatus(value@)],
                None => Seq::<WriteStepView>::empty(),
            }) + seq![WriteStepView::AskBackend(self.action), WriteStepView::IndicateResponse],
            None => seq![WriteStepView::IndicateResponse],
        }
    }

    /// Lists the steps of the plan in the order in which they are carried
    /// out. A step that fails does not hold up the steps behind it.
    pub fn steps(&self) -> (steps: Vec<WriteStep>)
        ensures
            steps_view(steps@) == self.planned_steps(),
    {
        let mut steps: Vec<WriteStep> = Vec::new();
        match &self.command {
            Some(cmd) => {
                match &self.machine_status {
                    Some(value) => {
                        steps.push(WriteStep::NotifyMachineStatus(value.clone()));
                    },
                    None => {},
                }
                match &self.training_status {
                    Some(value) => {
                        steps.push(WriteStep::NotifyTrainingStatus(value.clone()));
                    },
                    None => {},
                }
                steps.push(WriteStep::AskBackend(self.action));
                steps.push(WriteStep::IndicateResponse);
            },
            None => {
                steps.push(WriteStep::IndicateResponse);
            },
        }
        assert(steps_view(steps@) =~= self.planned_steps());
        steps
    }
}

/// The plan for a payload has the payload's steps, and its response is
/// the payload's response.
pub proof fn lemma_plan_carries_out_payload(plan: WritePlan, payload: Seq<u8>, backend_ok: bool)
    requires
        plan.is_plan_for(payload),
    ensures
        plan.planned_steps() == write_steps(payload),
        write_response(payload, backend_ok) == Some(
            response_frame(plan.opcode, plan.command, backend_ok),
        ),
{
    assert(plan.planned_steps() =~= write_steps(payload));
}

/// Every response is well formed: three bytes, the response code, the
/// first byte of the payload, and a result code. The result is "not
/// supported" exactly when the payload holds no command, and "failed"
/// exactly when it holds one whose backend action was not taken.
pub proof fn lemma_response_well_formed(payload: Seq<u8>, backend_ok: bool)
    requires
        payload.len() > 0,
    ensures
        write_response(payload, backend_ok) is Some,
        ({
            let frame = write_response(payload, backend_ok)->0;
            let command = parsed_control_point(payload);
            &&& frame.len() == 3
            &&& frame[0] == RESPONSE_CODE
            &&& frame[1] == payload[0]
            &&& frame[2] == RESULT_SUCCESS || frame[2] == RESULT_NOT_SUPPORTED || frame[2]
                == RESULT_FAILED
            &&& frame[2] == RESULT_NOT_SUPPORTED <==> command is None
            &&& frame[2] == RESULT_FAILED <==> command is Some && backend_action_for(command->0)
                != BackendAction::Nothing && !backend_ok
        }),
{
}

/// Whatever the command, the backend is never asked for more than the
/// safety ceilings allow.
pub proof fn lemma_backend_action_within_ceilings(cmd: ControlCommand)
    ensures
        backend_action_for(cmd) matches BackendAction::SetSpeed { mph_tenths } ==> mph_tenths
            <= SPEED_CEILING_MPH_TENTHS,
        backend_action_for(cmd) matches BackendAction::SetIncline { percent } ==> 0 <= percent
            <= INCLINE_CEILING_PERCENT,
{
}

/// How the transport fared with one notification or indication.
#[derive(Debug, Clone, Copy, PartialEq, Eq, Structural)]
pub enum Delivery {
    /// The value was handed to the subscriber.
    Delivered,
    /// The transport reports that the subscriber has stopped listening.
    Stopped,
    /// The send failed.
    Failed,
}

impl Delivery {
    /// Whether the subscriber is still there after this delivery.
    pub open spec fn spec_keeps_subscriber(self) -> bool {
        self == Delivery::Delivered
    }

    /// Whether the subscriber is still there after this delivery: a
    /// notifier whose subscriber is gone stops for good.
    #[verifier::when_used_as_spec(spec_keeps_subscriber)]
    pub fn keeps_subscriber(self) -> (keeps: bool)
        ensures
            keeps == self.spec_keeps_subscriber(),
    {
        match self {
            Delivery::Delivered => true,
            _ => false,
        }
    }
}

/// The place of one characteristic's subscriber: empty, or the handle of
/// the one session that is live. A new session takes the place of the one
/// before it; a handle that has stopped or failed is let go.
#[derive(Debug)]
pub struct Subscriber<H> {
    handle: Option<H>,
}

impl<H> Subscriber<H> {
    /// The handle held, if any.
    pub closed spec fn handle(self) -> Option<H> {
        self.handle
    }

    /// A place with no subscriber.
    pub fn new() -> (slot: Self)
        ensures
            slot.handle() is None,
    {
        Subscriber { handle: None }
    }

    /// Whether a subscriber is attached.
    pub fn is_attached(&self) -> (attached: bool)
        ensures
            attached == self.handle() is Some,
    {
        self.handle.is_some()
    }

    /// Attaches the handle of a new session in place of any before it.
    pub fn attach(&mut self, handle: H)
        ensures
            final(self).handle() == Some(handle),
    {
        self.handle = Some(handle);
    }

    /// Takes the handle out for a send, leaving the place empty until the
    /// send is settled.
    pub fn take(&mut self) -> (handle: Option<H>)
        ensures
            handle == old(self).handle(),
            final(self).handle() is None,
    {
        self.handle.take()
    }

    /// Settles a send: the handle goes back where the value was delivered,
    /// and is let go where the subscriber stopped or the send failed.
    pub fn settle(&mut self, handle: H, delivery: Delivery)
        ensures
            final(self).handle() == if delivery.keeps_subscriber() {
                Some(handle)
            } else {
                None
            },
    {
        match delivery {
            Delivery::Delivered => {
                self.handle = Some(handle);
            },
            _ => {
                self.handle = None;
            },
        }
    }

    /// Lets the handle go.
    pub fn clear(&mut self)
        ensures
            final(self).handle() is None,
    {
        self.handle = None;
    }
}

/// Which handles of the control point are attached.
#[derive(Debug, Clone, Copy, PartialEq, Eq, Structural)]
pub enum SessionState {
    /// Neither a write reader nor an indicate writer.
    Idle,
    /// A write reader only.
    ReaderAttached,
    /// An indicate writer only.
    WriterAttached,
    /// Both.
    Both,
}

/// What the transport reports of the control point.
#[derive(Debug, Clone, Copy, PartialEq, Eq, Structural)]
pub enum ControlEvent {
    /// A write session was opened; `accepted` says whether a reader for it
    /// could be had.
    WriteSessionOpened {
        /// Largest payload the session carries.
        mtu: usize,
        /// Whether the session was accepted.
        accepted: bool,
    },
    /// An indicate session was opened.
    IndicateSessionOpened,
    /// The write stream came to its end.
    WriteStreamEnded,
    /// Reading from the write stream failed.
    WriteStreamFailed,
    /// Sending an indication failed.
    IndicationFailed,
    /// The stream of control events itself ended.
    ControlStreamEnded,
}

impl SessionState {
    /// Whether a write reader is attached.
    pub open spec fn has_reader(self) -> bool {
        self == SessionState::ReaderAttached || self == SessionState::Both
    }

    /// Whether an indicate writer is attached.
    pub open spec fn has_writer(self) -> bool {
        self == SessionState::WriterAttached || self == SessionState::Both
    }

    /// The state with the given handles attached.
    pub open spec fn of(reader: bool, writer: bool) -> SessionState {
        if reader && writer {
            SessionState::Both
        } else if reader {
            SessionState::ReaderAttached
        } else if writer {
            SessionState::WriterAttached
        } else {
            SessionState::Idle
        }
    }

    /// The state after an event; `None` where the event ends the engine.
    /// An opened session attaches its handle in place of any before it; a
    /// write session that is not accepted changes nothing; an ended or
    /// failed stream detaches its handle.
    pub open spec fn after(self, event: ControlEvent) -> Option<SessionState> {
        match event {
            ControlEvent::WriteSessionOpened { mtu, accepted } => Some(
                SessionState::of(self.has_reader() || accepted, self.has_writer()),
            ),
            ControlEvent::IndicateSessionOpened => Some(SessionState::of(self.has_reader(), true)),
            ControlEvent::WriteStreamEnded => Some(SessionState::of(false, self.has_writer())),
            ControlEvent::WriteStreamFailed => Some(SessionState::of(false, self.has_writer())),
            ControlEvent::IndicationFailed => Some(SessionState::of(self.has_reader(), false)),
            ControlEvent::ControlStreamEnded => None,
        }
    }
}

/// The control-point session: which handles are attached, and how large a
/// payload the write session carries.
#[derive(Debug, Clone, Copy, PartialEq, Eq, Structural)]
pub struct ControlPointSession {
    /// Which handles are attached.
    pub state: SessionState,
    /// Size of the read buffer: the largest payload of the last write
    /// session that was opened.
    pub read_buf_len: usize,
}

impl ControlPointSession {
    /// The session before any event: idle, with an empty read buffer.
    pub fn new() -> (session: ControlPointSession)
        ensures
            session.state == SessionState::Idle,
            session.read_buf_len == 0,
    {
        ControlPointSession { state: SessionState::Idle, read_buf_len: 0 }
    }

    /// Whether a write reader is attached.
    pub fn has_reader(&self) -> (attached: bool)
        ensures
            attached == self.state.has_reader(),
    {
        match self.state {
            SessionState::ReaderAttached => true,
            SessionState::Both => true,
            _ => false,
        }
    }

    /// Whether an indicate writer is attached.
    pub fn has_writer(&self) -> (attached: bool)
        ensures
            attached == self.state.has_writer(),
    {
        match self.state {
            SessionState::WriterAttached => true,
            SessionState::Both => true,
            _ => false,
        }
    }

    /// Takes an event in. Returns whether the engine goes on: the end of
    /// the control stream ends it, and leaves the session as it was.
    pub fn on_event(&mut self, event: ControlEvent) -> (goes_on: bool)
        ensures
            goes_on == old(self).state.after(event) is Some,
            final(self).state == match old(self).state.after(event) {
                Some(next) => next,
                None => old(self).state,
            },
            final(self).read_buf_len == match event {
                ControlEvent::WriteSessionOpened { mtu, accepted } => mtu,
                _ => old(self).read_buf_len,
            },
    {
        let reader: bool = self.has_reader();
        let writer: bool = self.has_writer();
        match event {
            ControlEvent::WriteSessionOpened { mtu, accepted } => {
                self.read_buf_len = mtu;
                self.state = state_of(reader || accepted, writer);
                true
            },
            ControlEvent::IndicateSessionOpened => {
                self.state = state_of(reader, true);
                true
            },
            ControlEvent::WriteStreamEnded => {
                self.state = state_of(false, writer);
                true
            },
            ControlEvent::WriteStreamFailed => {
                self.state = state_of(false, writer);
                true
            },
            ControlEvent::IndicationFailed => {
                self.state = state_of(reader, false);
                true
            },
            ControlEvent::ControlStreamEnded => false,
        }
    }
}

/// The state with the given handles attached.
fn state_of(reader: bool, writer: bool) -> (state: SessionState)
    ensures
        state == SessionState::of(reader, writer),
{
    if reader && writer {
        SessionState::Both
    } else if reader {
        SessionState::ReaderAttached
    } else if writer {
        SessionState::WriterAttached
    } else {
        SessionState::Idle
    }
}

/// The two handles come and go apart: whether a reader is attached after
/// an event hangs on the reader before and the event alone, and likewise
/// the writer. Only the end of the control stream ends the engine.
pub proof fn lemma_session_handles_independent(state: SessionState, event: ControlEvent)
    ensures
        state.after(event) is None <==> event == ControlEvent::ControlStreamEnded,
        state.after(event) matches Some(next) ==> {
            &&& next.has_reader() == match event {
                ControlEvent::WriteSessionOpened { mtu, accepted } => state.has_reader()
                    || accepted,
                ControlEvent::WriteStreamEnded => false,
                ControlEvent::WriteStreamFailed => false,
                _ => state.has_reader(),
            }
            &&& next.has_writer() == match event {
                ControlEvent::IndicateSessionOpened => true,
                ControlEvent::IndicationFailed => false,
                _ => state.has_writer(),
            }
        },
{
}

} // verus!
