//! The decisions of the per-axis operations: which command to send, how to
//! classify each reply that arrives, when an operation is over, and how the
//! results of operations that ran side by side combine.
//!
//! The caller owns the bus and the clock. It hands each [`AxisOperation`]
//! the frames it reads and the expiry of the reply deadline, and carries out
//! the [`Action`] that comes back.

use vstd::prelude::*;

use crate::axis::Axis;
use crate::codec::{spec_decode, DecodeError, EncodeError};
use crate::frame::Frame;
use crate::servo_cmd::{MotionStatus, ServoRequest, ServoResponse, WorkMode};

verus! {

/// How long one exchange waits for a matching reply, in milliseconds.
pub const RESPONSE_TIMEOUT_MS: u64 = 100;

/// One request/reply exchange with a servo controller.
#[derive(Copy, Clone, Debug, PartialEq, Eq, Structural)]
pub enum Exchange {
    /// Switch the driver to `SrVFoc` mode.
    SetWorkMode,
    /// Let the controller turn its display off by itself.
    SetAutoSsd,
    /// Power the motor on.
    Enable,
    /// Take the current position as zero.
    SetAxisZero,
    /// Read the position from zero.
    ReadEncoder,
    /// Move to an absolute position.
    MoveTo { speed: u16, accel: u8, abs_axis: i32 },
}

/// A user-facing operation on one axis.
#[derive(Copy, Clone, Debug, PartialEq, Eq, Structural)]
pub enum AxisCommand {
    Init,
    Enable,
    SetOrigin,
    GetMotorPos,
    /// Move to `abs_axis`, in units of `1 / 0x4000` turn.
    SetMotorPos { speed: u16, accel: u8, abs_axis: i32 },
}

/// What an operation produced when it ended well.
#[derive(Copy, Clone, Debug, PartialEq, Eq, Structural)]
pub enum Outcome {
    Completed,
    EncoderValue { value: i64 },
    /// The move ended; `limit_reached` tells that an end stop stopped it.
    Moved { limit_reached: bool },
}

/// Why an operation on one axis failed.
#[derive(Copy, Clone, Debug, PartialEq, Eq, Structural)]
pub enum OperationError {
    Encode { axis: Axis, error: EncodeError },
    Decode { axis: Axis, error: DecodeError },
    /// No matching reply came before the deadline.
    NoResponse { axis: Axis },
    /// The controller reported that `exchange` failed.
    OperationFailed { axis: Axis, exchange: Exchange },
}

/// What a reply means to an exchange that waits for it.
#[derive(Copy, Clone, Debug, PartialEq, Eq, Structural)]
pub enum Verdict {
    /// Not the reply that ends the wait.
    Continue,
    Done(Outcome),
    Fail(OperationError),
}

/// The verdict for a reply that only carries a success flag.
pub open spec fn flag_verdict(axis: Axis, exchange: Exchange, success: bool) -> Verdict {
    if success {
        Verdict::Done(Outcome::Completed)
    } else {
        Verdict::Fail(OperationError::OperationFailed { axis, exchange })
    }
}

impl Exchange {
    /// The command that opens this exchange.
    pub open spec fn spec_request(self) -> ServoRequest {
        match self {
            Exchange::SetWorkMode => ServoRequest::SetWorkMode { work_mode: WorkMode::SrVFoc },
            Exchange::SetAutoSsd => ServoRequest::SetAutoSSD { enable: true },
            Exchange::Enable => ServoRequest::Enable { enabled: true },
            Exchange::SetAxisZero => ServoRequest::SetAxisZero,
            Exchange::ReadEncoder => ServoRequest::ReadEncoderValueAddition,
            Exchange::MoveTo { speed, accel, abs_axis } => ServoRequest::RunPositionAbsoluteMotionMode {
                speed,
                accel,
                abs_axis,
            },
        }
    }

    /// What a decoded reply from the exchange's own axis means to it.
    pub open spec fn spec_classify(self, axis: Axis, response: ServoResponse) -> Verdict {
        match (self, response) {
            (Exchange::SetWorkMode, ServoResponse::SetWorkMode { success }) => flag_verdict(
                axis,
                self,
                success,
            ),
            (Exchange::SetAutoSsd, ServoResponse::SetAutoSSD { success }) => flag_verdict(
                axis,
                self,
                success,
            ),
            (Exchange::Enable, ServoResponse::Enable { success }) => flag_verdict(
                axis,
                self,
                success,
            ),
            (Exchange::SetAxisZero, ServoResponse::SetAxisZero { success }) => flag_verdict(
                axis,
                self,
                success,
            ),
            (Exchange::ReadEncoder, ServoResponse::ReadEncoderValueAddition { value }) => {
                Verdict::Done(Outcome::EncoderValue { value })
            },
            (Exchange::MoveTo { .. }, ServoResponse::RunPositionAbsoluteMotionMode { status }) => {
                match status {
                    MotionStatus::Fail => Verdict::Fail(
                        OperationError::OperationFailed { axis, exchange: self },
                    ),
                    MotionStatus::Busy => Verdict::Continue,
                    MotionStatus::Success => Verdict::Done(Outcome::Moved { limit_reached: false }),
                    MotionStatus::LimitReached => Verdict::Done(
                        Outcome::Moved { limit_reached: true },
                    ),
                }
            },
            _ => Verdict::Continue,
        }
    }

    /// What a frame read from the shared bus means to this exchange on `axis`.
    /// Frames for other axes are passed over without being decoded.
    pub open spec fn spec_correlate(self, axis: Axis, frame: Frame) -> Verdict {
        if frame.id != axis.spec_id() {
            Verdict::Continue
        } else {
            match spec_decode(axis.spec_id(), frame.data@) {
                Err(error) => Verdict::Fail(OperationError::Decode { axis, error }),
                Ok(response) => self.spec_classify(axis, response),
            }
        }
    }

    /// The command that opens this exchange.
    pub fn request(&self) -> (r: ServoRequest)
        ensures
            r == self.spec_request(),
    {
        match *self {
            Exchange::SetWorkMode => ServoRequest::SetWorkMode { work_mode: WorkMode::SrVFoc },
            Exchange::SetAutoSsd => ServoRequest::SetAutoSSD { enable: true },
            Exchange::Enable => ServoRequest::Enable { enabled: true },
            Exchange::SetAxisZero => ServoRequest::SetAxisZero,
            Exchange::ReadEncoder => ServoRequest::ReadEncoderValueAddition,
            Exchange::MoveTo { speed, accel, abs_axis } => ServoRequest::RunPositionAbsoluteMotionMode {
                speed,
                accel,
                abs_axis,
            },
        }
    }

    /// Classifies a decoded reply from the exchange's own axis.
    pub fn classify(&self, axis: Axis, response: ServoResponse) -> (r: Verdict)
        ensures
            r == self.spec_classify(axis, response),
    {
        match (*self, response) {
            (Exchange::SetWorkMode, ServoResponse::SetWorkMode { success })
            | (Exchange::SetAutoSsd, ServoResponse::SetAutoSSD { success })
            | (Exchange::Enable, ServoResponse::Enable { success })
            | (Exchange::SetAxisZero, ServoResponse::SetAxisZero { success }) => {
                if success {
                    Verdict::Done(Outcome::Completed)
                } else {
                    Verdict::Fail(OperationError::OperationFailed { axis, exchange: *self })
                }
            },
            (Exchange::ReadEncoder, ServoResponse::ReadEncoderValueAddition { value }) => {
                Verdict::Done(Outcome::EncoderValue { value })
            },
            (Exchange::MoveTo { .. }, ServoResponse::RunPositionAbsoluteMotionMode { status }) => {
                match status {
                    MotionStatus::Fail => Verdict::Fail(
                        OperationError::OperationFailed { axis, exchange: *self },
                    ),
                    MotionStatus::Busy => Verdict::Continue,
                    MotionStatus::Success => Verdict::Done(Outcome::Moved { limit_reached: false }),
                    MotionStatus::LimitReached => Verdict::Done(
                        Outcome::Moved { limit_reached: true },
                    ),
                }
            },
            _ => Verdict::Continue,
        }
    }

    /// Reads a frame from the shared bus on behalf of this exchange on `axis`.
    pub fn correlate(&self, axis: Axis, frame: &Frame) -> (r: Verdict)
        ensures
            r == self.spec_correlate(axis, *frame),
            frame.id != axis.spec_id() ==> r == Verdict::Continue,
    {
        let id = axis.id();
        if frame.id != id {
            return Verdict::Continue;
        }
        match ServoResponse::from_frame(id, frame) {
            Err(error) => Verdict::Fail(OperationError::Decode { axis, error }),
            Ok(response) => self.classify(axis, response),
        }
    }
}

/// Where an operation stands.
#[derive(Copy, Clone, Debug, PartialEq, Eq, Structural)]
pub enum Stage {
    /// Not started.
    Ready,
    /// Waiting for the replies to an exchange.
    Awaiting(Exchange),
    Finished,
}

/// What the caller does next for an operation.
#[derive(Debug, PartialEq, Eq)]
pub enum Action {
    /// Send this frame, then wait for replies under a fresh deadline of
    /// `RESPONSE_TIMEOUT_MS`.
    Send(Frame),
    /// Keep waiting under the same deadline.
    Wait,
    /// The operation is over.
    Finish(Result<Outcome, OperationError>),
}

/// One operation on one axis, driven by the frames that arrive and by the deadline.
#[derive(Copy, Clone, Debug, PartialEq, Eq, Structural)]
pub struct AxisOperation {
    pub axis: Axis,
    pub command: AxisCommand,
    pub stage: Stage,
}

impl AxisCommand {
    /// The exchange that starts the command.
    pub open spec fn spec_first(self) -> Exchange {
        match self {
            AxisCommand::Init => Exchange::SetWorkMode,
            AxisCommand::Enable => Exchange::Enable,
            AxisCommand::SetOrigin => Exchange::SetAxisZero,
            AxisCommand::GetMotorPos => Exchange::ReadEncoder,
            AxisCommand::SetMotorPos { speed, accel, abs_axis } => Exchange::MoveTo {
                speed,
                accel,
                abs_axis,
            },
        }
    }

    /// The exchange that follows `done` once it has succeeded, if any.
    pub open spec fn spec_after(self, done: Exchange) -> Option<Exchange> {
        match (self, done) {
            (AxisCommand::Init, Exchange::SetWorkMode) => Some(Exchange::SetAutoSsd),
            _ => None,
        }
    }

    fn first(&self) -> (r: Exchange)
        ensures
            r == self.spec_first(),
    {
        match *self {
            AxisCommand::Init => Exchange::SetWorkMode,
            AxisCommand::Enable => Exchange::Enable,
            AxisCommand::SetOrigin => Exchange::SetAxisZero,
            AxisCommand::GetMotorPos => Exchange::ReadEncoder,
            AxisCommand::SetMotorPos { speed, accel, abs_axis } => Exchange::MoveTo {
                speed,
                accel,
                abs_axis,
            },
        }
    }

    fn after(&self, done: Exchange) -> (r: Option<Exchange>)
        ensures
            r == self.spec_after(done),
    {
        match (*self, done) {
            (AxisCommand::Init, Exchange::SetWorkMode) => Some(Exchange::SetAutoSsd),
            _ => None,
        }
    }
}

/// A move of `axis` to `abs_axis`, at the given speed and acceleration or
/// else at the axis's defaults.
pub fn motion_command(axis: Axis, abs_axis: i32, speed: Option<u16>, accel: Option<u8>) -> (r:
    AxisCommand)
    ensures
        r == (AxisCommand::SetMotorPos {
            speed: match speed {
                Some(s) => s,
                None => axis.spec_default_speed(),
            },
            accel: match accel {
                Some(a) => a,
                None => axis.spec_default_accel(),
            },
            abs_axis,
        }),
{
    let speed = match speed {
        Some(s) => s,
        None => axis.default_speed(),
    };
    let accel = match accel {
        Some(a) => a,
        None => axis.default_accel(),
    };
    AxisCommand::SetMotorPos { speed, accel, abs_axis }
}

/// The stage and action that opening `exchange` on `axis` leads to: the
/// encoded command is sent, or the operation ends if it cannot be encoded.
pub open spec fn spec_opened(axis: Axis, exchange: Exchange, stage: Stage, action: Action) -> bool {
    let request = exchange.spec_request();
    if request.spec_valid() {
        &&& stage == Stage::Awaiting(exchange)
        &&& action matches Action::Send(f)
        &&& f.id == axis.spec_id()
        &&& f.data@ == request.spec_frame_data(axis.spec_id())
    } else {
        &&& stage == Stage::Finished
        &&& action == Action::Finish(
            Err(OperationError::Encode { axis, error: EncodeError::FieldOutOfRange }),
        )
    }
}

impl AxisOperation {
    pub fn new(axis: Axis, command: AxisCommand) -> (r: AxisOperation)
        ensures
            r == (AxisOperation { axis, command, stage: Stage::Ready }),
    {
        AxisOperation { axis, command, stage: Stage::Ready }
    }

    fn open(&mut self, exchange: Exchange) -> (r: Action)
        ensures
            final(self).axis == old(self).axis,
            final(self).command == old(self).command,
            spec_opened(old(self).axis, exchange, final(self).stage, r),
    {
        match exchange.request().to_frame(self.axis.id()) {
            Ok(frame) => {
                self.stage = Stage::Awaiting(exchange);
                Action::Send(frame)
            },
            Err(error) => {
                self.stage = Stage::Finished;
                Action::Finish(Err(OperationError::Encode { axis: self.axis, error }))
            },
        }
    }

    /// Starts the operation by opening its first exchange. Once started, an
    /// operation ignores a second start.
    pub fn start(&mut self) -> (r: Action)
        ensures
            old(self).stage == Stage::Ready ==> final(self).axis == old(self).axis
                && final(self).command == old(self).command && spec_opened(
                old(self).axis,
                old(self).command.spec_first(),
                final(self).stage,
                r,
            ),
            old(self).stage != Stage::Ready ==> *final(self) == *old(self) && r == Action::Wait,
    {
        if self.stage != Stage::Ready {
            return Action::Wait;
        }
        let first = self.command.first();
        self.open(first)
    }

    /// Takes in a frame read from the shared bus. Frames for other axes, and
    /// replies that do not end the current exchange, leave the operation as
    /// it is. A reply that ends the exchange well opens the next exchange or
    /// finishes the operation; one that reports a failure, or that does not
    /// decode, finishes it with that error. Outside an exchange, frames are
    /// ignored.
    pub fn on_frame(&mut self, frame: &Frame) -> (r: Action)
        ensures
            match old(self).stage {
                Stage::Awaiting(exchange) => match exchange.spec_correlate(old(self).axis, *frame) {
                    Verdict::Continue => *final(self) == *old(self) && r == Action::Wait,
                    Verdict::Fail(e) => final(self).stage == Stage::Finished && final(self).axis
                        == old(self).axis && final(self).command == old(self).command && r
                        == Action::Finish(Err(e)),
                    Verdict::Done(o) => final(self).axis == old(self).axis && final(self).command
                        == old(self).command && match old(self).command.spec_after(exchange) {
                        None => final(self).stage == Stage::Finished && r == Action::Finish(Ok(o)),
                        Some(next) => spec_opened(old(self).axis, next, final(self).stage, r),
                    },
                },
                _ => *final(self) == *old(self) && r == Action::Wait,
            },
    {
        let exchange = match self.stage {
            Stage::Awaiting(exchange) => exchange,
            _ => {
                return Action::Wait;
            },
        };
        match exchange.correlate(self.axis, frame) {
            Verdict::Continue => Action::Wait,
            Verdict::Fail(e) => {
                self.stage = Stage::Finished;
                Action::Finish(Err(e))
            },
            Verdict::Done(o) => match self.command.after(exchange) {
                None => {
                    self.stage = Stage::Finished;
                    Action::Finish(Ok(o))
                },
                Some(next) => self.open(next),
            },
        }
    }

    /// Takes in the expiry of the reply deadline: an open exchange fails
    /// with `NoResponse`, whatever frames for other axes were seen.
    pub fn on_timeout(&mut self) -> (r: Action)
        ensures
            old(self).stage is Awaiting ==> final(self).stage == Stage::Finished && final(self).axis
                == old(self).axis && final(self).command == old(self).command && r
                == Action::Finish(Err(OperationError::NoResponse { axis: old(self).axis })),
            !(old(self).stage is Awaiting) ==> *final(self) == *old(self) && r == Action::Wait,
    {
        match self.stage {
            Stage::Awaiting(_) => {
                self.stage = Stage::Finished;
                Action::Finish(Err(OperationError::NoResponse { axis: self.axis }))
            },
            _ => Action::Wait,
        }
    }
}

/// Whether every result before index `k` succeeded.
pub open spec fn all_ok_before(results: Seq<Result<Outcome, OperationError>>, k: int) -> bool {
    forall|j: int| 0 <= j < k ==> (#[trigger] results[j]) is Ok
}

/// Combines the results of operations that all ran to their end: the
/// outcomes in order when all succeeded, else the first error among them.
pub fn join_results(results: &Vec<Result<Outcome, OperationError>>) -> (r: Result<
    Vec<Outcome>,
    OperationError,
>)
    ensures
        all_ok_before(results@, results@.len() as int) ==> (r matches Ok(v) && v@.len()
            == results@.len() && forall|i: int|
            0 <= i < v@.len() ==> results@[i] == Ok::<Outcome, OperationError>(#[trigger] v@[i])),
        !all_ok_before(results@, results@.len() as int) ==> exists|k: int|
            0 <= k < results@.len() && all_ok_before(results@, k) && #[trigger] results@[k]
                == Err::<Outcome, OperationError>(r->Err_0) && r is Err,
{
    let mut outcomes: Vec<Outcome> = Vec::new();
    let mut i: usize = 0;
    while i < results.len()
        invariant
            i <= results@.len(),
            all_ok_before(results@, i as int),
            outcomes@.len() == i,
            forall|j: int|
                0 <= j < i ==> results@[j] == Ok::<Outcome, OperationError>(#[trigger] outcomes@[j]),
        decreases results@.len() - i,
    {
        match results[i] {
            Ok(o) => {
                outcomes.push(o);
            },
            Err(e) => {
                assert(results@[i as int] == Err::<Outcome, OperationError>(e));
                return Err(e);
            },
        }
        i += 1;
    }
    Ok(outcomes)
}

/// A frame addressed to one axis is never taken as a reply by an exchange
/// that waits on another axis, whatever the frame holds.
pub proof fn lemma_fan_out_isolation(exchange: Exchange, addressed: Axis, waiting: Axis, frame: Frame)
    requires
        addressed != waiting,
        frame.id == addressed.spec_id(),
    ensures
        exchange.spec_correlate(waiting, frame) == Verdict::Continue,
{
}

} // verus!
