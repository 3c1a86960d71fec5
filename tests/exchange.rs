use arctos_servo::axis::{select_axes, Axis};
use arctos_servo::codec::{DecodeError, EncodeError};
use arctos_servo::exchange::{
    join_results, motion_command, Action, AxisCommand, AxisOperation, Exchange, OperationError,
    Outcome, Stage, Verdict, RESPONSE_TIMEOUT_MS,
};
use arctos_servo::frame::{compute_crc, Frame, FrameId};
use arctos_servo::servo_cmd::{ServoRequest, ServoResponse};

fn reply(axis: Axis, body: &[u8]) -> Frame {
    let id = axis.id();
    let mut data = body.to_vec();
    data.push(compute_crc(id, body));
    Frame { id, data }
}

fn sent(action: Action) -> Frame {
    match action {
        Action::Send(f) => f,
        other => panic!("expected a frame to send, got {:?}", other),
    }
}

fn moving(axis: Axis) -> AxisOperation {
    let mut op = AxisOperation::new(axis, AxisCommand::SetMotorPos { speed: 300, accel: 176, abs_axis: 0x4000 });
    let f = sent(op.start());
    assert_eq!(f.data[0], 0xf5);
    op
}

#[test]
fn timeout_is_one_hundred_ms() {
    assert_eq!(RESPONSE_TIMEOUT_MS, 100);
}

#[test]
fn classify_success_flags() {
    let ex = Exchange::Enable;
    assert_eq!(ex.classify(Axis::X, ServoResponse::Enable { success: true }), Verdict::Done(Outcome::Completed));
    assert_eq!(
        ex.classify(Axis::X, ServoResponse::Enable { success: false }),
        Verdict::Fail(OperationError::OperationFailed { axis: Axis::X, exchange: Exchange::Enable })
    );
    assert_eq!(ex.classify(Axis::X, ServoResponse::SetAxisZero { success: true }), Verdict::Continue);
}

#[test]
fn classify_encoder_value_is_terminal() {
    assert_eq!(
        Exchange::ReadEncoder.classify(Axis::B, ServoResponse::ReadEncoderValueAddition { value: -5 }),
        Verdict::Done(Outcome::EncoderValue { value: -5 })
    );
}

#[test]
fn frames_for_other_axes_are_passed_over() {
    let ex = Exchange::SetAxisZero;
    assert_eq!(ex.correlate(Axis::Y, &reply(Axis::X, &[0x92, 0x01])), Verdict::Continue);
    // Not even decoded: a broken frame for another axis is no error here.
    let broken = Frame { id: Axis::X.id(), data: vec![0x92, 0x01, 0x00] };
    assert_eq!(ex.correlate(Axis::Y, &broken), Verdict::Continue);
    assert_eq!(ex.correlate(Axis::X, &reply(Axis::X, &[0x92, 0x01])), Verdict::Done(Outcome::Completed));
}

#[test]
fn extended_id_with_same_number_is_another_address() {
    let f = Frame { id: FrameId::Extended(1), data: vec![0x92, 0x01, 0x94] };
    assert_eq!(Exchange::SetAxisZero.correlate(Axis::X, &f), Verdict::Continue);
}

#[test]
fn decode_error_on_own_axis_fails_the_exchange() {
    let broken = Frame { id: Axis::X.id(), data: vec![0x92, 0x01, 0x00] };
    assert_eq!(
        Exchange::SetAxisZero.correlate(Axis::X, &broken),
        Verdict::Fail(OperationError::Decode {
            axis: Axis::X,
            error: DecodeError::ChecksumMismatch { expected: 0x94, actual: 0x00 },
        })
    );
}

#[test]
fn two_axes_share_the_broadcast() {
    let mut x = moving(Axis::X);
    let mut y = moving(Axis::Y);
    let for_x = reply(Axis::X, &[0xf5, 0x02]);
    assert_eq!(y.on_frame(&for_x), Action::Wait);
    assert_eq!(y.stage, Stage::Awaiting(Exchange::MoveTo { speed: 300, accel: 176, abs_axis: 0x4000 }));
    assert_eq!(x.on_frame(&for_x), Action::Finish(Ok(Outcome::Moved { limit_reached: false })));
    assert_eq!(y.on_frame(&reply(Axis::Y, &[0xf5, 0x02])), Action::Finish(Ok(Outcome::Moved { limit_reached: false })));
}

#[test]
fn busy_busy_success_finishes_on_the_third_frame() {
    let mut op = moving(Axis::Z);
    let busy = reply(Axis::Z, &[0xf5, 0x01]);
    assert_eq!(op.on_frame(&busy), Action::Wait);
    assert_eq!(op.on_frame(&busy), Action::Wait);
    assert_eq!(op.on_frame(&reply(Axis::Z, &[0xf5, 0x02])), Action::Finish(Ok(Outcome::Moved { limit_reached: false })));
    assert_eq!(op.stage, Stage::Finished);
}

#[test]
fn busy_then_limit_reached_is_success_with_warning() {
    let mut op = moving(Axis::A);
    assert_eq!(op.on_frame(&reply(Axis::A, &[0xf5, 0x01])), Action::Wait);
    assert_eq!(op.on_frame(&reply(Axis::A, &[0xf5, 0x03])), Action::Finish(Ok(Outcome::Moved { limit_reached: true })));
}

#[test]
fn motion_fail_is_operation_failed() {
    let mut op = moving(Axis::B);
    match op.on_frame(&reply(Axis::B, &[0xf5, 0x00])) {
        Action::Finish(Err(OperationError::OperationFailed { axis, exchange: Exchange::MoveTo { .. } })) => {
            assert_eq!(axis, Axis::B)
        }
        other => panic!("unexpected {:?}", other),
    }
}

#[test]
fn silence_ends_in_no_response() {
    let mut op = moving(Axis::C);
    assert_eq!(op.on_frame(&reply(Axis::X, &[0xf5, 0x02])), Action::Wait);
    assert_eq!(op.on_timeout(), Action::Finish(Err(OperationError::NoResponse { axis: Axis::C })));
    assert_eq!(op.stage, Stage::Finished);
    assert_eq!(op.on_timeout(), Action::Wait);
}

#[test]
fn init_runs_two_exchanges() {
    let mut op = AxisOperation::new(Axis::X, AxisCommand::Init);
    let first = sent(op.start());
    assert_eq!(Some(first), ServoRequest::SetWorkMode { work_mode: arctos_servo::servo_cmd::WorkMode::SrVFoc }.to_frame(Axis::X.id()).ok());
    let second = sent(op.on_frame(&reply(Axis::X, &[0x82, 0x01])));
    assert_eq!(second.data, vec![0x87, 0x01, 0x89]);
    assert_eq!(op.stage, Stage::Awaiting(Exchange::SetAutoSsd));
    assert_eq!(op.on_frame(&reply(Axis::X, &[0x87, 0x01])), Action::Finish(Ok(Outcome::Completed)));
}

#[test]
fn init_stops_when_work_mode_fails() {
    let mut op = AxisOperation::new(Axis::X, AxisCommand::Init);
    sent(op.start());
    assert_eq!(
        op.on_frame(&reply(Axis::X, &[0x82, 0x00])),
        Action::Finish(Err(OperationError::OperationFailed { axis: Axis::X, exchange: Exchange::SetWorkMode }))
    );
}

#[test]
fn enable_set_origin_and_read_position() {
    let mut op = AxisOperation::new(Axis::Y, AxisCommand::Enable);
    assert_eq!(sent(op.start()).data, vec![0xf3, 0x01, 0xf6]);
    assert_eq!(op.on_frame(&reply(Axis::Y, &[0xf3, 0x01])), Action::Finish(Ok(Outcome::Completed)));

    let mut op = AxisOperation::new(Axis::Y, AxisCommand::SetOrigin);
    assert_eq!(sent(op.start()).data, vec![0x92, 0x94]);
    assert_eq!(op.on_frame(&reply(Axis::Y, &[0x92, 0x01])), Action::Finish(Ok(Outcome::Completed)));

    let mut op = AxisOperation::new(Axis::Y, AxisCommand::GetMotorPos);
    assert_eq!(sent(op.start()).data, vec![0x31, 0x33]);
    assert_eq!(op.on_frame(&reply(Axis::Y, &[0xf3, 0x01])), Action::Wait);
    assert_eq!(
        op.on_frame(&reply(Axis::Y, &[0x31, 0, 0, 0, 0, 0x40, 0])),
        Action::Finish(Ok(Outcome::EncoderValue { value: 0x4000 }))
    );
}

#[test]
fn target_out_of_range_ends_before_sending() {
    let mut op = AxisOperation::new(Axis::X, AxisCommand::SetMotorPos { speed: 1, accel: 1, abs_axis: 0x80_0000 });
    assert_eq!(
        op.start(),
        Action::Finish(Err(OperationError::Encode { axis: Axis::X, error: EncodeError::FieldOutOfRange }))
    );
    assert_eq!(op.stage, Stage::Finished);
}

#[test]
fn start_twice_is_ignored() {
    let mut op = AxisOperation::new(Axis::X, AxisCommand::Enable);
    sent(op.start());
    assert_eq!(op.start(), Action::Wait);
}

#[test]
fn motion_command_uses_axis_defaults() {
    assert_eq!(
        motion_command(Axis::A, 100, None, None),
        AxisCommand::SetMotorPos { speed: 500, accel: 216, abs_axis: 100 }
    );
    assert_eq!(
        motion_command(Axis::X, -7, Some(42), Some(9)),
        AxisCommand::SetMotorPos { speed: 42, accel: 9, abs_axis: -7 }
    );
    assert_eq!(Axis::C.default_speed(), 500);
    assert_eq!(Axis::B.default_accel(), 236);
    assert_eq!(Axis::Z.default_accel(), 176);
}

#[test]
fn select_all_or_given_axes() {
    assert_eq!(select_axes(true, &vec![Axis::B]), vec![Axis::X, Axis::Y, Axis::Z, Axis::A, Axis::B, Axis::C]);
    assert_eq!(select_axes(false, &vec![Axis::B, Axis::X]), vec![Axis::B, Axis::X]);
}

#[test]
fn join_surfaces_the_first_error() {
    let results = vec![
        Ok(Outcome::Completed),
        Err(OperationError::NoResponse { axis: Axis::Y }),
        Ok(Outcome::Completed),
        Err(OperationError::NoResponse { axis: Axis::A }),
    ];
    assert_eq!(join_results(&results), Err(OperationError::NoResponse { axis: Axis::Y }));
    let ok = vec![Ok(Outcome::EncoderValue { value: 1 }), Ok(Outcome::EncoderValue { value: 2 })];
    assert_eq!(join_results(&ok), Ok(vec![Outcome::EncoderValue { value: 1 }, Outcome::EncoderValue { value: 2 }]));
    assert_eq!(join_results(&vec![]), Ok(vec![]));
}
