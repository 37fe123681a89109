use opal::gcode::{Code, Request};
use opal::motion::{
    limit_message, status_reply, InterpolationStep, MotionAction, MotionError, MotionModes,
    MotionStatus, MoveProgress, StatusReply,
};

fn ready(r: StatusReply) -> String {
    match r {
        StatusReply::Ready(t) => t,
        _ => panic!("expected a ready reply"),
    }
}

#[test]
fn power_up_modes() {
    let m = MotionModes::new(8);
    assert_eq!(m.status, MotionStatus::IDLE);
    assert!(m.absolute);
    assert!(!m.is_busy());
    assert_eq!(m.interpolation_step(), InterpolationStep::Idle);
}

#[test]
fn g0_jumps_in_one_tick() {
    let mut m = MotionModes::new(8);
    assert_eq!(m.accept(Code::G(0), true, 7), Ok(MotionAction::SetTarget { with_feed: false }));
    assert_eq!(m.avlb, 7);
    assert_eq!(m.status, MotionStatus::IDLE);
    m.target_set();
    assert!(m.is_busy());
    assert_eq!(m.interpolation_step(), InterpolationStep::Jump);
    m.finish_jump();
    assert!(!m.is_busy());
    assert_eq!(m.interpolation_step(), InterpolationStep::Idle);
}

#[test]
fn busy_controller_refuses() {
    let mut m = MotionModes::new(8);
    m.accept(Code::G(28), false, 8).unwrap();
    assert!(m.is_busy());
    let before = m;
    assert_eq!(m.accept(Code::G(1), true, 3), Err(MotionError::Busy));
    assert_eq!(m, MotionModes { avlb: 3, ..before });
    assert_eq!(MotionError::Busy.message(), "Motion busy!");
}

#[test]
fn g1_is_a_timed_move() {
    let mut m = MotionModes::new(8);
    assert_eq!(m.accept(Code::G(1), true, 8), Ok(MotionAction::SetTarget { with_feed: true }));
    m.target_set();
    assert_eq!(m.interpolation_step(), InterpolationStep::TimedStart);
    m.start_timed_move(1_000, 500);
    assert_eq!(m.interpolation_step(), InterpolationStep::Continue);
    assert_eq!(m.progress(1_200), MoveProgress::Moving { elapsed: 200 });
    assert!(m.is_busy());
    assert_eq!(m.progress(1_500), MoveProgress::Finished { on_time: true });
    assert!(!m.is_busy());
    assert!(m.first_interpolation);
}

#[test]
fn late_tick_ends_a_move_without_final_position() {
    let mut m = MotionModes::new(8);
    m.accept(Code::G(1), true, 8).unwrap();
    m.target_set();
    m.start_timed_move(u64::MAX - 10, 100);
    assert_eq!(m.end_nanos, 89);
    assert_eq!(m.progress(u64::MAX), MoveProgress::Finished { on_time: false });
}

#[test]
fn coordinate_modes() {
    let mut m = MotionModes::new(8);
    assert_eq!(m.accept(Code::G(91), false, 8), Ok(MotionAction::ModeChanged));
    assert!(!m.absolute);
    assert!(m.is_busy());
    m.finish_jump();
    assert_eq!(m.accept(Code::G(91), true, 8), Ok(MotionAction::SetTarget { with_feed: false }));
    assert_eq!(m.current_code, 0);
    assert!(!m.is_busy());
    assert_eq!(m.accept(Code::G(90), false, 8), Ok(MotionAction::ModeChanged));
    assert!(m.absolute);
}

#[test]
fn other_g_codes_are_ignored() {
    let mut m = MotionModes::new(8);
    let before = m;
    assert_eq!(m.accept(Code::G(54), true, 8), Ok(MotionAction::Nothing));
    assert_eq!(m, before);
}

#[test]
fn line_without_command_continues_a_move() {
    let mut m = MotionModes::new(8);
    assert_eq!(m.accept(Code::Empty, true, 8), Ok(MotionAction::SetTarget { with_feed: false }));
    let mut m = MotionModes::new(8);
    m.accept(Code::G(28), false, 8).unwrap();
    m.finish_jump();
    assert_eq!(m.accept(Code::Empty, true, 8), Err(MotionError::CannotContinue(28)));
    assert_eq!(MotionError::CannotContinue(28).message(), "Cannot continue move for G28");
}

#[test]
fn laser_switching() {
    let mut m = MotionModes::new(8);
    assert_eq!(m.take_laser_change(), None);
    assert_eq!(m.accept(Code::M(3), false, 8), Ok(MotionAction::SetPower));
    assert_eq!(m.accept(Code::M(4), false, 8), Ok(MotionAction::SetPower));
    assert_eq!(m.take_laser_change(), Some((true, true)));
    assert_eq!(m.take_laser_change(), None);
    assert_eq!(m.accept(Code::M(5), false, 8), Ok(MotionAction::Nothing));
    assert_eq!(m.take_laser_change(), Some((false, false)));
    assert_eq!(m.accept(Code::M(7), false, 8), Ok(MotionAction::Nothing));
    assert_eq!(m.take_laser_change(), None);
}

#[test]
fn status_replies() {
    assert_eq!(ready(status_reply(Request::Dollar('X'))), "ok\r\n");
    assert_eq!(
        ready(status_reply(Request::Dollar('#'))),
        "[G54:0.000,0.000,0.000]\r\n[G55:0.000,0.000,0.000]\r\n[G56:0.000,0.000,0.000]\r\n[TLO:0.000]\r\n[PRB:0.000,0.000,0.000:0]\r\nok\r\n"
    );
    assert!(matches!(status_reply(Request::Dollar('G')), StatusReply::ModalState));
    assert!(matches!(status_reply(Request::Status), StatusReply::Position));
    match status_reply(Request::Dollar('H')) {
        StatusReply::Refused(t) => assert_eq!(t, "Unsupported command $H\r\n"),
        _ => panic!("expected a refusal"),
    }
}

#[test]
fn modal_state_and_position_texts() {
    let mut m = MotionModes::new(5);
    assert_eq!(
        m.modal_state_text("100.000", "0.0"),
        "[GC:G0 G54 G17 G21 G90 G94 M5 M9 T0 F100.000 S0.0]\r\nok\r\n"
    );
    assert_eq!(m.position_text("1.5", "-2", "100", "0"), "<Idle|MPos:1.5,-2,0.000|Bf:5,150|FS:100,0>\r\n");
    m.accept(Code::G(91), false, 3).unwrap();
    assert_eq!(
        m.modal_state_text("1", "2"),
        "[GC:G0 G54 G17 G21 G91 G94 M5 M9 T0 F1 S2]\r\nok\r\n"
    );
    assert_eq!(m.position_text("0", "0", "1", "2"), "<Run|MPos:0,0,0.000|Bf:3,150|FS:1,2>\r\n");
}

#[test]
fn limit_messages() {
    assert_eq!(limit_message('X', true), "X above limit");
    assert_eq!(limit_message('F', false), "F below limit");
}

#[test]
fn laser_change_applied_once_per_command() {
    let mut m = MotionModes::new(8);
    assert_eq!(m.accept(Code::M(3), false, 8), Ok(MotionAction::SetPower));
    assert_eq!(m.take_laser_change(), Some((true, false)));
    let after_first = m;
    assert_eq!(m.take_laser_change(), None);
    assert_eq!(m, after_first);
    assert_eq!(m.accept(Code::M(5), false, 8), Ok(MotionAction::Nothing));
    assert_eq!(m.take_laser_change(), Some((false, false)));
    assert_eq!(m.take_laser_change(), None);
}

#[test]
fn position_fields_keep_three_characters() {
    let m = MotionModes::new(4);
    assert_eq!(
        m.position_text("12.345", "-0.500", "1000.000", "50.0"),
        "<Idle|MPos:12.,-0.,0.000|Bf:4,150|FS:1000.000,50.0>\r\n"
    );
}
