use waybar_timer::clock::Now;
use waybar_timer::timer::{Timer, TimerKind, WorldError};
use waybar_timer::wire::{
    decode_reply, decode_request, dispatch, encode_reply, encode_request, reply_of, Command,
};

fn round_trip(c: Command) {
    let bytes = encode_request(&c);
    let back = decode_request(&bytes).expect("frame decodes");
    assert_eq!(format!("{:?}", back), format!("{:?}", c));
}

#[test]
fn requests_round_trip() {
    round_trip(Command::Cancel);
    round_trip(Command::Start(None));
    round_trip(Command::Start(Some(b"echo hi".to_vec())));
    round_trip(Command::Start(Some(Vec::new())));
    round_trip(Command::Increase(0));
    round_trip(Command::Increase(-600));
    round_trip(Command::Increase(i64::MIN));
    round_trip(Command::Increase(i64::MAX));
    round_trip(Command::Togglepause);
    round_trip(Command::Skip);
}

#[test]
fn request_frames() {
    assert_eq!(encode_request(&Command::Cancel), vec![0]);
    assert_eq!(encode_request(&Command::Start(Some(b"ab".to_vec()))), vec![2, b'a', b'b']);
    assert_eq!(encode_request(&Command::Increase(-600)), vec![3, 255, 255, 255, 255, 255, 255, 253, 168]);
    assert_eq!(encode_request(&Command::Increase(258)), vec![3, 0, 0, 0, 0, 0, 0, 1, 2]);
}

#[test]
fn malformed_requests_are_refused() {
    assert!(decode_request(&[]).is_none());
    assert!(decode_request(&[9]).is_none());
    assert!(decode_request(&[0, 0]).is_none());
    assert!(decode_request(&[3, 1, 2]).is_none());
    assert!(decode_request(&[5, 5]).is_none());
}

#[test]
fn replies_round_trip() {
    for r in [Ok(()), Err(WorldError::NoTimerExisting), Err(WorldError::TimerAlreadyExisting)] {
        let bytes = encode_reply(&r);
        assert_eq!(decode_reply(&bytes), Some(r));
    }
    assert_eq!(encode_reply(&Err(WorldError::NoTimerExisting)), vec![1]);
    assert_eq!(decode_reply(&[3]), None);
    assert_eq!(decode_reply(&[0, 0]), None);
}

#[test]
fn dispatch_runs_the_named_method() {
    let now = Now { unix_nanos: 0, utc_offset_seconds: 0 };
    let mut t = Timer::new();
    let r = dispatch(&mut t, Command::Skip, &now);
    assert_eq!(r, Err(WorldError::NoTimerExisting));
    assert_eq!(reply_of(&r), Err(WorldError::NoTimerExisting));
    let r = dispatch(&mut t, Command::Start(None), &now);
    assert_eq!(reply_of(&r), Ok(()));
    assert!(matches!(t.kind, TimerKind::Running { .. }));
    dispatch(&mut t, Command::Togglepause, &now).unwrap();
    assert!(matches!(t.kind, TimerKind::Paused { .. }));
    dispatch(&mut t, Command::Increase(-60), &now).unwrap();
    match t.kind {
        TimerKind::Paused { time_left, .. } => assert_eq!(time_left, 24 * 60_000_000_000 - 1_000_000),
        _ => panic!("not paused"),
    }
    dispatch(&mut t, Command::Cancel, &now).unwrap();
    assert!(matches!(t.kind, TimerKind::Idle));
}
