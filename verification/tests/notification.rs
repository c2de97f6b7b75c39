use pkrd::frame_pause::{connection_record, frame_pause_step, start_frame_pause, PauseContext, PauseStep};
use pkrd::notification::{
    handle_launch_title_notification, handle_sleep_notification, is_new_game_launch, split_title_id,
    GameLaunch, SleepReply,
};

#[test]
fn new_game_launch_is_reported_once() {
    let mut launch = GameLaunch::new();
    assert!(!is_new_game_launch(&mut launch));
    assert_eq!(handle_launch_title_notification(&mut launch, None), Ok(()));
    assert!(is_new_game_launch(&mut launch));
    assert!(!is_new_game_launch(&mut launch));
    assert!(!is_new_game_launch(&mut launch));
}

#[test]
fn hooked_title_id_is_recorded_in_halves() {
    let mut launch = GameLaunch::new();
    let result = handle_launch_title_notification(&mut launch, Some((0x0004000000172800, Ok(()))));
    assert_eq!(result, Ok(()));
    assert_eq!(launch.game_title_id_high, 0x00040000);
    assert_eq!(launch.game_title_id_low, 0x00172800);

    let result = handle_launch_title_notification(&mut launch, Some((0x0004000000055D00, Err(-1))));
    assert_eq!(result, Err(-1));
    assert_eq!(launch.game_title_id_low, 0x00172800);
    assert!(launch.is_new_game_launch);
}

#[test]
fn title_id_splits_into_halves() {
    assert_eq!(split_title_id(0x1234_5678_9ABC_DEF0), (0x1234_5678, 0x9ABC_DEF0));
    assert_eq!(split_title_id(u64::MAX), (u32::MAX, u32::MAX));
}

#[test]
fn sleep_requests_are_refused_in_development_builds() {
    assert_eq!(handle_sleep_notification(0x101, true), SleepReply::ReplyToSleepQuery { deny: true });
    assert_eq!(handle_sleep_notification(0x101, false), SleepReply::ReplyToSleepQuery { deny: false });
    assert_eq!(handle_sleep_notification(0x104, true), SleepReply::AcknowledgeNotification);
}

#[test]
fn frame_pause_and_connection() {
    let mut context = PauseContext { is_paused: false, is_connected: false };
    assert!(!start_frame_pause(&mut context, true, false));
    assert!(context.is_paused);
    assert!(start_frame_pause(&mut context, false, true));
    assert!(context.is_connected);
    assert!(!start_frame_pause(&mut context, false, true));

    assert_eq!(frame_pause_step(&mut context, true, true, false, false), PauseStep::Advance);
    assert!(context.is_paused);
    assert_eq!(frame_pause_step(&mut context, false, false, true, false), PauseStep::Advance);
    assert_eq!(frame_pause_step(&mut context, false, false, false, false), PauseStep::Wait);
    assert!(context.is_paused);
    assert_eq!(frame_pause_step(&mut context, false, false, false, true), PauseStep::Resume);
    assert!(!context.is_paused);

    assert_eq!(connection_record([192, 168, 0, 36], 7000), [192, 168, 0, 36, 7000]);
}
