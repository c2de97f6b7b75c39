//! The system notifications that the reader answers: a title was launched, or
//! the system is about to sleep or wake.

use vstd::prelude::*;

verus! {

/// The notification that the system asks whether it may sleep.
pub const SLEEP_REQUESTED: u32 = 0x101;

/// What the reader knows of launched titles: whether a title was launched
/// since it was last asked, and the id of the last title it hooked.
#[derive(Clone, Copy, Debug, PartialEq, Eq, Structural)]
pub struct GameLaunch {
    pub is_new_game_launch: bool,
    pub game_title_id_high: u32,
    pub game_title_id_low: u32,
}

impl GameLaunch {
    /// No title launched, none hooked.
    pub fn new() -> (g: GameLaunch)
        ensures
            !g.is_new_game_launch,
            g.game_title_id_high == 0,
            g.game_title_id_low == 0,
    {
        GameLaunch { is_new_game_launch: false, game_title_id_high: 0, game_title_id_low: 0 }
    }
}

/// The high and the low 32 bits of a title id.
pub open spec fn title_id_halves(title_id: u64) -> (u32, u32) {
    ((title_id / 0x1_0000_0000) as u32, (title_id % 0x1_0000_0000) as u32)
}

/// The high and the low 32 bits of a title id.
pub fn split_title_id(title_id: u64) -> (r: (u32, u32))
    ensures
        r == title_id_halves(title_id),
{
    let high = title_id >> 32u64;
    let low = title_id & 0xFFFFFFFFu64;
    assert(high == title_id / 0x1_0000_0000 && high <= u32::MAX) by (bit_vector)
        requires
            high == title_id >> 32u64,
    ;
    assert(low == title_id % 0x1_0000_0000 && low <= u32::MAX) by (bit_vector)
        requires
            low == title_id & 0xFFFFFFFFu64,
    ;
    (high as u32, low as u32)
}

/// Asking whether a game was launched: the state after, and the answer.
pub open spec fn launch_checked(g: GameLaunch) -> (GameLaunch, bool) {
    (GameLaunch { is_new_game_launch: false, ..g }, g.is_new_game_launch)
}

/// A title was launched, and `hooked` holds its id and the result of
/// installing the hook into it when the reader supports it: the state after,
/// and the result to report.
pub open spec fn launch_handled(g: GameLaunch, hooked: Option<(u64, Result<(), i32>)>) -> (GameLaunch, Result<(), i32>) {
    let launched = GameLaunch { is_new_game_launch: true, ..g };
    match hooked {
        Some((title_id, hook_result)) => if hook_result is Ok {
            (
                GameLaunch {
                    game_title_id_high: title_id_halves(title_id).0,
                    game_title_id_low: title_id_halves(title_id).1,
                    ..launched
                },
                hook_result,
            )
        } else {
            (launched, hook_result)
        },
        None => (launched, Ok(())),
    }
}

/// Whether a game was launched since the last call; the next call then
/// says `false` until a game is launched again.
pub fn is_new_game_launch(launch: &mut GameLaunch) -> (r: bool)
    ensures
        (*final(launch), r) == launch_checked(*old(launch)),
{
    let r = launch.is_new_game_launch;
    launch.is_new_game_launch = false;
    r
}

/// A title was launched. `hooked` holds, when the title is one that the
/// reader supports, its id and the result of installing the hook into it.
/// Records the launch, and the title's id when its hook was installed;
/// returns the result of installing the hook (`Ok` when the title is not supported).
pub fn handle_launch_title_notification(
    launch: &mut GameLaunch,
    hooked: Option<(u64, Result<(), i32>)>,
) -> (r: Result<(), i32>)
    ensures
        (*final(launch), r) == launch_handled(*old(launch), hooked),
{
    launch.is_new_game_launch = true;
    match hooked {
        Some((title_id, hook_result)) => {
            match hook_result {
                Ok(()) => {
                    let (high, low) = split_title_id(title_id);
                    launch.game_title_id_high = high;
                    launch.game_title_id_low = low;
                },
                Err(_) => {},
            }
            hook_result
        },
        None => Ok(()),
    }
}

/// The answer to a sleep notification.
#[derive(Clone, Copy, Debug, PartialEq, Eq, Structural)]
pub enum SleepReply {
    /// Answer the system's question whether it may sleep; `deny` refuses.
    ReplyToSleepQuery { deny: bool },
    /// Acknowledge that the reader is ready for the sleep or wake-up announced.
    AcknowledgeNotification,
}

/// The answer to the sleep notification `notification_id` in a development
/// build (`dev_mode`) or not.
pub open spec fn sleep_reply(notification_id: u32, dev_mode: bool) -> SleepReply {
    if notification_id == SLEEP_REQUESTED {
        SleepReply::ReplyToSleepQuery { deny: dev_mode }
    } else {
        SleepReply::AcknowledgeNotification
    }
}

/// The answer to the sleep notification `notification_id`: a request to sleep
/// is refused in development builds (`dev_mode`), where sleeping and logging
/// interfere, and allowed otherwise; any other notification is acknowledged.
pub fn handle_sleep_notification(notification_id: u32, dev_mode: bool) -> (r: SleepReply)
    ensures
        r == sleep_reply(notification_id, dev_mode),
{
    if notification_id == SLEEP_REQUESTED {
        SleepReply::ReplyToSleepQuery { deny: dev_mode }
    } else {
        SleepReply::AcknowledgeNotification
    }
}

/// After the launch flag has been asked once, it says `false` until a game is
/// launched; after a launch, it says `true`, once.
pub proof fn lemma_new_game_launch_reported_once(
    launch: GameLaunch,
    hooked: Option<(u64, Result<(), i32>)>,
)
    ensures
        !launch_checked(launch_checked(launch).0).1,
        launch_checked(launch_handled(launch, hooked).0).1,
        !launch_checked(launch_checked(launch_handled(launch, hooked).0).0).1,
{
}

/// The two halves of a title id put together give the title id back.
pub proof fn lemma_title_id_halves(title_id: u64)
    ensures
        title_id_halves(title_id).0 * 0x1_0000_0000 + title_id_halves(title_id).1 == title_id,
{
}

/// The system's question whether it may sleep (notification 0x101) is answered,
/// with a refusal exactly in development builds; every other notification
/// (going to sleep, waking up) is acknowledged.
pub proof fn lemma_sleep_replies(notification_id: u32, dev_mode: bool)
    ensures
        sleep_reply(0x101, true) == (SleepReply::ReplyToSleepQuery { deny: true }),
        sleep_reply(0x101, false) == (SleepReply::ReplyToSleepQuery { deny: false }),
        notification_id != 0x101 ==> sleep_reply(notification_id, dev_mode) == SleepReply::AcknowledgeNotification,
{
}

} // verus!
