use among_us_bot::among_us::{GameInstance, KillOutcome, ReviveOutcome, NO_LEADER};
use among_us_bot::option_to_result::{ToResult, NO_CHANNEL, NO_SESSION};
use among_us_bot::registry::{command_needs_voice, Admission, Departure, Games, Rejection};

const C: u64 = 700;
const TEXT: u64 = 900;

fn dead_of(games: &Games, c: u64) -> Vec<u64> {
    let g = games.session(c).expect("session");
    let mut dead: Vec<u64> = g.dead_players.keys().copied().collect();
    dead.sort();
    dead
}

#[test]
fn scenario_kill_leave_teardown() {
    let (l, m, n, m2) = (10u64, 11u64, 12u64, 13u64);
    let mut games = Games::new();
    assert_eq!(games.authorize("kill", l, Some(C), TEXT), Ok(Admission::Created));
    let g = games.session(C).unwrap();
    assert_eq!(g.leader_user_id, l);
    assert!(g.global_unmute);
    assert!(g.dead_players.is_empty());

    // The leader kills M.
    assert_eq!(games.authorize("kill", l, Some(C), TEXT), Ok(Admission::Leader));
    assert_eq!(games.kill(C, m), Ok(KillOutcome::Killed));
    assert_eq!(dead_of(&games, C), vec![m]);

    // N is no leader: refused, nothing changes.
    assert_eq!(games.authorize("kill", n, Some(C), TEXT), Err(Rejection::HasLeader));
    assert_eq!(dead_of(&games, C), vec![m]);
    assert_eq!(games.session(C).unwrap().leader_user_id, l);

    // M leaves: no longer dead.
    assert_eq!(
        games.member_left(C, m, 3),
        Some(Departure { announce_to: TEXT, stepped_down: false, ended: false })
    );
    assert!(dead_of(&games, C).is_empty());

    // L leaves while M2 stays: the seat is free, the session stays.
    assert_eq!(
        games.member_left(C, l, 1),
        Some(Departure { announce_to: TEXT, stepped_down: true, ended: false })
    );
    assert_eq!(games.session(C).unwrap().leader_user_id, NO_LEADER);

    // M2 leaves: the channel is empty, the session is gone.
    assert_eq!(
        games.member_left(C, m2, 0),
        Some(Departure { announce_to: TEXT, stepped_down: false, ended: true })
    );
    assert!(games.session(C).is_none());
}

#[test]
fn authorize_refuses_without_voice() {
    let mut games = Games::new();
    assert_eq!(games.authorize("play", 1, None, TEXT), Err(Rejection::NotInVoice));
    assert_eq!(games.authorize("kill", 1, None, TEXT), Err(Rejection::NotInVoice));
    assert_eq!(games.authorize("help", 1, None, TEXT), Ok(Admission::NoVoiceNeeded));
    assert_eq!(games.authorize("prefix", 1, None, TEXT), Ok(Admission::NoVoiceNeeded));
    assert!(games.session(C).is_none());
    assert!(command_needs_voice("reset"));
    assert!(!command_needs_voice("help"));
    assert!(command_needs_voice("helpme"));
}

#[test]
fn authorize_leader_moves_text_channel() {
    let mut games = Games::new();
    games.authorize("play", 1, Some(C), TEXT).unwrap();
    assert_eq!(games.authorize("play", 1, Some(C), TEXT + 1), Ok(Admission::Leader));
    assert_eq!(games.session(C).unwrap().recent_text_channel_id, TEXT + 1);
    // A refused caller leaves the text channel alone.
    assert_eq!(games.authorize("play", 2, Some(C), TEXT + 2), Err(Rejection::HasLeader));
    assert_eq!(games.session(C).unwrap().recent_text_channel_id, TEXT + 1);
}

#[test]
fn second_request_creates_no_second_session() {
    let mut games = Games::new();
    assert_eq!(games.authorize("play", 1, Some(C), TEXT), Ok(Admission::Created));
    games.kill(C, 5).unwrap();
    games.play(C).unwrap();
    assert_eq!(games.authorize("play", 2, Some(C), TEXT), Err(Rejection::HasLeader));
    games.member_left(C, 1, 2);
    assert_eq!(games.authorize("play", 2, Some(C), TEXT), Ok(Admission::Claimed));
    // The claim keeps the session's phase and its dead.
    let g = games.session(C).unwrap();
    assert_eq!(g.leader_user_id, 2);
    assert!(!g.global_unmute);
    assert_eq!(dead_of(&games, C), vec![5]);
    // Another channel gets a session of its own.
    assert_eq!(games.authorize("play", 3, Some(C + 1), TEXT), Ok(Admission::Created));
    assert_eq!(games.session(C).unwrap().leader_user_id, 2);
    assert_eq!(games.session(C + 1).unwrap().leader_user_id, 3);
}

#[test]
fn concurrent_claims_have_one_winner() {
    let mut games = Games::new();
    games.authorize("play", 1, Some(C), TEXT).unwrap();
    games.member_left(C, 1, 2);
    assert_eq!(games.authorize("play", 2, Some(C), TEXT), Ok(Admission::Claimed));
    assert_eq!(games.authorize("play", 3, Some(C), TEXT), Err(Rejection::HasLeader));
    assert_eq!(games.session(C).unwrap().leader_user_id, 2);

    // No session yet: the first creates it, the second is refused.
    let mut fresh = Games::new();
    assert_eq!(fresh.authorize("play", 3, Some(C), TEXT), Ok(Admission::Created));
    assert_eq!(fresh.authorize("play", 2, Some(C), TEXT), Err(Rejection::HasLeader));
    assert_eq!(fresh.session(C).unwrap().leader_user_id, 3);
}

#[test]
fn leader_leaving_frees_the_seat() {
    let mut games = Games::new();
    games.authorize("play", 1, Some(C), TEXT).unwrap();
    let d = games.member_left(C, 1, 4).unwrap();
    assert!(d.stepped_down);
    assert!(!d.ended);
    assert_eq!(games.session(C).unwrap().leader_user_id, NO_LEADER);
    // Someone who is not the leader leaving changes no seat.
    games.authorize("play", 2, Some(C), TEXT).unwrap();
    let d = games.member_left(C, 3, 3).unwrap();
    assert!(!d.stepped_down);
    assert_eq!(games.session(C).unwrap().leader_user_id, 2);
}

#[test]
fn leaving_clears_death_without_revive() {
    let mut games = Games::new();
    games.authorize("play", 1, Some(C), TEXT).unwrap();
    games.kill(C, 5).unwrap();
    games.kill(C, 6).unwrap();
    games.member_left(C, 5, 2);
    assert_eq!(dead_of(&games, C), vec![6]);
    assert_eq!(games.revive(C, 5), Ok(ReviveOutcome::NotKilled));
}

#[test]
fn leaving_a_channel_without_session() {
    let mut games = Games::new();
    assert_eq!(games.member_left(C, 5, 0), None);
    assert!(games.session(C).is_none());
}

#[test]
fn kill_then_revive_restores() {
    let mut games = Games::new();
    games.authorize("kill", 1, Some(C), TEXT).unwrap();
    assert_eq!(games.kill(C, 5), Ok(KillOutcome::Killed));
    assert_eq!(games.kill(C, 5), Ok(KillOutcome::AlreadyKilled));
    assert_eq!(dead_of(&games, C), vec![5]);
    assert_eq!(games.revive(C, 5), Ok(ReviveOutcome::Revived { unmute: true }));
    assert!(dead_of(&games, C).is_empty());
    assert_eq!(games.revive(C, 5), Ok(ReviveOutcome::NotKilled));
}

#[test]
fn revive_in_play_phase_keeps_muted() {
    let mut games = Games::new();
    games.authorize("kill", 1, Some(C), TEXT).unwrap();
    games.kill(C, 5).unwrap();
    games.play(C).unwrap();
    assert_eq!(games.revive(C, 5), Ok(ReviveOutcome::Revived { unmute: false }));
}

#[test]
fn reset_clears_everything() {
    let mut games = Games::new();
    games.authorize("reset", 1, Some(C), TEXT).unwrap();
    games.kill(C, 5).unwrap();
    games.kill(C, 6).unwrap();
    games.play(C).unwrap();
    assert_eq!(games.reset(C), Ok(()));
    let g = games.session(C).unwrap();
    assert!(g.dead_players.is_empty());
    assert!(g.global_unmute);
    assert_eq!(g.leader_user_id, 1);
    // Reset of a fresh session changes nothing.
    assert_eq!(games.reset(C), Ok(()));
    assert!(games.session(C).unwrap().global_unmute);
}

#[test]
fn play_and_discuss() {
    let mut games = Games::new();
    games.authorize("play", 1, Some(C), TEXT).unwrap();
    games.kill(C, 3).unwrap();
    assert_eq!(games.play(C), Ok(()));
    assert!(!games.session(C).unwrap().global_unmute);
    let roster = vec![1u64, 2, 3, 4];
    assert_eq!(games.discuss(C, &roster), Ok(vec![1, 2, 4]));
    assert!(games.session(C).unwrap().global_unmute);
    assert_eq!(games.discuss(C, &Vec::new()), Ok(vec![]));
}

#[test]
fn commands_without_session_fail() {
    let mut games = Games::new();
    assert_eq!(games.play(C), Err(NO_SESSION));
    assert_eq!(games.discuss(C, &vec![1]), Err(NO_SESSION));
    assert_eq!(games.kill(C, 1), Err(NO_SESSION));
    assert_eq!(games.revive(C, 1), Err(NO_SESSION));
    assert_eq!(games.reset(C), Err(NO_SESSION));
    assert_eq!(NO_SESSION, "Games Instance object could not be found");
    assert!(games.session(C).is_none());
}

#[test]
fn joining_unmutes_unless_play_phase() {
    let mut games = Games::new();
    assert!(games.member_joined(C, true));
    assert!(!games.member_joined(C, false));
    games.authorize("play", 1, Some(C), TEXT).unwrap();
    assert!(games.member_joined(C, true));
    games.play(C).unwrap();
    assert!(!games.member_joined(C, true));
    assert!(!games.member_joined(C, false));
    assert!(games.member_joined(C + 1, true));
}

#[test]
fn game_instance_transitions() {
    let mut g = GameInstance::new(4, 8);
    assert_eq!(g.leader_user_id, 4);
    assert_eq!(g.recent_text_channel_id, 8);
    assert!(g.global_unmute);
    assert!(!g.is_dead(2));
    assert_eq!(g.kill(2), KillOutcome::Killed);
    assert!(g.is_dead(2));
    g.mute_all();
    assert!(!g.global_unmute);
    assert_eq!(g.unmute_all_except_dead(&vec![2, 4, 2, 9]), vec![4, 9]);
    assert!(g.global_unmute);
    g.reset();
    assert!(!g.is_dead(2));
}

#[test]
fn rejection_messages() {
    assert_eq!(
        Rejection::NotInVoice.message(),
        "Please enter Voice Chat before using Game commands."
    );
    assert_eq!(
        Rejection::HasLeader.message(),
        "Access denied. Your Game Instance already has a Leader."
    );
}

#[test]
fn to_result_names_what_is_missing() {
    assert_eq!(Some(7u64).to_result(), Ok(7));
    assert_eq!(None::<u64>.to_result(), Err(NO_CHANNEL));
    let missing: Option<GameInstance> = None;
    assert_eq!(missing.to_result().err(), Some(NO_SESSION));
    let present = Some(GameInstance::new(1, 2)).to_result().unwrap();
    assert_eq!(present.leader_user_id, 1);
}
