use wolfenstein_gym::api::{begin_step, get_screen, poll_step, step_result, submit_reset, StepTicket};
use wolfenstein_gym::actions::{Actions, SHOOT, IDLE};
use wolfenstein_gym::frame::Frame;
use wolfenstein_gym::pump::{register_hit, store_capture, Pump, SimCommand, SimPhase};
use wolfenstein_gym::state::{AIGymSettings, AIGymState, OfferError};

fn settings(num_agents: usize) -> AIGymSettings {
    AIGymSettings {
        width: 2,
        height: 2,
        num_agents,
        pause_interval_ms: 100,
        render_to_buffer: true,
    }
}

fn payloads(tokens: &[&str]) -> Vec<Vec<u8>> {
    tokens.iter().map(|t| t.as_bytes().to_vec()).collect()
}

/// A gym with its pump waiting at the first control point of a round.
fn paused_gym(num_agents: usize) -> (AIGymState<()>, Pump) {
    let mut gym: AIGymState<()> = AIGymState::new(settings(num_agents));
    let mut pump = Pump::new();
    pump.round_started();
    let healths = vec![100u16; num_agents];
    assert!(matches!(pump.running_tick(&mut gym, 100, &healths, 60), SimCommand::Pause));
    assert_eq!(pump.phase, SimPhase::PausedForControl);
    assert!(gym.is_paused());
    (gym, pump)
}

/// Runs one whole step: submit, consume, run until the next control point.
fn run_step(
    gym: &mut AIGymState<()>,
    pump: &mut Pump,
    tokens: &[&str],
    healths: &Vec<u16>,
) -> StepTicket {
    let ticket = begin_step(gym, payloads(tokens)).unwrap();
    assert!(matches!(pump.paused_tick(gym), SimCommand::Apply(_)));
    assert!(poll_step(gym, ticket).is_none());
    assert!(matches!(pump.running_tick(gym, 100, healths, 60), SimCommand::Pause));
    ticket
}

#[test]
fn zero_health_terminates_only_that_agent() {
    let (mut gym, mut pump) = paused_gym(2);
    let ticket = begin_step(&mut gym, payloads(&["FORWARD", "FORWARD"])).unwrap();
    assert!(matches!(pump.paused_tick(&mut gym), SimCommand::Apply(_)));
    let healths = vec![0u16, 100];
    assert!(matches!(pump.running_tick(&mut gym, 40, &healths, 60), SimCommand::Continue));
    assert!(poll_step(&gym, ticket).is_none());
    assert!(matches!(pump.running_tick(&mut gym, 60, &healths, 60), SimCommand::Pause));
    let r = poll_step(&gym, ticket).unwrap();
    assert_eq!(r.is_terminated, vec![true, false]);
    assert_eq!(pump.phase, SimPhase::PausedForControl);
}

#[test]
fn shoot_without_target_gives_no_reward() {
    let (mut gym, mut pump) = paused_gym(1);
    let healths = vec![100u16];
    let t = run_step(&mut gym, &mut pump, &["SHOOT"], &healths);
    let r = poll_step(&gym, t).unwrap();
    assert_eq!(r.rewards, vec![0i64]);
    assert_eq!(r.is_terminated, vec![false]);
    assert_eq!(r.rejected, vec![false]);
}

#[test]
fn empty_action_is_a_no_op_step() {
    let (mut gym, mut pump) = paused_gym(1);
    let healths = vec![100u16];
    let first = run_step(&mut gym, &mut pump, &["SHOOT"], &healths);
    let before = poll_step(&gym, first).unwrap();
    let ticket = begin_step(&mut gym, payloads(&[""])).unwrap();
    match pump.paused_tick(&mut gym) {
        SimCommand::Apply(a) => assert_eq!(a, vec![Some(Actions { bits: IDLE })]),
        _ => panic!("expected the step to be applied"),
    }
    assert!(matches!(pump.running_tick(&mut gym, 100, &healths, 60), SimCommand::Pause));
    let after = poll_step(&gym, ticket).unwrap();
    assert_eq!(after.rewards, vec![0i64]);
    assert_eq!(after.is_terminated, before.is_terminated);
    assert_eq!(after.rejected, vec![false]);
    assert_eq!(gym.score(0), 0);
}

#[test]
fn reset_then_screen_shows_new_round() {
    let (mut gym, mut pump) = paused_gym(1);
    let old_frame = vec![1u8; 16];
    assert!(store_capture(&mut gym, old_frame.clone()));
    let old_png = get_screen(&gym).unwrap();
    submit_reset(&mut gym);
    assert!(matches!(pump.paused_tick(&mut gym), SimCommand::Respawn));
    assert!(get_screen(&gym).is_none());
    pump.round_started();
    let new_frame = vec![200u8; 16];
    assert!(store_capture(&mut gym, new_frame.clone()));
    let new_png = get_screen(&gym).unwrap();
    assert_ne!(new_png, old_png);
    let expected = Frame::from_raw(2, 2, new_frame).unwrap().to_png().unwrap();
    assert_eq!(new_png, expected);
}

#[test]
fn rewards_are_deltas_of_recorded_scores() {
    let (mut gym, mut pump) = paused_gym(2);
    let mut healths = vec![100u16, 100];
    let t1 = begin_step(&mut gym, payloads(&["SHOOT", ""])).unwrap();
    assert!(matches!(pump.paused_tick(&mut gym), SimCommand::Apply(_)));
    assert!(register_hit(&mut gym, &mut healths, 0, 1));
    assert_eq!(healths, vec![100, 0]);
    assert!(matches!(pump.running_tick(&mut gym, 100, &healths, 60), SimCommand::Pause));
    let r1 = poll_step(&gym, t1).unwrap();
    assert_eq!(r1.rewards, vec![10i64, 0]);
    assert_eq!(r1.is_terminated, vec![false, true]);
    let t2 = run_step(&mut gym, &mut pump, &["SHOOT", ""], &healths);
    let r2 = poll_step(&gym, t2).unwrap();
    assert_eq!(r2.rewards, vec![0i64, 0]);
    assert_eq!(gym.step_count(), 2);
    assert_eq!(gym.score(0), 10);
}

#[test]
fn reward_delta_may_be_negative() {
    let (mut gym, mut pump) = paused_gym(1);
    let healths = vec![100u16];
    gym.set_reward(0, 30);
    run_step(&mut gym, &mut pump, &[""], &healths);
    assert_eq!(gym.reward_delta(0), 30);
    gym.set_reward(0, 5);
    run_step(&mut gym, &mut pump, &[""], &healths);
    assert_eq!(gym.reward_delta(0), -25);
    assert_eq!(step_result(&gym).rewards, vec![-25i64]);
}

#[test]
fn hits_on_self_or_on_downed_agents_count_for_nothing() {
    let mut gym: AIGymState<()> = AIGymState::new(settings(2));
    let mut healths = vec![100u16, 0];
    assert!(!register_hit(&mut gym, &mut healths, 0, 0));
    assert!(!register_hit(&mut gym, &mut healths, 0, 1));
    assert_eq!(healths, vec![100, 0]);
    assert_eq!(gym.score(0), 0);
    let mut healths = vec![100u16, 150];
    assert!(register_hit(&mut gym, &mut healths, 0, 1));
    assert_eq!(healths, vec![100, 50]);
}

#[test]
fn score_saturates() {
    let mut gym: AIGymState<()> = AIGymState::new(settings(2));
    gym.set_reward(0, i32::MAX - 3);
    let mut healths = vec![100u16, 100];
    assert!(register_hit(&mut gym, &mut healths, 0, 1));
    assert_eq!(gym.score(0), i32::MAX);
}

#[test]
fn unrecognized_payload_moves_nothing_and_is_flagged() {
    let (mut gym, mut pump) = paused_gym(2);
    let ticket = begin_step(&mut gym, payloads(&["JUMP", "SHOOT"])).unwrap();
    match pump.paused_tick(&mut gym) {
        SimCommand::Apply(a) => assert_eq!(a, vec![None, Some(Actions { bits: SHOOT })]),
        _ => panic!("expected the step to be applied"),
    }
    let healths = vec![100u16, 100];
    assert!(matches!(pump.running_tick(&mut gym, 100, &healths, 60), SimCommand::Pause));
    let r = poll_step(&gym, ticket).unwrap();
    assert_eq!(r.rejected, vec![true, false]);
    assert_eq!(r.is_terminated, vec![false, false]);
    assert_eq!(r.rewards, vec![0i64, 0]);
}

#[test]
fn offers_are_refused_unless_waiting() {
    let mut gym: AIGymState<()> = AIGymState::new(settings(1));
    assert_eq!(begin_step(&mut gym, payloads(&["FORWARD"])).err(), Some(OfferError::NotPaused));
    let (mut gym, mut pump) = paused_gym(1);
    assert_eq!(begin_step(&mut gym, payloads(&[])).err(), Some(OfferError::AgentCount));
    assert_eq!(
        begin_step(&mut gym, payloads(&["FORWARD", "LEFT"])).err(),
        Some(OfferError::AgentCount)
    );
    let t = begin_step(&mut gym, payloads(&["FORWARD"])).unwrap();
    assert_eq!(t, StepTicket { episode: 0, steps: 0 });
    assert_eq!(begin_step(&mut gym, payloads(&["LEFT"])).err(), Some(OfferError::Busy));
    assert!(matches!(pump.paused_tick(&mut gym), SimCommand::Apply(_)));
    assert_eq!(begin_step(&mut gym, payloads(&["LEFT"])).err(), Some(OfferError::NotPaused));
}

#[test]
fn each_action_is_consumed_once() {
    let (mut gym, mut pump) = paused_gym(1);
    begin_step(&mut gym, payloads(&["FORWARD"])).unwrap();
    assert!(gym.has_pending_action());
    let got = gym.receive_action();
    assert_eq!(got, Some(payloads(&["FORWARD"])));
    assert!(!gym.has_pending_action());
    assert_eq!(gym.receive_action(), None);
    assert!(matches!(pump.paused_tick(&mut gym), SimCommand::Wait));
    assert_eq!(pump.phase, SimPhase::PausedForControl);
}

#[test]
fn round_over_when_all_down_or_time_out() {
    let (mut gym, mut pump) = paused_gym(2);
    run_step(&mut gym, &mut pump, &["", ""], &vec![100u16, 100]);
    let ticket = begin_step(&mut gym, payloads(&["", ""])).unwrap();
    assert!(matches!(pump.paused_tick(&mut gym), SimCommand::Apply(_)));
    assert!(matches!(
        pump.running_tick(&mut gym, 10, &vec![100u16, 100], 0),
        SimCommand::Pause
    ));
    assert_eq!(pump.phase, SimPhase::RoundOver);
    let r = poll_step(&gym, ticket).unwrap();
    assert_eq!(r.is_terminated, vec![true, true]);

    let (mut gym, mut pump) = paused_gym(2);
    let ticket = begin_step(&mut gym, payloads(&["", ""])).unwrap();
    assert!(matches!(pump.paused_tick(&mut gym), SimCommand::Apply(_)));
    assert!(matches!(
        pump.running_tick(&mut gym, 10, &vec![0u16, 0], 30),
        SimCommand::Pause
    ));
    assert_eq!(pump.phase, SimPhase::RoundOver);
    assert_eq!(poll_step(&gym, ticket).unwrap().is_terminated, vec![true, true]);
}

#[test]
fn step_after_round_over_answers_at_once() {
    let (mut gym, mut pump) = paused_gym(1);
    let ticket = begin_step(&mut gym, payloads(&["FORWARD"])).unwrap();
    assert!(matches!(pump.paused_tick(&mut gym), SimCommand::Apply(_)));
    assert!(matches!(pump.running_tick(&mut gym, 10, &vec![0u16], 30), SimCommand::Pause));
    assert!(poll_step(&gym, ticket).is_some());
    let late = begin_step(&mut gym, payloads(&["FORWARD"])).unwrap();
    assert!(poll_step(&gym, late).is_none());
    assert!(matches!(pump.paused_tick(&mut gym), SimCommand::Wait));
    let r = poll_step(&gym, late).unwrap();
    assert_eq!(r.is_terminated, vec![true]);
    assert_eq!(r.rewards, vec![0i64]);
    assert_eq!(pump.phase, SimPhase::RoundOver);
}

#[test]
fn termination_stays_until_reset() {
    let (mut gym, mut pump) = paused_gym(2);
    run_step(&mut gym, &mut pump, &["", ""], &vec![0u16, 100]);
    assert!(gym.is_terminated(0));
    gym.set_terminated(0, false);
    assert!(gym.is_terminated(0));
    run_step(&mut gym, &mut pump, &["", ""], &vec![100u16, 100]);
    assert!(gym.is_terminated(0));
    assert!(!gym.is_terminated(1));
    submit_reset(&mut gym);
    assert!(matches!(pump.paused_tick(&mut gym), SimCommand::Respawn));
    assert!(!gym.is_terminated(0));
}

#[test]
fn reset_twice_equals_reset_once() {
    let (mut gym, mut pump) = paused_gym(2);
    let mut healths = vec![100u16, 100];
    begin_step(&mut gym, payloads(&["SHOOT", ""])).unwrap();
    assert!(matches!(pump.paused_tick(&mut gym), SimCommand::Apply(_)));
    register_hit(&mut gym, &mut healths, 0, 1);
    assert!(matches!(pump.running_tick(&mut gym, 100, &healths, 60), SimCommand::Pause));
    assert_eq!(gym.step_count(), 1);
    submit_reset(&mut gym);
    assert!(!gym.reset_acknowledged());
    submit_reset(&mut gym);
    assert!(gym.reset_requested());
    assert!(!gym.reset_acknowledged());
    assert!(matches!(pump.paused_tick(&mut gym), SimCommand::Respawn));
    assert_eq!(pump.phase, SimPhase::Initializing);
    assert!(!gym.reset_requested());
    assert!(gym.reset_acknowledged());
    assert_eq!(gym.step_count(), 0);
    assert_eq!(gym.score(0), 0);
    assert!(!gym.is_terminated(1));
    assert_eq!(gym.episode(), 1);
    assert!(!gym.is_paused());
    pump.round_started();
    assert_eq!(pump.phase, SimPhase::Running);
}

#[test]
fn reset_waits_for_a_pending_step() {
    let (mut gym, mut pump) = paused_gym(1);
    let ticket = begin_step(&mut gym, payloads(&["FORWARD"])).unwrap();
    submit_reset(&mut gym);
    assert!(matches!(pump.paused_tick(&mut gym), SimCommand::Apply(_)));
    assert!(matches!(
        pump.running_tick(&mut gym, 100, &vec![100u16], 60),
        SimCommand::Pause
    ));
    assert!(poll_step(&gym, ticket).is_some());
    assert!(matches!(pump.paused_tick(&mut gym), SimCommand::Respawn));
    assert!(poll_step(&gym, ticket).is_some());
}

#[test]
fn timer_accumulates_until_the_pause_interval() {
    let mut gym: AIGymState<()> = AIGymState::new(settings(1));
    let mut pump = Pump::new();
    pump.round_started();
    let h = vec![100u16];
    assert!(matches!(pump.running_tick(&mut gym, 30, &h, 60), SimCommand::Continue));
    assert_eq!(pump.elapsed_ms, 30);
    assert!(matches!(pump.running_tick(&mut gym, 69, &h, 60), SimCommand::Continue));
    assert_eq!(pump.elapsed_ms, 99);
    assert!(matches!(pump.running_tick(&mut gym, 1, &h, 60), SimCommand::Pause));
    assert_eq!(pump.elapsed_ms, 0);
    assert!(matches!(pump.paused_tick(&mut gym), SimCommand::Wait));
}

#[test]
fn capture_needs_rendering_and_enough_bytes() {
    let mut gym: AIGymState<()> = AIGymState::new(settings(1));
    assert!(!store_capture(&mut gym, vec![0u8; 15]));
    assert!(get_screen(&gym).is_none());
    assert!(store_capture(&mut gym, vec![7u8; 20]));
    let f = gym.screen().unwrap();
    assert_eq!(f.pixels(), &vec![7u8; 16]);
    let mut headless = settings(1);
    headless.render_to_buffer = false;
    let mut gym: AIGymState<()> = AIGymState::new(headless);
    assert!(!store_capture(&mut gym, vec![0u8; 16]));
    assert!(gym.screen().is_none());
}

#[test]
fn env_state_is_replaced() {
    let mut gym: AIGymState<u32> = AIGymState::new(settings(1));
    assert_eq!(gym.env_state(), &None);
    gym.set_env_state(3);
    gym.set_env_state(4);
    assert_eq!(gym.env_state(), &Some(4));
}

#[test]
fn stored_frame_always_gives_a_png() {
    let mut gym: AIGymState<()> = AIGymState::new(settings(1));
    let raw: Vec<u8> = (0..16u8).collect();
    assert!(store_capture(&mut gym, raw.clone()));
    let png = get_screen(&gym).unwrap();
    assert_eq!(&png[..4], &[0x89, b'P', b'N', b'G']);
    assert_eq!(png, Frame::from_raw(2, 2, raw).unwrap().to_png().unwrap());
}

#[test]
fn reset_request_leaves_the_acknowledgement_alone() {
    let (mut gym, mut pump) = paused_gym(1);
    submit_reset(&mut gym);
    assert!(matches!(pump.paused_tick(&mut gym), SimCommand::Respawn));
    assert!(gym.reset_acknowledged());
    pump.round_started();
    submit_reset(&mut gym);
    assert!(gym.reset_requested());
    assert!(gym.reset_acknowledged());
    assert_eq!(gym.receive_reset_request(), true);
    assert!(!gym.reset_acknowledged());
    gym.clear_round();
    assert!(gym.reset_acknowledged());
    assert_eq!(gym.receive_reset_request(), false);
    assert!(gym.reset_acknowledged());
}
