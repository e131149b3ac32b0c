use wolfenstein_gym::actions::{
    control_agent, parse_action, ActionError, Actions, Motion, AGENT_SPEED, BACKWARD, FORWARD,
    IDLE, LEFT, RIGHT, SHOOT, TURN_LEFT, TURN_RIGHT,
};

#[test]
fn parse_each_token() {
    let cases: Vec<(&str, u32)> = vec![
        ("FORWARD", FORWARD),
        ("BACKWARD", BACKWARD),
        ("LEFT", LEFT),
        ("RIGHT", RIGHT),
        ("TURN_LEFT", TURN_LEFT),
        ("TURN_RIGHT", TURN_RIGHT),
        ("SHOOT", SHOOT),
    ];
    for (token, bits) in cases {
        assert_eq!(parse_action(token.as_bytes()), Ok(Actions { bits }));
    }
}

#[test]
fn parse_empty_is_idle() {
    assert_eq!(parse_action(b""), Ok(Actions { bits: IDLE }));
}

#[test]
fn parse_rejects_unknown_tokens() {
    assert_eq!(parse_action(b"JUMP"), Err(ActionError::Unrecognized));
    assert_eq!(parse_action(b"forward"), Err(ActionError::Unrecognized));
    assert_eq!(parse_action(b"FORWARD "), Err(ActionError::Unrecognized));
    assert_eq!(parse_action(b"TURN_"), Err(ActionError::Unrecognized));
    assert_eq!(parse_action(&[0xff, 0xfe]), Err(ActionError::Unrecognized));
}

#[test]
fn flags_compose() {
    let a = Actions::from_bits(FORWARD).union(Actions::from_bits(SHOOT));
    assert_eq!(a.bits, FORWARD | SHOOT);
    assert!(a.contains(Actions::from_bits(FORWARD)));
    assert!(a.contains(Actions::from_bits(SHOOT)));
    assert!(!a.contains(Actions::from_bits(LEFT)));
}

#[test]
fn motion_of_single_actions() {
    let m = control_agent(Some(Actions::from_bits(FORWARD)), true, false);
    assert_eq!(m, Motion { forward: AGENT_SPEED, right: 0, turn: 0, shoot: false });
    let m = control_agent(Some(Actions::from_bits(BACKWARD)), true, false);
    assert_eq!(m, Motion { forward: -10, right: 0, turn: 0, shoot: false });
    let m = control_agent(Some(Actions::from_bits(LEFT)), true, false);
    assert_eq!(m, Motion { forward: 0, right: -10, turn: 0, shoot: false });
    let m = control_agent(Some(Actions::from_bits(RIGHT)), true, false);
    assert_eq!(m, Motion { forward: 0, right: 10, turn: 0, shoot: false });
    let m = control_agent(Some(Actions::from_bits(TURN_LEFT)), true, false);
    assert_eq!(m, Motion { forward: 0, right: 0, turn: 1, shoot: false });
    let m = control_agent(Some(Actions::from_bits(TURN_RIGHT)), true, false);
    assert_eq!(m, Motion { forward: 0, right: 0, turn: -1, shoot: false });
    let m = control_agent(Some(Actions::from_bits(SHOOT)), true, false);
    assert_eq!(m, Motion { forward: 0, right: 0, turn: 0, shoot: true });
}

#[test]
fn motion_of_combined_actions() {
    let a = Actions::from_bits(FORWARD | RIGHT | TURN_LEFT | TURN_RIGHT);
    let m = control_agent(Some(a), true, false);
    assert_eq!(m, Motion { forward: 10, right: 10, turn: -1, shoot: false });
    let a = Actions::from_bits(FORWARD | BACKWARD);
    assert_eq!(control_agent(Some(a), true, false).forward, 0);
}

#[test]
fn motion_of_dead_collided_or_idle_agent() {
    let a = Actions::from_bits(FORWARD | SHOOT);
    assert_eq!(
        control_agent(Some(a), false, false),
        Motion { forward: 0, right: 0, turn: 0, shoot: false }
    );
    assert_eq!(
        control_agent(Some(a), true, true),
        Motion { forward: 0, right: 0, turn: 0, shoot: true }
    );
    assert_eq!(
        control_agent(None, true, false),
        Motion { forward: 0, right: 0, turn: 0, shoot: false }
    );
    assert_eq!(
        control_agent(Some(Actions::from_bits(IDLE)), true, false),
        Motion { forward: 0, right: 0, turn: 0, shoot: false }
    );
}
