use orgonaut::CommandState;
use orgonaut::Position;

#[test]
fn new_state_is_empty() {
    let state = CommandState::new();
    assert!(state.is_empty());
    assert!(!state.is_operator_pending());
    assert_eq!(state.get_operator(), None);
    assert!(!state.has_count());
    assert_eq!(state.get_count(), 1);
    assert_eq!(state.get_start_position(), None);
}

#[test]
fn parse_count_accumulates_digits() {
    let mut state = CommandState::new();
    assert!(state.parse_count('1'));
    assert!(state.parse_count('2'));
    assert_eq!(state.get_count(), 12);
    assert!(state.has_count());
    assert!(state.parse_count('0'));
    assert_eq!(state.get_count(), 120);
    assert!(!state.parse_count('x'));
    assert_eq!(state.get_count(), 120);
}

#[test]
fn parse_count_leading_zero() {
    let mut state = CommandState::new();
    assert!(state.parse_count('0'));
    assert_eq!(state.get_count(), 0);
    assert!(state.has_count());
}

#[test]
fn operator_pending_round_trip() {
    let mut state = CommandState::new();
    state.set_operator_pending('d');
    assert!(state.is_operator_pending());
    assert_eq!(state.get_operator(), Some('d'));
    state.clear();
    assert!(!state.is_operator_pending());
    assert_eq!(state.get_operator(), None);
    assert!(state.is_empty());
}

#[test]
fn start_position_round_trip() {
    let mut state = CommandState::new();
    state.set_start_position(Position { x: 2, y: 5 });
    assert_eq!(state.get_start_position(), Some(Position { x: 2, y: 5 }));
    state.clear();
    assert_eq!(state.get_start_position(), None);
}

#[test]
fn as_string_renders_count_operator_buffer() {
    let mut state = CommandState::new();
    state.parse_count('3');
    state.set_operator_pending('d');
    state.push('w');
    assert_eq!(state.as_string(), "3dw");

    let mut state = CommandState::new();
    state.parse_count('1');
    state.parse_count('2');
    assert_eq!(state.as_string(), "12");

    let state = CommandState::new();
    assert_eq!(state.as_string(), "");
}
