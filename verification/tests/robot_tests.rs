use pico_labs::robot::{
    display_message, is_valid_direction, move_message, move_reply, refusal_reply, CommandError,
};

#[test]
fn known_directions_become_commands() {
    for dir in ["forward", "left", "right", "backward", "stop", "turn"] {
        assert!(is_valid_direction(dir));
        assert_eq!(move_message(dir), Ok(format!("direction:{}", dir)));
    }
}

#[test]
fn unknown_directions_are_refused() {
    for dir in ["", "up", "Forward", "forward ", "turnaround"] {
        assert!(!is_valid_direction(dir));
        assert_eq!(move_message(dir), Err(CommandError::InvalidMove));
    }
    assert_eq!(refusal_reply(CommandError::InvalidMove), "Invalid move command");
}

#[test]
fn replies_and_display_text() {
    assert_eq!(move_reply("direction:left"), "Command sent: direction:left");
    assert_eq!(display_message("Hello"), "text:'Hello'");
    assert_eq!(display_message(""), "text:''");
}
