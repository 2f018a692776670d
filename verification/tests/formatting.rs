use seabird_proxy::format::{format_action, format_command, format_mention, format_message};

#[test]
fn action_puts_star_before_decorated_name() {
    assert_eq!(format_action("<", "alice", ">", "waves"), "* <alice> waves");
}

#[test]
fn message_puts_colon_behind_decorated_name() {
    assert_eq!(format_message("", "alice", "[x]", "hi"), "alice[x]: hi");
}

#[test]
fn command_without_argument_ends_with_command() {
    assert_eq!(format_command("", "alice", "[x]", "ping", ""), "alice[x]: !ping");
}

#[test]
fn command_with_argument_appends_argument() {
    assert_eq!(format_command("", "alice", "[x]", "ping", "1 2"), "alice[x]: !ping 1 2");
}

#[test]
fn mention_names_the_relay_between_name_and_text() {
    assert_eq!(
        format_mention("", "alice", "[x]", "seabird", "hello"),
        "alice[x]: seabird: hello"
    );
}
