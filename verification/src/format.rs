//! The text of a relayed event.
//!
//! A line is what a user did, by kind; rendering it for a target puts the
//! target's prefix and suffix around the user's name.

use vstd::prelude::*;

verus! {

/// The name of a speaker as a target channel shows it.
pub open spec fn decorated(prefix: Seq<char>, display_name: Seq<char>, suffix: Seq<char>) -> Seq<
    char,
> {
    prefix + display_name + suffix
}

/// `* {prefix}{name}{suffix} {text}`
pub open spec fn action_text(
    prefix: Seq<char>,
    display_name: Seq<char>,
    suffix: Seq<char>,
    text: Seq<char>,
) -> Seq<char> {
    "* "@ + decorated(prefix, display_name, suffix) + " "@ + text
}

/// `{prefix}{name}{suffix}: {text}`
pub open spec fn message_text(
    prefix: Seq<char>,
    display_name: Seq<char>,
    suffix: Seq<char>,
    text: Seq<char>,
) -> Seq<char> {
    decorated(prefix, display_name, suffix) + ": "@ + text
}

/// `{prefix}{name}{suffix}: !{command}`, followed by a space and the
/// argument where there is one.
pub open spec fn command_text(
    prefix: Seq<char>,
    display_name: Seq<char>,
    suffix: Seq<char>,
    command: Seq<char>,
    arg: Seq<char>,
) -> Seq<char> {
    if arg.len() == 0 {
        decorated(prefix, display_name, suffix) + ": !"@ + command
    } else {
        decorated(prefix, display_name, suffix) + ": !"@ + command + " "@ + arg
    }
}

/// `{prefix}{name}{suffix}: {nick}: {text}`
pub open spec fn mention_text(
    prefix: Seq<char>,
    display_name: Seq<char>,
    suffix: Seq<char>,
    nick: Seq<char>,
    text: Seq<char>,
) -> Seq<char> {
    decorated(prefix, display_name, suffix) + ": "@ + nick + ": "@ + text
}

/// What a user did in a channel, as far as it shows in the relayed text.
#[derive(Debug)]
pub enum Line {
    Action { display_name: String, text: String },
    Message { display_name: String, text: String },
    Command { display_name: String, command: String, arg: String },
    Mention { display_name: String, nick: String, text: String },
}

/// What a user did in a channel, as plain values.
pub enum LineView {
    Action { display_name: Seq<char>, text: Seq<char> },
    Message { display_name: Seq<char>, text: Seq<char> },
    Command { display_name: Seq<char>, command: Seq<char>, arg: Seq<char> },
    Mention { display_name: Seq<char>, nick: Seq<char>, text: Seq<char> },
}

impl View for Line {
    type V = LineView;

    open spec fn view(&self) -> LineView {
        match *self {
            Line::Action { display_name, text } => LineView::Action {
                display_name: display_name@,
                text: text@,
            },
            Line::Message { display_name, text } => LineView::Message {
                display_name: display_name@,
                text: text@,
            },
            Line::Command { display_name, command, arg } => LineView::Command {
                display_name: display_name@,
                command: command@,
                arg: arg@,
            },
            Line::Mention { display_name, nick, text } => LineView::Mention {
                display_name: display_name@,
                nick: nick@,
                text: text@,
            },
        }
    }
}

impl LineView {
    /// The text of the line in a channel with this prefix and suffix.
    pub open spec fn render(self, prefix: Seq<char>, suffix: Seq<char>) -> Seq<char> {
        match self {
            LineView::Action { display_name, text } => action_text(
                prefix,
                display_name,
                suffix,
                text,
            ),
            LineView::Message { display_name, text } => message_text(
                prefix,
                display_name,
                suffix,
                text,
            ),
            LineView::Command { display_name, command, arg } => command_text(
                prefix,
                display_name,
                suffix,
                command,
                arg,
            ),
            LineView::Mention { display_name, nick, text } => mention_text(
                prefix,
                display_name,
                suffix,
                nick,
                text,
            ),
        }
    }
}

/// The name of a speaker between a target's prefix and suffix.
fn decorate(prefix: &str, display_name: &str, suffix: &str) -> (name: String)
    ensures
        name@ == decorated(prefix@, display_name@, suffix@),
{
    let mut name = prefix.to_owned();
    name.append(display_name);
    name.append(suffix);
    name
}

/// The text that relays what a user did: `* {prefix}{name}{suffix} {text}`.
pub fn format_action(prefix: &str, display_name: &str, suffix: &str, text: &str) -> (line: String)
    ensures
        line@ == action_text(prefix@, display_name@, suffix@, text@),
{
    let mut line = "* ".to_owned();
    line.append(prefix);
    line.append(display_name);
    line.append(suffix);
    line.append(" ");
    line.append(text);
    assert(line@ =~= action_text(prefix@, display_name@, suffix@, text@));
    line
}

/// The text that relays what a user said: `{prefix}{name}{suffix}: {text}`.
pub fn format_message(prefix: &str, display_name: &str, suffix: &str, text: &str) -> (line: String)
    ensures
        line@ == message_text(prefix@, display_name@, suffix@, text@),
{
    let mut line = decorate(prefix, display_name, suffix);
    line.append(": ");
    line.append(text);
    line
}

/// The text that relays a command: `{prefix}{name}{suffix}: !{command}`,
/// followed by a space and the argument where the argument is not empty.
pub fn format_command(
    prefix: &str,
    display_name: &str,
    suffix: &str,
    command: &str,
    arg: &str,
) -> (line: String)
    ensures
        line@ == command_text(prefix@, display_name@, suffix@, command@, arg@),
{
    let mut line = decorate(prefix, display_name, suffix);
    line.append(": !");
    line.append(command);
    if !arg.is_empty() {
        line.append(" ");
        line.append(arg);
    }
    line
}

/// The text that relays a mention of the relay's own name:
/// `{prefix}{name}{suffix}: {nick}: {text}`.
pub fn format_mention(
    prefix: &str,
    display_name: &str,
    suffix: &str,
    nick: &str,
    text: &str,
) -> (line: String)
    ensures
        line@ == mention_text(prefix@, display_name@, suffix@, nick@, text@),
{
    let mut line = decorate(prefix, display_name, suffix);
    line.append(": ");
    line.append(nick);
    line.append(": ");
    line.append(text);
    line
}

impl Line {
    /// The text of the line in a channel with this prefix and suffix.
    pub fn render(&self, prefix: &str, suffix: &str) -> (text: String)
        ensures
            text@ == self@.render(prefix@, suffix@),
    {
        match self {
            Line::Action { display_name, text } => format_action(
                prefix,
                display_name.as_str(),
                suffix,
                text.as_str(),
            ),
            Line::Message { display_name, text } => format_message(
                prefix,
                display_name.as_str(),
                suffix,
                text.as_str(),
            ),
            Line::Command { display_name, command, arg } => format_command(
                prefix,
                display_name.as_str(),
                suffix,
                command.as_str(),
                arg.as_str(),
            ),
            Line::Mention { display_name, nick, text } => format_mention(
                prefix,
                display_name.as_str(),
                suffix,
                nick.as_str(),
                text.as_str(),
            ),
        }
    }
}

} // verus!
