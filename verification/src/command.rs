//! Interpretation of chat text.
//!
//! A chat message is read by two rules, the first that applies deciding.
//! A text that begins with `!` is a command: its first word names the
//! command and the next word is its argument. A command never becomes an
//! event. Any other text counts only if the message redeems the ball reward;
//! it is then read as a colour, and a text that writes no colour gives white.

use vstd::prelude::*;
use vstd::slice::slice_subrange;
use vstd::string::*;
use crate::color::{spec_parse_hex, spec_parse_hex_or_white, Color};
use crate::event::{Event, EventView};
use crate::text::{chars_of, next_word, same_chars, same_text, spec_next_word, text_of};

verus! {

/// The character that begins a command.
pub const COMMAND_PREFIX: char = '!';

/// Name of the command that launches the external viewer.
pub const VIEWER_COMMAND: &'static str = "mpv";

/// Identifier of the reward whose redemption asks for a ball.
pub const BALL_REWARD: &'static str = "be22f712-8fd9-426a-90df-c13eae6cc6dc";

/// A chat message sent to a channel.
#[derive(Clone, Debug, PartialEq, Eq)]
pub struct Privmsg {
    /// What the sender wrote.
    pub text: String,
    /// Identifier of the reward that the sender redeemed with the message.
    pub custom_reward_id: Option<String>,
}

/// A chat message as a mathematical value.
pub struct PrivmsgView {
    pub text: Seq<char>,
    pub custom_reward_id: Option<Seq<char>>,
}

impl View for Privmsg {
    type V = PrivmsgView;

    open spec fn view(&self) -> PrivmsgView {
        PrivmsgView {
            text: self.text@,
            custom_reward_id: text_of(self.custom_reward_id),
        }
    }
}

/// What a chat message asks for.
#[derive(Clone, Debug, PartialEq, Eq)]
pub enum Action {
    /// Launch the external viewer with `url` as its argument. The argument is
    /// whatever the sender wrote.
    LaunchViewer { url: String },
    /// Hand `event` to the event channel.
    Emit { event: Event },
}

/// An action as a mathematical value.
pub enum ActionView {
    LaunchViewer { url: Seq<char> },
    Emit { event: EventView },
}

impl View for Action {
    type V = ActionView;

    open spec fn view(&self) -> ActionView {
        match *self {
            Action::LaunchViewer { url } => ActionView::LaunchViewer { url: url@ },
            Action::Emit { event } => ActionView::Emit { event: event@ },
        }
    }
}

/// Whether `text` is a command.
pub open spec fn is_command(text: Seq<char>) -> bool {
    text.len() > 0 && text[0] == COMMAND_PREFIX
}

/// What the command `text` asks for: the viewer, if the first word behind the
/// prefix names it and a second word follows; nothing otherwise.
pub open spec fn spec_command(text: Seq<char>) -> Option<ActionView> {
    match spec_next_word(text, 1) {
        Some((start, end)) => if text.subrange(start, end) == VIEWER_COMMAND@ {
            match spec_next_word(text, end) {
                Some((from, to)) => Some(ActionView::LaunchViewer { url: text.subrange(from, to) }),
                None => None,
            }
        } else {
            None
        },
        None => None,
    }
}

/// What the message asks for.
pub open spec fn spec_interpret(message: PrivmsgView) -> Option<ActionView> {
    if is_command(message.text) {
        spec_command(message.text)
    } else if message.custom_reward_id == Some(BALL_REWARD@) {
        Some(
            ActionView::Emit {
                event: EventView::Ball { color: spec_parse_hex_or_white(message.text) },
            },
        )
    } else {
        None
    }
}

/// Reads a chat message and returns what it asks for, `None` where it asks
/// for nothing.
pub fn interpret(message: &Privmsg) -> (action: Option<Action>)
    ensures
        match action {
            Some(found) => spec_interpret(message@) == Some(found@),
            None => spec_interpret(message@) is None,
        },
{
    let text = message.text.as_str();
    let chars = chars_of(text);
    if chars.len() > 0 && chars[0] == COMMAND_PREFIX {
        let name = match next_word(chars.as_slice(), 1) {
            Some(word) => word,
            None => {
                return None;
            },
        };
        let expected = chars_of(VIEWER_COMMAND);
        let given = slice_subrange(chars.as_slice(), name.0, name.1);
        if !same_chars(given, expected.as_slice()) {
            return None;
        }
        match next_word(chars.as_slice(), name.1) {
            Some((from, to)) => {
                let url = text.substring_char(from, to).to_owned();
                Some(Action::LaunchViewer { url })
            },
            None => None,
        }
    } else {
        let redeemed = match &message.custom_reward_id {
            Some(id) => same_text(id.as_str(), BALL_REWARD),
            None => false,
        };
        if redeemed {
            Some(Action::Emit { event: Event::Ball { color: Color::parse_hex_or_white(text) } })
        } else {
            None
        }
    }
}

/// A command never becomes an event: whatever it asks for, it does not ask
/// to hand anything to the event channel.
pub proof fn lemma_commands_emit_nothing(message: PrivmsgView)
    requires
        is_command(message.text),
    ensures
        !(spec_interpret(message) matches Some(ActionView::Emit { .. })),
{
}

/// A text that is no command and redeems the ball reward always gives a
/// ball: of the colour that the text writes, and a white one where it writes
/// none.
pub proof fn lemma_redeemed_text_gives_a_ball(message: PrivmsgView)
    requires
        !is_command(message.text),
        message.custom_reward_id == Some(BALL_REWARD@),
    ensures
        spec_interpret(message) matches Some(
            ActionView::Emit { event: EventView::Ball { color } },
        ) && color == (match spec_parse_hex(message.text) {
            Some(written) => written,
            None => Color::white(),
        }),
{
}

/// A message that is no command and does not redeem the ball reward asks
/// for nothing.
pub proof fn lemma_other_messages_ask_nothing(message: PrivmsgView)
    requires
        !is_command(message.text),
        message.custom_reward_id != Some(BALL_REWARD@),
    ensures
        spec_interpret(message) is None,
{
}

} // verus!
