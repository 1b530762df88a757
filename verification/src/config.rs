//! Start-up configuration of the chat session.
//!
//! The handle, the secret token and at least one channel name are all
//! required. They are read once, before any producer starts, and never
//! change afterwards.

use vstd::prelude::*;
use crate::text::text_of;

verus! {

/// The character that begins every channel name.
pub const CHANNEL_MARK: char = '#';

/// Whether `name` is a channel name: it begins with `#`.
pub open spec fn is_channel_name(name: Seq<char>) -> bool {
    name.len() > 0 && name[0] == CHANNEL_MARK
}

/// `tmi::ChannelRef::parse`: accepts a channel name exactly if it begins
/// with the character `#`, and rejects every other text.
#[verifier::external_body]
fn channel_name_accepted(name: &str) -> (accepted: bool)
    ensures
        accepted == is_channel_name(name@),
{
    tmi::ChannelRef::parse(name).is_ok()
}

/// Why a configuration was refused.
#[derive(Clone, Copy, Debug, PartialEq, Eq, Structural)]
pub enum ConfigError {
    /// No chat handle was given.
    MissingHandle,
    /// No secret token was given.
    MissingToken,
    /// No channel name was given.
    MissingChannel,
    /// The channel name at this position does not begin with `#`.
    InvalidChannel { index: usize },
}

/// The chat room that the session joins.
#[derive(Debug, PartialEq, Eq)]
pub struct ChannelTarget {
    name: String,
}

impl View for ChannelTarget {
    type V = Seq<char>;

    closed spec fn view(&self) -> Seq<char> {
        self.name@
    }
}

impl ChannelTarget {
    #[verifier::type_invariant]
    spec fn well_formed(&self) -> bool {
        is_channel_name(self.name@)
    }

    /// Reads a channel name; `None` where `name` does not begin with `#`.
    pub fn parse(name: String) -> (target: Option<ChannelTarget>)
        ensures
            target is Some <==> is_channel_name(name@),
            target matches Some(channel) ==> channel@ == name@,
    {
        if channel_name_accepted(name.as_str()) {
            Some(ChannelTarget { name })
        } else {
            None
        }
    }

    /// The channel's name, which begins with `#`.
    pub fn name(&self) -> (name: &str)
        ensures
            name@ == self@,
            is_channel_name(name@),
    {
        proof {
            use_type_invariant(self);
        }
        self.name.as_str()
    }
}

/// What the session presents to the chat server.
pub struct ChatCredentials {
    handle: String,
    secret_token: String,
}

/// The whole start-up configuration of the chat session.
pub struct ChatConfig {
    credentials: ChatCredentials,
    channels: Vec<ChannelTarget>,
}

/// A configuration as a mathematical value.
pub struct ChatConfigView {
    pub handle: Seq<char>,
    pub secret_token: Seq<char>,
    pub channels: Seq<Seq<char>>,
}

impl View for ChatConfig {
    type V = ChatConfigView;

    closed spec fn view(&self) -> ChatConfigView {
        ChatConfigView {
            handle: self.credentials.handle@,
            secret_token: self.credentials.secret_token@,
            channels: Seq::new(self.channels@.len(), |i: int| self.channels@[i]@),
        }
    }
}

/// The names of `names`, as mathematical values.
pub open spec fn names_of(names: Seq<String>) -> Seq<Seq<char>> {
    Seq::new(names.len(), |i: int| names[i]@)
}

/// The configuration, or the reason why there is none, that the given
/// values lead to. What is missing is reported in the order handle, token,
/// channels; of several channel names that are no channel names the first
/// is reported.
pub open spec fn spec_config(
    handle: Option<Seq<char>>,
    secret_token: Option<Seq<char>>,
    channels: Seq<Seq<char>>,
) -> Result<ChatConfigView, ConfigError> {
    if handle is None {
        Err(ConfigError::MissingHandle)
    } else if secret_token is None {
        Err(ConfigError::MissingToken)
    } else if channels.len() == 0 {
        Err(ConfigError::MissingChannel)
    } else if exists|i: int| 0 <= i < channels.len() && !is_channel_name(#[trigger] channels[i]) {
        Err(ConfigError::InvalidChannel { index: first_invalid(channels, 0) as usize })
    } else {
        Ok(ChatConfigView { handle: handle.unwrap(), secret_token: secret_token.unwrap(), channels })
    }
}

/// Position of the first text at or after `from` that is no channel name,
/// or the length of `channels` where there is none.
pub open spec fn first_invalid(channels: Seq<Seq<char>>, from: int) -> int
    decreases channels.len() - from,
{
    if 0 <= from < channels.len() && is_channel_name(channels[from]) {
        first_invalid(channels, from + 1)
    } else {
        from
    }
}

impl ChatConfig {
    #[verifier::type_invariant]
    spec fn well_formed(&self) -> bool {
        self.channels@.len() > 0
    }

    /// Builds the configuration from the values found at start-up. Each of
    /// them is required.
    pub fn new(handle: Option<String>, secret_token: Option<String>, channels: Vec<String>) -> (made:
        Result<ChatConfig, ConfigError>)
        ensures
            match made {
                Ok(config) => spec_config(text_of(handle), text_of(secret_token), names_of(channels@))
                    == Ok::<ChatConfigView, ConfigError>(config@),
                Err(error) => spec_config(text_of(handle), text_of(secret_token), names_of(channels@))
                    == Err::<ChatConfigView, ConfigError>(error),
            },
    {
        let name = match handle {
            Some(text) => text,
            None => {
                return Err(ConfigError::MissingHandle);
            },
        };
        let secret = match secret_token {
            Some(text) => text,
            None => {
                return Err(ConfigError::MissingToken);
            },
        };
        if channels.len() == 0 {
            return Err(ConfigError::MissingChannel);
        }
        let ghost names = names_of(channels@);
        let mut targets: Vec<ChannelTarget> = Vec::new();
        let mut at: usize = 0;
        while at < channels.len()
            invariant
                handle is Some,
                secret_token is Some,
                0 < channels@.len(),
                at <= channels@.len(),
                names == names_of(channels@),
                targets@.len() == at,
                forall|i: int| 0 <= i < at ==> (#[trigger] targets@[i])@ == names[i],
                forall|i: int| 0 <= i < at ==> is_channel_name(#[trigger] names[i]),
                first_invalid(names, 0) == first_invalid(names, at as int),
            decreases channels@.len() - at,
        {
            match ChannelTarget::parse(channels[at].clone()) {
                Some(target) => {
                    targets.push(target);
                },
                None => {
                    assert(!is_channel_name(names[at as int]));
                    assert(first_invalid(names, at as int) == at);
                    return Err(ConfigError::InvalidChannel { index: at });
                },
            }
            at += 1;
        }
        let config = ChatConfig { credentials: ChatCredentials { handle: name, secret_token: secret }, channels: targets };
        assert(config@.channels =~= names);
        Ok(config)
    }

    /// The handle that the session signs in with.
    pub fn handle(&self) -> (handle: &str)
        ensures
            handle@ == self@.handle,
    {
        self.credentials.handle.as_str()
    }

    /// The secret that proves the handle.
    pub fn secret_token(&self) -> (token: &str)
        ensures
            token@ == self@.secret_token,
    {
        self.credentials.secret_token.as_str()
    }

    /// The channels that the session joins, of which there is at least one.
    pub fn channels(&self) -> (channels: &[ChannelTarget])
        ensures
            channels@.len() == self@.channels.len(),
            channels@.len() > 0,
            forall|i: int| 0 <= i < channels@.len() ==> (#[trigger] channels@[i])@ == self@.channels[i],
    {
        proof {
            use_type_invariant(self);
        }
        self.channels.as_slice()
    }
}

} // verus!
