//! The announcements channel setting: which channel announcements go to,
//! with dirty tracking for the persistence collaborator. Whether a channel
//! id names a guild text channel is decided by the chat-platform
//! collaborator and handed in as a plain flag.

use vstd::prelude::*;

verus! {

/// Error for a channel that announcements cannot be posted to.
#[derive(Debug, Clone, Copy, PartialEq, Eq, Structural)]
pub struct InvalidChannelError;

/// The channel announcements are posted to, if one is configured.
pub struct HistoryChannel {
    channel: Option<u64>,
    should_save: bool,
}

impl HistoryChannel {
    /// The configured channel id, if any.
    pub closed spec fn channel_spec(self) -> Option<u64> {
        self.channel
    }

    /// Whether the setting holds a change not yet persisted.
    pub closed spec fn dirty(self) -> bool {
        self.should_save
    }

    /// Restore the setting from what the persistence collaborator returned:
    /// a missing value (`None` outside) falls back to "no channel" and marks
    /// the setting dirty so the next save re-persists it.
    pub fn from_saved(saved: Option<Option<u64>>) -> (r: HistoryChannel)
        ensures
            match saved {
                Some(channel) => r.channel_spec() == channel && !r.dirty(),
                None => r.channel_spec() is None && r.dirty(),
            },
    {
        match saved {
            Some(channel) => HistoryChannel { channel, should_save: false },
            None => HistoryChannel { channel: None, should_save: true },
        }
    }

    /// The configured channel id, if any.
    pub fn channel(&self) -> (r: Option<u64>)
        ensures
            r == self.channel_spec(),
    {
        self.channel
    }

    /// Configure the announcements channel. A channel that is not a guild
    /// text channel is rejected; setting the channel already configured
    /// changes nothing; an actual change marks the setting dirty.
    pub fn set(&mut self, channel: u64, is_guild_text_channel: bool) -> (r: Result<
        u64,
        InvalidChannelError,
    >)
        ensures
            !is_guild_text_channel ==> r == Err::<u64, InvalidChannelError>(InvalidChannelError)
                && *final(self) == *old(self),
            is_guild_text_channel ==> {
                &&& r == Ok::<u64, InvalidChannelError>(channel)
                &&& final(self).channel_spec() == Some(channel)
                &&& final(self).dirty() == (old(self).dirty() || old(self).channel_spec()
                    != Some(channel))
            },
    {
        if !is_guild_text_channel {
            return Err(InvalidChannelError);
        }
        let same = match self.channel {
            Some(current) => current == channel,
            None => false,
        };
        if !same {
            self.channel = Some(channel);
            self.should_save = true;
        }
        Ok(channel)
    }

    /// Remove the announcements channel; removing an absent one changes
    /// nothing.
    pub fn unset(&mut self)
        ensures
            final(self).channel_spec() is None,
            final(self).dirty() == (old(self).dirty() || old(self).channel_spec() is Some),
    {
        if self.channel.is_some() {
            self.channel = None;
            self.should_save = true;
        }
    }

    /// Whether the setting holds a change not yet persisted.
    pub fn needs_save(&self) -> (r: bool)
        ensures
            r == self.dirty(),
    {
        self.should_save
    }

    /// Note that the current setting was persisted.
    pub fn mark_saved(&mut self)
        ensures
            final(self).channel_spec() == old(self).channel_spec(),
            !final(self).dirty(),
    {
        self.should_save = false;
    }
}

} // verus!
