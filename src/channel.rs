use vstd::prelude::*;
use crate::model::str_eq;

verus! {

/// Notification channels that storage triggers publish on.
#[derive(PartialEq, Eq, Structural, Clone, Copy, Debug, Hash)]
pub enum Channel {
    StreamTx,
}

impl Channel {
    /// The channel's name.
    pub fn to_str(self) -> (r: &'static str)
        ensures
            r@ == "stream_tx_channel"@,
    {
        match self {
            Channel::StreamTx => "stream_tx_channel",
        }
    }

    /// The channel with this name; only known names may be given.
    pub fn from_str(channel: &str) -> (r: Channel)
        requires
            channel@ == "stream_tx_channel"@,
        ensures
            r == Channel::StreamTx,
    {
        Channel::StreamTx
    }

    /// The channel with this name, if it is a known one.
    pub fn parse(channel: &str) -> (r: Option<Channel>)
        ensures
            r == (if channel@ == "stream_tx_channel"@ {
                Some(Channel::StreamTx)
            } else {
                None
            }),
    {
        if str_eq(channel, "stream_tx_channel") {
            Some(Channel::StreamTx)
        } else {
            None
        }
    }
}

} // verus!
