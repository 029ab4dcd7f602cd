//! The naming side of the broker back end: channels are namespaced with a configured prefix.
use vstd::prelude::*;

verus! {

/// The configuration of the broker back end.
#[derive(Clone, Debug, Default)]
pub struct Configuration {
    /// The connection information.
    pub connection_string: String,
    /// The prefix used to generate a channel name.
    pub channel_prefix: String,
}

/// The broker notifier's channel naming: `<prefix>.<channel>`.
#[derive(Clone, Debug)]
pub struct Notifier {
    channel_prefix: String,
}

impl Notifier {
    /// The prefix of every channel name.
    pub closed spec fn prefix(&self) -> Seq<char> {
        self.channel_prefix@
    }

    /// Creates the channel naming of a broker configuration.
    pub fn new(configuration: &Configuration) -> (r: Notifier)
        ensures
            r.prefix() == configuration.channel_prefix@,
    {
        Notifier { channel_prefix: configuration.channel_prefix.clone() }
    }

    /// The fully qualified name of a channel.
    pub fn channel(&self, channel: &str) -> (r: String)
        ensures
            r@ == self.prefix() + "."@ + channel@,
    {
        let mut r = self.channel_prefix.clone();
        r.append(".");
        r.append(channel);
        r
    }
}

} // verus!
