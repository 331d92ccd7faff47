//! Message-bus channels: one concrete channel per resource service, and
//! the wire format `v<major>/<channel-name>` they travel under.

use vstd::prelude::*;

verus! {

/// The channels of the first protocol version.
#[derive(Clone, Copy, Debug, PartialEq, Eq, Structural)]
pub enum ChannelVs {
    /// Default channel.
    Default,
    /// Registration of io-engine instances.
    Registry,
    /// Node service.
    Nodes,
    /// Pool service.
    Pools,
    /// Replica service.
    Replicas,
    /// Nexus service.
    Nexuses,
    /// Volume service.
    Volumes,
    /// Generic JSON gRPC service.
    JsonGrpc,
    /// Watcher service.
    Watcher,
}

/// The wire name of a channel.
pub open spec fn spec_channel_name(c: ChannelVs) -> Seq<char> {
    match c {
        ChannelVs::Default => "default"@,
        ChannelVs::Registry => "registry"@,
        ChannelVs::Nodes => "nodes"@,
        ChannelVs::Pools => "pools"@,
        ChannelVs::Replicas => "replicas"@,
        ChannelVs::Nexuses => "nexuses"@,
        ChannelVs::Volumes => "volumes"@,
        ChannelVs::JsonGrpc => "jsongrpc"@,
        ChannelVs::Watcher => "watcher"@,
    }
}

/// A versioned channel.
#[derive(Clone, Copy, Debug, PartialEq, Eq, Structural)]
#[allow(non_camel_case_types)]
pub enum Channel {
    /// Version 0 of the channels.
    v0(ChannelVs),
}

/// The full wire text of a channel: the version prefix and the name.
pub open spec fn spec_channel_text(c: Channel) -> Seq<char> {
    match c {
        Channel::v0(vs) => "v0/"@ + spec_channel_name(vs),
    }
}

/// The channel a wire text denotes, if any.
pub open spec fn spec_parse_channel(s: Seq<char>) -> Option<Channel> {
    if s == spec_channel_text(Channel::v0(ChannelVs::Default)) {
        Some(Channel::v0(ChannelVs::Default))
    } else if s == spec_channel_text(Channel::v0(ChannelVs::Registry)) {
        Some(Channel::v0(ChannelVs::Registry))
    } else if s == spec_channel_text(Channel::v0(ChannelVs::Nodes)) {
        Some(Channel::v0(ChannelVs::Nodes))
    } else if s == spec_channel_text(Channel::v0(ChannelVs::Pools)) {
        Some(Channel::v0(ChannelVs::Pools))
    } else if s == spec_channel_text(Channel::v0(ChannelVs::Replicas)) {
        Some(Channel::v0(ChannelVs::Replicas))
    } else if s == spec_channel_text(Channel::v0(ChannelVs::Nexuses)) {
        Some(Channel::v0(ChannelVs::Nexuses))
    } else if s == spec_channel_text(Channel::v0(ChannelVs::Volumes)) {
        Some(Channel::v0(ChannelVs::Volumes))
    } else if s == spec_channel_text(Channel::v0(ChannelVs::JsonGrpc)) {
        Some(Channel::v0(ChannelVs::JsonGrpc))
    } else if s == spec_channel_text(Channel::v0(ChannelVs::Watcher)) {
        Some(Channel::v0(ChannelVs::Watcher))
    } else {
        None
    }
}

impl Channel {
    /// The wire text of this channel.
    pub fn to_string(&self) -> (r: String)
        ensures
            r@ == spec_channel_text(*self),
    {
        let mut s = String::from_str("v0/");
        match self {
            Channel::v0(vs) => {
                let name = match vs {
                    ChannelVs::Default => "default",
                    ChannelVs::Registry => "registry",
                    ChannelVs::Nodes => "nodes",
                    ChannelVs::Pools => "pools",
                    ChannelVs::Replicas => "replicas",
                    ChannelVs::Nexuses => "nexuses",
                    ChannelVs::Volumes => "volumes",
                    ChannelVs::JsonGrpc => "jsongrpc",
                    ChannelVs::Watcher => "watcher",
                };
                s.append(name);
            },
        }
        s
    }

    /// Parse a wire text into a channel; a text that names no known
    /// channel is refused.
    pub fn from_str(source: &str) -> (r: Option<Channel>)
        ensures
            r == spec_parse_channel(source@),
    {
        let text = String::from_str(source);
        let candidates = [
            ChannelVs::Default,
            ChannelVs::Registry,
            ChannelVs::Nodes,
            ChannelVs::Pools,
            ChannelVs::Replicas,
            ChannelVs::Nexuses,
            ChannelVs::Volumes,
            ChannelVs::JsonGrpc,
            ChannelVs::Watcher,
        ];
        let mut i: usize = 0;
        while i < 9
            invariant
                0 <= i <= 9,
                text@ == source@,
                candidates@ =~= seq![
                    ChannelVs::Default,
                    ChannelVs::Registry,
                    ChannelVs::Nodes,
                    ChannelVs::Pools,
                    ChannelVs::Replicas,
                    ChannelVs::Nexuses,
                    ChannelVs::Volumes,
                    ChannelVs::JsonGrpc,
                    ChannelVs::Watcher,
                ],
                forall|j: int|
                    0 <= j < i ==> source@ != spec_channel_text(
                        Channel::v0(#[trigger] candidates@[j]),
                    ),
            decreases 9 - i,
        {
            let c = Channel::v0(candidates[i]);
            let ct = c.to_string();
            if text == ct {
                return Some(c);
            }
            i = i + 1;
        }
        None
    }
}

impl Default for Channel {
    fn default() -> (r: Self)
        ensures
            r == Channel::v0(ChannelVs::Default),
    {
        Channel::v0(ChannelVs::Default)
    }
}

/// Every channel's wire text parses back to the same channel.
pub proof fn lemma_channel_round_trip(c: Channel)
    ensures
        spec_parse_channel(spec_channel_text(c)) == Some(c),
{
    match c {
        Channel::v0(_) => {
            reveal_strlit("default");
            reveal_strlit("registry");
            reveal_strlit("nodes");
            reveal_strlit("pools");
            reveal_strlit("replicas");
            reveal_strlit("nexuses");
            reveal_strlit("volumes");
            reveal_strlit("jsongrpc");
            reveal_strlit("watcher");
            reveal_strlit("v0/");
            assert(("v0/"@ + "default"@).len() == 10 && ("v0/"@ + "default"@)[3] == 'd');
            assert(("v0/"@ + "registry"@).len() == 11 && ("v0/"@ + "registry"@)[3] == 'r');
            assert(("v0/"@ + "nodes"@).len() == 8 && ("v0/"@ + "nodes"@)[3] == 'n');
            assert(("v0/"@ + "pools"@).len() == 8 && ("v0/"@ + "pools"@)[3] == 'p');
            assert(("v0/"@ + "replicas"@).len() == 11 && ("v0/"@ + "replicas"@)[3] == 'r');
            assert(("v0/"@ + "nexuses"@).len() == 10 && ("v0/"@ + "nexuses"@)[3] == 'n');
            assert(("v0/"@ + "volumes"@).len() == 10 && ("v0/"@ + "volumes"@)[3] == 'v');
            assert(("v0/"@ + "jsongrpc"@).len() == 11 && ("v0/"@ + "jsongrpc"@)[3] == 'j');
            assert(("v0/"@ + "watcher"@).len() == 10 && ("v0/"@ + "watcher"@)[3] == 'w');
            assert(("v0/"@ + "registry"@)[5] == 'g');
            assert(("v0/"@ + "replicas"@)[5] == 'p');
        },
    }
}

} // verus!
