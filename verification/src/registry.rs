//! The registry of channels as a mathematical value.

use crate::json::member_of;
use crate::json::reading;
use crate::sample::Sample;
use crate::variables::Variables;
use serde_json::Value;
use vstd::prelude::*;

verus! {

/// What a client knows about its channels: which ones are registered, in
/// the order in which they were first registered, and the value it holds for
/// each. A registered channel without a value maps to `None`.
#[verifier::ext_equal]
pub struct Registry {
    pub channels: Seq<Variables>,
    pub values: Map<Variables, Option<Sample>>,
}

impl Registry {
    /// The registry lists each of its channels once, and holds a value (or
    /// the lack of one) for exactly the channels it lists.
    pub open spec fn wf(self) -> bool {
        &&& self.channels.no_duplicates()
        &&& forall|c: Variables| self.values.contains_key(c) <==> self.channels.contains(c)
    }

    /// The registry without any channel.
    pub open spec fn empty() -> Registry {
        Registry { channels: Seq::empty(), values: Map::empty() }
    }

    /// The number of registered channels.
    pub open spec fn len(self) -> nat {
        self.channels.len()
    }

    /// Whether `channel` is registered.
    pub open spec fn contains(self, channel: Variables) -> bool {
        self.values.contains_key(channel)
    }

    /// The value held for `channel`: absent for a channel that is not
    /// registered, and for a registered one that has none.
    pub open spec fn get(self, channel: Variables) -> Option<Sample> {
        if self.values.contains_key(channel) {
            self.values[channel]
        } else {
            None
        }
    }

    /// The registry after `channel` is registered: the channel is listed,
    /// at its old place if it was listed before and last otherwise, and has
    /// no value.
    pub open spec fn register(self, channel: Variables) -> Registry {
        Registry {
            channels: if self.values.contains_key(channel) {
                self.channels
            } else {
                self.channels.push(channel)
            },
            values: self.values.insert(channel, None),
        }
    }

    /// The registry after `value` is stored for `channel`. Nothing changes
    /// where the channel is not registered.
    pub open spec fn record(self, channel: Variables, value: Option<Sample>) -> Registry {
        if self.values.contains_key(channel) {
            Registry { channels: self.channels, values: self.values.insert(channel, value) }
        } else {
            self
        }
    }

    /// The registry after a reply with the given envelope is taken in: each
    /// registered channel holds what the envelope has for its wire name.
    pub open spec fn refresh(self, envelope: Value) -> Registry {
        Registry {
            channels: self.channels,
            values: Map::new(
                |c: Variables| self.values.contains_key(c),
                |c: Variables| reading(envelope, c.wire_name()),
            ),
        }
    }
}

/// The empty registry is well formed, and registering a channel, storing a
/// value and taking in a reply each keep a well-formed registry so.
pub proof fn lemma_wf_preserved(
    registry: Registry,
    channel: Variables,
    value: Option<Sample>,
    envelope: Value,
)
    requires
        registry.wf(),
    ensures
        Registry::empty().wf(),
        registry.register(channel).wf(),
        registry.record(channel, value).wf(),
        registry.refresh(envelope).wf(),
{
    let registered = registry.register(channel);
    assert forall|c: Variables| registered.values.contains_key(c) <==> registered.channels.contains(
        c,
    ) by {
        if registry.channels.contains(c) {
            let i = registry.channels.index_of(c);
            assert(registered.channels[i] == c);
        }
        if c == channel && !registry.channels.contains(channel) {
            assert(registered.channels[registry.channels.len() as int] == c);
        }
        if registered.channels.contains(c) && c != channel {
            let i = registered.channels.index_of(c);
            assert(registry.channels[i] == c);
        }
    }
    assert forall|i: int, j: int|
        0 <= i < registered.channels.len() && 0 <= j < registered.channels.len() && i
            != j implies registered.channels[i] != registered.channels[j] by {
        if i < registry.channels.len() && j == registry.channels.len() {
            assert(registry.channels.contains(registry.channels[i]));
        }
        if j < registry.channels.len() && i == registry.channels.len() {
            assert(registry.channels.contains(registry.channels[j]));
        }
    }
}

/// A channel that has just been registered has no value, whatever the
/// registry held for it before.
pub proof fn lemma_register_then_get(registry: Registry, channel: Variables)
    ensures
        registry.register(channel).contains(channel),
        registry.register(channel).get(channel) is None,
{
}

/// Registering a channel leaves every other channel as it was.
pub proof fn lemma_register_keeps_others(registry: Registry, channel: Variables, other: Variables)
    requires
        other != channel,
    ensures
        registry.register(channel).contains(other) == registry.contains(other),
        registry.register(channel).get(other) == registry.get(other),
{
}

/// Registering a channel makes the registry one longer if the channel is
/// new to it, and no longer if it is not.
pub proof fn lemma_register_len(registry: Registry, channel: Variables)
    ensures
        registry.register(channel).len() == if registry.contains(channel) {
            registry.len()
        } else {
            registry.len() + 1
        },
{
}

/// Registering a channel a second time changes nothing: the registry does
/// not list the channel twice, and is as long as after the first time.
pub proof fn lemma_register_twice(registry: Registry, channel: Variables)
    ensures
        registry.register(channel).register(channel) == registry.register(channel),
        registry.register(channel).register(channel).len() == registry.register(channel).len(),
{
    let once = registry.register(channel);
}

/// Storing a value for a registered channel makes it the channel's value;
/// for a channel that is not registered it changes nothing. Either way the
/// registry lists the channels it listed, and every other channel keeps
/// what it had.
pub proof fn lemma_record(
    registry: Registry,
    channel: Variables,
    value: Option<Sample>,
    other: Variables,
)
    requires
        other != channel,
    ensures
        registry.record(channel, value).channels == registry.channels,
        registry.contains(channel) ==> registry.record(channel, value).get(channel) == value,
        !registry.contains(channel) ==> registry.record(channel, value) == registry,
        registry.record(channel, value).contains(other) == registry.contains(other),
        registry.record(channel, value).get(other) == registry.get(other),
{
}

/// The empty registry has no value for any channel.
pub proof fn lemma_empty_has_no_value(channel: Variables)
    ensures
        Registry::empty().len() == 0,
        !Registry::empty().contains(channel),
        Registry::empty().get(channel) is None,
{
}

/// Taking in a reply keeps the channels that are registered, and gives each
/// of them what the envelope holds for its wire name. A channel that the
/// envelope leaves out has no value afterwards, whatever it had before.
pub proof fn lemma_refresh(registry: Registry, envelope: Value, channel: Variables)
    requires
        registry.contains(channel),
    ensures
        registry.refresh(envelope).channels == registry.channels,
        registry.refresh(envelope).contains(channel),
        registry.refresh(envelope).get(channel) == reading(envelope, channel.wire_name()),
        member_of(envelope, channel.wire_name()) is None ==> registry.refresh(envelope).get(
            channel,
        ) is None,
{
}

/// A reply replaces what an earlier one left: after two replies the registry
/// is as if only the second had been taken in.
pub proof fn lemma_refresh_replaces(registry: Registry, first: Value, second: Value)
    ensures
        registry.refresh(first).refresh(second) == registry.refresh(second),
{
}

/// A channel that is not registered has no value after a reply is taken in,
/// even where the envelope holds one under its wire name.
pub proof fn lemma_refresh_ignores_unregistered(
    registry: Registry,
    envelope: Value,
    channel: Variables,
)
    requires
        !registry.contains(channel),
    ensures
        !registry.refresh(envelope).contains(channel),
        registry.refresh(envelope).get(channel) is None,
{
}

} // verus!
