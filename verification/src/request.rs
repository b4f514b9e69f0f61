//! The addresses of the requests that a client asks to be sent.

use crate::registry::Registry;
use crate::variables::lemma_wire_names_distinct;
use crate::variables::Variables;
use vstd::prelude::*;

verus! {

/// The address of the server at `addr`, a host and port.
pub open spec fn server_url(addr: Seq<char>) -> Seq<char> {
    "http://"@ + addr
}

/// The wire names of the given channels, in the same order.
pub open spec fn wire_names(channels: Seq<Variables>) -> Seq<Seq<char>> {
    channels.map_values(|c: Variables| c.wire_name())
}

/// The names one after the other, with `&` between each two.
pub open spec fn joined(names: Seq<Seq<char>>) -> Seq<char>
    decreases names.len(),
{
    if names.len() == 0 {
        Seq::empty()
    } else if names.len() == 1 {
        names[0]
    } else {
        joined(names.drop_last()) + "&"@ + names.last()
    }
}

/// The address of the request that retrieves the given channels from the
/// server at `base`: the wire names stand in the query as bare tokens.
pub open spec fn retrieval_url(base: Seq<char>, channels: Seq<Variables>) -> Seq<char> {
    base + "/get?"@ + joined(wire_names(channels))
}

/// The address of the request that sends `command` to the server at `base`.
pub open spec fn control_url(base: Seq<char>, command: Seq<char>) -> Seq<char> {
    base + "/control?cmd="@ + command
}

/// Joining one name more appends it, after a `&` unless it is the first.
pub proof fn lemma_joined_step(names: Seq<Seq<char>>, n: int)
    requires
        0 <= n < names.len(),
    ensures
        joined(names.take(n + 1)) == if n == 0 {
            names[0]
        } else {
            joined(names.take(n)) + "&"@ + names[n]
        },
{
    let front = names.take(n + 1);
    assert(front.drop_last() =~= names.take(n));
}

/// The retrieval request of a well-formed registry names a channel exactly
/// where the channel is registered.
pub proof fn lemma_request_names_registered(registry: Registry, channel: Variables)
    requires
        registry.wf(),
    ensures
        wire_names(registry.channels).len() == registry.len(),
        wire_names(registry.channels).contains(channel.wire_name()) <==> registry.contains(channel),
{
    let names = wire_names(registry.channels);
    assert(registry.values.contains_key(channel) <==> registry.channels.contains(channel));
    if registry.contains(channel) {
        let i = registry.channels.index_of(channel);
        assert(names[i] == channel.wire_name());
    }
    if names.contains(channel.wire_name()) {
        let i = names.index_of(channel.wire_name());
        if registry.channels[i] != channel {
            lemma_wire_names_distinct(registry.channels[i], channel);
        }
    }
}

/// The retrieval request of the empty registry names no channel: once the
/// channels are forgotten, none of them is asked for.
pub proof fn lemma_request_of_empty(base: Seq<char>)
    ensures
        wire_names(Registry::empty().channels).len() == 0,
        retrieval_url(base, Registry::empty().channels) == base + "/get?"@,
{
}

} // verus!
