//! The client: a registry of channels bound to the address of a server.

use crate::error::Error;
use crate::json::envelope_of;
use crate::json::find_envelope;
use crate::json::read_sample;
use crate::json::reading;
use crate::registry::Registry;
use crate::request::control_url;
use crate::request::joined;
use crate::request::lemma_joined_step;
use crate::request::retrieval_url;
use crate::request::server_url;
use crate::request::wire_names;
use crate::sample::Sample;
use crate::variables::Variables;
use reqwest::Error as TransportError;
use serde_json::Value;
use vstd::prelude::*;
use vstd::string::*;

verus! {

/// A registered channel and the value held for it.
#[derive(Copy, Clone)]
struct Entry {
    variable: Variables,
    value: Option<Sample>,
}

/// The channels of the entries, in order.
spec fn channels_of(entries: Seq<Entry>) -> Seq<Variables> {
    entries.map_values(|e: Entry| e.variable)
}

/// The values of the entries, by channel.
spec fn values_of(entries: Seq<Entry>) -> Map<Variables, Option<Sample>> {
    Map::new(
        |c: Variables| channels_of(entries).contains(c),
        |c: Variables| entries[channels_of(entries).index_of(c)].value,
    )
}

/// Where no channel occurs twice, the value found for the channel of an
/// entry is the value of that entry.
proof fn lemma_value_at(entries: Seq<Entry>, i: int)
    requires
        channels_of(entries).no_duplicates(),
        0 <= i < entries.len(),
    ensures
        channels_of(entries).contains(entries[i].variable),
        values_of(entries)[entries[i].variable] == entries[i].value,
{
    assert(channels_of(entries)[i] == entries[i].variable);
}

/// Replacing the value of one entry stores that value for the entry's
/// channel and leaves the rest as it was.
proof fn lemma_update(entries: Seq<Entry>, i: int, value: Option<Sample>)
    requires
        channels_of(entries).no_duplicates(),
        0 <= i < entries.len(),
    ensures
        channels_of(entries).contains(entries[i].variable),
        channels_of(entries.update(i, Entry { variable: entries[i].variable, value }))
            == channels_of(entries),
        values_of(entries.update(i, Entry { variable: entries[i].variable, value }))
            == values_of(entries).insert(entries[i].variable, value),
{
    let updated = entries.update(i, Entry { variable: entries[i].variable, value });
    assert(channels_of(updated) =~= channels_of(entries));
    assert forall|c: Variables| channels_of(entries).contains(c) implies values_of(updated)[c]
        == values_of(entries).insert(entries[i].variable, value)[c] by {
        let j = channels_of(entries).index_of(c);
        assert(channels_of(entries)[i] == entries[i].variable);
        lemma_value_at(entries, j);
        lemma_value_at(updated, j);
    }
    lemma_value_at(entries, i);
}

/// Adding an entry for a channel that has none registers the channel with
/// the entry's value and leaves the rest as it was.
proof fn lemma_push(entries: Seq<Entry>, entry: Entry)
    requires
        channels_of(entries).no_duplicates(),
        !channels_of(entries).contains(entry.variable),
    ensures
        channels_of(entries.push(entry)) == channels_of(entries).push(entry.variable),
        channels_of(entries.push(entry)).no_duplicates(),
        values_of(entries.push(entry)) == values_of(entries).insert(entry.variable, entry.value),
{
    let pushed = entries.push(entry);
    assert(channels_of(pushed) =~= channels_of(entries).push(entry.variable));
    assert forall|c: Variables| channels_of(pushed).contains(c) implies values_of(pushed)[c]
        == values_of(entries).insert(entry.variable, entry.value)[c] by {
        let j = channels_of(pushed).index_of(c);
        lemma_value_at(pushed, j);
        if j < entries.len() {
            lemma_value_at(entries, j);
        }
    }
    assert forall|c: Variables| channels_of(pushed).contains(c) <==> (c == entry.variable
        || channels_of(entries).contains(c)) by {
        if channels_of(entries).contains(c) {
            let j = channels_of(entries).index_of(c);
            assert(channels_of(pushed)[j] == c);
        }
        if c == entry.variable {
            assert(channels_of(pushed)[entries.len() as int] == c);
        }
    }
}

/// A connection to the experiment server: the address of the server and the
/// registry of the channels to retrieve from it.
pub struct PhyphoxClient {
    url: String,
    entries: Vec<Entry>,
}

impl View for PhyphoxClient {
    type V = Registry;

    closed spec fn view(&self) -> Registry {
        Registry { channels: channels_of(self.entries@), values: values_of(self.entries@) }
    }
}

impl PhyphoxClient {
    /// No channel has two entries.
    #[verifier::type_invariant]
    spec fn inv(&self) -> bool {
        channels_of(self.entries@).no_duplicates()
    }

    /// The address that every request of this client starts with.
    pub closed spec fn url(&self) -> Seq<char> {
        self.url@
    }

    /// Creates a client for the server at `addr`, a host and port, with no
    /// channel registered.
    pub fn new(addr: &str) -> (client: Self)
        ensures
            client.url() == server_url(addr@),
            client@ == Registry::empty(),
            client@.wf(),
    {
        let mut url = String::from_str("http://");
        url.append(addr);
        let client = PhyphoxClient { url, entries: Vec::new() };
        client
    }

    /// Moves the entries out, to be changed and put back.
    fn take_entries(&mut self) -> (entries: Vec<Entry>)
        ensures
            entries@ == old(self).entries@,
            final(self).entries@.len() == 0,
            final(self).url@ == old(self).url@,
    {
        let mut entries: Vec<Entry> = Vec::new();
        core::mem::swap(&mut self.entries, &mut entries);
        entries
    }

    /// The position of the entry of `variable`, if it has one.
    fn position(&self, variable: Variables) -> (found: Option<usize>)
        ensures
            match found {
                Some(i) => i < self.entries@.len() && self.entries@[i as int].variable == variable,
                None => !channels_of(self.entries@).contains(variable),
            },
    {
        let mut i: usize = 0;
        while i < self.entries.len()
            invariant
                i <= self.entries@.len(),
                forall|j: int| 0 <= j < i ==> self.entries@[j].variable != variable,
            decreases self.entries@.len() - i,
        {
            if self.entries[i].variable == variable {
                return Some(i);
            }
            i += 1;
        }
        None
    }

    /// Adds a channel to the ones to retrieve data for. The channel has no
    /// value afterwards, whether it was registered before or not.
    pub fn register(&mut self, variable: Variables)
        ensures
            final(self)@ == old(self)@.register(variable),
            final(self).url() == old(self).url(),
            final(self)@.wf(),
    {
        proof {
            use_type_invariant(&*self);
        }
        match self.position(variable) {
            Some(i) => {
                proof {
                    lemma_update(self.entries@, i as int, None);
                }
                let mut entries = self.take_entries();
                entries.set(i, Entry { variable, value: None });
                self.entries = entries;
            },
            None => {
                proof {
                    lemma_push(self.entries@, Entry { variable, value: None });
                }
                let mut entries = self.take_entries();
                entries.push(Entry { variable, value: None });
                self.entries = entries;
            },
        }
    }

    /// Stores `value` as the latest value of a registered channel. A channel
    /// that is not registered is ignored.
    pub fn record(&mut self, variable: Variables, value: Option<Sample>)
        ensures
            final(self)@ == old(self)@.record(variable, value),
            final(self).url() == old(self).url(),
            final(self)@.wf(),
    {
        proof {
            use_type_invariant(&*self);
        }
        match self.position(variable) {
            Some(i) => {
                proof {
                    lemma_update(self.entries@, i as int, value);
                }
                let mut entries = self.take_entries();
                entries.set(i, Entry { variable, value });
                self.entries = entries;
            },
            None => {},
        }
    }

    /// Removes all the channels from the ones to retrieve data for.
    pub fn clear_variables(&mut self)
        ensures
            final(self)@ == Registry::empty(),
            final(self).url() == old(self).url(),
            final(self)@.wf(),
    {
        self.entries = Vec::new();
    }

    /// The address of the one request that retrieves every registered
    /// channel, in the order in which the channels were registered.
    #[must_use]
    pub fn retrieve_request(&self) -> (url: String)
        ensures
            url@ == retrieval_url(self.url(), self@.channels),
    {
        let mut url = self.url.clone();
        url.append("/get?");
        let ghost names = wire_names(self@.channels);
        let mut i: usize = 0;
        while i < self.entries.len()
            invariant
                i <= self.entries@.len(),
                names == wire_names(channels_of(self.entries@)),
                url@ == self.url@ + "/get?"@ + joined(names.take(i as int)),
            decreases self.entries@.len() - i,
        {
            proof {
                lemma_joined_step(names, i as int);
            }
            if i > 0 {
                url.append("&");
            }
            url.append(self.entries[i].variable.as_ref());
            i += 1;
        }
        assert(names.take(i as int) =~= names);
        url
    }

    /// Takes in what the transport made of the retrieval request: the
    /// decoded reply, or the reason why there is none.
    ///
    /// A reply with an envelope gives every registered channel the value
    /// that the envelope holds for it, or none where it holds none. A reply
    /// without an envelope is a [`Error::BadResponse`], a failed request a
    /// [`Error::ReqwestError`]; neither changes any value.
    pub fn retrieve(&mut self, response: Result<Value, TransportError>) -> (outcome: Result<
        (),
        Error,
    >)
        ensures
            final(self).url() == old(self).url(),
            final(self)@.wf(),
            match response {
                Ok(reply) => match envelope_of(reply) {
                    Some(envelope) => outcome is Ok && final(self)@ == old(self)@.refresh(envelope),
                    None => outcome matches Err(Error::BadResponse) && final(self)@ == old(self)@,
                },
                Err(error) => outcome matches Err(Error::ReqwestError(e)) && e == error
                    && final(self)@ == old(self)@,
            },
    {
        proof {
            use_type_invariant(&*self);
        }
        match response {
            Ok(reply) => match find_envelope(&reply) {
                Some(envelope) => {
                    let mut i: usize = 0;
                    while i < self.entries.len()
                        invariant
                            i <= self.entries@.len(),
                            self.url@ == old(self).url@,
                            self@.wf(),
                            self@.channels == old(self)@.channels,
                            forall|j: int|
                                0 <= j < i ==> self@.values[#[trigger] self@.channels[j]]
                                    == reading(*envelope, self@.channels[j].wire_name()),
                        decreases self.entries@.len() - i,
                    {
                        let variable = self.entries[i].variable;
                        let value = read_sample(envelope, variable.as_ref());
                        self.record(variable, value);
                        i += 1;
                    }
                    proof {
                        let target = old(self)@.refresh(*envelope);
                        assert forall|c: Variables| self@.values.contains_key(c) implies self@.values[c]
                            == target.values[c] by {
                            let j = self@.channels.index_of(c);
                            assert(self@.channels[j] == c);
                        }
                        assert(self@.values =~= target.values);
                    }
                    Ok(())
                },
                None => Err(Error::BadResponse),
            },
            Err(error) => Err(Error::from(error)),
        }
    }

    /// The address of the request that sends the command `cmd` to the
    /// server. Nothing is sent until the caller sends it; the command has
    /// succeeded when that request has.
    #[must_use]
    pub fn control(&self, cmd: &str) -> (url: String)
        ensures
            url@ == control_url(self.url(), cmd@),
    {
        let mut url = self.url.clone();
        url.append("/control?cmd=");
        url.append(cmd);
        url
    }

    /// The address of the request that stops the experiment.
    #[must_use]
    pub fn stop(&self) -> (url: String)
        ensures
            url@ == control_url(self.url(), "stop"@),
    {
        self.control("stop")
    }

    /// The address of the request that starts the experiment.
    #[must_use]
    pub fn start(&self) -> (url: String)
        ensures
            url@ == control_url(self.url(), "start"@),
    {
        self.control("start")
    }

    /// The address of the request that clears the experiment's data on the
    /// server, which also stops the experiment.
    #[must_use]
    pub fn clear(&self) -> (url: String)
        ensures
            url@ == control_url(self.url(), "clear"@),
    {
        self.control("clear")
    }

    /// The number of registered channels.
    pub fn len(&self) -> (n: usize)
        ensures
            n == self@.len(),
            self@.wf(),
    {
        proof {
            use_type_invariant(self);
        }
        self.entries.len()
    }

    /// Returns the value held for a channel: `None` where the channel is not
    /// registered or no value has been retrieved for it.
    pub fn get(&self, var: Variables) -> (value: Option<Sample>)
        ensures
            value == self@.get(var),
            self@.wf(),
    {
        proof {
            use_type_invariant(self);
        }
        match self.position(var) {
            Some(i) => {
                proof {
                    lemma_value_at(self.entries@, i as int);
                }
                self.entries[i].value
            },
            None => None,
        }
    }
}

} // verus!
