//! The message-bus envelope: the preamble every request carries, the
//! trace-context carrier, and the timeout options a send resolves. The
//! transport that moves the bytes stays outside; these are the parts a
//! send computes.

use crate::channel::Channel;
use vstd::prelude::*;

verus! {

/// A trace-context carrier: propagation entries, keyed by name.
#[derive(Debug)]
pub struct TraceContext {
    /// The entries, in insertion order, each key at most once.
    pub entries: Vec<(String, String)>,
}

impl TraceContext {
    /// Well-formed: no key occurs twice.
    pub open spec fn wf(&self) -> bool {
        crate::kvlist::unique_keys(self.entries@)
    }

    /// An empty carrier.
    pub fn new() -> (r: Self)
        ensures
            r.wf(),
            r.entries@.len() == 0,
    {
        TraceContext { entries: Vec::new() }
    }

    /// Set an entry: a present key is overwritten, a fresh one appended.
    pub fn set(&mut self, key: &String, value: String)
        requires
            old(self).wf(),
        ensures
            final(self).wf(),
            crate::kvlist::spec_find(final(self).entries@, key@) == Some(value),
            forall|k: Seq<char>|
                k != key@ ==> crate::kvlist::spec_find(final(self).entries@, k)
                    == crate::kvlist::spec_find(old(self).entries@, k),
    {
        match crate::kvlist::find_index(&self.entries, key) {
            Some(i) => {
                let k = self.entries[i].0.clone();
                proof {
                    assert forall|a: int, b: int|
                        0 <= a < b < self.entries@.update(i as int, (k, value)).len() implies self
                        .entries@.update(i as int, (k, value))[a].0@ != self.entries@.update(
                        i as int,
                        (k, value),
                    )[b].0@ by {
                        assert(self.entries@[a].0@ != self.entries@[b].0@);
                    }
                    assert forall|kk: Seq<char>| #![auto] true implies crate::kvlist::spec_find(
                        self.entries@.update(i as int, (k, value)),
                        kk,
                    ) == (if kk == key@ {
                        Some(value)
                    } else {
                        crate::kvlist::spec_find(self.entries@, kk)
                    }) by {
                        crate::kvlist::lemma_find_update(
                            self.entries@,
                            i as int,
                            (k, value),
                            kk,
                        );
                    }
                }
                self.entries.set(i, (k, value));
            },
            None => {
                let k = key.clone();
                proof {
                    crate::kvlist::lemma_find_none_rev(self.entries@, key@);
                    let pushed = self.entries@.push((k, value));
                    assert forall|a: int, b: int|
                        0 <= a < b < pushed.len() implies pushed[a].0@ != pushed[b].0@ by {
                        if b < pushed.len() - 1 {
                            assert(pushed[a] == self.entries@[a]);
                            assert(pushed[b] == self.entries@[b]);
                        } else {
                            assert(pushed[b] == (k, value));
                            assert(pushed[a] == self.entries@[a]);
                        }
                    }
                    assert forall|kk: Seq<char>| #![auto] true implies crate::kvlist::spec_find(
                        pushed,
                        kk,
                    ) == (if kk == key@ {
                        Some(value)
                    } else {
                        crate::kvlist::spec_find(self.entries@, kk)
                    }) by {
                        crate::kvlist::lemma_find_push(self.entries@, (k, value), kk);
                        if kk == key@ {
                            assert(crate::kvlist::spec_find(self.entries@, kk) is None);
                        }
                    }
                }
                self.entries.push((k, value));
            },
        }
    }
}

/// The preamble every request carries: the message id, the sender and an
/// optional trace-context carrier.
#[derive(Debug)]
pub struct Preamble {
    /// Id of the message kind.
    pub id: String,
    /// Id of the sender.
    pub sender: String,
    /// The trace context, once one was injected.
    pub trace_context: Option<TraceContext>,
}

/// The payload of one send: the preamble and the encoded request data.
#[derive(Debug)]
pub struct SendPayload {
    /// The preamble.
    pub preamble: Preamble,
    /// The encoded request.
    pub data: Vec<u8>,
}

impl SendPayload {
    /// Inject one trace-context entry: an absent carrier is created
    /// first.
    pub fn set(&mut self, key: &String, value: String)
        requires
            old(self).preamble.trace_context matches Some(c) ==> c.wf(),
        ensures
            final(self).preamble.trace_context matches Some(c) && c.wf()
                && crate::kvlist::spec_find(c.entries@, key@) == Some(value),
            final(self).preamble.id == old(self).preamble.id,
            final(self).preamble.sender == old(self).preamble.sender,
            final(self).data@ == old(self).data@,
    {
        match &mut self.preamble.trace_context {
            Some(context) => {
                context.set(key, value);
            },
            None => {
                let mut ctx = TraceContext::new();
                ctx.set(key, value);
                self.preamble.trace_context = Some(ctx);
            },
        }
    }
}

/// The timeout options a send runs under.
#[derive(Clone, Copy, Debug, PartialEq, Eq, Structural)]
pub struct TimeoutOptions {
    /// The per-request timeout, in milliseconds.
    pub timeout_ms: u64,
    /// How many times a timed-out request is retried.
    pub max_retries: u32,
}

/// One message to send: the payload envelope and the channel it travels
/// on.
#[derive(Debug)]
pub struct SendMessage {
    /// The payload: preamble and data.
    pub payload: SendPayload,
    /// The channel the message is sent on.
    pub channel: Channel,
}

impl SendMessage {
    /// Build a request message: the preamble names the message kind and
    /// the sender, with no trace context yet.
    pub fn new(id: String, sender: String, data: Vec<u8>, channel: Channel) -> (r: Self)
        ensures
            r.payload.preamble.id == id,
            r.payload.preamble.sender == sender,
            r.payload.preamble.trace_context is None,
            r.payload.data@ == data@,
            r.channel == channel,
    {
        SendMessage {
            payload: SendPayload {
                preamble: Preamble { id, sender, trace_context: None },
                data,
            },
            channel,
        }
    }

    /// The timeout options this send runs under: the caller's options
    /// when given, the bus default otherwise, with the per-message floor
    /// applied unless floors are switched off.
    pub fn timeout_opts(
        &self,
        options: Option<TimeoutOptions>,
        bus_default: TimeoutOptions,
        min_timeout_ms: u64,
        no_min_timeouts: bool,
    ) -> (r: TimeoutOptions)
        ensures
            ({
                let base = match options {
                    Some(o) => o,
                    None => bus_default,
                };
                &&& r.max_retries == base.max_retries
                &&& (no_min_timeouts ==> r.timeout_ms == base.timeout_ms)
                &&& (!no_min_timeouts ==> r.timeout_ms == (if base.timeout_ms >= min_timeout_ms {
                    base.timeout_ms
                } else {
                    min_timeout_ms
                }))
            }),
    {
        let base = match options {
            Some(o) => o,
            None => bus_default,
        };
        if no_min_timeouts {
            base
        } else if base.timeout_ms >= min_timeout_ms {
            base
        } else {
            TimeoutOptions { timeout_ms: min_timeout_ms, max_retries: base.max_retries }
        }
    }
}

} // verus!
