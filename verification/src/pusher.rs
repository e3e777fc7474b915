//! The push loop as a state machine: the host performs the outside work —
//! collecting and encoding a snapshot, delivering it over HTTP, resting —
//! and feeds each outcome back in; the loop decides what happens next and
//! what is logged.  No outcome ever stops it.

use vstd::prelude::*;
use crate::config::{
    parse_frequency, spec_frequency, PushConfig, Resolution, DEFAULT_PUSH_FREQUENCY_SECS,
};
use crate::messages::{
    contains_seq, encode_failure_message, encode_failure_text, lemma_send_failure_names_endpoint,
    send_failure_message, send_failure_text,
};

verus! {

/// MetricsPusher decides whether to push a list of metrics to a configurable
/// push-gateway endpoint, and with what cadence.
pub struct MetricsPusher;

impl MetricsPusher {
    /// Decides from the endpoint and frequency variables whether the pusher
    /// runs: the host reads the two values from its environment and hands
    /// them in.  No endpoint disables the feature; no frequency means the
    /// default; a frequency that is not a positive integer disables the
    /// feature.
    pub fn resolve(self, endpoint: Option<String>, frequency: Option<String>) -> (r: Resolution)
        ensures
            endpoint is None <==> r is Disabled,
            endpoint is Some && frequency is None ==> r is Enabled && r->config.endpoint@
                == endpoint->0@ && r->config.frequency_secs == DEFAULT_PUSH_FREQUENCY_SECS,
            endpoint is Some && frequency is Some && spec_frequency(frequency->0@) is None
                ==> r is Invalid && r->raw@ == frequency->0@,
            endpoint is Some && frequency is Some && spec_frequency(frequency->0@) is Some
                ==> r is Enabled && r->config.endpoint@ == endpoint->0@
                && r->config.frequency_secs == spec_frequency(frequency->0@)->0,
            r is Enabled ==> r->config.wf(),
    {
        let ep = match endpoint {
            Some(ep) => ep,
            None => {
                return Resolution::Disabled;
            },
        };
        let frequency_secs = match frequency {
            Some(f) => match parse_frequency(f.as_str()) {
                Some(n) => n,
                None => {
                    return Resolution::Invalid { raw: f };
                },
            },
            None => DEFAULT_PUSH_FREQUENCY_SECS,
        };
        Resolution::Enabled { config: PushConfig { endpoint: ep, frequency_secs } }
    }
}

/// Where in its cycle the loop stands: each tick collects a snapshot,
/// delivers it, and rests.
pub enum Phase {
    /// Waiting for the outcome of collecting and encoding a snapshot.
    Collect,
    /// Waiting for the outcome of delivering the encoded snapshot.
    Deliver,
    /// Waiting for the rest period to elapse.
    Rest,
}

/// The outcome of one piece of outside work, fed back into the loop.
pub enum Event {
    /// Collecting and encoding the snapshot ended: the encoded bytes, or the
    /// encoder's report.
    Collected(Result<Vec<u8>, String>),
    /// Delivering the snapshot ended: success, or the transport's report.
    Delivered(Result<(), String>),
    /// The rest period elapsed.
    Rested,
}

/// The next piece of outside work the host is to perform.
pub enum Op {
    /// Collect and encode a snapshot of the metrics registry.
    Collect,
    /// Deliver these bytes to the configured endpoint.
    Deliver(Vec<u8>),
    /// Rest for this many seconds.
    Rest(u64),
}

/// The loop's reply to an event: an error to log, if any, and the next piece
/// of outside work.
pub struct Action {
    pub log: Option<String>,
    pub op: Op,
}

/// The phase after an event: a successful collection waits on its delivery,
/// every other tick outcome leads to the rest, and the end of a rest begins
/// the next tick's collection.
pub open spec fn phase_after(e: Event) -> Phase {
    match e {
        Event::Collected(res) => if res is Ok {
            Phase::Deliver
        } else {
            Phase::Rest
        },
        Event::Delivered(_) => Phase::Rest,
        Event::Rested => Phase::Collect,
    }
}

/// The loop state after an event: the configuration is kept for the life of
/// the loop; only the phase advances.
pub open spec fn state_after(s: PushLoop, e: Event) -> PushLoop {
    PushLoop { config: s.config, phase: phase_after(e) }
}

/// What the loop replies to an event under a configuration: a failed
/// collection skips the delivery and is logged; a failed delivery is logged
/// with the endpoint; every completed tick rests for exactly the configured
/// frequency; the end of a rest asks for the next collection.
pub open spec fn action_for(c: PushConfig, e: Event, a: Action) -> bool {
    match e {
        Event::Collected(res) => match res {
            Ok(body) => {
                &&& a.log is None
                &&& a.op matches Op::Deliver(b)
                &&& b@ == body@
            },
            Err(m) => {
                &&& a.log matches Some(msg)
                &&& msg@ == encode_failure_text(m@)
                &&& a.op matches Op::Rest(d)
                &&& d == c.frequency_secs
            },
        },
        Event::Delivered(res) => match res {
            Ok(_) => {
                &&& a.log is None
                &&& a.op matches Op::Rest(d)
                &&& d == c.frequency_secs
            },
            Err(m) => {
                &&& a.log matches Some(msg)
                &&& msg@ == send_failure_text(c.endpoint@, m@)
                &&& a.op matches Op::Rest(d)
                &&& d == c.frequency_secs
            },
        },
        Event::Rested => {
            &&& a.log is None
            &&& a.op is Collect
        },
    }
}

/// The push loop: the immutable configuration and the phase its cycle is in.
/// It has no terminal state.
pub struct PushLoop {
    pub config: PushConfig,
    pub phase: Phase,
}

impl PushLoop {
    /// The loop is well formed when its configuration is.
    pub open spec fn wf(&self) -> bool {
        self.config.wf()
    }

    /// Which events can arrive in the current phase: the outcome of exactly
    /// the work the loop last asked for.
    pub open spec fn accepts(&self, e: Event) -> bool {
        match e {
            Event::Collected(_) => self.phase is Collect,
            Event::Delivered(_) => self.phase is Deliver,
            Event::Rested => self.phase is Rest,
        }
    }

    /// Builds the loop for a resolved configuration; the first piece of work
    /// is collecting a snapshot.
    pub fn new(config: PushConfig) -> (s: Self)
        requires
            config.wf(),
        ensures
            s.wf(),
            s.config == config,
            s.phase is Collect,
    {
        PushLoop { config, phase: Phase::Collect }
    }

    /// Advances the loop by one event and says what the host does next.
    ///
    /// A failed collection is logged and its delivery skipped; a failed
    /// delivery is logged with the endpoint; either way the loop rests for
    /// exactly the configured number of seconds and then begins the next
    /// tick.  No outcome stops the loop, and no error ever leaves it.
    pub fn step(&mut self, e: Event) -> (a: Action)
        requires
            old(self).wf(),
            old(self).accepts(e),
        ensures
            final(self).wf(),
            *final(self) == state_after(*old(self), e),
            action_for(old(self).config, e, a),
    {
        match e {
            Event::Collected(res) => match res {
                Ok(body) => {
                    self.phase = Phase::Deliver;
                    Action { log: None, op: Op::Deliver(body) }
                },
                Err(m) => {
                    self.phase = Phase::Rest;
                    Action {
                        log: Some(encode_failure_message(m.as_str())),
                        op: Op::Rest(self.config.frequency_secs),
                    }
                },
            },
            Event::Delivered(res) => match res {
                Ok(_) => {
                    self.phase = Phase::Rest;
                    Action { log: None, op: Op::Rest(self.config.frequency_secs) }
                },
                Err(m) => {
                    self.phase = Phase::Rest;
                    Action {
                        log: Some(
                            send_failure_message(self.config.endpoint.as_str(), m.as_str()),
                        ),
                        op: Op::Rest(self.config.frequency_secs),
                    }
                },
            },
            Event::Rested => {
                self.phase = Phase::Collect;
                Action { log: None, op: Op::Collect }
            },
        }
    }
}

/// A failed tick never halts the loop: after a failed collection is logged,
/// the loop rests, and the end of that rest begins a fresh tick's collection
/// under the unchanged configuration.
pub proof fn lemma_failure_isolation(s: PushLoop, m: String)
    requires
        s.wf(),
        s.phase is Collect,
    ensures
        ({
            let s1 = state_after(s, Event::Collected(Err(m)));
            let s2 = state_after(s1, Event::Rested);
            &&& s1.phase is Rest
            &&& s1.accepts(Event::Rested)
            &&& s2.phase is Collect
            &&& s2.config == s.config
            &&& s2.wf()
        }),
{
}

/// Every rest the loop ever schedules lasts exactly the configured
/// frequency, whatever the tick's outcome was: failures do not change the
/// cadence.
pub proof fn lemma_fixed_cadence(c: PushConfig, e: Event, a: Action)
    requires
        action_for(c, e, a),
    ensures
        a.op matches Op::Rest(d) ==> d == c.frequency_secs,
{
}

/// The loop has no terminal state: after any accepted event it stands in a
/// phase that accepts an event again.
pub proof fn lemma_no_terminal_state(s: PushLoop, e: Event)
    requires
        s.accepts(e),
    ensures
        ({
            let s2 = state_after(s, e);
            ||| forall|res: Result<Vec<u8>, String>| s2.accepts(Event::Collected(res))
            ||| forall|res: Result<(), String>| s2.accepts(Event::Delivered(res))
            ||| s2.accepts(Event::Rested)
        }),
{
}

/// A transport failure is logged with a report that names the configured
/// endpoint, the loop rests for exactly the configured frequency, and the
/// end of that rest begins the next tick: a refused connection never
/// terminates the loop.
pub proof fn lemma_transport_failure_logged(s: PushLoop, m: String, a: Action)
    requires
        s.wf(),
        s.phase is Deliver,
        action_for(s.config, Event::Delivered(Err(m)), a),
    ensures
        a.log is Some,
        contains_seq(a.log->0@, s.config.endpoint@),
        a.op matches Op::Rest(d) && d == s.config.frequency_secs,
        state_after(s, Event::Delivered(Err(m))).phase is Rest,
        state_after(state_after(s, Event::Delivered(Err(m))), Event::Rested).phase is Collect,
{
    lemma_send_failure_names_endpoint(s.config.endpoint@, m@);
}

} // verus!
