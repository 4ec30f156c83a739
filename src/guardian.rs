use vstd::prelude::*;

use crate::config::{SystemConfig, PROBABILITY_SCALE};
use crate::detection::{evaluate, raises, random_draw};
use crate::loudness::{estimate, sum_abs, Loudness};

verus! {

/// Minimum time between two alert dispatches, in milliseconds.
pub const COOL_DOWN_MS: u64 = 5_000;

/// A channel through which an admitted alert is announced.
#[derive(Clone, Copy, Debug, PartialEq, Eq, Structural)]
pub enum AlertChannel {
    /// Playback of the bundled alert waveform.
    Sound,
    /// A notice on the visual channel.
    Visual,
    /// The notification transport, with the configured radius.
    Notification,
}

/// How one channel of a dispatch ended.
#[derive(Clone, Copy, Debug, PartialEq, Eq, Structural)]
pub struct ChannelResult {
    pub channel: AlertChannel,
    pub succeeded: bool,
}

/// The channels that every admitted alert is fanned out to, all started
/// together.
pub open spec fn dispatch_plan() -> Seq<AlertChannel> {
    seq![AlertChannel::Sound, AlertChannel::Visual, AlertChannel::Notification]
}

/// The channels of `results` that failed, in order.
pub open spec fn failed_of(results: Seq<ChannelResult>) -> Seq<AlertChannel>
    decreases results.len(),
{
    if results.len() == 0 {
        seq![]
    } else {
        let rest = failed_of(results.drop_last());
        if results.last().succeeded {
            rest
        } else {
            rest.push(results.last().channel)
        }
    }
}

/// The monitoring session's decision state.
///
/// `alert_active` is the alert flag: set by the detector, cleared by
/// the debouncer. `last_alert_ms` is the session time of the last dispatch
/// decision. `dispatching` holds while an admitted alert's channels run;
/// no batch is taken until it is finished.
pub struct AudioGuardian {
    pub config: SystemConfig,
    pub alert_active: bool,
    pub last_alert_ms: u64,
    pub dispatching: bool,
}

/// The loudness that `estimate` gives for a batch.
pub open spec fn loudness_of(samples: Seq<i32>) -> Loudness {
    Loudness { total: sum_abs(samples) as u128, samples: samples.len() as u64 }
}

/// The state after a batch of the given loudness, with the given draw: the
/// flag is set when the detector raises, and is otherwise left as it was.
pub open spec fn after_batch(g: AudioGuardian, loudness: Loudness, draw: int) -> AudioGuardian {
    AudioGuardian { alert_active: g.alert_active || raises(loudness, g.config, draw), ..g }
}

/// The debouncer admits a trigger when the flag is set and more than the
/// cool-down has passed since the last dispatch decision.
pub open spec fn admits(g: AudioGuardian, now: int) -> bool {
    g.alert_active && now > g.last_alert_ms + COOL_DOWN_MS
}

/// The state after the debouncer ran at time `now`: on admission the time
/// is recorded and a dispatch begins; the flag is cleared either way.
pub open spec fn debounced(g: AudioGuardian, now: u64) -> AudioGuardian {
    if admits(g, now as int) {
        AudioGuardian { alert_active: false, last_alert_ms: now, dispatching: true, ..g }
    } else {
        AudioGuardian { alert_active: false, ..g }
    }
}

/// The state once a dispatch has finished: idle again, whatever the
/// channels' outcomes.
pub open spec fn after_dispatch(g: AudioGuardian) -> AudioGuardian {
    AudioGuardian { dispatching: false, ..g }
}

/// The state of a session that saw a batch raise the flag.
pub open spec fn armed(g: AudioGuardian) -> AudioGuardian {
    AudioGuardian { alert_active: true, ..g }
}

impl AudioGuardian {
    /// A guardian at the start of a session (time 0), idle.
    pub fn new(config: SystemConfig) -> (r: Self)
        ensures
            r.config == config,
            !r.alert_active,
            r.last_alert_ms == 0,
            !r.dispatching,
    {
        AudioGuardian { config, alert_active: false, last_alert_ms: 0, dispatching: false }
    }

    /// Runs a batch through the estimator and the detector with the given draw
    /// from `0..PROBABILITY_SCALE`, setting the alert flag when it raises.
    pub fn process_samples_with(&mut self, samples: &[i32], draw: u32)
        requires
            !old(self).dispatching,
        ensures
            *final(self) == after_batch(*old(self), loudness_of(samples@), draw as int),
    {
        let loudness = estimate(samples);
        if evaluate(&loudness, &self.config, draw) {
            self.alert_active = true;
        }
    }

    /// Runs a batch through the estimator and the detector, drawing the
    /// dampening randomness uniformly from `0..PROBABILITY_SCALE`.
    pub fn process_samples(&mut self, samples: &[i32])
        requires
            !old(self).dispatching,
        ensures
            exists|d: int|
                0 <= d < PROBABILITY_SCALE && *final(self) == #[trigger] after_batch(
                    *old(self),
                    loudness_of(samples@),
                    d,
                ),
    {
        let draw = random_draw();
        self.process_samples_with(samples, draw);
    }

    /// The debouncer, at session time `now_ms`: returns whether an alert is
    /// admitted for dispatch. The flag is cleared whether or not it is.
    pub fn debounce(&mut self, now_ms: u64) -> (admitted: bool)
        requires
            !old(self).dispatching,
        ensures
            admitted == admits(*old(self), now_ms as int),
            *final(self) == debounced(*old(self), now_ms),
    {
        if !self.alert_active {
            return false;
        }
        let admitted = now_ms > self.last_alert_ms && now_ms - self.last_alert_ms > COOL_DOWN_MS;
        if admitted {
            self.last_alert_ms = now_ms;
            self.dispatching = true;
        }
        self.alert_active = false;
        admitted
    }

    /// The channels to start together for an admitted alert.
    pub fn trigger_alerts(&self) -> (plan: Vec<AlertChannel>)
        ensures
            plan@ == dispatch_plan(),
    {
        let plan = vec![AlertChannel::Sound, AlertChannel::Visual, AlertChannel::Notification];
        proof {
            assert(plan@ =~= dispatch_plan());
        }
        plan
    }

    /// Ends a dispatch once all its channels have finished, and returns the
    /// channels that failed, to be reported. No outcome stops the session.
    pub fn finish_dispatch(&mut self, results: &Vec<ChannelResult>) -> (failed: Vec<AlertChannel>)
        requires
            old(self).dispatching,
        ensures
            *final(self) == after_dispatch(*old(self)),
            failed@ == failed_of(results@),
    {
        let mut failed: Vec<AlertChannel> = Vec::new();
        let mut i: usize = 0;
        while i < results.len()
            invariant
                i <= results@.len(),
                failed@ == failed_of(results@.subrange(0, i as int)),
            decreases results@.len() - i,
        {
            let r = results[i];
            proof {
                let s = results@.subrange(0, i + 1);
                assert(s.drop_last() =~= results@.subrange(0, i as int));
                assert(s.last() == r);
            }
            if !r.succeeded {
                failed.push(r.channel);
            }
            i = i + 1;
        }
        proof {
            assert(results@.subrange(0, results@.len() as int) =~= results@);
        }
        self.dispatching = false;
        failed
    }
}

/// Two triggers less than the cool-down apart give one dispatch; a third
/// that comes more than the cool-down after the first dispatch gives a
/// second one. `g` is armed by the first trigger, past the cool-down of any
/// earlier dispatch; each later trigger arms the session again after the
/// previous one was handled.
pub proof fn lemma_debounce_once_per_window(g: AudioGuardian, t1: u64, t2: u64, t3: u64)
    requires
        g.alert_active,
        !g.dispatching,
        t1 > g.last_alert_ms + COOL_DOWN_MS,
        t1 <= t2 < t1 + COOL_DOWN_MS,
        t3 > t1 + COOL_DOWN_MS,
    ensures
        admits(g, t1 as int),
        !admits(armed(after_dispatch(debounced(g, t1))), t2 as int),
        admits(armed(debounced(armed(after_dispatch(debounced(g, t1))), t2)), t3 as int),
{
}

/// After a dispatch decision at `t`, no trigger is admitted until more than
/// the cool-down has passed: at most one dispatch per window.
pub proof fn lemma_one_dispatch_per_window(g: AudioGuardian, t: u64, later: u64)
    requires
        admits(g, t as int),
        t <= later <= t + COOL_DOWN_MS,
    ensures
        !admits(armed(after_dispatch(debounced(g, t))), later as int),
{
}

/// The channels of an alert do not depend on one another: all of the plan
/// is started, so the visual notice and the notification go out even when
/// the sound fails, and whatever the outcomes, finishing the dispatch
/// leaves the session idle and ready for the next batch, with each failed
/// channel reported.
pub proof fn lemma_dispatch_independence(g: AudioGuardian, results: Seq<ChannelResult>)
    requires
        g.dispatching,
    ensures
        dispatch_plan().contains(AlertChannel::Visual),
        dispatch_plan().contains(AlertChannel::Notification),
        !after_dispatch(g).dispatching,
        after_dispatch(g).config == g.config,
        after_dispatch(g).last_alert_ms == g.last_alert_ms,
        forall|i: int|
            0 <= i < results.len() && !results[i].succeeded ==> failed_of(results).contains(
                #[trigger] results[i].channel,
            ),
        forall|c: AlertChannel|
            #[trigger] failed_of(results).contains(c) ==> exists|i: int|
                0 <= i < results.len() && !results[i].succeeded && results[i].channel == c,
    decreases results.len(),
{
    assert(dispatch_plan()[1] == AlertChannel::Visual);
    assert(dispatch_plan()[2] == AlertChannel::Notification);
    if results.len() > 0 {
        let rest = results.drop_last();
        lemma_dispatch_independence(g, rest);
        let last = results.last();
        assert forall|i: int|
            0 <= i < results.len() && !results[i].succeeded implies failed_of(results).contains(
            #[trigger] results[i].channel,
        ) by {
            if i < rest.len() {
                assert(rest[i] == results[i]);
                let k = choose|k: int|
                    0 <= k < failed_of(rest).len() && failed_of(rest)[k] == rest[i].channel;
                if !last.succeeded {
                    assert(failed_of(results)[k] == failed_of(rest)[k]);
                }
            } else {
                assert(failed_of(results).last() == last.channel);
            }
        }
        assert forall|c: AlertChannel| #[trigger] failed_of(results).contains(c) implies exists|
            i: int,
        | 0 <= i < results.len() && !results[i].succeeded && results[i].channel == c by {
            let k = choose|k: int| 0 <= k < failed_of(results).len() && failed_of(results)[k] == c;
            if k < failed_of(rest).len() {
                assert(failed_of(rest).contains(c));
                let i = choose|i: int|
                    0 <= i < rest.len() && !rest[i].succeeded && rest[i].channel == c;
                assert(results[i] == rest[i]);
            } else {
                assert(results[results.len() - 1] == last);
            }
        }
    }
}

} // verus!
