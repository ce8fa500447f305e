//! The delivery worker's control logic: a state machine from state and
//! input to next state and action.
//!
//! The worker is Idle until a group of records is drained from the channel,
//! then Sending: it issues one send, and on each failure retries the same
//! group until a configured maximum number of attempts is spent, after
//! which the group is dropped and the worker returns to Idle. Send failures
//! never terminate the worker; only a closed and drained channel does. The
//! delivery loop performs the awaits and the network call and feeds every
//! outcome back through [`DeliveryWorker::step`].

use vstd::prelude::*;

verus! {

/// Default bound on send attempts per group.
pub const MAX_RETRIES: usize = 10;

/// What the delivery loop observed: a non-empty group drained from the
/// channel, the channel closed and drained, or the outcome of a send.
#[derive(Debug, Clone, Copy, PartialEq, Eq)]
pub enum WorkerInput {
    GroupReady,
    ChannelClosed,
    SendSucceeded,
    SendFailed,
}

/// What the delivery loop must do next: send the current group, discard
/// any current group and await channel input, or shut down.
#[derive(Debug, Clone, Copy, PartialEq, Eq)]
pub enum WorkerAction {
    Send,
    AwaitInput,
    Terminate,
}

/// The worker's state between inputs.
#[derive(Debug, Clone, Copy, PartialEq, Eq)]
pub struct DeliveryWorker {
    /// Bound on send attempts per group; at least one.
    pub max_retries: usize,
    /// Send attempts already spent on the current group.
    pub attempts: usize,
    /// Sending when true, Idle when false.
    pub sending: bool,
}

/// One transition of the worker.
pub open spec fn spec_step(w: DeliveryWorker, input: WorkerInput) -> (DeliveryWorker, WorkerAction) {
    match input {
        WorkerInput::GroupReady => (
            DeliveryWorker { sending: true, attempts: 1, ..w },
            WorkerAction::Send,
        ),
        WorkerInput::ChannelClosed => (w, WorkerAction::Terminate),
        WorkerInput::SendSucceeded => (
            DeliveryWorker { sending: false, attempts: 0, ..w },
            WorkerAction::AwaitInput,
        ),
        WorkerInput::SendFailed => {
            if w.attempts < w.max_retries {
                (DeliveryWorker { attempts: (w.attempts + 1) as usize, ..w }, WorkerAction::Send)
            } else {
                (DeliveryWorker { sending: false, attempts: 0, ..w }, WorkerAction::AwaitInput)
            }
        },
    }
}

/// The worker after a whole input sequence, with the actions it issued.
pub open spec fn spec_run(w: DeliveryWorker, inputs: Seq<WorkerInput>) -> (
    DeliveryWorker,
    Seq<WorkerAction>,
)
    decreases inputs.len(),
{
    if inputs.len() == 0 {
        (w, Seq::empty())
    } else {
        let first = spec_step(w, inputs[0]);
        let rest = spec_run(first.0, inputs.drop_first());
        (rest.0, seq![first.1] + rest.1)
    }
}

/// How many sends a run of actions issues.
pub open spec fn count_sends(actions: Seq<WorkerAction>) -> nat
    decreases actions.len(),
{
    if actions.len() == 0 {
        0
    } else if actions[0] is Send {
        1 + count_sends(actions.drop_first())
    } else {
        count_sends(actions.drop_first())
    }
}

impl DeliveryWorker {
    /// Attempts spent never exceed the bound, the bound is positive, and an
    /// idle worker holds no group.
    pub open spec fn wf(&self) -> bool {
        &&& 1 <= self.max_retries
        &&& self.attempts <= self.max_retries
        &&& (self.sending ==> 1 <= self.attempts)
        &&& (!self.sending ==> self.attempts == 0)
    }

    /// A fresh, idle worker with the given attempt bound per group.
    pub fn new(max_retries: usize) -> (r: DeliveryWorker)
        requires
            1 <= max_retries,
        ensures
            r.wf(),
            !r.sending,
            r.max_retries == max_retries,
    {
        DeliveryWorker { max_retries, attempts: 0, sending: false }
    }

    /// One transition: a group arriving starts a send with the attempt
    /// counter reset; a failure retries the same group until the bound is
    /// spent, then drops it; a success drops it at once; a closed channel
    /// terminates the worker — never a send failure.
    pub fn step(&mut self, input: WorkerInput) -> (action: WorkerAction)
        requires
            old(self).wf(),
            input is GroupReady || input is ChannelClosed ==> !old(self).sending,
            input is SendSucceeded || input is SendFailed ==> old(self).sending,
        ensures
            final(self).wf(),
            final(self).max_retries == old(self).max_retries,
            *final(self) == spec_step(*old(self), input).0,
            action == spec_step(*old(self), input).1,
            input is ChannelClosed <==> action is Terminate,
    {
        match input {
            WorkerInput::GroupReady => {
                self.sending = true;
                self.attempts = 1;
                WorkerAction::Send
            },
            WorkerInput::ChannelClosed => WorkerAction::Terminate,
            WorkerInput::SendSucceeded => {
                self.sending = false;
                self.attempts = 0;
                WorkerAction::AwaitInput
            },
            WorkerInput::SendFailed => {
                if self.attempts < self.max_retries {
                    self.attempts = self.attempts + 1;
                    WorkerAction::Send
                } else {
                    self.sending = false;
                    self.attempts = 0;
                    WorkerAction::AwaitInput
                }
            },
        }
    }
}

/// A sending worker fed failures while attempts remain issues one send per
/// failure and keeps the group.
pub proof fn lemma_failures_keep_sending(w: DeliveryWorker, f: nat)
    requires
        w.wf(),
        w.sending,
        w.attempts + f <= w.max_retries,
    ensures
        ({
            let r = spec_run(w, Seq::new(f, |i: int| WorkerInput::SendFailed));
            &&& count_sends(r.1) == f
            &&& r.0.sending
            &&& r.0.attempts == w.attempts + f
            &&& r.0.max_retries == w.max_retries
        }),
    decreases f,
{
    let inputs = Seq::new(f, |i: int| WorkerInput::SendFailed);
    if f > 0 {
        let w1 = spec_step(w, WorkerInput::SendFailed).0;
        assert(inputs.drop_first() =~= Seq::new((f - 1) as nat, |i: int| WorkerInput::SendFailed));
        lemma_failures_keep_sending(w1, (f - 1) as nat);
        let rest = spec_run(w1, inputs.drop_first());
        assert((seq![WorkerAction::Send] + rest.1).drop_first() =~= rest.1);
    }
}

/// A sending worker whose next failure spends the last allowed attempt
/// drops the group on that failure and returns to Idle without a send.
pub proof fn lemma_last_failure_drops(w: DeliveryWorker)
    requires
        w.wf(),
        w.sending,
        w.attempts == w.max_retries,
    ensures
        ({
            let r = spec_step(w, WorkerInput::SendFailed);
            &&& r.1 is AwaitInput
            &&& !r.0.sending
            &&& r.0.attempts == 0
        }),
{
}

/// Law: with a client that fails every call, one group costs exactly
/// `max_retries` send attempts — one per failure report — and is then
/// dropped, the worker back at Idle, never terminated by failures.
pub proof fn lemma_retries_exhausted(w: DeliveryWorker)
    requires
        w.wf(),
        !w.sending,
    ensures
        ({
            let inputs = seq![WorkerInput::GroupReady] + Seq::new(
                w.max_retries as nat,
                |i: int| WorkerInput::SendFailed,
            );
            let r = spec_run(w, inputs);
            &&& count_sends(r.1) == w.max_retries
            &&& !r.0.sending
            &&& r.0.max_retries == w.max_retries
        }),
{
    let m = w.max_retries as nat;
    let fails = Seq::new(m, |i: int| WorkerInput::SendFailed);
    let inputs = seq![WorkerInput::GroupReady] + fails;
    let w1 = spec_step(w, WorkerInput::GroupReady).0;
    assert(inputs[0] == WorkerInput::GroupReady);
    assert(inputs.drop_first() =~= fails);
    lemma_failures_keep_sending(w1, (m - 1) as nat);
    let partial = Seq::new((m - 1) as nat, |i: int| WorkerInput::SendFailed);
    let w2 = spec_run(w1, partial).0;
    lemma_last_failure_drops(w2);
    lemma_run_snoc_failure(w1, (m - 1) as nat);
    assert(fails =~= partial.push(WorkerInput::SendFailed));
    let r1 = spec_run(w1, fails);
    lemma_count_sends_last(spec_run(w1, partial).1, spec_step(w2, WorkerInput::SendFailed).1);
    let r = spec_run(w, inputs);
    assert((seq![WorkerAction::Send] + r1.1).drop_first() =~= r1.1);
}

/// Running one more input after a sequence: the run decomposes into the
/// run of the prefix and one step at the end.
pub proof fn lemma_run_snoc(w: DeliveryWorker, inputs: Seq<WorkerInput>, last: WorkerInput)
    ensures
        ({
            let prefix = spec_run(w, inputs);
            let end = spec_step(prefix.0, last);
            spec_run(w, inputs.push(last)) == (end.0, prefix.1.push(end.1))
        }),
    decreases inputs.len(),
{
    let whole = inputs.push(last);
    assert(whole.len() == inputs.len() + 1);
    if inputs.len() == 0 {
        assert(whole[0] == last);
        assert(whole.drop_first() =~= Seq::<WorkerInput>::empty());
        let end = spec_step(w, last);
        assert(spec_run(end.0, whole.drop_first()) == (
            end.0,
            Seq::<WorkerAction>::empty(),
        ));
        assert(spec_run(w, whole) == (end.0, seq![end.1] + Seq::<WorkerAction>::empty()));
        assert(spec_run(w, inputs) == (w, Seq::<WorkerAction>::empty()));
        assert(seq![end.1] + Seq::<WorkerAction>::empty() =~= Seq::<
            WorkerAction,
        >::empty().push(end.1));
    } else {
        assert(whole[0] == inputs[0]);
        let w1 = spec_step(w, inputs[0]).0;
        let a1 = spec_step(w, inputs[0]).1;
        assert(whole.drop_first() =~= inputs.drop_first().push(last));
        lemma_run_snoc(w1, inputs.drop_first(), last);
        let prefix1 = spec_run(w1, inputs.drop_first());
        let prefix = spec_run(w, inputs);
        assert(prefix == (prefix1.0, seq![a1] + prefix1.1));
        let end = spec_step(prefix.0, last);
        assert(spec_run(w1, whole.drop_first()) == (end.0, prefix1.1.push(end.1)));
        assert(spec_run(w, whole) == (end.0, seq![a1] + prefix1.1.push(end.1)));
        assert(seq![a1] + prefix1.1.push(end.1) =~= (seq![a1] + prefix1.1).push(end.1));
    }
}

/// Helper shape of [`lemma_run_snoc`] for a trailing failure report.
pub proof fn lemma_run_snoc_failure(w: DeliveryWorker, f: nat)
    ensures
        ({
            let partial = Seq::new(f, |i: int| WorkerInput::SendFailed);
            let prefix = spec_run(w, partial);
            let end = spec_step(prefix.0, WorkerInput::SendFailed);
            spec_run(w, Seq::new(f + 1, |i: int| WorkerInput::SendFailed)) == (
                end.0,
                prefix.1.push(end.1),
            )
        }),
{
    let partial = Seq::new(f, |i: int| WorkerInput::SendFailed);
    assert(Seq::new(f + 1, |i: int| WorkerInput::SendFailed) =~= partial.push(
        WorkerInput::SendFailed,
    ));
    lemma_run_snoc(w, partial, WorkerInput::SendFailed);
}

/// Appending one action adds one to the send count exactly when it is a
/// send.
pub proof fn lemma_count_sends_last(actions: Seq<WorkerAction>, last: WorkerAction)
    ensures
        count_sends(actions.push(last)) == count_sends(actions) + (if last is Send {
            1 as nat
        } else {
            0 as nat
        }),
    decreases actions.len(),
{
    let whole = actions.push(last);
    assert(whole.len() == actions.len() + 1);
    if actions.len() == 0 {
        assert(whole[0] == last);
        assert(whole.drop_first() =~= Seq::<WorkerAction>::empty());
        assert(count_sends(whole.drop_first()) == 0);
        assert(count_sends(actions) == 0);
        assert(count_sends(whole) == (if last is Send {
            1 as nat + count_sends(whole.drop_first())
        } else {
            count_sends(whole.drop_first())
        }));
    } else {
        assert(whole[0] == actions[0]);
        assert(whole.drop_first() =~= actions.drop_first().push(last));
        lemma_count_sends_last(actions.drop_first(), last);
        assert(count_sends(whole) == (if whole[0] is Send {
            1 as nat + count_sends(whole.drop_first())
        } else {
            count_sends(whole.drop_first())
        }));
        assert(count_sends(actions) == (if actions[0] is Send {
            1 as nat + count_sends(actions.drop_first())
        } else {
            count_sends(actions.drop_first())
        }));
    }
}

/// Law: with a client that succeeds on attempt `s` (within the bound), the
/// group is sent exactly `s` times and then discarded — no further
/// retries — and the worker returns to Idle.
pub proof fn lemma_success_on_attempt(w: DeliveryWorker, s: nat)
    requires
        w.wf(),
        !w.sending,
        1 <= s <= w.max_retries,
    ensures
        ({
            let inputs = seq![WorkerInput::GroupReady] + Seq::new(
                (s - 1) as nat,
                |i: int| WorkerInput::SendFailed,
            ) + seq![WorkerInput::SendSucceeded];
            let r = spec_run(w, inputs);
            &&& count_sends(r.1) == s
            &&& !r.0.sending
            &&& r.0.max_retries == w.max_retries
        }),
{
    let fails = Seq::new((s - 1) as nat, |i: int| WorkerInput::SendFailed);
    let inputs = seq![WorkerInput::GroupReady] + fails + seq![WorkerInput::SendSucceeded];
    let w1 = spec_step(w, WorkerInput::GroupReady).0;
    lemma_failures_keep_sending(w1, (s - 1) as nat);
    let mid = spec_run(w1, fails);
    lemma_run_snoc(w1, fails, WorkerInput::SendSucceeded);
    assert(fails.push(WorkerInput::SendSucceeded) =~= fails + seq![WorkerInput::SendSucceeded]);
    lemma_count_sends_last(mid.1, spec_step(mid.0, WorkerInput::SendSucceeded).1);
    assert(inputs[0] == WorkerInput::GroupReady);
    assert(inputs.drop_first() =~= fails + seq![WorkerInput::SendSucceeded]);
    let r1 = spec_run(w1, fails + seq![WorkerInput::SendSucceeded]);
    assert((seq![WorkerAction::Send] + r1.1).drop_first() =~= r1.1);
}

/// Law: a closed channel reaching an idle worker terminates it at once,
/// with the state unchanged — shutdown is graceful, not an error path.
pub proof fn lemma_closed_terminates(w: DeliveryWorker)
    requires
        w.wf(),
        !w.sending,
    ensures
        spec_step(w, WorkerInput::ChannelClosed).1 is Terminate,
        spec_step(w, WorkerInput::ChannelClosed).0 == w,
{
}

} // verus!
