use vstd::prelude::*;

use crate::types::ChatReq;
use crate::upstream::{completions_url, completions_url_of};

verus! {

/// A unit of work for the worker; `R` is the one-shot channel its reply goes back on.
pub enum InferenceCommand<R> {
    Chat { req: ChatReq, response_tx: R },
    Shutdown,
}

impl<R> InferenceCommand<R> {
    /// The request a command carries; `None` for `Shutdown`.
    pub open spec fn request(&self) -> Option<ChatReq> {
        match self {
            InferenceCommand::Chat { req, .. } => Some(*req),
            InferenceCommand::Shutdown => None,
        }
    }
}

/// A request to post upstream, with where to send the reply.
pub struct ForwardJob<R> {
    pub url: String,
    pub req: ChatReq,
    pub response_tx: R,
}

/// What the worker does next.
pub enum WorkerStep<R> {
    /// Post the request, relay the outcome on its reply channel, then report back.
    Forward(ForwardJob<R>),
    /// Leave the loop; commands still queued are not taken.
    Stop,
}

/// Whether a reply reached its caller.
pub enum ReplyOutcome {
    Delivered,
    /// The caller had gone; the reply was dropped and the worker goes on.
    CallerGone,
}

/// The single consumer of the command queue. It takes one command at a time, so at most
/// one upstream call is in flight.
pub struct InferenceWorker {
    ollama_base: String,
    running: bool,
    in_flight: bool,
    forwarded: Ghost<Seq<ChatReq>>,
    completed: Ghost<nat>,
}

/// The worker's state, whether it still runs and the requests it has forwarded in order,
/// after it takes one command: a request (`Some`) or a shutdown (`None`).
pub open spec fn step(running: bool, forwarded: Seq<ChatReq>, cmd: Option<ChatReq>) -> (
    bool,
    Seq<ChatReq>,
) {
    if !running {
        (running, forwarded)
    } else {
        match cmd {
            Some(req) => (true, forwarded.push(req)),
            None => (false, forwarded),
        }
    }
}

/// The worker's state after taking `cmds` in order, starting from `running` and `forwarded`.
pub open spec fn run(running: bool, forwarded: Seq<ChatReq>, cmds: Seq<Option<ChatReq>>) -> (
    bool,
    Seq<ChatReq>,
)
    decreases cmds.len(),
{
    if cmds.len() == 0 {
        (running, forwarded)
    } else {
        let next = step(running, forwarded, cmds[0]);
        run(next.0, next.1, cmds.drop_first())
    }
}

/// The requests of `cmds` that precede the first shutdown, in order.
pub open spec fn requests_before_shutdown(cmds: Seq<Option<ChatReq>>) -> Seq<ChatReq>
    decreases cmds.len(),
{
    if cmds.len() == 0 {
        Seq::empty()
    } else {
        match cmds[0] {
            Some(req) => seq![req] + requests_before_shutdown(cmds.drop_first()),
            None => Seq::empty(),
        }
    }
}

impl InferenceWorker {
    pub closed spec fn spec_base(&self) -> Seq<char> {
        self.ollama_base@
    }

    /// Whether the worker still takes commands.
    pub closed spec fn spec_running(&self) -> bool {
        self.running
    }

    /// Whether an upstream call is under way and its reply not yet handed back.
    pub closed spec fn spec_in_flight(&self) -> bool {
        self.in_flight
    }

    /// The requests forwarded upstream so far, in the order they were taken.
    pub closed spec fn spec_forwarded(&self) -> Seq<ChatReq> {
        self.forwarded@
    }

    /// How many forwarded calls have finished.
    pub closed spec fn spec_completed(&self) -> nat {
        self.completed@
    }

    /// Every forwarded call has finished, but for the one in flight, if any.
    pub closed spec fn wf(&self) -> bool {
        self.forwarded@.len() == self.completed@ + if self.in_flight {
            1nat
        } else {
            0nat
        }
    }

    pub fn new(ollama_base: String) -> (r: InferenceWorker)
        ensures
            r.wf(),
            r.spec_base() == ollama_base@,
            r.spec_running(),
            !r.spec_in_flight(),
            r.spec_forwarded() == Seq::<ChatReq>::empty(),
            r.spec_completed() == 0,
    {
        InferenceWorker {
            ollama_base,
            running: true,
            in_flight: false,
            forwarded: Ghost(Seq::empty()),
            completed: Ghost(0),
        }
    }

    pub fn is_running(&self) -> (r: bool)
        ensures
            r == self.spec_running(),
    {
        self.running
    }

    /// Decides what to do with what the queue gave: `None` when it is closed. A chat is
    /// forwarded to the completions URL of the configured base; a shutdown, or a closed
    /// queue, stops the worker.
    pub fn next_step<R>(&mut self, received: Option<InferenceCommand<R>>) -> (r: WorkerStep<R>)
        requires
            old(self).wf(),
            old(self).spec_running(),
            !old(self).spec_in_flight(),
        ensures
            final(self).wf(),
            final(self).spec_base() == old(self).spec_base(),
            final(self).spec_completed() == old(self).spec_completed(),
            match received {
                Some(cmd) => (final(self).spec_running(), final(self).spec_forwarded()) == step(
                    true,
                    old(self).spec_forwarded(),
                    cmd.request(),
                ),
                None => !final(self).spec_running() && final(self).spec_forwarded()
                    == old(self).spec_forwarded(),
            },
            match received {
                Some(InferenceCommand::Chat { req, response_tx }) => r == WorkerStep::Forward(
                    ForwardJob { url: r->Forward_0.url, req, response_tx },
                ) && r->Forward_0.url@ == completions_url_of(old(self).spec_base())
                    && final(self).spec_in_flight(),
                _ => r == WorkerStep::<R>::Stop && !final(self).spec_in_flight(),
            },
    {
        match received {
            Some(InferenceCommand::Chat { req, response_tx }) => {
                let url = completions_url(self.ollama_base.as_str());
                proof {
                    self.forwarded@ = self.forwarded@.push(req);
                }
                self.in_flight = true;
                WorkerStep::Forward(ForwardJob { url, req, response_tx })
            },
            _ => {
                self.running = false;
                WorkerStep::Stop
            },
        }
    }

    /// Records that the call in flight has finished and its reply was sent; `delivered`
    /// tells whether the caller was still there. Either way the worker goes on.
    pub fn finish(&mut self, delivered: bool) -> (r: ReplyOutcome)
        requires
            old(self).wf(),
            old(self).spec_in_flight(),
        ensures
            final(self).wf(),
            !final(self).spec_in_flight(),
            final(self).spec_running() == old(self).spec_running(),
            final(self).spec_base() == old(self).spec_base(),
            final(self).spec_forwarded() == old(self).spec_forwarded(),
            final(self).spec_completed() == old(self).spec_completed() + 1,
            delivered ==> r == ReplyOutcome::Delivered,
            !delivered ==> r == ReplyOutcome::CallerGone,
    {
        self.in_flight = false;
        proof {
            self.completed@ = self.completed@ + 1;
        }
        if delivered {
            ReplyOutcome::Delivered
        } else {
            ReplyOutcome::CallerGone
        }
    }
}

/// A running worker that has forwarded `forwarded` and then takes `cmds` forwards exactly
/// the requests before the first shutdown, in the order they were submitted, and still
/// runs only if no shutdown came.
pub proof fn lemma_run_forwards_in_order(forwarded: Seq<ChatReq>, cmds: Seq<Option<ChatReq>>)
    ensures
        run(true, forwarded, cmds).1 == forwarded + requests_before_shutdown(cmds),
        run(true, forwarded, cmds).0 == !cmds.contains(None),
    decreases cmds.len(),
{
    if cmds.len() > 0 {
        match cmds[0] {
            Some(req) => {
                lemma_run_forwards_in_order(forwarded.push(req), cmds.drop_first());
                assert(forwarded.push(req) + requests_before_shutdown(cmds.drop_first())
                    =~= forwarded + requests_before_shutdown(cmds));
                if cmds.drop_first().contains(None) {
                    let j = choose|j: int| 0 <= j < cmds.drop_first().len()
                        && cmds.drop_first()[j] == None::<ChatReq>;
                    assert(cmds[j + 1] == None::<ChatReq>);
                }
                if cmds.contains(None) {
                    let j = choose|j: int| 0 <= j < cmds.len() && cmds[j] == None::<ChatReq>;
                    assert(cmds.drop_first()[j - 1] == None::<ChatReq>);
                }
            },
            None => {
                lemma_stopped_stays_stopped(forwarded, cmds.drop_first());
                assert(forwarded + requests_before_shutdown(cmds) =~= forwarded);
                assert(cmds.contains(None));
            },
        }
    } else {
        assert(forwarded + requests_before_shutdown(cmds) =~= forwarded);
    }
}

/// A stopped worker takes nothing more: commands still queued are never processed.
pub proof fn lemma_stopped_stays_stopped(forwarded: Seq<ChatReq>, cmds: Seq<Option<ChatReq>>)
    ensures
        run(false, forwarded, cmds) == (false, forwarded),
    decreases cmds.len(),
{
    if cmds.len() > 0 {
        lemma_stopped_stays_stopped(forwarded, cmds.drop_first());
    }
}

/// Nothing submitted after a shutdown is processed: the worker ends in the same state
/// whatever follows the shutdown.
pub proof fn lemma_nothing_after_shutdown(
    before: Seq<Option<ChatReq>>,
    after: Seq<Option<ChatReq>>,
)
    ensures
        run(true, Seq::empty(), before.push(None) + after) == run(
            true,
            Seq::empty(),
            before.push(None),
        ),
        !run(true, Seq::empty(), before.push(None)).0,
{
    lemma_run_split(true, Seq::empty(), before.push(None), after);
    lemma_run_forwards_in_order(Seq::empty(), before.push(None));
    assert(before.push(None)[before.len() as int] == None::<ChatReq>);
    let mid = run(true, Seq::empty(), before.push(None));
    lemma_stopped_stays_stopped(mid.1, after);
}

/// Taking `a` and then `b` is taking `a + b`.
pub proof fn lemma_run_split(
    running: bool,
    forwarded: Seq<ChatReq>,
    a: Seq<Option<ChatReq>>,
    b: Seq<Option<ChatReq>>,
)
    ensures
        run(running, forwarded, a + b) == run(
            run(running, forwarded, a).0,
            run(running, forwarded, a).1,
            b,
        ),
    decreases a.len(),
{
    if a.len() > 0 {
        let next = step(running, forwarded, a[0]);
        assert((a + b).drop_first() =~= a.drop_first() + b);
        lemma_run_split(next.0, next.1, a.drop_first(), b);
    } else {
        assert(a + b =~= b);
    }
}

/// At most one upstream call is in flight: the worker has started at most one call more
/// than it has finished.
pub proof fn lemma_one_call_in_flight(w: &InferenceWorker)
    requires
        w.wf(),
    ensures
        w.spec_forwarded().len() <= w.spec_completed() + 1,
        w.spec_in_flight() <==> w.spec_forwarded().len() == w.spec_completed() + 1,
{
}

} // verus!
