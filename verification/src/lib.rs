//! Chains sub-tasks into a pipeline connected by channels.
//!
//! A pipeline begins with [`input`], which hands a fresh channel's write end
//! to a producing function and wraps the read end in a [`TaskPipe`].  Further
//! producers fan into the same stream with [`TaskPipe::input`], the stream is
//! reshaped by [`TaskPipe::pipe`], and exactly one terminal call —
//! [`TaskPipe::drain`], [`TaskPipe::end`] or [`TaskPipe::join`] — consumes the
//! pipe and drains the last channel.  Every pipe-producing call consumes the
//! pipe passed into it, so each channel's read end is owned by exactly one
//! stage.
//!
//! Each stage runs its function to completion in the calling context and hands
//! the function's write end back when it returns, which closes the stage's
//! channel and fixes the stream the next stage is owed: exactly what the
//! stage's writers delivered, each writer's items in its order.  Every
//! constructor's contract pins that stream to the stage function's own
//! postcondition.  The channels are unbounded, so a producer finishing before
//! its consumer starts loses nothing.

mod channel;
mod interleave;

pub use channel::{channel, pump, Inlet, Outlet, PumpStop, WriterClass, PUMP_BUDGET};
pub use interleave::{is_interleaving, lemma_chained_interleaving_unions_three_sources,
    lemma_interleaving_is_multiset_union, lemma_interleaving_with_empty_source};

use vstd::prelude::*;
use channel::{pump_sealed, seal, seal_pair};

verus! {

/// A pipeline continuation: the exclusive read end of the previous stage's
/// channel, sealed — its stream fixed — and not yet read.  It is produced by a
/// stage constructor and consumed by exactly one later call.
#[verifier::reject_recursive_types(T)]
pub struct TaskPipe<T: 'static + Send> {
    inlet: Inlet<T>,
}

/// The already-computed return value of a terminal consumer, retrieved with
/// [`Handle::join`].
pub struct Handle<R> {
    value: R,
}

impl<R> Handle<R> {
    /// The value the consumer returned.
    pub closed spec fn result(&self) -> R {
        self.value
    }

    /// Retrieves the consumer's return value.  It is already here, so this
    /// always succeeds; the `Result` is the shape a caller waiting on a task
    /// expects.
    pub fn join(self) -> (r: Result<R, ()>)
        ensures
            r == Ok::<R, ()>(self.result()),
    {
        Ok(self.value)
    }
}

/// What beginning a pipeline promises: the new pipe's stream is exactly the
/// sequence that `task`, run once on a fresh, empty outlet of the pipe's own
/// channel, wrote and handed back.
pub open spec fn produces<T: 'static + Send, F: FnOnce(Outlet<T>) -> Outlet<T>>(
    task: F,
    made: Inlet<T>,
) -> bool {
    exists|o: Outlet<T>, p: Outlet<T>|
        #![auto]
        o@ == Seq::<T>::empty() && o.chan_id() == made.chan_id() && call_ensures(task, (o,), p)
            && made.stream() == p@
}

/// What transforming promises: the new pipe's stream is exactly the sequence
/// that `task`, run once on the upstream inlet and a fresh, empty outlet of
/// the new pipe's own channel, wrote and handed back.
pub open spec fn transforms<
    T: 'static + Send,
    S: 'static + Send,
    F: FnOnce(Inlet<T>, Outlet<S>) -> Outlet<S>,
>(task: F, upstream: Inlet<T>, made: Inlet<S>) -> bool {
    exists|o: Outlet<S>, p: Outlet<S>|
        #![auto]
        o@ == Seq::<S>::empty() && o.chan_id() == made.chan_id() && call_ensures(
            task,
            (upstream, o),
            p,
        ) && made.stream() == p@
}

/// What merging promises: the merged pipe's stream interleaves the upstream
/// pipe's whole stream — or, past [`PUMP_BUDGET`] items, that long a prefix —
/// with a sequence that `task`, run once on a fresh outlet of the merged
/// pipe's own channel, wrote and handed back.
pub open spec fn merges<T: 'static + Send, F: FnOnce(Outlet<T>) -> Outlet<T>>(
    task: F,
    upstream: Inlet<T>,
    merged: Inlet<T>,
) -> bool {
    exists|o: Outlet<T>, p: Outlet<T>, fed: Seq<T>|
        #![auto]
        o@ == Seq::<T>::empty() && o.chan_id() == merged.chan_id() && call_ensures(task, (o,), p)
            && (fed == upstream.stream() || (upstream.stream().len() >= PUMP_BUDGET && fed
            == upstream.stream().take(PUMP_BUDGET as int))) && is_interleaving(
            fed,
            p@,
            merged.stream(),
        )
}

/// Begins a pipeline with a production function.
///
/// Creates a fresh channel, runs `task` once against its outlet — the
/// channel's only write end, which `task` hands back when it is done writing —
/// and returns the pipe wrapping the inlet.  The pipe's stream is exactly what
/// `task` wrote, in order: whatever `task`'s postcondition says of the outlet
/// it returns holds of the stream.
pub fn input<T: 'static + Send, F: 'static + FnOnce(Outlet<T>) -> Outlet<T> + Send>(task: F) -> (r:
    TaskPipe<T>)
    requires
        (forall|o: Outlet<T>| o@ == Seq::<T>::empty() ==> call_requires(task, (o,))),
        (forall|o: Outlet<T>, p: Outlet<T>|
            call_ensures(task, (o,), p) ==> p.chan_id() == o.chan_id() && (o.is_solo()
                ==> p.is_solo())),
    ensures
        r.wf(),
        produces(task, r.inlet()),
{
    let (outlet, mut inlet) = channel();
    let ghost given = outlet;
    let produced = task(outlet);
    let ghost handed = produced;
    seal(produced, &mut inlet);
    proof {
        assert(given@ == Seq::<T>::empty() && given.chan_id() == inlet.chan_id() && call_ensures(
            task,
            (given,),
            handed,
        ) && inlet.stream() == handed@);
        assert(produces(task, inlet));
    }
    TaskPipe { inlet }
}

impl<T: 'static + Send> TaskPipe<T> {
    /// The read end this pipe wraps, as the contracts speak of it.
    pub closed spec fn inlet(&self) -> Inlet<T> {
        self.inlet
    }

    /// A well-formed pipe: its channel is sealed — the stream it is owed is
    /// fixed — and nothing has been read from it.  Every constructor returns
    /// a well-formed pipe.
    pub open spec fn wf(&self) -> bool {
        &&& self.inlet().is_sealed()
        &&& self.inlet()@ == Seq::<T>::empty()
    }

    /// Merges additional items into the pipeline.
    ///
    /// Consumes this pipe and returns a new one over a fresh channel with two
    /// writers: a forwarder that moves this pipe's whole stream across, in
    /// order, and `task`, writing to its own outlet of the same channel, which
    /// it hands back when done.  The new pipe's stream is an interleaving
    /// ([`is_interleaving`]) of the forwarded stream and what `task` wrote: no
    /// order across the two, each one's order kept, and by
    /// [`lemma_interleaving_is_multiset_union`] no item lost or invented.  The
    /// one exception to "whole stream" is a source longer than [`PUMP_BUDGET`],
    /// which no real stream reaches: the forwarder moves that many items.
    pub fn input<F: 'static + FnOnce(Outlet<T>) -> Outlet<T> + Send>(self, task: F) -> (r:
        TaskPipe<T>)
        requires
            self.wf(),
            (forall|o: Outlet<T>| o@ == Seq::<T>::empty() ==> call_requires(task, (o,))),
            (forall|o: Outlet<T>, p: Outlet<T>|
                call_ensures(task, (o,), p) ==> p.chan_id() == o.chan_id() && (o.is_paired()
                    ==> p.is_paired())),
        ensures
            r.wf(),
            merges(task, self.inlet(), r.inlet()),
    {
        let ghost sin = self.inlet();
        let (mut outlet, mut inlet) = channel();
        let forward = outlet.duplicate();
        let mut forward = forward;
        let TaskPipe { inlet: mut upstream } = self;
        let complete = pump_sealed(&mut upstream, &mut forward, &inlet);
        let ghost given = outlet;
        let produced = task(outlet);
        let ghost handed = produced;
        let ghost fed0 = forward@;
        seal_pair(forward, produced, &mut inlet);
        proof {
            assert(given@ == Seq::<T>::empty() && given.chan_id() == inlet.chan_id() && call_ensures(
                task,
                (given,),
                handed,
            ) && (fed0 == sin.stream() || (sin.stream().len() >= PUMP_BUDGET && fed0
                == sin.stream().take(PUMP_BUDGET as int))) && is_interleaving(
                fed0,
                handed@,
                inlet.stream(),
            ));
            assert(merges(task, sin, inlet));
        }
        TaskPipe { inlet }
    }

    /// Transforms or processes pipeline items.
    ///
    /// Consumes this pipe, hands its inlet together with a fresh channel's
    /// outlet — the channel's only write end, handed back when done — to
    /// `task`, and returns the pipe over the fresh channel.  The item type may
    /// change; `task` decides freely what to read, what to write, and when to
    /// stop.  The new pipe's stream is exactly what `task` wrote, in order:
    /// whatever `task`'s postcondition says of the outlet it returns, given
    /// this pipe's inlet, holds of the stream.
    pub fn pipe<S: 'static + Send, F: 'static + FnOnce(Inlet<T>, Outlet<S>) -> Outlet<S> + Send>(
        self,
        task: F,
    ) -> (r: TaskPipe<S>)
        requires
            (forall|o: Outlet<S>|
                o@ == Seq::<S>::empty() ==> call_requires(task, (self.inlet(), o))),
            (forall|o: Outlet<S>, p: Outlet<S>|
                call_ensures(task, (self.inlet(), o), p) ==> p.chan_id() == o.chan_id() && (
                o.is_solo() ==> p.is_solo())),
        ensures
            r.wf(),
            transforms(task, self.inlet(), r.inlet()),
    {
        let ghost sin = self.inlet();
        let (outlet, mut inlet) = channel();
        let ghost given = outlet;
        let TaskPipe { inlet: upstream } = self;
        let produced = task(upstream, outlet);
        let ghost handed = produced;
        seal(produced, &mut inlet);
        proof {
            assert(given@ == Seq::<S>::empty() && given.chan_id() == inlet.chan_id() && call_ensures(
                task,
                (sin, given),
                handed,
            ) && inlet.stream() == handed@);
            assert(transforms(task, sin, inlet));
        }
        TaskPipe { inlet }
    }

    /// Finalizes the pipeline, keeping the consumer's return value.
    ///
    /// Consumes this pipe, runs `task` once against its inlet, and returns a
    /// handle whose [`Handle::join`] yields exactly the value `task` returned.
    /// This is the one path by which a final aggregate crosses back out of the
    /// pipeline.
    pub fn end<R: 'static + Send, F: 'static + FnOnce(Inlet<T>) -> R + Send>(self, task: F) -> (h:
        Handle<R>)
        requires
            call_requires(task, (self.inlet(),)),
        ensures
            call_ensures(task, (self.inlet(),), h.result()),
    {
        let TaskPipe { inlet } = self;
        Handle { value: task(inlet) }
    }

    /// Finalizes the pipeline, discarding whatever the consumer leaves behind.
    ///
    /// Consumes this pipe and runs `task` once against its inlet; nothing
    /// comes back to the caller beyond `task`'s own postcondition having held.
    pub fn drain<F: 'static + FnOnce(Inlet<T>) + Send>(self, task: F)
        requires
            call_requires(task, (self.inlet(),)),
        ensures
            call_ensures(task, (self.inlet(),), ()),
    {
        let TaskPipe { inlet } = self;
        task(inlet);
    }

    /// Finalizes the pipeline in the calling context and yields the
    /// consumer's value directly: the convenience form of [`TaskPipe::end`]
    /// followed immediately by [`Handle::join`].
    pub fn join<R, F: FnOnce(Inlet<T>) -> R>(self, task: F) -> (r: R)
        requires
            call_requires(task, (self.inlet(),)),
        ensures
            call_ensures(task, (self.inlet(),), r),
    {
        let TaskPipe { inlet } = self;
        task(inlet)
    }
}

/// `join` equals `end` followed by blocking on the handle.
///
/// Both paths promise a value satisfying the consumer's postcondition on the
/// same inlet; when the consumer computes one single value from that inlet —
/// its postcondition admits no two distinct results — the value `join`
/// returns and the value [`Handle::join`] retrieves are equal.
pub proof fn lemma_join_matches_end<T: 'static + Send, R, F: FnOnce(Inlet<T>) -> R>(
    task: F,
    inlet: Inlet<T>,
    joined: R,
    handle: Handle<R>,
)
    requires
        call_ensures(task, (inlet,), joined),
        call_ensures(task, (inlet,), handle.result()),
        (forall|r1: R, r2: R|
            #[trigger] call_ensures(task, (inlet,), r1) && #[trigger] call_ensures(
                task,
                (inlet,),
                r2,
            ) ==> r1 == r2),
    ensures
        joined == handle.result(),
{
}

} // verus!

