//! Channel endpoints with a ghost record of the traffic they carry.
//!
//! An [`Outlet`] is a write capability over an unbounded channel and an
//! [`Inlet`] is its single read capability.  Each endpoint remembers, as a
//! ghost sequence, the items that have passed through it: an outlet's view is
//! the sequence of items it has delivered into the channel, an inlet's view is
//! the sequence of items it has taken out.  A ghost channel name ties the
//! endpoints of one channel together, and a ghost class on each outlet records
//! whether it is its channel's only write end (solo), one of the two ends made
//! by a single duplication (paired), or one of more.
//!
//! The write side meets the read side in two trusted facts about the standard
//! channel: a send cannot fail while the channel's inlet is held ([`send_open`]),
//! and once every write end of a channel is consumed, what the inlet will
//! deliver is fixed — exactly the items of the channel's writers, each
//! writer's in its order ([`seal`], [`seal_pair`]).  From then on [`Inlet::recv`]
//! hands out exactly that stream, then the end of the stream.

use vstd::prelude::*;
use std::sync::mpsc::{Receiver, Sender};
use crate::interleave::is_interleaving;

verus! {

#[verifier::external_type_specification]
#[verifier::external_body]
#[verifier::reject_recursive_types(T)]
pub struct ExSender<T>(Sender<T>);

#[verifier::external_type_specification]
#[verifier::external_body]
#[verifier::reject_recursive_types(T)]
pub struct ExReceiver<T>(Receiver<T>);

/// How many write capabilities a channel has, as far as duplication tracks it:
/// its only one, one of the pair a single duplication made, or one of more.
pub enum WriterClass {
    Solo,
    Paired,
    Shared,
}

/// Relies on std::sync::mpsc::channel: a fresh unbounded channel, returned as
/// its write end and its read end.  The ghost value names the channel; nothing
/// is promised of it, so no two calls are provably the same channel.
#[verifier::external_body]
fn mpsc_channel<T>() -> (Sender<T>, Receiver<T>, Ghost<int>) {
    let (tx, rx) = std::sync::mpsc::channel();
    (tx, rx, Ghost(0))
}

/// Relies on std::sync::mpsc::Sender::send: the call never blocks, it fails
/// exactly when the receiver no longer exists, and a failed send hands the
/// undelivered item back inside the error.
#[verifier::external_body]
fn mpsc_send<T>(tx: &Sender<T>, item: T) -> (r: Result<(), T>)
    ensures
        (match r {
            Ok(_) => true,
            Err(lost) => lost == item,
        }),
{
    match tx.send(item) {
        Ok(()) => Ok(()),
        Err(e) => Err(e.0),
    }
}

/// Relies on std::sync::mpsc::Sender::clone: another write end of the same
/// channel; the channel closes once every clone is dropped.
#[verifier::external_body]
fn mpsc_clone<T>(tx: &Sender<T>) -> Sender<T> {
    tx.clone()
}

/// A write capability over a channel, together with the ghost sequence of the
/// items this capability has delivered, in the order it delivered them.
#[verifier::reject_recursive_types(T)]
pub struct Outlet<T> {
    tx: Sender<T>,
    sent: Ghost<Seq<T>>,
    chan: Ghost<int>,
    class: Ghost<WriterClass>,
}

/// The single read capability over a channel, together with the ghost sequence
/// of the items it has taken out, in the order they arrived.  Once the channel
/// is sealed — every write end consumed — the inlet also carries the stream it
/// is owed: exactly what the writers delivered.
#[verifier::reject_recursive_types(T)]
pub struct Inlet<T> {
    rx: Receiver<T>,
    seen: Ghost<Seq<T>>,
    chan: Ghost<int>,
    done: Ghost<bool>,
    owed: Ghost<Seq<T>>,
}

impl<T> View for Outlet<T> {
    type V = Seq<T>;

    closed spec fn view(&self) -> Seq<T> {
        self.sent@
    }
}

impl<T> View for Inlet<T> {
    type V = Seq<T>;

    closed spec fn view(&self) -> Seq<T> {
        self.seen@
    }
}

impl<T> Outlet<T> {
    /// The ghost name of the channel this outlet writes into.
    pub closed spec fn chan_id(&self) -> int {
        self.chan@
    }

    /// Whether this outlet is its channel's only write end.
    pub open spec fn is_solo(&self) -> bool {
        self.writer_class() == WriterClass::Solo
    }

    /// Whether this outlet is one of the two write ends made by a single
    /// duplication of a solo outlet.
    pub open spec fn is_paired(&self) -> bool {
        self.writer_class() == WriterClass::Paired
    }

    /// How many write ends this outlet's channel has, as far as duplication
    /// tracks it.
    pub closed spec fn writer_class(&self) -> WriterClass {
        self.class@
    }
}

impl<T> Inlet<T> {
    /// The ghost name of the channel this inlet reads from.
    pub closed spec fn chan_id(&self) -> int {
        self.chan@
    }

    /// Whether every write end of this inlet's channel has been consumed, so
    /// that the stream it is owed is fixed.
    pub closed spec fn is_sealed(&self) -> bool {
        self.done@
    }

    /// The full stream this inlet's channel delivers, fixed once the channel
    /// is sealed: what it has already handed out followed by what is still
    /// queued.
    pub closed spec fn stream(&self) -> Seq<T> {
        self.owed@
    }
}

/// Creates a fresh unbounded channel: the outlet that writes into it — its
/// only write end — and the inlet that drains it.  Both histories start empty
/// and the channel is not yet sealed.
pub fn channel<T>() -> (r: (Outlet<T>, Inlet<T>))
    ensures
        r.0@ == Seq::<T>::empty(),
        r.1@ == Seq::<T>::empty(),
        r.0.chan_id() == r.1.chan_id(),
        r.0.is_solo(),
        !r.1.is_sealed(),
{
    let (tx, rx, id) = mpsc_channel();
    (
        Outlet { tx, sent: Ghost(Seq::empty()), chan: id, class: Ghost(WriterClass::Solo) },
        Inlet { rx, seen: Ghost(Seq::empty()), chan: id, done: Ghost(false), owed: Ghost(Seq::empty()) },
    )
}

impl<T> Outlet<T> {
    /// Delivers one item into the channel, extending this outlet's history by
    /// exactly that item; never blocks.  When the channel's reader is gone the
    /// item comes back unchanged as the error and the history stays as it was.
    pub fn send(&mut self, item: T) -> (r: Result<(), T>)
        ensures
            final(self).chan_id() == old(self).chan_id(),
            final(self).writer_class() == old(self).writer_class(),
            (match r {
                Ok(_) => final(self)@ == old(self)@.push(item),
                Err(lost) => final(self)@ == old(self)@ && lost == item,
            }),
    {
        let ghost it = item;
        match mpsc_send(&self.tx, item) {
            Ok(()) => {
                proof {
                    self.sent@ = self.sent@.push(it);
                }
                Ok(())
            },
            Err(lost) => Err(lost),
        }
    }

    /// A second write end of the same channel, with its own, empty history.
    /// Duplicating the channel's only write end makes the two a pair; further
    /// duplication makes every end involved one of more.  The channel closes
    /// only once this outlet and every duplicate are done.
    pub fn duplicate(&mut self) -> (r: Outlet<T>)
        ensures
            r@ == Seq::<T>::empty(),
            r.chan_id() == old(self).chan_id(),
            final(self).chan_id() == old(self).chan_id(),
            final(self)@ == old(self)@,
            old(self).is_solo() ==> (final(self).is_paired() && r.is_paired()),
            !old(self).is_solo() ==> (final(self).writer_class() == WriterClass::Shared
                && r.writer_class() == WriterClass::Shared),
    {
        let tx = mpsc_clone(&self.tx);
        let ghost cls = if self.class@ == WriterClass::Solo {
            WriterClass::Paired
        } else {
            WriterClass::Shared
        };
        proof {
            self.class@ = cls;
        }
        Outlet { tx, sent: Ghost(Seq::empty()), chan: Ghost(self.chan@), class: Ghost(cls) }
    }
}

impl<T> Inlet<T> {
    /// Takes the next item out of the channel, extending this inlet's history
    /// by exactly that item; blocks until an item arrives.  `None` means the
    /// stream is over: the channel is empty and every writer is gone.
    ///
    /// Relies on std::sync::mpsc::Receiver::recv: it blocks until an item
    /// arrives and fails exactly when the channel is empty and every sender is
    /// gone; each sender's items arrive in send order.  So on a sealed channel
    /// — every write end consumed, the stream fixed — the next item is exactly
    /// the stream's next, and the end comes exactly when the stream is out.
    /// On an unsealed channel the outcome depends on the writers, and nothing
    /// is promised of it.
    #[verifier::external_body]
    pub fn recv(&mut self) -> (r: Option<T>)
        ensures
            final(self).chan_id() == old(self).chan_id(),
            final(self).is_sealed() == old(self).is_sealed(),
            final(self).stream() == old(self).stream(),
            (match r {
                Some(item) => final(self)@ == old(self)@.push(item),
                None => final(self)@ == old(self)@,
            }),
            (old(self).is_sealed() && old(self)@.is_prefix_of(old(self).stream())) ==> (match r {
                Some(item) => old(self)@.len() < old(self).stream().len() && item == old(
                    self,
                ).stream()[old(self)@.len() as int],
                None => old(self)@.len() >= old(self).stream().len(),
            }),
    {
        match self.rx.recv() {
            Ok(item) => Some(item),
            Err(_) => None,
        }
    }
}

/// Relies on std::sync::mpsc::Sender::send: a send fails only when the
/// channel's receiver no longer exists.  The borrowed inlet of the same
/// channel is that receiver, alive, so this send cannot fail; the item is
/// queued and the history extends by it.
#[verifier::external_body]
fn send_open<T>(outlet: &mut Outlet<T>, reader: &Inlet<T>, item: T)
    requires
        old(outlet).chan_id() == reader.chan_id(),
    ensures
        final(outlet).chan_id() == old(outlet).chan_id(),
        final(outlet).writer_class() == old(outlet).writer_class(),
        final(outlet)@ == old(outlet)@.push(item),
{
    let _ = outlet.tx.send(item);
}

/// Relies on std::sync::mpsc: each sender's items arrive at the receiver in
/// send order, and the channel closes once every sender is gone.  Consuming a
/// channel's only write end fixes what its unread inlet will deliver: exactly
/// that outlet's items, in order, then the end of the stream.
#[verifier::external_body]
pub(crate) fn seal<T>(outlet: Outlet<T>, inlet: &mut Inlet<T>)
    requires
        outlet.chan_id() == old(inlet).chan_id(),
        outlet.is_solo(),
        !old(inlet).is_sealed(),
        old(inlet)@ == Seq::<T>::empty(),
    ensures
        final(inlet).chan_id() == old(inlet).chan_id(),
        final(inlet)@ == Seq::<T>::empty(),
        final(inlet).is_sealed(),
        final(inlet).stream() == outlet@,
{
    drop(outlet);
}

/// Relies on std::sync::mpsc: each sender's items arrive at the receiver in
/// send order, writers interleave freely, and the channel closes once every
/// sender is gone.  Consuming both write ends of a channel — the pair a single
/// duplication made, so there is no third — fixes what its unread inlet will
/// deliver: some interleaving of the two outlets' items.
#[verifier::external_body]
pub(crate) fn seal_pair<T>(a: Outlet<T>, b: Outlet<T>, inlet: &mut Inlet<T>)
    requires
        a.chan_id() == old(inlet).chan_id(),
        b.chan_id() == old(inlet).chan_id(),
        a.is_paired(),
        b.is_paired(),
        !old(inlet).is_sealed(),
        old(inlet)@ == Seq::<T>::empty(),
    ensures
        final(inlet).chan_id() == old(inlet).chan_id(),
        final(inlet)@ == Seq::<T>::empty(),
        final(inlet).is_sealed(),
        is_interleaving(a@, b@, final(inlet).stream()),
{
    drop(a);
    drop(b);
}

/// How many items one forwarding run is willing to move before it stops.
///
/// The termination argument for [`pump`] counts down from this bound.  At one
/// item per nanosecond a run would last over five centuries before reaching
/// it, so no real stream ever does.
pub const PUMP_BUDGET: u64 = u64::MAX;

/// Why a forwarding run stopped.
pub enum PumpStop<T> {
    /// The source closed: its channel was empty with every writer gone, and
    /// every item received had been forwarded.
    Closed,
    /// The destination's reader is gone; the held item could not be delivered
    /// and is handed back.
    Disconnected(T),
    /// [`PUMP_BUDGET`] items were forwarded before the source closed.
    Spent,
}

/// Forwards items from `source` into `dest`, in order, until the source
/// closes, the destination's reader is gone, or [`PUMP_BUDGET`] items have
/// been moved.  Everything the source hands out is passed along unmodified:
/// the destination's history grows by exactly the items received, except that
/// a disconnected destination loses the single item in flight, which comes
/// back in the result.
#[verifier::loop_isolation(false)]
pub fn pump<T>(source: &mut Inlet<T>, dest: &mut Outlet<T>) -> (r: PumpStop<T>)
    ensures
        old(source)@.is_prefix_of(final(source)@),
        final(source).chan_id() == old(source).chan_id(),
        final(source).is_sealed() == old(source).is_sealed(),
        final(source).stream() == old(source).stream(),
        final(dest).chan_id() == old(dest).chan_id(),
        final(dest).writer_class() == old(dest).writer_class(),
        (match r {
            PumpStop::Closed => final(dest)@ == old(dest)@ + final(source)@.skip(
                old(source)@.len() as int,
            ),
            PumpStop::Disconnected(lost) => {
                let got = final(source)@.skip(old(source)@.len() as int);
                &&& got.len() > 0
                &&& lost == got.last()
                &&& final(dest)@ == old(dest)@ + got.drop_last()
            },
            PumpStop::Spent => {
                let got = final(source)@.skip(old(source)@.len() as int);
                &&& got.len() == PUMP_BUDGET
                &&& final(dest)@ == old(dest)@ + got
            },
        }),
{
    let ghost src0 = source@;
    let ghost dst0 = dest@;
    let mut fuel: u64 = PUMP_BUDGET;
    loop
        invariant
            fuel <= PUMP_BUDGET,
            src0.is_prefix_of(source@),
            source@.len() - src0.len() == PUMP_BUDGET - fuel,
            dest@ == dst0 + source@.skip(src0.len() as int),
            source.chan_id() == old(source).chan_id(),
            source.is_sealed() == old(source).is_sealed(),
            source.stream() == old(source).stream(),
            dest.chan_id() == old(dest).chan_id(),
            dest.writer_class() == old(dest).writer_class(),
        decreases fuel,
    {
        if fuel == 0 {
            return PumpStop::Spent;
        }
        fuel = fuel - 1;
        match source.recv() {
            None => {
                return PumpStop::Closed;
            },
            Some(item) => {
                let ghost before = source@;
                proof {
                    assert(before.skip(src0.len() as int) =~= before.drop_last().skip(
                        src0.len() as int,
                    ).push(before.last()));
                    assert(src0.is_prefix_of(before)) by {
                        assert(before.take(src0.len() as int) =~= before.drop_last().take(
                            src0.len() as int,
                        ));
                    }
                }
                match dest.send(item) {
                    Ok(()) => {
                        proof {
                            assert(dest@ =~= dst0 + source@.skip(src0.len() as int));
                        }
                    },
                    Err(lost) => {
                        return PumpStop::Disconnected(lost);
                    },
                }
            },
        }
    }
}

/// Forwards everything a sealed source still owes into `dest`, whose channel's
/// inlet the caller holds, so no send can fail.  Returns whether the source
/// was drained to its close; the one other outcome is the forwarding budget
/// running out, which no real stream reaches.
#[verifier::loop_isolation(false)]
pub(crate) fn pump_sealed<T>(
    source: &mut Inlet<T>,
    dest: &mut Outlet<T>,
    reader: &Inlet<T>,
) -> (complete: bool)
    requires
        old(dest).chan_id() == reader.chan_id(),
        old(source).is_sealed(),
        old(source)@ == Seq::<T>::empty(),
    ensures
        final(dest).chan_id() == old(dest).chan_id(),
        final(dest).writer_class() == old(dest).writer_class(),
        final(dest)@ == old(dest)@ + final(source)@,
        complete ==> final(source)@ == old(source).stream(),
        !complete ==> old(source).stream().len() >= PUMP_BUDGET && final(source)@ == old(
            source,
        ).stream().take(PUMP_BUDGET as int),
{
    let ghost dst0 = dest@;
    let mut fuel: u64 = PUMP_BUDGET;
    loop
        invariant
            fuel <= PUMP_BUDGET,
            source@.len() == PUMP_BUDGET - fuel,
            source@.is_prefix_of(old(source).stream()),
            dest@ == dst0 + source@,
            source.chan_id() == old(source).chan_id(),
            source.is_sealed(),
            source.stream() == old(source).stream(),
            dest.chan_id() == old(dest).chan_id(),
            dest.writer_class() == old(dest).writer_class(),
        decreases fuel,
    {
        if fuel == 0 {
            proof {
                assert(source@ =~= source.stream().take(PUMP_BUDGET as int));
            }
            return false;
        }
        fuel = fuel - 1;
        match source.recv() {
            None => {
                proof {
                    assert(source@ =~= source.stream());
                }
                return true;
            },
            Some(item) => {
                proof {
                    assert(source@.is_prefix_of(source.stream())) by {
                        assert(source@ =~= source.stream().take(source@.len() as int));
                    }
                }
                send_open(dest, reader, item);
            },
        }
    }
}

} // verus!
