//! Gathering packets from a channel into batches for one device write.
//!
//! The forwarder waits (blocking) for one packet, then keeps taking packets
//! without waiting until the channel has none ready or the batch holds
//! `limit` packets, and then writes the batch to the device in one call.
//! [`Batcher`] makes those decisions; the caller does the receiving and the
//! writing.
use vstd::prelude::*;
use crate::offload::{ideal_batch_size, spec_ideal_batch_size};

verus! {

/// How the caller must ask the channel for the next packet.
#[derive(PartialEq, Eq, Structural, Debug, Clone, Copy)]
pub enum Request {
    /// A blocking receive: the batch being gathered is empty.
    Wait,
    /// A non-blocking receive: a batch is being gathered.
    Poll,
}

/// What the caller must do after handing a receive result to the batcher.
#[derive(Debug)]
pub enum Outcome<T> {
    /// Receive the next packet.
    Continue,
    /// Write these packets to the device, in this order.
    Flush(Vec<T>),
    /// A blocking receive found the channel closed: nothing can follow.
    Closed,
}

/// The gathered packets after receive result `ev` (`None`: no packet came).
pub open spec fn next_pending<T>(limit: nat, pending: Seq<T>, ev: Option<T>) -> Seq<T> {
    match ev {
        Some(p) => if pending.len() + 1 >= limit { Seq::empty() } else { pending.push(p) },
        None => Seq::empty(),
    }
}

/// The batch written to the device after receive result `ev`, if any.
/// A batch goes out when it reaches `limit` packets, or when a receive finds
/// no packet while some are gathered.
pub open spec fn flushed<T>(limit: nat, pending: Seq<T>, ev: Option<T>) -> Option<Seq<T>> {
    match ev {
        Some(p) => if pending.len() + 1 >= limit { Some(pending.push(p)) } else { None },
        None => if pending.len() > 0 { Some(pending) } else { None },
    }
}

/// A receive found no packet while nothing was gathered: that receive was
/// the blocking one, so the channel is closed.
pub open spec fn closes<T>(pending: Seq<T>, ev: Option<T>) -> bool {
    ev is None && pending.len() == 0
}

/// `out` is the outcome that receive result `ev` calls for.
pub open spec fn outcome_is<T>(out: Outcome<T>, limit: nat, pending: Seq<T>, ev: Option<T>) -> bool {
    match out {
        Outcome::Continue => flushed(limit, pending, ev) is None && !closes(pending, ev),
        Outcome::Flush(b) => flushed(limit, pending, ev) == Some(b@),
        Outcome::Closed => closes(pending, ev),
    }
}

/// The batches written, in order, while the receive results `evs` come in,
/// starting with `pending` gathered.
pub open spec fn batches<T>(limit: nat, pending: Seq<T>, evs: Seq<Option<T>>) -> Seq<Seq<T>>
    decreases evs.len(),
{
    if evs.len() == 0 {
        Seq::empty()
    } else {
        let rest = batches(limit, next_pending(limit, pending, evs[0]), evs.drop_first());
        match flushed(limit, pending, evs[0]) {
            Some(b) => seq![b] + rest,
            None => rest,
        }
    }
}

/// The packets still gathered after the receive results `evs`.
pub open spec fn final_pending<T>(limit: nat, pending: Seq<T>, evs: Seq<Option<T>>) -> Seq<T>
    decreases evs.len(),
{
    if evs.len() == 0 {
        pending
    } else {
        final_pending(limit, next_pending(limit, pending, evs[0]), evs.drop_first())
    }
}

/// The packets among the receive results, in order.
pub open spec fn arrivals<T>(evs: Seq<Option<T>>) -> Seq<T>
    decreases evs.len(),
{
    if evs.len() == 0 {
        Seq::empty()
    } else {
        match evs[0] {
            Some(p) => seq![p] + arrivals(evs.drop_first()),
            None => arrivals(evs.drop_first()),
        }
    }
}

/// The packets of a sequence of batches, batch after batch.
pub open spec fn concat<T>(bs: Seq<Seq<T>>) -> Seq<T>
    decreases bs.len(),
{
    if bs.len() == 0 {
        Seq::empty()
    } else {
        bs[0] + concat(bs.drop_first())
    }
}

proof fn lemma_concat_cons<T>(b: Seq<T>, rest: Seq<Seq<T>>)
    ensures
        concat(seq![b] + rest) == b + concat(rest),
{
    let bs = seq![b] + rest;
    assert(bs.len() > 0);
    assert(bs[0] == b);
    assert(bs.drop_first() =~= rest);
}

/// No packet is lost, duplicated or reordered: the batches written, followed
/// by the packets still gathered, are the packets gathered at the start
/// followed by every packet received, in order.
pub proof fn lemma_batches_keep_every_packet<T>(limit: nat, pending: Seq<T>, evs: Seq<Option<T>>)
    requires
        1 <= limit,
        pending.len() < limit,
    ensures
        concat(batches(limit, pending, evs)) + final_pending(limit, pending, evs)
            == pending + arrivals(evs),
    decreases evs.len(),
{
    if evs.len() == 0 {
        assert(concat(Seq::<Seq<T>>::empty()) =~= Seq::<T>::empty());
        assert(Seq::<T>::empty() + pending =~= pending);
        assert(pending + Seq::<T>::empty() =~= pending);
    } else {
        let ev = evs[0];
        let rest = evs.drop_first();
        let np = next_pending(limit, pending, ev);
        lemma_batches_keep_every_packet(limit, np, rest);
        let tail = batches(limit, np, rest);
        match ev {
            Some(p) => {
                assert(arrivals(evs) == seq![p] + arrivals(rest));
                if pending.len() + 1 >= limit {
                    lemma_concat_cons(pending.push(p), tail);
                    assert(Seq::<T>::empty() + arrivals(rest) =~= arrivals(rest));
                    assert(pending.push(p) + concat(tail) + final_pending(limit, np, rest)
                        =~= pending + (seq![p] + arrivals(rest)));
                } else {
                    assert(pending.push(p) + arrivals(rest) =~= pending + (seq![p] + arrivals(rest)));
                }
            },
            None => {
                assert(arrivals(evs) == arrivals(rest));
                assert(Seq::<T>::empty() + arrivals(rest) =~= arrivals(rest));
                if pending.len() > 0 {
                    lemma_concat_cons(pending, tail);
                    assert(pending + concat(tail) + final_pending(limit, np, rest)
                        =~= pending + (concat(tail) + final_pending(limit, np, rest)));
                } else {
                    assert(pending =~= Seq::<T>::empty());
                }
            },
        }
    }
}

/// Every batch written holds at least one packet and at most `limit`, and
/// fewer than `limit` packets are ever left gathered.
pub proof fn lemma_batches_are_bounded<T>(limit: nat, pending: Seq<T>, evs: Seq<Option<T>>)
    requires
        1 <= limit,
        pending.len() < limit,
    ensures
        forall|i: int|
            0 <= i < batches(limit, pending, evs).len() ==> 1 <= #[trigger] batches(
                limit,
                pending,
                evs,
            )[i].len() <= limit,
        final_pending(limit, pending, evs).len() < limit,
    decreases evs.len(),
{
    if evs.len() > 0 {
        let ev = evs[0];
        let rest = evs.drop_first();
        let np = next_pending(limit, pending, ev);
        lemma_batches_are_bounded(limit, np, rest);
        let tail = batches(limit, np, rest);
        match flushed(limit, pending, ev) {
            Some(b) => {
                assert(1 <= b.len() <= limit);
                let all = seq![b] + tail;
                assert forall|i: int| 0 <= i < all.len() implies 1 <= #[trigger] all[i].len() <= limit by {
                    if i > 0 {
                        assert(all[i] == tail[i - 1]);
                    }
                }
            },
            None => {},
        }
    }
}

/// A batch shorter than `limit` is written only after a receive found no
/// packet ready; a packet that arrives is written at once only when it
/// fills the batch.
pub proof fn lemma_short_batch_only_when_drained<T>(limit: nat, pending: Seq<T>, ev: Option<T>)
    requires
        1 <= limit,
        pending.len() < limit,
    ensures
        flushed(limit, pending, ev) matches Some(b) && b.len() < limit ==> ev is None,
        ev is Some && flushed(limit, pending, ev) is Some ==> flushed(limit, pending, ev).unwrap().len() == limit,
{
}

/// A receive that finds no packet while packets are gathered writes them
/// all, as one batch in arrival order, and leaves nothing gathered; one
/// that finds no packet while nothing is gathered means the channel is
/// closed and writes nothing.
pub proof fn lemma_drained_channel_flushes_everything<T>(limit: nat, pending: Seq<T>, out: Outcome<T>)
    requires
        1 <= limit,
        pending.len() < limit,
        outcome_is(out, limit, pending, None::<T>),
    ensures
        next_pending(limit, pending, None::<T>).len() == 0,
        pending.len() > 0 ==> (out matches Outcome::Flush(b) && b@ == pending),
        pending.len() == 0 ==> out is Closed,
        final_pending(limit, pending, seq![None::<T>]).len() == 0,
        pending.len() > 0 ==> batches(limit, pending, seq![None::<T>]) == seq![pending],
{
    let evs = seq![None::<T>];
    let np = next_pending(limit, pending, None::<T>);
    assert(evs.drop_first() =~= Seq::<Option<T>>::empty());
    assert(evs[0] == None::<T>);
    assert(final_pending(limit, np, Seq::<Option<T>>::empty()) == np);
    assert(batches(limit, np, Seq::<Option<T>>::empty()) == Seq::<Seq<T>>::empty());
    assert(final_pending(limit, pending, evs) == final_pending(limit, np, evs.drop_first()));
    if pending.len() > 0 {
        assert(seq![pending] + Seq::<Seq<T>>::empty() =~= seq![pending]);
    }
}

/// A packet that does not fill the batch is added after the gathered ones
/// and nothing is written; a packet that fills it is written with the
/// gathered ones, in arrival order, and nothing stays gathered.
pub proof fn lemma_packet_gathers_or_fills<T>(limit: nat, pending: Seq<T>, p: T, out: Outcome<T>)
    requires
        1 <= limit,
        pending.len() < limit,
        outcome_is(out, limit, pending, Some(p)),
    ensures
        pending.len() + 1 < limit ==> (out is Continue && next_pending(limit, pending, Some(p))
            == pending.push(p)),
        pending.len() + 1 == limit ==> (out matches Outcome::Flush(b) && b@.len() == limit
            && b@.take(pending.len() as int) == pending && b@.last() == p
            && next_pending(limit, pending, Some(p)).len() == 0),
{
    if pending.len() + 1 == limit {
        assert(pending.push(p).take(pending.len() as int) =~= pending);
    }
}

/// Decides when gathered packets are written to the device.
pub struct Batcher<T> {
    pending: Vec<T>,
    limit: usize,
}

impl<T> View for Batcher<T> {
    type V = Seq<T>;

    /// The packets gathered and not yet written, in arrival order.
    closed spec fn view(&self) -> Seq<T> {
        self.pending@
    }
}

impl<T> Batcher<T> {
    /// The largest number of packets in one batch.
    pub closed spec fn spec_limit(&self) -> nat {
        self.limit as nat
    }

    /// A batcher never holds a full batch between two receives.
    pub closed spec fn wf(&self) -> bool {
        1 <= self.limit && self.pending@.len() < self.limit
    }

    /// A batcher whose batches hold at most `limit` packets.
    pub fn new(limit: usize) -> (b: Self)
        requires
            limit >= 1,
        ensures
            b.wf(),
            b@ == Seq::<T>::empty(),
            b.spec_limit() == limit,
    {
        Batcher { pending: Vec::new(), limit }
    }

    /// A batcher whose batches hold at most the batch size that `tun_rs`
    /// recommends for `send_multiple`.
    pub fn with_ideal_size() -> (b: Self)
        ensures
            b.wf(),
            b@ == Seq::<T>::empty(),
            b.spec_limit() == spec_ideal_batch_size(),
    {
        Self::new(ideal_batch_size())
    }

    /// The largest number of packets in one batch.
    pub fn limit(&self) -> (n: usize)
        ensures
            n == self.spec_limit(),
    {
        self.limit
    }

    /// The number of packets gathered and not yet written.
    pub fn pending_len(&self) -> (n: usize)
        ensures
            n == self@.len(),
    {
        self.pending.len()
    }

    /// How the next packet is to be received: blocking when nothing is
    /// gathered, without blocking otherwise.
    pub fn request(&self) -> (r: Request)
        ensures
            r == (if self@.len() == 0 { Request::Wait } else { Request::Poll }),
    {
        if self.pending.len() == 0 {
            Request::Wait
        } else {
            Request::Poll
        }
    }

    /// A receive brought packet `p`.
    pub fn on_packet(&mut self, p: T) -> (out: Outcome<T>)
        requires
            old(self).wf(),
        ensures
            final(self).wf(),
            final(self).spec_limit() == old(self).spec_limit(),
            final(self)@ == next_pending(old(self).spec_limit(), old(self)@, Some(p)),
            outcome_is(out, old(self).spec_limit(), old(self)@, Some(p)),
            old(self)@.len() + 1 < old(self).spec_limit() ==> (out is Continue && final(self)@
                == old(self)@.push(p)),
            old(self)@.len() + 1 == old(self).spec_limit() ==> (out matches Outcome::Flush(b)
                && b@ == old(self)@.push(p) && final(self)@.len() == 0),
    {
        self.pending.push(p);
        if self.pending.len() >= self.limit {
            let mut batch = Vec::new();
            std::mem::swap(&mut batch, &mut self.pending);
            Outcome::Flush(batch)
        } else {
            Outcome::Continue
        }
    }

    /// A receive brought no packet (the channel had none ready, or is closed).
    pub fn on_empty(&mut self) -> (out: Outcome<T>)
        requires
            old(self).wf(),
        ensures
            final(self).wf(),
            final(self).spec_limit() == old(self).spec_limit(),
            final(self)@ == next_pending(old(self).spec_limit(), old(self)@, None::<T>),
            outcome_is(out, old(self).spec_limit(), old(self)@, None::<T>),
            final(self)@.len() == 0,
            old(self)@.len() == 0 ==> out is Closed,
            old(self)@.len() > 0 ==> (out matches Outcome::Flush(b) && b@ == old(self)@),
    {
        if self.pending.len() == 0 {
            Outcome::Closed
        } else {
            let mut batch = Vec::new();
            std::mem::swap(&mut batch, &mut self.pending);
            Outcome::Flush(batch)
        }
    }
}

} // verus!
