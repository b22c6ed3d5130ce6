//! Properties of the rings over whole sequences of operations.
use vstd::prelude::*;
use crate::rx::{RxState, rx_deliver, rx_valid, rx_pop_packet, rx_pop_state};
use crate::tx::{TxState, tx_available, tx_valid, tx_complete, tx_ready, tx_reclaim, tx_transmit};

verus! {

/// Transmitting each packet of `pkts` in turn.
pub open spec fn tx_transmit_all(s: TxState, pkts: Seq<Seq<u8>>) -> TxState
    decreases pkts.len(),
{
    if pkts.len() == 0 {
        s
    } else {
        tx_transmit(tx_transmit_all(s, pkts.drop_last()), pkts.last())
    }
}

/// The engine finishing one packet per entry of `errors`, with that status.
pub open spec fn tx_complete_all(s: TxState, errors: Seq<bool>) -> TxState
    decreases errors.len(),
{
    if errors.len() == 0 {
        s
    } else {
        tx_complete(tx_complete_all(s, errors.drop_last()), errors.last())
    }
}

/// The engine writing each frame of `frames` in turn, undamaged.
pub open spec fn rx_deliver_all(s: RxState, frames: Seq<Seq<u8>>) -> RxState
    decreases frames.len(),
{
    if frames.len() == 0 {
        s
    } else {
        rx_deliver(rx_deliver_all(s, frames.drop_last()), frames.last(), false)
    }
}

/// What `k` reads in a row hand out.
pub open spec fn rx_popped(s: RxState, k: nat) -> Seq<Option<Seq<u8>>>
    decreases k,
{
    if k == 0 {
        Seq::empty()
    } else {
        seq![rx_pop_packet(s)] + rx_popped(rx_pop_state(s), (k - 1) as nat)
    }
}

/// State after `k` reads in a row.
pub open spec fn rx_pop_n(s: RxState, k: nat) -> RxState
    decreases k,
{
    if k == 0 {
        s
    } else {
        rx_pop_n(rx_pop_state(s), (k - 1) as nat)
    }
}

pub open spec fn min(a: int, b: int) -> int {
    if a < b {
        a
    } else {
        b
    }
}

/// Transmits that fit are queued behind what is in flight, in the order given.
pub proof fn lemma_tx_transmit_all(s: TxState, pkts: Seq<Seq<u8>>)
    requires
        tx_valid(s),
        s.queue.len() + pkts.len() <= s.cap,
    ensures
        tx_valid(tx_transmit_all(s, pkts)),
        tx_transmit_all(s, pkts).queue == s.queue + pkts,
        tx_transmit_all(s, pkts).done == s.done,
        tx_transmit_all(s, pkts).first == s.first,
        tx_transmit_all(s, pkts).cap == s.cap,
        tx_transmit_all(s, pkts).errors == s.errors + Seq::new(pkts.len(), |i: int| false),
    decreases pkts.len(),
{
    if pkts.len() > 0 {
        lemma_tx_transmit_all(s, pkts.drop_last());
        assert(s.queue + pkts.drop_last() + seq![pkts.last()] =~= s.queue + pkts);
        assert(s.errors + Seq::new(pkts.drop_last().len(), |i: int| false) + seq![false]
            =~= s.errors + Seq::new(pkts.len(), |i: int| false));
    } else {
        assert(s.queue + pkts =~= s.queue);
        assert(s.errors + Seq::new(0, |i: int| false) =~= s.errors);
    }
}

/// Starting with nothing in flight on a ring of `C` descriptors, a run of at
/// most `C` transmits leaves the ring ready for more exactly when fewer than
/// `C` were issued.
pub proof fn lemma_tx_ready_until_full(s: TxState, pkts: Seq<Seq<u8>>)
    requires
        tx_valid(s),
        s.queue.len() == 0,
        pkts.len() <= s.cap,
    ensures
        tx_ready(tx_transmit_all(s, pkts)) <==> pkts.len() < s.cap,
        tx_available(tx_transmit_all(s, pkts)) == s.cap - pkts.len(),
{
    lemma_tx_transmit_all(s, pkts);
}

/// Completions finish the oldest pending packets, as many as there are.
pub proof fn lemma_tx_complete_all(s: TxState, errors: Seq<bool>)
    requires
        tx_valid(s),
    ensures
        tx_valid(tx_complete_all(s, errors)),
        tx_complete_all(s, errors).done == min((s.done + errors.len()) as int, s.queue.len() as int),
        tx_complete_all(s, errors).queue == s.queue,
        tx_complete_all(s, errors).first == s.first,
        tx_complete_all(s, errors).cap == s.cap,
    decreases errors.len(),
{
    if errors.len() > 0 {
        lemma_tx_complete_all(s, errors.drop_last());
    }
}

/// After `N` completions by the engine and one interrupt, exactly as many
/// descriptors as were pending, up to `N`, return to software: the free count
/// rises by `N`, saturating at the ring's size, and the oldest packets leave
/// the queue first.
pub proof fn lemma_tx_reclaim_after_completions(s: TxState, errors: Seq<bool>)
    requires
        tx_valid(s),
        s.done == 0,
    ensures
        tx_valid(tx_reclaim(tx_complete_all(s, errors))),
        tx_available(tx_reclaim(tx_complete_all(s, errors))) == min(tx_available(s) + errors.len() as int, s.cap as int),
        tx_reclaim(tx_complete_all(s, errors)).queue == s.queue.skip(min(errors.len() as int, s.queue.len() as int)),
{
    lemma_tx_complete_all(s, errors);
}

/// Packets sent one after another on an idle ring occupy consecutive slots
/// in that order, and reclamation hands them back in that same order.
pub proof fn lemma_tx_fifo(s: TxState, pkts: Seq<Seq<u8>>, errors: Seq<bool>)
    requires
        tx_valid(s),
        s.queue.len() == 0,
        pkts.len() <= s.cap,
    ensures
        tx_transmit_all(s, pkts).queue == pkts,
        tx_transmit_all(s, pkts).first == s.first,
        tx_reclaim(tx_complete_all(tx_transmit_all(s, pkts), errors)).queue == pkts.skip(
            min(errors.len() as int, pkts.len() as int),
        ),
{
    lemma_tx_transmit_all(s, pkts);
    assert(s.queue + pkts =~= pkts);
    lemma_tx_complete_all(tx_transmit_all(s, pkts), errors);
}

/// Frames the engine writes while descriptors are armed are queued behind
/// the unread ones, in the order written.
pub proof fn lemma_rx_deliver_all(s: RxState, frames: Seq<Seq<u8>>)
    requires
        rx_valid(s),
        s.frames.len() + frames.len() <= s.cap,
    ensures
        rx_valid(rx_deliver_all(s, frames)),
        rx_deliver_all(s, frames).frames == s.frames + frames,
        rx_deliver_all(s, frames).cap == s.cap,
        rx_deliver_all(s, frames).first == s.first,
        rx_deliver_all(s, frames).errors == s.errors + Seq::new(frames.len(), |i: int| false),
    decreases frames.len(),
{
    if frames.len() > 0 {
        lemma_rx_deliver_all(s, frames.drop_last());
        let p = rx_deliver_all(s, frames.drop_last());
        assert(rx_deliver_all(s, frames) == rx_deliver(p, frames.last(), false));
        assert(p.frames.len() < p.cap);
        assert(p.frames.push(frames.last()) =~= s.frames + frames);
        assert(p.errors.push(false) =~= s.errors + Seq::new(frames.len(), |i: int| false));
    } else {
        assert(s.frames + frames =~= s.frames);
        assert(s.errors + Seq::new(0, |i: int| false) =~= s.errors);
    }
}

/// Reading undamaged frames one by one hands each out once, oldest first,
/// and leaves nothing to read.
pub proof fn lemma_rx_pop_in_order(s: RxState)
    requires
        rx_valid(s),
        forall|i: int| 0 <= i < s.errors.len() ==> !#[trigger] s.errors[i],
    ensures
        rx_popped(s, s.frames.len()) == s.frames.map_values(|f: Seq<u8>| Some(f)),
        rx_pop_n(s, s.frames.len()).frames.len() == 0,
        rx_pop_packet(rx_pop_n(s, s.frames.len())) is None,
    decreases s.frames.len(),
{
    if s.frames.len() > 0 {
        let t = rx_pop_state(s);
        assert forall|i: int| 0 <= i < t.errors.len() implies !#[trigger] t.errors[i] by {
            assert(t.errors[i] == s.errors[i + 1]);
        }
        lemma_rx_pop_in_order(t);
        assert(s.frames.map_values(|f: Seq<u8>| Some(f)) =~= seq![Some(s.frames[0])]
            + t.frames.map_values(|f: Seq<u8>| Some(f)));
    } else {
        assert(s.frames.map_values(|f: Seq<u8>| Some(f)) =~= Seq::<Option<Seq<u8>>>::empty());
    }
}

/// Frames written by the engine are read back in the order written, each
/// exactly once: once all are read, reading again yields nothing.
pub proof fn lemma_rx_fifo(s: RxState, frames: Seq<Seq<u8>>)
    requires
        rx_valid(s),
        s.frames.len() == 0,
        frames.len() <= s.cap,
    ensures
        rx_popped(rx_deliver_all(s, frames), frames.len()) == frames.map_values(|f: Seq<u8>| Some(f)),
        rx_pop_packet(rx_pop_n(rx_deliver_all(s, frames), frames.len())) is None,
{
    lemma_rx_deliver_all(s, frames);
    let t = rx_deliver_all(s, frames);
    assert(t.frames =~= frames);
    assert forall|i: int| 0 <= i < t.errors.len() implies !#[trigger] t.errors[i] by {}
    lemma_rx_pop_in_order(t);
}

} // verus!
