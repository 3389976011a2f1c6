//! How well a link works, judged by the frames that came in over the last few seconds.

use heapless::Deque;
use vstd::prelude::*;

use crate::bounded::{
    front_reception, insert_sequence, list_receptions, new_receptions, new_sequence, pop_reception,
    push_reception, receptions, sequence_numbers, sequence_slice, Reception, RECEPTIONS,
};

verus! {

/// How long a received frame counts, in microseconds.
pub const WINDOW_US: u64 = 5_000_000;

/// How many packets back a late one may be put.
pub const LOOKBACK: usize = 5;

/// What is reported of a link.
#[derive(Copy, Clone, Debug, PartialEq, Eq, Structural)]
pub struct LinkQuality {
    pub tx_rate: u32,
    pub rx_rate: u32,
    pub messages_received: u32,
    pub messages_lost: u32,
}

/// The frames left once those at the front that are too old are gone.
pub open spec fn without_old(frames: Seq<Reception>, now: u64) -> Seq<Reception>
    decreases frames.len(),
{
    if frames.len() > 0 && now - frames[0].0 > WINDOW_US {
        without_old(frames.drop_first(), now)
    } else {
        frames
    }
}

/// The frames remembered once one more has come in. A full queue takes no more.
pub open spec fn with_received(
    frames: Seq<Reception>,
    now: u64,
    sequence: u8,
    length: u16,
) -> Seq<Reception> {
    let fresh = without_old(frames, now);
    if fresh.len() < RECEPTIONS {
        fresh.push((now, sequence, length))
    } else {
        fresh
    }
}

/// The packet is slightly older than the other, by its sequence number, which wraps around.
pub open spec fn is_late(sequence: u8, other: u8) -> bool {
    -50 < sequence - other < 0 || sequence - other > 205
}

/// The first place from `from` on whose packet is newer than this one.
pub open spec fn place_from(sorted: Seq<u8>, sequence: u8, from: int) -> int
    decreases sorted.len() - from,
{
    if from >= sorted.len() {
        sorted.len() as int
    } else if is_late(sequence, sorted[from]) {
        from
    } else {
        place_from(sorted, sequence, from + 1)
    }
}

/// Where the packet belongs among the last few.
pub open spec fn place_of(sorted: Seq<u8>, sequence: u8) -> int {
    place_from(
        sorted,
        sequence,
        if sorted.len() < LOOKBACK {
            0
        } else {
            sorted.len() - LOOKBACK
        },
    )
}

/// The sequence numbers with minor shuffles undone.
pub open spec fn reordered(sequences: Seq<u8>) -> Seq<u8>
    decreases sequences.len(),
{
    if sequences.len() == 0 {
        sequences
    } else {
        let sorted = reordered(sequences.drop_last());
        sorted.insert(place_of(sorted, sequences.last()), sequences.last())
    }
}

/// How many packets are missing between two that follow each other.
pub open spec fn gap(last: u8, next: u8) -> int {
    if last == next {
        0
    } else {
        (next - last) % 256 - 1
    }
}

/// How many packets are missing in the series.
pub open spec fn lost(sorted: Seq<u8>) -> int
    decreases sorted.len(),
{
    if sorted.len() < 2 {
        0
    } else {
        lost(sorted.drop_last()) + gap(sorted[sorted.len() - 2], sorted.last())
    }
}

/// The bytes in the frames.
pub open spec fn total_length(frames: Seq<Reception>) -> int
    decreases frames.len(),
{
    if frames.len() == 0 {
        0
    } else {
        total_length(frames.drop_last()) + frames.last().2
    }
}

/// The sequence numbers of the frames.
pub open spec fn sequences_of(frames: Seq<Reception>) -> Seq<u8> {
    Seq::new(frames.len(), |i: int| frames[i].1)
}

/// What is to be reported of a link that brought in these frames.
pub open spec fn quality_of(frames: Seq<Reception>, quality: LinkQuality) -> bool {
    &&& quality.tx_rate == 0
    &&& quality.rx_rate == total_length(frames)
    &&& quality.messages_received == frames.len()
    &&& quality.messages_lost == lost(reordered(sequences_of(frames)))
}

/// Remembers the frames that came in over a link.
pub struct ReceptionLog {
    queue: Deque<Reception, 64>,
}

impl View for ReceptionLog {
    type V = Seq<Reception>;

    /// The frames that are remembered, oldest first.
    closed spec fn view(&self) -> Seq<Reception> {
        receptions(self.queue)
    }
}

impl ReceptionLog {
    pub fn new() -> (log: Self)
        ensures
            log@.len() == 0,
    {
        ReceptionLog { queue: new_receptions() }
    }

    /// Remembers a frame that came in at `now` and forgets those that are too old.
    pub fn received(&mut self, now: u64, sequence: u8, length: u16)
        ensures
            final(self)@ == with_received(old(self)@, now, sequence, length),
            final(self)@.len() <= RECEPTIONS,
    {
        loop
            invariant
                without_old(self@, now) == without_old(old(self)@, now),
            ensures
                self@ == without_old(old(self)@, now),
            decreases self@.len(),
        {
            match front_reception(&self.queue) {
                Some((time, _, _)) if now.saturating_sub(time) > WINDOW_US => {
                    let _ = pop_reception(&mut self.queue);
                },
                _ => {
                    break ;
                },
            }
        }
        let _ = push_reception(&mut self.queue, (now, sequence, length));
    }

    /// How well the link works.
    pub fn quality(&self) -> (quality: LinkQuality)
        ensures
            quality_of(self@, quality),
    {
        let frames = list_receptions(&self.queue);
        let mut sorted = new_sequence();
        let mut rx_rate: u32 = 0;
        let mut k: usize = 0;
        assert(sequences_of(self@.take(0)) =~= Seq::<u8>::empty());
        while k < frames.len()
            invariant
                k <= frames.len() <= RECEPTIONS,
                frames@ == self@,
                sequence_numbers(sorted).len() == k,
                sequence_numbers(sorted) == reordered(sequences_of(self@.take(k as int))),
                rx_rate == total_length(self@.take(k as int)),
                rx_rate <= k * 65535,
            decreases frames.len() - k,
        {
            let (_, sequence, length) = frames[k];
            assert(self@.take(k + 1).drop_last() =~= self@.take(k as int));
            assert(sequences_of(self@.take(k + 1)).drop_last() =~= sequences_of(
                self@.take(k as int),
            ));
            let i: usize = place(sequence_slice(&sorted), sequence);
            let _ = insert_sequence(&mut sorted, i, sequence);
            rx_rate = rx_rate + length as u32;
            k += 1;
        }
        assert(self@.take(k as int) =~= self@);
        LinkQuality {
            tx_rate: 0,
            rx_rate,
            messages_received: frames.len() as u32,
            messages_lost: count_lost(sequence_slice(&sorted)),
        }
    }
}

/// Where the packet belongs: before any of the last few with a suspiciously slightly higher
/// sequence number.
fn place(sorted: &[u8], sequence: u8) -> (i: usize)
    ensures
        i == place_of(sorted@, sequence),
        i <= sorted.len(),
{
    let start: usize = if sorted.len() < LOOKBACK {
        0
    } else {
        sorted.len() - LOOKBACK
    };
    let mut j: usize = start;
    while j < sorted.len()
        invariant
            j <= sorted.len(),
            place_from(sorted@, sequence, j as int) == place_of(sorted@, sequence),
        decreases sorted.len() - j,
    {
        let diff: i16 = sequence as i16 - sorted[j] as i16;
        if (diff < 0 && diff > -50) || diff > 205 {
            return j;
        }
        j += 1;
    }
    j
}

/// How many packets are missing in the series.
fn count_lost(sorted: &[u8]) -> (total: u32)
    requires
        sorted.len() <= RECEPTIONS,
    ensures
        total == lost(sorted@),
{
    let mut total: u32 = 0;
    let mut i: usize = 1;
    assert(lost(sorted@.take(if sorted.len() < 1 { 0 } else { 1 })) == 0);
    while i < sorted.len()
        invariant
            1 <= i,
            sorted.len() > 0 ==> i <= sorted.len(),
            sorted.len() <= RECEPTIONS,
            total <= i * 255,
            total == lost(sorted@.take(if sorted.len() < i { sorted.len() as int } else { i as int })),
        decreases sorted.len() - i,
    {
        assert(sorted@.take(i + 1).drop_last() =~= sorted@.take(i as int));
        if sorted[i] != sorted[i - 1] {
            total = total + (sorted[i].wrapping_sub(sorted[i - 1]) - 1) as u32;
        }
        i += 1;
    }
    assert(sorted@.take(sorted.len() as int) =~= sorted@);
    total
}

/// Each packet carries the number after that of the one before it, the first one `base`. Numbers
/// wrap around.
pub open spec fn in_order(sequences: Seq<u8>, base: u8) -> bool {
    forall|i: int| 0 <= i < sequences.len() ==> #[trigger] sequences[i] == (base + i) % 256
}

/// A packet is not late among those that are up to five numbers behind it.
proof fn lemma_not_late(base: int, ahead: int, sequence: u8, other: u8)
    requires
        0 <= base,
        1 <= ahead <= LOOKBACK,
        other == base % 256,
        sequence == (base + ahead) % 256,
    ensures
        !is_late(sequence, other),
{
}

/// Two packets that follow each other leave no gap.
proof fn lemma_no_gap(base: int, last: u8, next: u8)
    requires
        0 <= base,
        last == base % 256,
        next == (base + 1) % 256,
    ensures
        gap(last, next) == 0,
{
}

/// The next packet goes to the end of a series in order.
proof fn lemma_goes_to_the_end(sorted: Seq<u8>, base: u8, sequence: u8, from: int)
    requires
        in_order(sorted, base),
        0 <= from <= sorted.len(),
        sorted.len() - from <= LOOKBACK,
        sequence == (base + sorted.len()) % 256,
    ensures
        place_from(sorted, sequence, from) == sorted.len(),
    decreases sorted.len() - from,
{
    if from < sorted.len() {
        assert(sorted[from] == (base + from) % 256);
        lemma_not_late(base + from, sorted.len() - from, sequence, sorted[from]);
        lemma_goes_to_the_end(sorted, base, sequence, from + 1);
    }
}

proof fn lemma_nothing_lost(sequences: Seq<u8>, base: u8)
    requires
        in_order(sequences, base),
    ensures
        lost(sequences) == 0,
    decreases sequences.len(),
{
    if sequences.len() >= 2 {
        let n = sequences.len() - 1;
        lemma_nothing_lost(sequences.drop_last(), base);
        assert(sequences[n - 1] == (base + (n - 1)) % 256);
        assert(sequences[n] == (base + n) % 256);
        lemma_no_gap(base + (n - 1), sequences[n - 1], sequences[n]);
    }
}

/// Packets that arrive in order stay in order, and none counts as lost.
pub proof fn law_nothing_lost_in_order(sequences: Seq<u8>, base: u8)
    requires
        in_order(sequences, base),
    ensures
        reordered(sequences) == sequences,
        lost(sequences) == 0,
    decreases sequences.len(),
{
    lemma_nothing_lost(sequences, base);
    if sequences.len() > 0 {
        let rest = sequences.drop_last();
        let n = rest.len() as int;
        law_nothing_lost_in_order(rest, base);
        assert(sequences.last() == sequences[n]);
        let from = if n < LOOKBACK {
            0
        } else {
            n - LOOKBACK
        };
        lemma_goes_to_the_end(rest, base, sequences.last(), from);
        assert(rest.insert(n, sequences.last()) =~= sequences);
    }
}

/// The report on a link that goes to the ground every second.
#[derive(Copy, Clone, Debug, PartialEq, Eq, Structural)]
pub struct LinkNodeStatus {
    /// \[ms\]
    pub timestamp: u64,
    pub tx_buf: u8,
    pub rx_buf: u8,
    pub tx_rate: u32,
    pub rx_rate: u32,
    pub rx_parse_err: u16,
    pub tx_overflows: u16,
    pub rx_overflows: u16,
    pub messages_sent: u32,
    pub messages_received: u32,
    pub messages_lost: u32,
}

/// The report on a link this long after it started \[ms\].
pub fn link_node_status(elapsed: u64, quality: &LinkQuality) -> (status: LinkNodeStatus)
    ensures
        status == (LinkNodeStatus {
            timestamp: elapsed,
            tx_buf: 100,
            rx_buf: 100,
            tx_rate: quality.tx_rate,
            rx_rate: quality.rx_rate,
            rx_parse_err: 0,
            tx_overflows: 0,
            rx_overflows: 0,
            messages_sent: 0,
            messages_received: quality.messages_received,
            messages_lost: quality.messages_lost,
        }),
{
    LinkNodeStatus {
        timestamp: elapsed,
        tx_buf: 100,
        rx_buf: 100,
        tx_rate: quality.tx_rate,
        rx_rate: quality.rx_rate,
        rx_parse_err: 0,
        tx_overflows: 0,
        rx_overflows: 0,
        messages_sent: 0,
        messages_received: quality.messages_received,
        messages_lost: quality.messages_lost,
    }
}

} // verus!
