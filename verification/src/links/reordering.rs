//! What becomes of packets that arrive out of order.
//!
//! The packets are told by the numbers that they would have if numbers did not wrap around. In a
//! series of these, in the order of arrival, a packet is newer than another if its number is higher.

use vstd::prelude::*;
use vstd::relations::{sorted_by, total_ordering};
use vstd::seq_lib::{lemma_sorted_unique, to_multiset_insert};
use vstd::set_lib::{lemma_int_range, lemma_set_disjoint_lens, set_int_range};

use crate::links::link_quality::{
    gap, in_order, is_late, law_nothing_lost_in_order, lost, place_from, place_of, reordered,
    LOOKBACK,
};

verus! {

/// The sequence number of the packet, which wraps around.
pub open spec fn number(packet: int) -> u8 {
    (packet % 256) as u8
}

/// The sequence numbers of the packets.
pub open spec fn numbers(packets: Seq<int>) -> Seq<u8> {
    Seq::new(packets.len(), |i: int| number(packets[i]))
}

/// How many of the packets are newer than this one.
pub open spec fn newer(packets: Seq<int>, than: int) -> int
    decreases packets.len(),
{
    if packets.len() == 0 {
        0
    } else {
        newer(packets.drop_last(), than) + if packets.last() > than {
            1int
        } else {
            0
        }
    }
}

/// The first packet is not newer than the second.
pub open spec fn not_newer() -> spec_fn(int, int) -> bool {
    |a: int, b: int| a <= b
}

/// The packets in the order in which they were sent.
pub open spec fn as_sent(packets: Seq<int>) -> Seq<int> {
    packets.sort_by(not_newer())
}

/// The sequence numbers tell which of two packets is older.
pub open spec fn tells_apart(packet: int, other: int) -> bool {
    is_late(number(packet), number(other)) <==> packet < other
}

/// The packet that arrives at `i` is held against this one, which arrived before it: one of the five
/// newest, and not newer than any that is newer than the packet.
pub open spec fn is_compared(packets: Seq<int>, i: int, other: int) -> bool {
    &&& newer(packets.take(i), other) < 5
    &&& forall|k: int| 0 <= k < i && packets[i] < #[trigger] packets[k] ==> other <= packets[k]
}

/// The packet that arrives at `i` was overtaken by five others at most, and the sequence numbers
/// tell it from those that it is held against.
pub open spec fn is_in_time(packets: Seq<int>, i: int) -> bool {
    &&& newer(packets.take(i), packets[i]) <= 5
    &&& forall|j: int|
        0 <= j < i && is_compared(packets, i, #[trigger] packets[j]) ==> tells_apart(
            packets[i],
            packets[j],
        )
}

/// Sequence numbers tell two packets apart where the one that arrives is fewer than 50 behind the
/// other, or up to 205 ahead of it.
pub proof fn law_close_packets_are_told_apart(packet: int, other: int)
    requires
        -50 < packet - other <= 205,
    ensures
        tells_apart(packet, other),
{
}

proof fn lemma_not_newer_is_an_order()
    ensures
        total_ordering(not_newer()),
{
}

/// One more packet, wherever it is put.
proof fn lemma_newer_insert(packets: Seq<int>, at: int, packet: int, than: int)
    requires
        0 <= at <= packets.len(),
    ensures
        newer(packets.insert(at, packet), than) == newer(packets, than) + if packet > than {
            1int
        } else {
            0
        },
    decreases packets.len(),
{
    let more = packets.insert(at, packet);
    if at == packets.len() {
        assert(more.drop_last() =~= packets);
    } else {
        lemma_newer_insert(packets.drop_last(), at, packet, than);
        assert(more.drop_last() =~= packets.drop_last().insert(at, packet));
        assert(more.last() == packets.last());
    }
}

/// In the order of sending, the newer packets are the last ones.
proof fn lemma_newer_in_order(sent: Seq<int>, than: int)
    requires
        sorted_by(sent, not_newer()),
    ensures
        0 <= newer(sent, than) <= sent.len(),
        forall|k: int|
            0 <= k < sent.len() ==> (#[trigger] sent[k] > than <==> k >= sent.len() - newer(
                sent,
                than,
            )),
    decreases sent.len(),
{
    if sent.len() > 0 {
        let rest = sent.drop_last();
        let n = rest.len() as int;
        assert forall|i: int, j: int| 0 <= i < j < rest.len() implies #[trigger] not_newer()(
            rest[i],
            rest[j],
        ) by {
            assert(not_newer()(sent[i], sent[j]));
        }
        lemma_newer_in_order(rest, than);
        assert forall|k: int| 0 <= k < n implies sent[k] <= sent[n] by {
            assert(not_newer()(sent[k], sent[n]));
        }
        assert forall|k: int| 0 <= k < sent.len() implies (#[trigger] sent[k] > than <==> k
            >= sent.len() - newer(sent, than)) by {
            if k < n {
                assert(rest[k] == sent[k]);
                if newer(rest, than) > 0 {
                    assert(rest[n - 1] > than);
                }
            }
        }
    }
}

/// The packet goes to the place before the first newer one.
proof fn lemma_goes_before_the_newer(sent: Seq<int>, packet: int, place: int, from: int)
    requires
        0 <= from <= place <= sent.len(),
        forall|k: int| from <= k < place ==> !is_late(number(packet), number(#[trigger] sent[k])),
        place < sent.len() ==> is_late(number(packet), number(sent[place])),
    ensures
        place_from(numbers(sent), number(packet), from) == place,
    decreases place - from,
{
    if from < place {
        assert(numbers(sent)[from] == number(sent[from]));
        lemma_goes_before_the_newer(sent, packet, place, from + 1);
    } else if place < sent.len() {
        assert(numbers(sent)[place] == number(sent[place]));
    }
}

/// The order of sending is the one ascending order.
proof fn lemma_as_sent(packets: Seq<int>, sent: Seq<int>)
    requires
        sorted_by(sent, not_newer()),
        sent.to_multiset() == packets.to_multiset(),
    ensures
        as_sent(packets) == sent,
{
    lemma_not_newer_is_an_order();
    packets.lemma_sort_by_ensures(not_newer());
    lemma_sorted_unique(as_sent(packets), sent, not_newer());
}

/// The order of sending holds the same packets.
proof fn lemma_as_sent_ensures(packets: Seq<int>)
    ensures
        sorted_by(as_sent(packets), not_newer()),
        as_sent(packets).to_multiset() == packets.to_multiset(),
        as_sent(packets).len() == packets.len(),
{
    lemma_not_newer_is_an_order();
    packets.lemma_sort_by_ensures(not_newer());
    packets.to_multiset_ensures();
    as_sent(packets).to_multiset_ensures();
}

/// One more packet goes before the first newer one.
proof fn lemma_one_more_as_sent(packets: Seq<int>, packet: int)
    ensures
        as_sent(packets.push(packet)) == as_sent(packets).insert(
            as_sent(packets).len() - newer(as_sent(packets), packet),
            packet,
        ),
{
    let sent = as_sent(packets);
    lemma_as_sent_ensures(packets);
    lemma_newer_in_order(sent, packet);
    let place = sent.len() - newer(sent, packet);
    let more = sent.insert(place, packet);
    assert forall|i: int, j: int| 0 <= i < j < more.len() implies #[trigger] not_newer()(
        more[i],
        more[j],
    ) by {
        let before_i = if i < place { i } else { i - 1 };
        let before_j = if j < place { j } else { j - 1 };
        if i != place && j != place {
            assert(not_newer()(sent[before_i], sent[before_j]));
        } else if i == place {
            assert(sent[before_j] > packet);
        } else {
            assert(!(sent[before_i] > packet));
        }
    }
    to_multiset_insert(sent, place, packet);
    packets.to_multiset_ensures();
    lemma_as_sent(packets.push(packet), more);
}

/// Sorting does not change how many packets are newer.
proof fn lemma_newer_as_sent(packets: Seq<int>, than: int)
    ensures
        newer(as_sent(packets), than) == newer(packets, than),
    decreases packets.len(),
{
    lemma_as_sent_ensures(packets);
    if packets.len() > 0 {
        let rest = packets.drop_last();
        let sent = as_sent(rest);
        lemma_newer_as_sent(rest, than);
        lemma_one_more_as_sent(rest, packets.last());
        assert(rest.push(packets.last()) =~= packets);
        lemma_as_sent_ensures(rest);
        lemma_newer_in_order(sent, packets.last());
        lemma_newer_insert(
            sent,
            sent.len() - newer(sent, packets.last()),
            packets.last(),
            than,
        );
    }
}

/// The packet that arrives last goes to its place.
proof fn lemma_last_is_placed(packets: Seq<int>)
    requires
        packets.len() > 0,
        is_in_time(packets, packets.len() - 1),
    ensures
        ({
            let sent = as_sent(packets.drop_last());
            place_of(numbers(sent), number(packets.last())) == sent.len() - newer(
                sent,
                packets.last(),
            )
        }),
{
    let n = packets.len() - 1;
    let rest = packets.drop_last();
    let packet = packets.last();
    let sent = as_sent(rest);
    assert(packets.take(n) =~= rest);
    lemma_as_sent_ensures(rest);
    lemma_newer_in_order(sent, packet);
    lemma_newer_as_sent(rest, packet);
    let place = sent.len() - newer(sent, packet);
    let from = if sent.len() < LOOKBACK {
        0
    } else {
        sent.len() - LOOKBACK
    };
    assert forall|k: int| from <= k <= place && k < sent.len() implies tells_apart(
        packet,
        #[trigger] sent[k],
    ) by {
        lemma_newer_as_sent(rest, sent[k]);
        lemma_newer_in_order(sent, sent[k]);
        assert(newer(sent, sent[k]) < sent.len() - k);
        rest.to_multiset_ensures();
        sent.to_multiset_ensures();
        assert(sent.contains(sent[k]));
        assert(rest.to_multiset().count(sent[k]) > 0);
        let j = choose|j: int| 0 <= j < rest.len() && rest[j] == sent[k];
        assert forall|i: int| 0 <= i < n && packet < #[trigger] packets[i] implies sent[k]
            <= packets[i] by {
            assert(rest[i] == packets[i]);
            assert(rest.contains(rest[i]));
            assert(sent.to_multiset().count(rest[i]) > 0);
            let l = choose|l: int| 0 <= l < sent.len() && sent[l] == rest[i];
            assert(l >= place);
            if k < l {
                assert(not_newer()(sent[k], sent[l]));
            }
        }
        assert(packets[j] == sent[k]);
        assert(is_compared(packets, n, packets[j]));
    }
    lemma_goes_before_the_newer(sent, packet, place, from);
}

/// Shuffles are undone: where every packet arrives in time, the sequence numbers are brought into
/// the order in which the packets were sent.
pub proof fn law_shuffles_are_undone(packets: Seq<int>)
    requires
        forall|i: int| 0 <= i < packets.len() ==> #[trigger] is_in_time(packets, i),
    ensures
        reordered(numbers(packets)) == numbers(as_sent(packets)),
    decreases packets.len(),
{
    lemma_as_sent_ensures(packets);
    if packets.len() == 0 {
        assert(numbers(packets) =~= numbers(as_sent(packets)));
    } else {
        let rest = packets.drop_last();
        let packet = packets.last();
        let sent = as_sent(rest);
        assert forall|i: int| 0 <= i < rest.len() implies #[trigger] is_in_time(rest, i) by {
            assert(is_in_time(packets, i));
            assert(rest.take(i) =~= packets.take(i));
            assert forall|j: int|
                0 <= j < i && is_compared(rest, i, #[trigger] rest[j]) implies tells_apart(
                rest[i],
                rest[j],
            ) by {
                assert(rest[j] == packets[j]);
                assert forall|k: int|
                    0 <= k < i && packets[i] < #[trigger] packets[k] implies packets[j]
                    <= packets[k] by {
                    assert(rest[k] == packets[k]);
                }
                assert(is_compared(packets, i, packets[j]));
            }
        }
        law_shuffles_are_undone(rest);
        assert(is_in_time(packets, packets.len() - 1));
        lemma_last_is_placed(packets);
        lemma_one_more_as_sent(rest, packet);
        assert(rest.push(packet) =~= packets);
        lemma_as_sent_ensures(rest);
        lemma_newer_in_order(sent, packet);
        let place = sent.len() - newer(sent, packet);
        assert(numbers(packets).drop_last() =~= numbers(rest));
        assert(numbers(packets).last() == number(packet));
        assert(numbers(sent).insert(place, number(packet)) =~= numbers(sent.insert(place, packet)));
    }
}

/// The packets that did not arrive, though an older one and a newer one did.
pub open spec fn missing(packets: Seq<int>) -> Set<int> {
    Set::new(
        |packet: int|
            {
                &&& !packets.contains(packet)
                &&& exists|i: int| 0 <= i < packets.len() && #[trigger] packets[i] < packet
                &&& exists|j: int| 0 <= j < packets.len() && #[trigger] packets[j] > packet
            },
    )
}

/// The packets that are missing between two that follow each other.
spec fn between(last: int, next: int) -> Set<int> {
    set_int_range(
        last + 1,
        if last == next {
            last + 1
        } else {
            next
        },
    )
}

/// One more packet, which is the newest.
proof fn lemma_missing_one_more(rest: Seq<int>, next: int, packet: int)
    requires
        rest.len() > 0,
        forall|k: int| 0 <= k < rest.len() ==> #[trigger] rest[k] <= rest.last() <= next,
    ensures
        missing(rest.push(next)).contains(packet) <==> missing(rest).contains(packet) || between(
            rest.last(),
            next,
        ).contains(packet),
        !(missing(rest).contains(packet) && between(rest.last(), next).contains(packet)),
{
    let sent = rest.push(next);
    let n = rest.len() as int;
    let last = rest.last();
    assert(sent[n] == next);
    assert(sent[n - 1] == last);
    assert forall|k: int| 0 <= k < n implies #[trigger] sent[k] == rest[k] by {}
    if missing(rest).contains(packet) {
        let i = choose|i: int| 0 <= i < rest.len() && #[trigger] rest[i] < packet;
        let j = choose|j: int| 0 <= j < rest.len() && #[trigger] rest[j] > packet;
        assert(sent[i] < packet && sent[j] > packet);
        if sent.contains(packet) {
            let k = choose|k: int| 0 <= k < sent.len() && sent[k] == packet;
            if k < n {
                assert(rest[k] == packet);
            }
        }
    } else if between(last, next).contains(packet) {
        assert(sent[n - 1] < packet && sent[n] > packet);
        if sent.contains(packet) {
            let k = choose|k: int| 0 <= k < sent.len() && sent[k] == packet;
            if k < n {
                assert(rest[k] == packet);
            }
        }
    } else if missing(sent).contains(packet) {
        let i = choose|i: int| 0 <= i < sent.len() && #[trigger] sent[i] < packet;
        let j = choose|j: int| 0 <= j < sent.len() && #[trigger] sent[j] > packet;
        assert(packet < next);
        assert(sent.contains(sent[n - 1]));
        assert(packet < last);
        assert(i < n);
        assert(rest[i] < packet && rest[n - 1] > packet);
        if rest.contains(packet) {
            let k = choose|k: int| 0 <= k < rest.len() && rest[k] == packet;
            assert(sent[k] == packet);
        }
    }
}

proof fn lemma_gap(last: int, next: int)
    requires
        last <= next < last + 256,
    ensures
        between(last, next).finite(),
        gap(number(last), number(next)) == between(last, next).len(),
{
    lemma_int_range(
        last + 1,
        if last == next {
            last + 1
        } else {
            next
        },
    );
}

/// In the order of sending, what counts as lost is what is missing.
proof fn lemma_lost_as_sent(sent: Seq<int>)
    requires
        sorted_by(sent, not_newer()),
        forall|k: int| 0 < k < sent.len() ==> (#[trigger] sent[k]) - sent[k - 1] < 256,
    ensures
        missing(sent).finite(),
        lost(numbers(sent)) == missing(sent).len(),
    decreases sent.len(),
{
    if sent.len() < 2 {
        assert(missing(sent) =~= Set::empty());
    } else {
        let rest = sent.drop_last();
        let n = rest.len() as int;
        let (last, next) = (sent[n - 1], sent[n]);
        assert(not_newer()(last, next));
        assert(next - last < 256);
        assert forall|i: int, j: int| 0 <= i < j < rest.len() implies #[trigger] not_newer()(
            rest[i],
            rest[j],
        ) by {
            assert(not_newer()(sent[i], sent[j]));
        }
        assert forall|k: int| 0 < k < rest.len() implies (#[trigger] rest[k]) - rest[k - 1]
            < 256 by {
            assert(sent[k] - sent[k - 1] < 256);
        }
        lemma_lost_as_sent(rest);
        assert(numbers(sent).drop_last() =~= numbers(rest));
        lemma_gap(last, next);
        assert forall|k: int| 0 <= k < rest.len() implies #[trigger] rest[k] <= rest.last()
            <= next by {
            if k < n - 1 {
                assert(not_newer()(rest[k], rest[n - 1]));
            }
        }
        assert(rest.push(next) =~= sent);
        assert forall|packet: int|
            (#[trigger] missing(sent).contains(packet) <==> missing(rest).contains(packet)
                || between(last, next).contains(packet)) && !(missing(rest).contains(packet)
                && between(last, next).contains(packet)) by {
            lemma_missing_one_more(rest, next, packet);
        }
        assert(missing(sent) =~= missing(rest) + between(last, next));
        assert(missing(rest).disjoint(between(last, next))) by {
            assert forall|packet: int| #[trigger] missing(rest).contains(packet) implies !between(
                last,
                next,
            ).contains(packet) by {
                lemma_missing_one_more(rest, next, packet);
            }
        }
        lemma_set_disjoint_lens(missing(rest), between(last, next));
    }
}

/// What is missing does not depend on the order of arrival.
proof fn lemma_missing_as_sent(packets: Seq<int>)
    ensures
        missing(as_sent(packets)) == missing(packets),
{
    let sent = as_sent(packets);
    lemma_as_sent_ensures(packets);
    packets.to_multiset_ensures();
    sent.to_multiset_ensures();
    assert forall|packet: int| #[trigger] packets.contains(packet) <==> sent.contains(packet) by {
        assert(packets.to_multiset().count(packet) == sent.to_multiset().count(packet));
    }
    assert forall|packet: int| #[trigger] missing(sent).contains(packet) <==> missing(
        packets,
    ).contains(packet) by {
        if missing(sent).contains(packet) {
            let i = choose|i: int| 0 <= i < sent.len() && #[trigger] sent[i] < packet;
            let j = choose|j: int| 0 <= j < sent.len() && #[trigger] sent[j] > packet;
            assert(packets.contains(sent[i]) && packets.contains(sent[j]));
        }
        if missing(packets).contains(packet) {
            let i = choose|i: int| 0 <= i < packets.len() && #[trigger] packets[i] < packet;
            let j = choose|j: int| 0 <= j < packets.len() && #[trigger] packets[j] > packet;
            assert(packets.contains(packets[i]) && packets.contains(packets[j]));
            assert(sent.contains(packets[i]) && sent.contains(packets[j]));
        }
    }
    assert(missing(sent) =~= missing(packets));
}

/// Where every packet arrives in time, and no 255 are missing in a row, those that count as lost are
/// the missing ones.
pub proof fn law_lost_is_what_is_missing(packets: Seq<int>)
    requires
        forall|i: int| 0 <= i < packets.len() ==> #[trigger] is_in_time(packets, i),
        forall|k: int|
            0 < k < packets.len() ==> (#[trigger] as_sent(packets)[k]) - as_sent(packets)[k - 1]
                < 256,
    ensures
        missing(packets).finite(),
        lost(reordered(numbers(packets))) == missing(packets).len(),
{
    law_shuffles_are_undone(packets);
    lemma_as_sent_ensures(packets);
    lemma_lost_as_sent(as_sent(packets));
    lemma_missing_as_sent(packets);
}

/// How many of the packets are in the range from `lo` up to `hi`, which is not in it.
spec fn count_in(packets: Seq<int>, lo: int, hi: int) -> int
    decreases packets.len(),
{
    if packets.len() == 0 {
        0
    } else {
        count_in(packets.drop_last(), lo, hi) + if lo <= packets.last() < hi {
            1int
        } else {
            0
        }
    }
}

proof fn lemma_count_in_splits(packets: Seq<int>, lo: int, mid: int, hi: int)
    requires
        lo <= mid <= hi,
    ensures
        count_in(packets, lo, hi) == count_in(packets, lo, mid) + count_in(packets, mid, hi),
        0 <= count_in(packets, lo, mid),
    decreases packets.len(),
{
    if packets.len() > 0 {
        lemma_count_in_splits(packets.drop_last(), lo, mid, hi);
    }
}

proof fn lemma_one_is_counted(packets: Seq<int>, packet: int)
    requires
        packets.contains(packet),
    ensures
        count_in(packets, packet, packet + 1) >= 1,
    decreases packets.len(),
{
    let rest = packets.drop_last();
    lemma_count_in_splits(rest, packet, packet + 1, packet + 1);
    if packets.last() != packet {
        let i = choose|i: int| 0 <= i < packets.len() && packets[i] == packet;
        assert(rest[i] == packet);
        lemma_one_is_counted(rest, packet);
    }
}

/// A range of which everything is there.
proof fn lemma_full_range_is_counted(packets: Seq<int>, lo: int, hi: int)
    requires
        lo <= hi,
        forall|packet: int| lo <= packet < hi ==> #[trigger] packets.contains(packet),
    ensures
        count_in(packets, lo, hi) >= hi - lo,
    decreases hi - lo,
{
    if lo < hi {
        lemma_full_range_is_counted(packets, lo, hi - 1);
        lemma_count_in_splits(packets, lo, hi - 1, hi);
        assert(packets.contains(hi - 1));
        lemma_one_is_counted(packets, hi - 1);
    } else {
        lemma_count_in_splits(packets, lo, hi, hi);
    }
}

/// What is in a range is newer than what is before the range, and not newer than what is not.
proof fn lemma_newer_and_counted(packets: Seq<int>, than: int, lo: int, hi: int)
    ensures
        than < lo ==> newer(packets, than) >= count_in(packets, lo, hi),
        than >= hi - 1 ==> newer(packets, than) + count_in(packets, lo, hi) <= packets.len(),
    decreases packets.len(),
{
    if packets.len() > 0 {
        lemma_newer_and_counted(packets.drop_last(), than, lo, hi);
    }
}

/// The packets from `base` on, in the order in which they were sent.
pub open spec fn series(base: int, len: nat) -> Seq<int> {
    Seq::new(len, |k: int| base + k)
}

/// The packets from `base` on have all arrived, none of them more than five places early or late.
pub open spec fn is_shuffled(packets: Seq<int>, base: int) -> bool {
    &&& packets.to_multiset() == series(base, packets.len()).to_multiset()
    &&& forall|i: int|
        0 <= i < packets.len() ==> -5 <= #[trigger] packets[i] - (base + i) <= 5
}

/// The packets that are far enough back have arrived.
proof fn lemma_old_ones_have_arrived(packets: Seq<int>, base: int, i: int)
    requires
        is_shuffled(packets, base),
        0 <= i <= packets.len(),
    ensures
        forall|packet: int|
            base <= packet < base + i - LOOKBACK ==> #[trigger] packets.take(i).contains(packet),
{
    let sent = series(base, packets.len());
    packets.to_multiset_ensures();
    sent.to_multiset_ensures();
    assert forall|packet: int| base <= packet < base + i - LOOKBACK implies #[trigger] packets.take(
        i,
    ).contains(packet) by {
        assert(sent[packet - base] == packet);
        assert(sent.contains(packet));
        assert(packets.to_multiset().count(packet) > 0);
        let at = choose|at: int| 0 <= at < packets.len() && packets[at] == packet;
        assert(packets[at] - (base + at) >= -LOOKBACK);
        assert(packets.take(i)[at] == packet);
    }
}

proof fn lemma_shuffled_are_in_time(packets: Seq<int>, base: int, i: int)
    requires
        is_shuffled(packets, base),
        0 <= i < packets.len(),
    ensures
        is_in_time(packets, i),
{
    let before = packets.take(i);
    let packet = packets[i];
    let hi = base + i - LOOKBACK;
    assert(packet - (base + i) >= -LOOKBACK);
    lemma_old_ones_have_arrived(packets, base, i);
    if base <= hi {
        lemma_full_range_is_counted(before, base, hi);
        lemma_newer_and_counted(before, packet, base, hi);
    } else {
        lemma_newer_and_counted(before, packet, packet, packet);
        lemma_count_in_splits(before, packet, packet, packet);
    }
    assert forall|j: int|
        0 <= j < i && is_compared(packets, i, #[trigger] packets[j]) implies tells_apart(
        packet,
        packets[j],
    ) by {
        let other = packets[j];
        assert(packets[j] - (base + j) <= LOOKBACK);
        let sent = series(base, packets.len());
        packets.to_multiset_ensures();
        sent.to_multiset_ensures();
        assert(packets.contains(other));
        assert(sent.to_multiset().count(other) > 0);
        assert(sent.contains(other));
        assert(other >= base);
        if other + 1 <= hi {
            lemma_full_range_is_counted(before, other + 1, hi);
            lemma_newer_and_counted(before, other, other + 1, hi);
        }
        law_close_packets_are_told_apart(packet, other);
    }
}

/// Packets that arrive shuffled, none of them more than five places early or late, are put right,
/// and none counts as lost.
pub proof fn law_shuffled_packets_are_put_right(packets: Seq<int>, base: int)
    requires
        is_shuffled(packets, base),
    ensures
        reordered(numbers(packets)) == numbers(series(base, packets.len())),
        lost(reordered(numbers(packets))) == 0,
        in_order(reordered(numbers(packets)), number(base)),
{
    let sent = series(base, packets.len());
    assert forall|i: int| 0 <= i < packets.len() implies #[trigger] is_in_time(packets, i) by {
        lemma_shuffled_are_in_time(packets, base, i);
    }
    law_shuffles_are_undone(packets);
    lemma_as_sent(packets, sent);
    assert forall|i: int| 0 <= i < sent.len() implies #[trigger] numbers(sent)[i] == (number(base)
        + i) % 256 by {
        assert((base + i) % 256 == (base % 256 + i) % 256);
    }
    law_nothing_lost_in_order(numbers(sent), number(base));
}

} // verus!
