//! The order in which a listing presents its records: latest start first,
//! records without a start time last, and records that start together in the
//! order in which they were found.

use crate::race::record::{Race, RaceView, Timestamp};
use vstd::prelude::*;

verus! {

/// No record is followed by one that starts later.
pub open spec fn latest_first(races: Seq<RaceView>) -> bool {
    forall|i: int, j: int|
        0 <= i < j < races.len() ==> (#[trigger] races[i]).start_rank() >= (
        #[trigger] races[j]).start_rank()
}

/// The records of `races` whose start has the given rank, in their order.
pub open spec fn with_rank(races: Seq<RaceView>, rank: int) -> Seq<RaceView> {
    races.filter(|race: RaceView| race.start_rank() == rank)
}

/// `listing` holds the records of `found`, latest start first, and keeps
/// records of equal start in the order they have in `found`.
///
/// Together the two parts leave no freedom: the listing is the records of
/// the highest rank as they stand in `found`, then those of the next rank,
/// and so on down.
pub open spec fn is_listing_of(listing: Seq<RaceView>, found: Seq<RaceView>) -> bool {
    &&& latest_first(listing)
    &&& listing.len() == found.len()
    &&& forall|rank: int| #[trigger] with_rank(listing, rank) == with_rank(found, rank)
}

/// The place of a record in a listing: behind the records that start later,
/// in front of all others.
pub open spec fn slot(listing: Seq<RaceView>, race: RaceView) -> int
    decreases listing.len(),
{
    if listing.len() == 0 || listing[0].start_rank() <= race.start_rank() {
        0
    } else {
        1 + slot(listing.drop_first(), race)
    }
}

/// The listing of the records `found`: each record, from the last one found
/// to the first, is put in its place among those that were found after it.
pub open spec fn listing_of(found: Seq<RaceView>) -> Seq<RaceView>
    decreases found.len(),
{
    if found.len() == 0 {
        Seq::empty()
    } else {
        let rest = listing_of(found.drop_first());
        rest.insert(slot(rest, found[0]), found[0])
    }
}

/// In a listing, a record that has no start time stands behind every
/// record that has one.
pub proof fn record_without_start_is_listed_last(listing: Seq<RaceView>, i: int, j: int)
    requires
        latest_first(listing),
        0 <= i < listing.len(),
        0 <= j < listing.len(),
        listing[i].start_time is None,
        listing[j].start_time is Some,
    ensures
        j < i,
{
    if i < j {
        assert(listing[i].start_rank() >= listing[j].start_rank());
    }
}

/// In a listing, a record that starts later than another stands in front
/// of it.
pub proof fn later_start_is_listed_first(listing: Seq<RaceView>, i: int, j: int)
    requires
        latest_first(listing),
        0 <= i < listing.len(),
        0 <= j < listing.len(),
        listing[i].start_time is Some,
        listing[j].start_time is Some,
        listing[i].start_time->0.seconds > listing[j].start_time->0.seconds,
    ensures
        i < j,
{
    if j < i {
        assert(listing[j].start_rank() >= listing[i].start_rank());
    }
}

/// In a listing, records that start together stand in the order in which
/// they were found: what the listing shows of one start is what was found
/// of that start.
pub proof fn equal_starts_keep_their_order(
    listing: Seq<RaceView>,
    found: Seq<RaceView>,
    start: Option<Timestamp>,
)
    requires
        is_listing_of(listing, found),
    ensures
        listing.filter(|race: RaceView| race.start_time == start) == found.filter(
            |race: RaceView| race.start_time == start,
        ),
{
    let rank: int = match start {
        Some(instant) => instant.seconds as int,
        None => i64::MIN - 1,
    };
    assert(with_rank(listing, rank) == with_rank(found, rank));
    let by_rank = |race: RaceView| race.start_rank() == rank;
    let by_start = |race: RaceView| race.start_time == start;
    assert forall|race: RaceView| #[trigger] by_rank(race) == by_start(race) by {
        assert(race.start_rank() == rank <==> race.start_time == start);
    }
    assert(by_rank =~= by_start);
}

/// A listing holds the records that were found, and no others.
pub proof fn listing_holds_what_was_found(
    listing: Seq<RaceView>,
    found: Seq<RaceView>,
    race: RaceView,
)
    requires
        is_listing_of(listing, found),
    ensures
        listing.contains(race) <==> found.contains(race),
{
    let rank = race.start_rank();
    let pred = |r: RaceView| r.start_rank() == rank;
    assert(with_rank(listing, rank) == with_rank(found, rank));
    if listing.contains(race) {
        let i = choose|i: int| 0 <= i < listing.len() && listing[i] == race;
        assert(pred(listing[i]));
        listing.lemma_filter_contains(pred, i);
        assert(listing.filter(pred).contains(listing[i]));
        found.lemma_filter_contains_rev(pred, race);
    }
    if found.contains(race) {
        let i = choose|i: int| 0 <= i < found.len() && found[i] == race;
        assert(pred(found[i]));
        found.lemma_filter_contains(pred, i);
        assert(found.filter(pred).contains(found[i]));
        listing.lemma_filter_contains_rev(pred, race);
    }
}

/// A non-empty listing ends with a record of the lowest rank that was
/// found, and what it shows of that rank ends with that record.
proof fn last_of_listing(listing: Seq<RaceView>)
    requires
        latest_first(listing),
        listing.len() > 0,
    ensures
        latest_first(listing.drop_last()),
        with_rank(listing, listing.last().start_rank()) == with_rank(
            listing.drop_last(),
            listing.last().start_rank(),
        ).push(listing.last()),
        forall|rank: int|
            rank != listing.last().start_rank() ==> #[trigger] with_rank(listing, rank)
                == with_rank(listing.drop_last(), rank),
        forall|rank: int|
            #[trigger] with_rank(listing, rank).len() > 0 ==> rank >= listing.last().start_rank(),
{
    reveal(Seq::filter);
    let front = listing.drop_last();
    assert forall|i: int, j: int| 0 <= i < j < front.len() implies (
    #[trigger] front[i]).start_rank() >= (#[trigger] front[j]).start_rank() by {
        assert(front[i] == listing[i]);
        assert(front[j] == listing[j]);
    }
    assert forall|rank: int| #[trigger] with_rank(listing, rank).len() > 0 implies rank
        >= listing.last().start_rank() by {
        let pred = |race: RaceView| race.start_rank() == rank;
        let shown = listing.filter(pred);
        listing.lemma_filter_pred(pred, 0);
        assert(pred(shown[0]));
        assert(shown.contains(shown[0]));
        listing.lemma_filter_contains_rev(pred, shown[0]);
        let i = choose|i: int| 0 <= i < listing.len() && listing[i] == shown[0];
        if i < listing.len() - 1 {
            assert(listing[i].start_rank() >= listing[listing.len() - 1].start_rank());
        }
    }
}

/// The records found have one listing only.
pub proof fn listing_is_unique(one: Seq<RaceView>, other: Seq<RaceView>, found: Seq<RaceView>)
    requires
        is_listing_of(one, found),
        is_listing_of(other, found),
    ensures
        one == other,
{
    assert forall|rank: int| #[trigger] with_rank(one, rank) == with_rank(other, rank) by {
        assert(with_rank(one, rank) == with_rank(found, rank));
        assert(with_rank(other, rank) == with_rank(found, rank));
    }
    same_ranks_same_listing(one, other);
}

/// Two sequences that are both latest first, and that show the same
/// records of every rank in the same order, are the same sequence.
proof fn same_ranks_same_listing(one: Seq<RaceView>, other: Seq<RaceView>)
    requires
        latest_first(one),
        latest_first(other),
        one.len() == other.len(),
        forall|rank: int| #[trigger] with_rank(one, rank) == with_rank(other, rank),
    ensures
        one == other,
    decreases one.len(),
{
    if one.len() == 0 {
        assert(one =~= other);
    } else {
        last_of_listing(one);
        last_of_listing(other);
        let low = one.last().start_rank();
        let other_low = other.last().start_rank();
        assert(with_rank(one, low).len() > 0);
        assert(with_rank(other, low).len() > 0);
        assert(with_rank(other, other_low).len() > 0);
        assert(with_rank(one, other_low).len() > 0);
        assert(low == other_low);
        let one_front = with_rank(one.drop_last(), low);
        let other_front = with_rank(other.drop_last(), low);
        assert(one_front.push(one.last()) == other_front.push(other.last()));
        assert(one_front.push(one.last()).last() == one.last());
        assert(other_front.push(other.last()).last() == other.last());
        assert(one_front =~= one_front.push(one.last()).drop_last());
        assert(other_front =~= other_front.push(other.last()).drop_last());
        assert forall|rank: int| #[trigger]
            with_rank(one.drop_last(), rank) == with_rank(other.drop_last(), rank) by {
            if rank != low {
                assert(with_rank(one, rank) == with_rank(one.drop_last(), rank));
                assert(with_rank(other, rank) == with_rank(other.drop_last(), rank));
            }
        }
        same_ranks_same_listing(one.drop_last(), other.drop_last());
        assert(one =~= one.drop_last().push(one.last()));
        assert(other =~= other.drop_last().push(other.last()));
    }
}

/// The place of a record lies within the listing.
pub proof fn slot_is_within(listing: Seq<RaceView>, race: RaceView)
    ensures
        0 <= slot(listing, race) <= listing.len(),
{
    slot_splits(listing, race);
}

/// The place of a record lies within the listing, every record in front of
/// it starts later, and the record at the place, if there is one, does not.
proof fn slot_splits(listing: Seq<RaceView>, race: RaceView)
    ensures
        0 <= slot(listing, race) <= listing.len(),
        forall|i: int|
            0 <= i < slot(listing, race) ==> (#[trigger] listing[i]).start_rank()
                > race.start_rank(),
        slot(listing, race) < listing.len() ==> listing[slot(listing, race)].start_rank()
            <= race.start_rank(),
    decreases listing.len(),
{
    if listing.len() == 0 || listing[0].start_rank() <= race.start_rank() {
    } else {
        let tail = listing.drop_first();
        slot_splits(tail, race);
        assert forall|i: int| 0 <= i < slot(listing, race) implies (
        #[trigger] listing[i]).start_rank() > race.start_rank() by {
            if i > 0 {
                assert(listing[i] == tail[i - 1]);
            }
        }
        if slot(listing, race) < listing.len() {
            assert(listing[slot(listing, race)] == tail[slot(tail, race)]);
        }
    }
}

/// What [`listing_of`] builds is the listing of what it was given: latest
/// start first, equal starts in the order found, nothing lost or added.
pub proof fn listing_of_is_listing(found: Seq<RaceView>)
    ensures
        is_listing_of(listing_of(found), found),
    decreases found.len(),
{
    if found.len() == 0 {
        assert(found =~= Seq::<RaceView>::empty());
        assert(listing_of(found) =~= Seq::<RaceView>::empty());
    } else {
        let tail = found.drop_first();
        let rest = listing_of(tail);
        listing_of_is_listing(tail);
        slot_splits(rest, found[0]);
        let at = slot(rest, found[0]);
        assert forall|i: int| at <= i < rest.len() implies (#[trigger] rest[i]).start_rank()
            <= found[0].start_rank() by {
            if i > at {
                assert(rest[at].start_rank() >= rest[i].start_rank());
            }
        }
        listing_after_insert(rest, tail, at, found[0]);
        assert(seq![found[0]] + tail =~= found);
    }
}

/// The views of the records of a vector that was extended by one record.
proof fn views_after_insert(before: Seq<Race>, after: Seq<Race>, at: int, race: Race)
    requires
        0 <= at <= before.len(),
        after == before.insert(at, race),
    ensures
        Seq::new(after.len(), |i: int| after[i].deep_view()) == Seq::new(
            before.len(),
            |i: int| before[i].deep_view(),
        ).insert(at, race.deep_view()),
{
    assert(Seq::new(after.len(), |i: int| after[i].deep_view()) =~= Seq::new(
        before.len(),
        |i: int| before[i].deep_view(),
    ).insert(at, race.deep_view()));
}

/// Putting a record into a listing, behind every record that starts later
/// and in front of every other, yields the listing of the longer sequence
/// that has the record in front.
proof fn listing_after_insert(
    listing: Seq<RaceView>,
    found: Seq<RaceView>,
    at: int,
    race: RaceView,
)
    requires
        is_listing_of(listing, found),
        0 <= at <= listing.len(),
        forall|i: int| 0 <= i < at ==> (#[trigger] listing[i]).start_rank() > race.start_rank(),
        forall|i: int|
            at <= i < listing.len() ==> (#[trigger] listing[i]).start_rank() <= race.start_rank(),
    ensures
        is_listing_of(listing.insert(at, race), seq![race] + found),
{
    let longer = listing.insert(at, race);
    let front = listing.subrange(0, at);
    let back = listing.subrange(at, listing.len() as int);
    assert(listing =~= front + back);
    assert(longer =~= front + seq![race] + back);
    assert(latest_first(longer)) by {
        assert forall|i: int, j: int| 0 <= i < j < longer.len() implies (
        #[trigger] longer[i]).start_rank() >= (#[trigger] longer[j]).start_rank() by {
            if i < at && j > at {
                assert(longer[i] == listing[i]);
                assert(longer[j] == listing[j - 1]);
            } else if i < at && j == at {
                assert(longer[i] == listing[i]);
            } else if i < at {
                assert(longer[i] == listing[i]);
                assert(longer[j] == listing[j]);
            } else if i == at {
                assert(longer[j] == listing[j - 1]);
            } else {
                assert(longer[i] == listing[i - 1]);
                assert(longer[j] == listing[j - 1]);
            }
        }
    }
    assert forall|rank: int| #[trigger] with_rank(longer, rank) == with_rank(
        seq![race] + found,
        rank,
    ) by {
        let pred = |r: RaceView| r.start_rank() == rank;
        Seq::filter_distributes_over_add(front, back, pred);
        Seq::filter_distributes_over_add(front, seq![race], pred);
        Seq::filter_distributes_over_add(front + seq![race], back, pred);
        Seq::filter_distributes_over_add(seq![race], found, pred);
        assert(with_rank(listing, rank) == with_rank(found, rank));
        assert(seq![race].filter(pred) =~= if pred(race) {
            seq![race]
        } else {
            Seq::empty()
        }) by {
            reveal_with_fuel(Seq::filter, 2);
            assert(seq![race].drop_last() =~= Seq::<RaceView>::empty());
        }
        if pred(race) {
            assert forall|i: int| 0 <= i < front.len() implies !pred(#[trigger] front[i]) by {
                assert(front[i] == listing[i]);
            }
            front.lemma_all_neg_filter_empty(pred);
            assert(front.filter(pred) =~= Seq::<RaceView>::empty());
            assert(front.filter(pred) + seq![race] + back.filter(pred) =~= seq![race] + (
            front.filter(pred) + back.filter(pred)));
        } else {
            assert(front.filter(pred) + Seq::<RaceView>::empty() + back.filter(pred)
                =~= front.filter(pred) + back.filter(pred));
            assert(Seq::<RaceView>::empty() + found.filter(pred) =~= found.filter(pred));
        }
    }
}

/// Whether `race` starts no later than `other`, a missing start counting as
/// earlier than any start.
fn starts_no_later(race: &Race, other: &Race) -> (holds: bool)
    ensures
        holds == (race@.start_rank() <= other@.start_rank()),
{
    match race.start_time {
        None => true,
        Some(start) => match other.start_time {
            None => false,
            Some(other_start) => start.seconds <= other_start.seconds,
        },
    }
}

/// Orders the records of a listing: by descending start time, a record with
/// no start time after all that have one, and records of equal start in the
/// order in which they were handed in.
pub fn sort_by_start(races: Vec<Race>) -> (listing: Vec<Race>)
    ensures
        listing.deep_view() == listing_of(races.deep_view()),
        is_listing_of(listing.deep_view(), races.deep_view()),
{
    let ghost found = races.deep_view();
    let mut rest = races;
    let mut listing: Vec<Race> = Vec::new();
    proof {
        assert(found.skip(found.len() as int) =~= Seq::<RaceView>::empty());
        assert(listing.deep_view() =~= Seq::<RaceView>::empty());
    }
    while rest.len() > 0
        invariant
            rest.len() <= found.len(),
            rest.deep_view() == found.take(rest.len() as int),
            listing.deep_view() == listing_of(found.skip(rest.len() as int)),
        decreases rest.len(),
    {
        let ghost before_rest = rest.deep_view();
        let ghost remaining = rest.len();
        let race = rest.pop().unwrap();
        let ghost shown = listing.deep_view();
        proof {
            assert(race.deep_view() == before_rest[remaining - 1]);
            assert(race.deep_view() == found[remaining - 1]);
            assert(rest.deep_view() =~= found.take(rest.len() as int));
            assert(found.skip(remaining - 1).drop_first() =~= found.skip(remaining as int));
            assert(found.skip(remaining - 1)[0] == race@);
            assert(shown.skip(0) =~= shown);
        }
        let mut at: usize = 0;
        while at < listing.len() && !starts_no_later(&listing[at], &race)
            invariant
                at <= listing.len(),
                shown == listing.deep_view(),
                slot(shown, race@) == at + slot(shown.skip(at as int), race@),
            decreases listing.len() - at,
        {
            proof {
                assert(shown.skip(at as int)[0] == shown[at as int]);
                assert(shown.skip(at as int).drop_first() =~= shown.skip(at + 1));
            }
            at = at + 1;
        }
        proof {
            if at < listing.len() {
                assert(shown.skip(at as int)[0] == shown[at as int]);
            }
            assert(slot(shown, race@) == at);
            views_after_insert(listing@, listing@.insert(at as int, race), at as int, race);
        }
        listing.insert(at, race);
    }
    proof {
        assert(found.skip(0) =~= found);
        listing_of_is_listing(found);
    }
    listing
}

} // verus!
