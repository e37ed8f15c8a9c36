//! End-of-round scoring: the donation list of the player and the
//! live bots, its stable descending sort, and ranks within it.
//!
//! An entry is a pair of miner identity and donated milligold; the
//! player has identity 0, the bot at index i has identity i + 1. The
//! damage a listed miner takes equals its 0-based rank: the top donor
//! takes none, each place further down one more.

use vstd::prelude::*;

use crate::miner::Miner;

verus! {

/// The scoring entries contributed by the bots from index `i` on:
/// one pair (index + 1, donated milligold) per bot that is alive, in
/// index order. Dead bots are not listed.
pub open spec fn spec_bot_entries(bots: Seq<Miner>, i: int) -> Seq<(usize, u64)>
    decreases bots.len() - i,
{
    if i < 0 || i >= bots.len() {
        seq![]
    } else if bots[i].alive {
        seq![(((i + 1) as usize), bots[i].donated_gold)] + spec_bot_entries(bots, i + 1)
    } else {
        spec_bot_entries(bots, i + 1)
    }
}

/// Everything eligible for scoring: the player (identity 0, listed
/// whether alive or not) followed by every live bot in index order.
pub open spec fn spec_donation_entries(player: Miner, bots: Seq<Miner>) -> Seq<(usize, u64)> {
    seq![(0usize, player.donated_gold)] + spec_bot_entries(bots, 0)
}

/// Insert an entry into a list sorted by descending donation, before
/// the first entry it donates at least as much as; an entry inserted
/// into the list it was read in front of therefore keeps its place
/// ahead of equal donors.
pub open spec fn spec_insert_desc(e: (usize, u64), s: Seq<(usize, u64)>) -> Seq<(usize, u64)>
    decreases s.len(),
{
    if s.len() == 0 {
        seq![e]
    } else if e.1 >= s.first().1 {
        seq![e] + s
    } else {
        seq![s.first()] + spec_insert_desc(e, s.drop_first())
    }
}

/// The entries sorted by descending donated amount; the sort is
/// stable, so entries with equal amounts keep their input order.
pub open spec fn spec_sort_desc(s: Seq<(usize, u64)>) -> Seq<(usize, u64)>
    decreases s.len(),
{
    if s.len() == 0 {
        seq![]
    } else {
        spec_insert_desc(s.first(), spec_sort_desc(s.drop_first()))
    }
}

/// How many entries of `s` carry the identity `id`.
pub open spec fn spec_id_count(s: Seq<(usize, u64)>, id: usize) -> int
    decreases s.len(),
{
    if s.len() == 0 {
        0
    } else {
        (if s.first().0 == id { 1int } else { 0int }) + spec_id_count(s.drop_first(), id)
    }
}

/// Whether some entry of `s` carries the identity `id`.
pub open spec fn spec_has_id(s: Seq<(usize, u64)>, id: usize) -> bool {
    spec_id_count(s, id) > 0
}

/// Position of the first entry of `s` carrying the identity `id`:
/// the rank of that miner, and so the damage it takes.
pub open spec fn spec_rank_of(s: Seq<(usize, u64)>, id: usize) -> int
    decreases s.len(),
{
    if s.len() == 0 {
        0
    } else if s.first().0 == id {
        0
    } else {
        1 + spec_rank_of(s.drop_first(), id)
    }
}

/// Sorted by descending donated amount.
pub open spec fn spec_sorted_desc(s: Seq<(usize, u64)>) -> bool {
    forall|i: int, j: int| 0 <= i < j < s.len() ==> s[i].1 >= s[j].1
}

/// An identity count is never negative.
pub proof fn lemma_id_count_nonneg(s: Seq<(usize, u64)>, id: usize)
    ensures
        spec_id_count(s, id) >= 0,
    decreases s.len(),
{
    if s.len() > 0 {
        lemma_id_count_nonneg(s.drop_first(), id);
    }
}

/// Inserting adds one entry and keeps every identity's count but the
/// inserted one's, which rises by one.
pub proof fn lemma_insert_desc_count(e: (usize, u64), s: Seq<(usize, u64)>, id: usize)
    ensures
        spec_insert_desc(e, s).len() == s.len() + 1,
        spec_id_count(spec_insert_desc(e, s), id)
            == spec_id_count(s, id) + (if e.0 == id { 1int } else { 0int }),
    decreases s.len(),
{
    let out = spec_insert_desc(e, s);
    if s.len() == 0 {
        assert(out.first() == e);
        assert(out.drop_first() =~= Seq::<(usize, u64)>::empty());
        assert(spec_id_count(out.drop_first(), id) == 0);
    } else if e.1 >= s.first().1 {
        assert(out.first() == e);
        assert(out.drop_first() =~= s);
    } else {
        lemma_insert_desc_count(e, s.drop_first(), id);
        assert(out.first() == s.first());
        assert(out.drop_first() =~= spec_insert_desc(e, s.drop_first()));
    }
}

/// Sorting reorders the entries: the length and every identity's
/// count are those of the input.
pub proof fn lemma_sort_desc_count(s: Seq<(usize, u64)>, id: usize)
    ensures
        spec_sort_desc(s).len() == s.len(),
        spec_id_count(spec_sort_desc(s), id) == spec_id_count(s, id),
    decreases s.len(),
{
    if s.len() > 0 {
        lemma_sort_desc_count(s.drop_first(), id);
        lemma_insert_desc_count(s.first(), spec_sort_desc(s.drop_first()), id);
    }
}

/// An identity read at an index is counted.
pub proof fn lemma_count_at_index(s: Seq<(usize, u64)>, k: int)
    requires
        0 <= k < s.len(),
    ensures
        spec_id_count(s, s[k].0) >= 1,
    decreases s.len(),
{
    lemma_id_count_nonneg(s.drop_first(), s[k].0);
    if k > 0 {
        lemma_count_at_index(s.drop_first(), k - 1);
    }
}

/// In a list without repeated identities, the rank of the identity
/// read at an index is that index.
pub proof fn lemma_rank_at_index(s: Seq<(usize, u64)>, k: int)
    requires
        0 <= k < s.len(),
        spec_id_count(s, s[k].0) <= 1,
    ensures
        spec_rank_of(s, s[k].0) == k,
        spec_has_id(s, s[k].0),
    decreases s.len(),
{
    lemma_count_at_index(s, k);
    if k > 0 {
        if s.first().0 == s[k].0 {
            lemma_count_at_index(s.drop_first(), k - 1);
        }
        lemma_rank_at_index(s.drop_first(), k - 1);
    }
}

/// A counted identity is read exactly at its rank, which lies within
/// the list.
pub proof fn lemma_rank_in_range(s: Seq<(usize, u64)>, id: usize)
    requires
        spec_has_id(s, id),
    ensures
        0 <= spec_rank_of(s, id) < s.len(),
        s[spec_rank_of(s, id)].0 == id,
    decreases s.len(),
{
    if s.len() > 0 && s.first().0 != id {
        lemma_rank_in_range(s.drop_first(), id);
    }
}

/// The bot entries from index `i` on list exactly the live bots past
/// `i`, each once: identity `id` is counted once when `i < id <=
/// bots.len()` and that bot is alive, never otherwise.
pub proof fn lemma_bot_entries_count(bots: Seq<Miner>, i: int, id: usize)
    requires
        0 <= i <= bots.len(),
        bots.len() <= usize::MAX,
    ensures
        spec_id_count(spec_bot_entries(bots, i), id)
            == (if i < id <= bots.len() && bots[id - 1].alive { 1int } else { 0int }),
        spec_bot_entries(bots, i).len() <= bots.len() - i,
    decreases bots.len() - i,
{
    let out = spec_bot_entries(bots, i);
    if i < bots.len() {
        lemma_bot_entries_count(bots, i + 1, id);
        if bots[i].alive {
            assert(out.drop_first() =~= spec_bot_entries(bots, i + 1));
        }
    }
}

/// The full entry list counts the player once and each live bot once;
/// no other identity appears, and there are at most `bots.len() + 1`
/// entries.
pub proof fn lemma_donation_entries_count(player: Miner, bots: Seq<Miner>, id: usize)
    requires
        bots.len() <= usize::MAX,
    ensures
        spec_id_count(spec_donation_entries(player, bots), id) == (if id == 0 {
            1int
        } else if id <= bots.len() && bots[id - 1].alive {
            1int
        } else {
            0int
        }),
        spec_donation_entries(player, bots).len() <= bots.len() + 1,
    decreases bots.len(),
{
    let out = spec_donation_entries(player, bots);
    lemma_bot_entries_count(bots, 0, id);
    assert(out.drop_first() =~= spec_bot_entries(bots, 0));
}

/// Inserting into a descending list keeps it descending.
pub proof fn lemma_insert_desc_sorted(e: (usize, u64), s: Seq<(usize, u64)>)
    requires
        spec_sorted_desc(s),
    ensures
        spec_sorted_desc(spec_insert_desc(e, s)),
    decreases s.len(),
{
    let out = spec_insert_desc(e, s);
    if s.len() == 0 {
    } else if e.1 >= s.first().1 {
        assert forall|i: int, j: int| 0 <= i < j < out.len() implies out[i].1 >= out[j].1 by {
            if i == 0 && j > 1 {
                assert(s[0].1 >= s[j - 1].1);
            }
        }
    } else {
        lemma_insert_desc_sorted(e, s.drop_first());
        let rest = spec_insert_desc(e, s.drop_first());
        assert forall|i: int, j: int| 0 <= i < j < out.len() implies out[i].1 >= out[j].1 by {
            if i == 0 {
                assert(out[j] == rest[j - 1]);
                lemma_insert_desc_element(e, s.drop_first(), j - 1);
                if rest[j - 1] != e {
                    let m = choose|m: int|
                        0 <= m < s.drop_first().len() && s.drop_first()[m] == rest[j - 1];
                    assert(s[m + 1] == rest[j - 1]);
                }
            } else {
                assert(out[i] == rest[i - 1] && out[j] == rest[j - 1]);
            }
        }
    }
}

/// Every entry of an inserted list is the inserted entry or one of
/// the list it was inserted into.
pub proof fn lemma_insert_desc_element(e: (usize, u64), s: Seq<(usize, u64)>, k: int)
    requires
        0 <= k < spec_insert_desc(e, s).len(),
    ensures
        spec_insert_desc(e, s)[k] == e || s.contains(spec_insert_desc(e, s)[k]),
    decreases s.len(),
{
    let out = spec_insert_desc(e, s);
    if s.len() == 0 {
    } else if e.1 >= s.first().1 {
        if k > 0 {
            assert(out[k] == s[k - 1]);
        }
    } else {
        if k == 0 {
            assert(s[0] == out[0]);
        } else {
            lemma_insert_desc_element(e, s.drop_first(), k - 1);
            assert(out[k] == spec_insert_desc(e, s.drop_first())[k - 1]);
            if s.drop_first().contains(out[k]) {
                let m = choose|m: int| 0 <= m < s.drop_first().len() && s.drop_first()[m] == out[k];
                assert(s[m + 1] == out[k]);
            }
        }
    }
}

/// What the sort's name says: the sorted entries run from the highest
/// donated amount down.
pub proof fn lemma_sort_desc_sorted(s: Seq<(usize, u64)>)
    ensures
        spec_sorted_desc(spec_sort_desc(s)),
    decreases s.len(),
{
    if s.len() > 0 {
        lemma_sort_desc_sorted(s.drop_first());
        lemma_insert_desc_sorted(s.first(), spec_sort_desc(s.drop_first()));
    }
}

/// Inserting before the first entry that donates no more than `e`
/// is what `spec_insert_desc` does.
proof fn lemma_insert_desc_at(e: (usize, u64), s: Seq<(usize, u64)>, j: int)
    requires
        0 <= j <= s.len(),
        forall|k: int| 0 <= k < j ==> s[k].1 > e.1,
        j < s.len() ==> e.1 >= s[j].1,
    ensures
        spec_insert_desc(e, s) == s.insert(j, e),
    decreases j,
{
    if j == 0 {
        if s.len() == 0 {
            assert(spec_insert_desc(e, s) =~= s.insert(0, e));
        } else {
            assert(spec_insert_desc(e, s) =~= s.insert(0, e));
        }
    } else {
        assert(s[0].1 > e.1);
        lemma_insert_desc_at(e, s.drop_first(), j - 1);
        assert(spec_insert_desc(e, s) =~= s.insert(j, e));
    }
}

/// Insert an entry into a list sorted by descending donation, before
/// the first entry it donates at least as much as.
pub(crate) fn insert_desc(v: &mut Vec<(usize, u64)>, e: (usize, u64))
    ensures
        final(v)@ == spec_insert_desc(e, old(v)@),
{
    let mut j: usize = 0;
    while j < v.len() && e.1 < v[j].1
        invariant
            j <= v@.len(),
            v@ == old(v)@,
            forall|k: int| 0 <= k < j ==> v@[k].1 > e.1,
        decreases v@.len() - j,
    {
        j = j + 1;
    }
    proof {
        lemma_insert_desc_at(e, v@, j as int);
    }
    v.insert(j, e);
}

/// The donation entries sorted by descending amount; the sort is
/// stable, so equal donors keep their input order.
pub(crate) fn sort_entries_desc(v: &Vec<(usize, u64)>) -> (r: Vec<(usize, u64)>)
    ensures
        r@ == spec_sort_desc(v@),
{
    let mut r: Vec<(usize, u64)> = Vec::new();
    let mut i: usize = v.len();
    proof {
        assert(v@.skip(i as int) =~= Seq::<(usize, u64)>::empty());
    }
    while i > 0
        invariant
            i <= v@.len(),
            r@ == spec_sort_desc(v@.skip(i as int)),
        decreases i,
    {
        i = i - 1;
        proof {
            assert(v@.skip(i as int).first() == v@[i as int]);
            assert(v@.skip(i as int).drop_first() =~= v@.skip(i as int + 1));
        }
        insert_desc(&mut r, v[i]);
    }
    proof {
        assert(v@.skip(0) =~= v@);
    }
    r
}

} // verus!
