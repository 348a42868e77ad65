//! Ranking the process table: sort by CPU usage, highest first, then keep the
//! leading entries.
//!
//! Records whose usages rank equally may come out in any relative order; the
//! contracts here leave that open.

use vstd::prelude::*;
use vstd::seq_lib::*;
use crate::record::ProcessRecord;
use crate::usage::lemma_rank_follows_value;

verus! {

/// How many processes a report lists at most.
pub const TOP_PROCESS_LIMIT: usize = 10;

/// The usage ranks never increase along the sequence.
pub open spec fn descending(records: Seq<ProcessRecord>) -> bool {
    forall|i: int, j: int|
        0 <= i < j < records.len() ==> records[i].cpu_usage.rank() >= records[j].cpu_usage.rank()
}

/// The usage ranks never decrease along the sequence.
spec fn ascending(records: Seq<ProcessRecord>) -> bool {
    forall|i: int, j: int|
        0 <= i < j < records.len() ==> records[i].cpu_usage.rank() <= records[j].cpu_usage.rank()
}

/// Every record of `low` ranks no higher than every record of `high`.
spec fn all_below(low: Seq<ProcessRecord>, high: Seq<ProcessRecord>) -> bool {
    forall|i: int, j: int|
        0 <= i < low.len() && 0 <= j < high.len() ==> low[i].cpu_usage.rank()
            <= high[j].cpu_usage.rank()
}

/// `ranking` holds exactly the records of `table`, highest usage first.
pub open spec fn is_ranking_of(ranking: Seq<ProcessRecord>, table: Seq<ProcessRecord>) -> bool {
    descending(ranking) && ranking.to_multiset() == table.to_multiset()
}

/// How many entries the top list of a table of `table_len` processes has.
pub open spec fn top_count(table_len: nat) -> nat {
    if table_len < TOP_PROCESS_LIMIT {
        table_len
    } else {
        TOP_PROCESS_LIMIT as nat
    }
}

/// `top` is the head of some ranking of `table`, cut at the limit.
pub open spec fn is_top_of(top: Seq<ProcessRecord>, table: Seq<ProcessRecord>) -> bool {
    exists|ranking: Seq<ProcessRecord>|
        #[trigger] is_ranking_of(ranking, table) && top == ranking.take(
            top_count(table.len()) as int,
        )
}

/// A sequence without elements holds no record.
proof fn lemma_empty_holds_nothing(records: Seq<ProcessRecord>)
    requires
        records.len() == 0,
    ensures
        records.to_multiset() == vstd::multiset::Multiset::<ProcessRecord>::empty(),
{
    broadcast use vstd::multiset::group_multiset_axioms;

    assert forall|record: ProcessRecord| records.to_multiset().count(record) == 0 by {
        to_multiset_contains(records, record);
    }
    assert(records.to_multiset() =~= vstd::multiset::Multiset::<ProcessRecord>::empty());
}

/// Moving the last element of `from` to the end of `to` takes one record out
/// of the first and puts the same record into the second.
proof fn lemma_move_last(from: Seq<ProcessRecord>, to: Seq<ProcessRecord>)
    requires
        from.len() > 0,
    ensures
        from.to_multiset() == from.drop_last().to_multiset().insert(from.last()),
        to.push(from.last()).to_multiset() == to.to_multiset().insert(from.last()),
{
    assert(from == from.drop_last().push(from.last()));
    to_multiset_build(from.drop_last(), from.last());
    to_multiset_build(to, from.last());
}

/// Merges two descending sequences into one.
fn merge_descending(left: Vec<ProcessRecord>, right: Vec<ProcessRecord>) -> (merged: Vec<
    ProcessRecord,
>)
    requires
        descending(left@),
        descending(right@),
    ensures
        descending(merged@),
        merged@.to_multiset() == left@.to_multiset().add(right@.to_multiset()),
{
    broadcast use vstd::multiset::group_multiset_axioms;

    let mut left = left;
    let mut right = right;
    let ghost whole = left@.to_multiset().add(right@.to_multiset());
    // The lower-ranked tail leaves first, so `rising` grows from the bottom up.
    let mut rising: Vec<ProcessRecord> = Vec::new();
    proof {
        lemma_empty_holds_nothing(rising@);
    }
    while left.len() > 0 || right.len() > 0
        invariant
            descending(left@),
            descending(right@),
            ascending(rising@),
            all_below(rising@, left@),
            all_below(rising@, right@),
            rising@.to_multiset().add(left@.to_multiset()).add(right@.to_multiset()) == whole,
        decreases left.len() + right.len(),
    {
        let from_left: bool = if right.len() == 0 {
            true
        } else if left.len() == 0 {
            false
        } else {
            !left[left.len() - 1].cpu_usage.ranks_at_least(right[right.len() - 1].cpu_usage)
        };
        if from_left {
            proof {
                lemma_move_last(left@, rising@);
            }
            let ghost source = left@;
            let record = left.pop().unwrap();
            rising.push(record);
            assert(left@ == source.drop_last());
            assert(rising@.to_multiset().add(left@.to_multiset()).add(right@.to_multiset())
                =~= whole);
        } else {
            proof {
                lemma_move_last(right@, rising@);
            }
            let ghost source = right@;
            let record = right.pop().unwrap();
            rising.push(record);
            assert(right@ == source.drop_last());
            assert(rising@.to_multiset().add(left@.to_multiset()).add(right@.to_multiset())
                =~= whole);
        }
    }
    let mut merged: Vec<ProcessRecord> = Vec::new();
    proof {
        lemma_empty_holds_nothing(left@);
        lemma_empty_holds_nothing(right@);
        lemma_empty_holds_nothing(merged@);
        assert(merged@.to_multiset().add(rising@.to_multiset()) =~= whole);
    }
    while rising.len() > 0
        invariant
            ascending(rising@),
            descending(merged@),
            all_below(rising@, merged@),
            merged@.to_multiset().add(rising@.to_multiset()) == whole,
        decreases rising.len(),
    {
        proof {
            lemma_move_last(rising@, merged@);
        }
        let ghost source = rising@;
        let record = rising.pop().unwrap();
        merged.push(record);
        assert(rising@ == source.drop_last());
        assert(merged@.to_multiset().add(rising@.to_multiset()) =~= whole);
    }
    proof {
        lemma_empty_holds_nothing(rising@);
        assert(merged@.to_multiset() =~= whole);
    }
    merged
}

/// Sorts the process table by CPU usage, highest first.
pub fn sort_by_cpu_descending(table: Vec<ProcessRecord>) -> (ranking: Vec<ProcessRecord>)
    ensures
        is_ranking_of(ranking@, table@),
    decreases table@.len(),
{
    let mut front = table;
    let count: usize = front.len();
    if count <= 1 {
        return front;
    }
    let ghost whole = front@;
    let back = front.split_off(count / 2);
    proof {
        assert(whole =~= front@ + back@);
        lemma_multiset_commutative(front@, back@);
    }
    let front_ranking = sort_by_cpu_descending(front);
    let back_ranking = sort_by_cpu_descending(back);
    merge_descending(front_ranking, back_ranking)
}

/// Selects the processes a report lists: the table sorted by CPU usage,
/// highest first, cut after the first ten entries.
pub fn rank_processes(table: Vec<ProcessRecord>) -> (top: Vec<ProcessRecord>)
    ensures
        top@.len() == top_count(table@.len()),
        descending(top@),
        is_top_of(top@, table@),
{
    let mut ranking = sort_by_cpu_descending(table);
    let ghost full = ranking@;
    proof {
        to_multiset_len(full);
        to_multiset_len(table@);
    }
    ranking.truncate(TOP_PROCESS_LIMIT);
    assert(ranking@ =~= full.take(top_count(table@.len()) as int));
    assert(is_ranking_of(full, table@));
    ranking
}

/// A top list has as many entries as the table, up to the limit: never more
/// than ten, and all of them when the table has fewer.
pub proof fn lemma_top_length(top: Seq<ProcessRecord>, table: Seq<ProcessRecord>)
    requires
        is_top_of(top, table),
    ensures
        top.len() == top_count(table.len()),
        top.len() <= TOP_PROCESS_LIMIT,
        table.len() < TOP_PROCESS_LIMIT ==> top.len() == table.len(),
{
    let ranking = choose|ranking: Seq<ProcessRecord>|
        #[trigger] is_ranking_of(ranking, table) && top == ranking.take(
            top_count(table.len()) as int,
        );
    to_multiset_len(ranking);
    to_multiset_len(table);
}

/// In a top list every entry ranks at least as high as the one after it, and
/// so at least as high as every later one.
pub proof fn lemma_top_descending(top: Seq<ProcessRecord>, table: Seq<ProcessRecord>)
    requires
        is_top_of(top, table),
    ensures
        descending(top),
        forall|i: int|
            0 <= i < top.len() - 1 ==> (#[trigger] top[i]).cpu_usage.rank() >= top[i
                + 1].cpu_usage.rank(),
{
    let ranking = choose|ranking: Seq<ProcessRecord>|
        #[trigger] is_ranking_of(ranking, table) && top == ranking.take(
            top_count(table.len()) as int,
        );
    to_multiset_len(ranking);
    to_multiset_len(table);
    assert forall|i: int, j: int| 0 <= i < j < top.len() implies top[i].cpu_usage.rank()
        >= top[j].cpu_usage.rank() by {
        assert(top[i] == ranking[i] && top[j] == ranking[j]);
    }
}

/// Read as numbers, the usages of a top list never increase from one entry to
/// the next, as far as they are finite; and once a NaN stands in the list,
/// only NaNs follow it.
pub proof fn lemma_top_descends_in_value(top: Seq<ProcessRecord>, table: Seq<ProcessRecord>)
    requires
        is_top_of(top, table),
    ensures
        forall|i: int|
            0 <= i < top.len() - 1 && (#[trigger] top[i]).cpu_usage.is_finite() && top[i
                + 1].cpu_usage.is_finite() ==> top[i].cpu_usage.scaled_value() >= top[i
                + 1].cpu_usage.scaled_value(),
        forall|i: int, j: int|
            0 <= i < j < top.len() && (#[trigger] top[i]).cpu_usage.is_nan() ==> (
            #[trigger] top[j]).cpu_usage.is_nan(),
{
    lemma_top_descending(top, table);
    assert forall|i: int|
        0 <= i < top.len() - 1 && (#[trigger] top[i]).cpu_usage.is_finite() && top[i
            + 1].cpu_usage.is_finite() implies top[i].cpu_usage.scaled_value() >= top[i
        + 1].cpu_usage.scaled_value() by {
        lemma_rank_follows_value(top[i].cpu_usage, top[i + 1].cpu_usage);
    }
}

/// A table within the limit is listed whole: the top list holds every process
/// of the table, each as often as the table does.
pub proof fn lemma_small_table_kept_whole(top: Seq<ProcessRecord>, table: Seq<ProcessRecord>)
    requires
        is_top_of(top, table),
        table.len() <= TOP_PROCESS_LIMIT,
    ensures
        top.len() == table.len(),
        top.to_multiset() == table.to_multiset(),
{
    let ranking = choose|ranking: Seq<ProcessRecord>|
        #[trigger] is_ranking_of(ranking, table) && top == ranking.take(
            top_count(table.len()) as int,
        );
    to_multiset_len(ranking);
    to_multiset_len(table);
    assert(top =~= ranking);
}

/// A top list is drawn from the table, and no process left out of it ranks
/// higher than one that it lists.
pub proof fn lemma_top_outranks_rest(top: Seq<ProcessRecord>, table: Seq<ProcessRecord>)
    requires
        is_top_of(top, table),
    ensures
        top.to_multiset().subset_of(table.to_multiset()),
        forall|left_out: ProcessRecord, i: int|
            table.to_multiset().sub(top.to_multiset()).count(left_out) > 0 && 0 <= i < top.len()
                ==> (#[trigger] top[i]).cpu_usage.rank() >= (
            #[trigger] left_out.cpu_usage.rank()),
{
    broadcast use vstd::multiset::group_multiset_axioms;

    let ranking = choose|ranking: Seq<ProcessRecord>|
        #[trigger] is_ranking_of(ranking, table) && top == ranking.take(
            top_count(table.len()) as int,
        );
    to_multiset_len(ranking);
    to_multiset_len(table);
    let cut = top_count(table.len()) as int;
    let rest = ranking.skip(cut);
    assert(ranking =~= top + rest);
    lemma_multiset_commutative(top, rest);
    assert(table.to_multiset().sub(top.to_multiset()) =~= rest.to_multiset());
    assert forall|left_out: ProcessRecord, i: int|
        table.to_multiset().sub(top.to_multiset()).count(left_out) > 0 && 0 <= i
            < top.len() implies (#[trigger] top[i]).cpu_usage.rank() >= (
    #[trigger] left_out.cpu_usage.rank()) by {
        to_multiset_contains(rest, left_out);
        let j = choose|j: int| 0 <= j < rest.len() && rest[j] == left_out;
        assert(ranking[cut + j] == left_out);
        assert(ranking[i] == top[i]);
    }
}

/// Two descending sequences of the same records carry the same rank at every
/// position: only records of equal rank can change places.
pub proof fn lemma_rankings_agree(a: Seq<ProcessRecord>, b: Seq<ProcessRecord>)
    requires
        descending(a),
        descending(b),
        a.to_multiset() == b.to_multiset(),
    ensures
        a.len() == b.len(),
        forall|i: int|
            0 <= i < a.len() ==> (#[trigger] a[i]).cpu_usage.rank() == b[i].cpu_usage.rank(),
    decreases a.len(),
{
    to_multiset_len(a);
    to_multiset_len(b);
    if a.len() > 0 {
        let n = a.len() as int;
        let lowest = a.last();
        // The last record of `a` occurs somewhere in `b`, and the last record
        // of `b` somewhere in `a`.
        to_multiset_contains(a, lowest);
        to_multiset_contains(b, lowest);
        assert(a[n - 1] == lowest);
        let j = choose|j: int| 0 <= j < b.len() && b[j] == lowest;
        to_multiset_contains(b, b.last());
        to_multiset_contains(a, b.last());
        assert(b[n - 1] == b.last());
        let k = choose|k: int| 0 <= k < a.len() && a[k] == b.last();
        assert(a[k].cpu_usage.rank() >= a[n - 1].cpu_usage.rank());
        assert(b[j].cpu_usage.rank() >= b[n - 1].cpu_usage.rank());
        let floor = lowest.cpu_usage.rank();
        assert(b.last().cpu_usage.rank() == floor);
        // From `j` on, `b` stays at the lowest rank.
        assert forall|i: int| j <= i < n implies (#[trigger] b[i]).cpu_usage.rank() == floor by {
            assert(b[j].cpu_usage.rank() >= b[i].cpu_usage.rank());
            assert(b[i].cpu_usage.rank() >= b[n - 1].cpu_usage.rank());
        }
        let shorter_a = a.drop_last();
        let shorter_b = b.remove(j);
        assert(shorter_a =~= a.remove(n - 1));
        to_multiset_remove(a, n - 1);
        to_multiset_remove(b, j);
        assert(descending(shorter_a));
        assert forall|p: int, q: int| 0 <= p < q < shorter_b.len() implies shorter_b[p].cpu_usage.rank()
            >= shorter_b[q].cpu_usage.rank() by {
            let from_p = if p < j { p } else { p + 1 };
            let from_q = if q < j { q } else { q + 1 };
            assert(shorter_b[p] == b[from_p] && shorter_b[q] == b[from_q]);
        }
        lemma_rankings_agree(shorter_a, shorter_b);
        assert forall|i: int| 0 <= i < a.len() implies (#[trigger] a[i]).cpu_usage.rank()
            == b[i].cpu_usage.rank() by {
            if i < j {
                assert(shorter_a[i] == a[i] && shorter_b[i] == b[i]);
            } else if i < n - 1 {
                assert(shorter_a[i] == a[i] && shorter_b[i] == b[i + 1]);
                assert(b[i + 1].cpu_usage.rank() == floor);
                assert(b[i].cpu_usage.rank() == floor);
            } else {
                assert(b[i].cpu_usage.rank() == floor);
            }
        }
    }
}

/// The usages a top list shows are fixed by the table, position by position:
/// two top lists of one table differ at most in which of several equally
/// ranked processes they name.
pub proof fn lemma_top_ranks_determined(
    first: Seq<ProcessRecord>,
    second: Seq<ProcessRecord>,
    table: Seq<ProcessRecord>,
)
    requires
        is_top_of(first, table),
        is_top_of(second, table),
    ensures
        first.len() == second.len(),
        forall|i: int|
            0 <= i < first.len() ==> (#[trigger] first[i]).cpu_usage.rank()
                == second[i].cpu_usage.rank(),
{
    let cut = top_count(table.len()) as int;
    let ranking_a = choose|ranking: Seq<ProcessRecord>|
        #[trigger] is_ranking_of(ranking, table) && first == ranking.take(cut);
    let ranking_b = choose|ranking: Seq<ProcessRecord>|
        #[trigger] is_ranking_of(ranking, table) && second == ranking.take(cut);
    to_multiset_len(ranking_a);
    to_multiset_len(ranking_b);
    to_multiset_len(table);
    lemma_rankings_agree(ranking_a, ranking_b);
    assert forall|i: int| 0 <= i < first.len() implies (#[trigger] first[i]).cpu_usage.rank()
        == second[i].cpu_usage.rank() by {
        assert(first[i] == ranking_a[i] && second[i] == ranking_b[i]);
    }
}

} // verus!
