//! The statistics view: fresh samples, sorted by the chosen column.

use vstd::prelude::*;
use crate::event::{AppEvent, Command, StatEntry};
use crate::state::{AppState, StatSort, StatisticsState};
use crate::text::{chars_of, compare_chars, lemma_seq_lt_asymmetric, lemma_seq_lt_transitive, lowercase, seq_lt, to_lowercase};

verus! {

/// The sort key of an `f64` given by its IEEE 754 bit pattern: negative
/// values (sign bit set) map below non-negative ones, with their order
/// reversed, and -0.0 maps to the key of 0.0. For every value other than
/// NaN, keys compare as the values do under `partial_cmp`.
pub open spec fn float_order_key(bits: u64) -> u64 {
    if bits == 0x8000_0000_0000_0000u64 {
        0x8000_0000_0000_0000u64
    } else if bits > 0x8000_0000_0000_0000u64 {
        (0xFFFF_FFFF_FFFF_FFFFu64 - bits) as u64
    } else {
        (bits + 0x8000_0000_0000_0000u64) as u64
    }
}

/// The sort key of an `f64` (see [`float_order_key`]).
pub fn float_key(bits: u64) -> (r: u64)
    ensures
        r == float_order_key(bits),
{
    if bits == 0x8000_0000_0000_0000u64 {
        0x8000_0000_0000_0000u64
    } else if bits > 0x8000_0000_0000_0000u64 {
        0xFFFF_FFFF_FFFF_FFFFu64 - bits
    } else {
        bits + 0x8000_0000_0000_0000u64
    }
}

/// Whether `a` comes before `b` by the column `by`, in increasing order.
/// Names compare by their lowercase form, the CPU share by its numeric
/// value (see [`float_order_key`]).
pub open spec fn stat_key_lt(a: StatEntry, b: StatEntry, by: StatSort) -> bool {
    match by {
        StatSort::Name => seq_lt(lowercase(a.name@), lowercase(b.name@)),
        StatSort::Cpu => float_order_key(a.cpu_percent_bits) < float_order_key(b.cpu_percent_bits),
        StatSort::Memory => a.memory_usage < b.memory_usage,
        StatSort::NetRx => a.net_rx < b.net_rx,
        StatSort::NetTx => a.net_tx < b.net_tx,
        StatSort::BlockRead => a.block_read < b.block_read,
        StatSort::BlockWrite => a.block_write < b.block_write,
        StatSort::Pids => a.pids < b.pids,
    }
}

/// Whether `a` must be listed before `b` in the given direction.
pub open spec fn stat_before(a: StatEntry, b: StatEntry, by: StatSort, ascending: bool) -> bool {
    if ascending { stat_key_lt(a, b, by) } else { stat_key_lt(b, a, by) }
}

/// Where a stable sort puts `x` among the already sorted `s`: before the
/// first entry that it must precede, else at the end.
pub open spec fn insert_pos(s: Seq<StatEntry>, x: StatEntry, by: StatSort, ascending: bool, i: int) -> int
    decreases s.len() - i,
{
    if i >= s.len() {
        s.len() as int
    } else if stat_before(x, s[i], by, ascending) {
        i
    } else {
        insert_pos(s, x, by, ascending, i + 1)
    }
}

/// `s` sorted by column `by` in the given direction; entries that compare
/// equal keep their order (the result of a stable sort).
pub open spec fn sorted_stats(s: Seq<StatEntry>, by: StatSort, ascending: bool) -> Seq<StatEntry>
    decreases s.len(),
{
    if s.len() == 0 {
        s
    } else {
        let prev = sorted_stats(s.drop_last(), by, ascending);
        prev.insert(insert_pos(prev, s.last(), by, ascending, 0), s.last())
    }
}

proof fn lemma_insert_pos(s: Seq<StatEntry>, x: StatEntry, by: StatSort, ascending: bool, i: int)
    requires
        0 <= i <= s.len(),
    ensures
        i <= insert_pos(s, x, by, ascending, i) <= s.len(),
    decreases s.len() - i,
{
    if i < s.len() && !stat_before(x, s[i], by, ascending) {
        lemma_insert_pos(s, x, by, ascending, i + 1);
    }
}

proof fn lemma_sorted_len(s: Seq<StatEntry>, by: StatSort, ascending: bool)
    ensures
        sorted_stats(s, by, ascending).len() == s.len(),
    decreases s.len(),
{
    if s.len() > 0 {
        lemma_sorted_len(s.drop_last(), by, ascending);
        lemma_insert_pos(sorted_stats(s.drop_last(), by, ascending), s.last(), by, ascending, 0);
    }
}

proof fn lemma_before_asymmetric(a: StatEntry, b: StatEntry, by: StatSort, ascending: bool)
    ensures
        stat_before(a, b, by, ascending) ==> !stat_before(b, a, by, ascending),
{
    lemma_seq_lt_asymmetric(lowercase(a.name@), lowercase(b.name@));
    lemma_seq_lt_asymmetric(lowercase(b.name@), lowercase(a.name@));
}

proof fn lemma_before_transitive(a: StatEntry, b: StatEntry, c: StatEntry, by: StatSort, ascending: bool)
    requires
        stat_before(a, b, by, ascending),
        stat_before(b, c, by, ascending),
    ensures
        stat_before(a, c, by, ascending),
{
    if by == StatSort::Name {
        if ascending {
            lemma_seq_lt_transitive(lowercase(a.name@), lowercase(b.name@), lowercase(c.name@));
        } else {
            lemma_seq_lt_transitive(lowercase(c.name@), lowercase(b.name@), lowercase(a.name@));
        }
    }
}

/// `x` goes after every entry it need not precede, and before the entry at
/// its position.
proof fn lemma_insert_pos_bounds(s: Seq<StatEntry>, x: StatEntry, by: StatSort, ascending: bool, i: int)
    requires
        0 <= i <= s.len(),
    ensures
        forall|k: int| i <= k < insert_pos(s, x, by, ascending, i) ==> !stat_before(x, #[trigger] s[k], by, ascending),
        insert_pos(s, x, by, ascending, i) < s.len() ==> stat_before(x, s[insert_pos(s, x, by, ascending, i)], by, ascending),
    decreases s.len() - i,
{
    if i < s.len() && !stat_before(x, s[i], by, ascending) {
        lemma_insert_pos_bounds(s, x, by, ascending, i + 1);
    }
}

/// Sorting lists the entries in order: no entry must come before one listed
/// ahead of it.
pub proof fn lemma_sorted_stats_ordered(s: Seq<StatEntry>, by: StatSort, ascending: bool)
    ensures
        forall|i: int, j: int| 0 <= i < j < sorted_stats(s, by, ascending).len()
            ==> !stat_before(#[trigger] sorted_stats(s, by, ascending)[j], #[trigger] sorted_stats(s, by, ascending)[i], by, ascending),
    decreases s.len(),
{
    if s.len() > 0 {
        let prev = sorted_stats(s.drop_last(), by, ascending);
        let x = s.last();
        let p = insert_pos(prev, x, by, ascending, 0);
        let r = sorted_stats(s, by, ascending);
        lemma_sorted_stats_ordered(s.drop_last(), by, ascending);
        lemma_insert_pos(prev, x, by, ascending, 0);
        lemma_insert_pos_bounds(prev, x, by, ascending, 0);
        assert(r == prev.insert(p, x));
        assert forall|i: int, j: int| 0 <= i < j < r.len() implies !stat_before(#[trigger] r[j], #[trigger] r[i], by, ascending) by {
            if j < p {
                assert(r[i] == prev[i] && r[j] == prev[j]);
            } else if j == p {
                assert(r[i] == prev[i]);
            } else if i < p {
                assert(r[i] == prev[i] && r[j] == prev[j - 1]);
                if i < j - 1 {
                    assert(!stat_before(prev[j - 1], prev[i], by, ascending));
                }
            } else if i == p {
                assert(r[j] == prev[j - 1]);
                lemma_before_asymmetric(x, prev[p], by, ascending);
                if j - 1 > p {
                    assert(!stat_before(prev[j - 1], prev[p], by, ascending));
                    if stat_before(prev[j - 1], x, by, ascending) {
                        lemma_before_transitive(prev[j - 1], x, prev[p], by, ascending);
                    }
                }
            } else {
                assert(r[i] == prev[i - 1] && r[j] == prev[j - 1]);
                assert(!stat_before(prev[j - 1], prev[i - 1], by, ascending));
            }
        }
    }
}

/// Whether entry `a` may be listed before entry `b` when sorting by column
/// `by`: its own value for that column is no greater (ascending) or no
/// smaller (descending) than `b`'s. Names compare in lowercase, the CPU
/// share by its sort key.
pub open spec fn column_in_order(a: StatEntry, b: StatEntry, by: StatSort, ascending: bool) -> bool {
    match by {
        StatSort::Name => if ascending {
            !seq_lt(lowercase(b.name@), lowercase(a.name@))
        } else {
            !seq_lt(lowercase(a.name@), lowercase(b.name@))
        },
        StatSort::Cpu => if ascending {
            float_order_key(a.cpu_percent_bits) <= float_order_key(b.cpu_percent_bits)
        } else {
            float_order_key(a.cpu_percent_bits) >= float_order_key(b.cpu_percent_bits)
        },
        StatSort::Memory => if ascending { a.memory_usage <= b.memory_usage } else { a.memory_usage >= b.memory_usage },
        StatSort::NetRx => if ascending { a.net_rx <= b.net_rx } else { a.net_rx >= b.net_rx },
        StatSort::NetTx => if ascending { a.net_tx <= b.net_tx } else { a.net_tx >= b.net_tx },
        StatSort::BlockRead => if ascending { a.block_read <= b.block_read } else { a.block_read >= b.block_read },
        StatSort::BlockWrite => if ascending { a.block_write <= b.block_write } else { a.block_write >= b.block_write },
        StatSort::Pids => if ascending { a.pids <= b.pids } else { a.pids >= b.pids },
    }
}

/// Sorting by a column orders the entries by that column's own value: any
/// entry listed before another has a value no greater (ascending) or no
/// smaller (descending) in that column.
pub proof fn lemma_sorted_by_column(s: Seq<StatEntry>, by: StatSort, ascending: bool)
    ensures
        forall|i: int, j: int| 0 <= i < j < sorted_stats(s, by, ascending).len()
            ==> column_in_order(#[trigger] sorted_stats(s, by, ascending)[i], #[trigger] sorted_stats(s, by, ascending)[j], by, ascending),
{
    lemma_sorted_stats_ordered(s, by, ascending);
    let r = sorted_stats(s, by, ascending);
    assert forall|i: int, j: int| 0 <= i < j < r.len() implies column_in_order(#[trigger] r[i], #[trigger] r[j], by, ascending) by {
        assert(!stat_before(r[j], r[i], by, ascending));
    }
}

/// Sorting keeps the entries: the result holds each entry as often as the
/// input does.
pub proof fn lemma_sorted_stats_permutes(s: Seq<StatEntry>, by: StatSort, ascending: bool)
    ensures
        sorted_stats(s, by, ascending).to_multiset() =~= s.to_multiset(),
    decreases s.len(),
{
    if s.len() > 0 {
        let prev = sorted_stats(s.drop_last(), by, ascending);
        let x = s.last();
        let p = insert_pos(prev, x, by, ascending, 0);
        lemma_sorted_stats_permutes(s.drop_last(), by, ascending);
        lemma_sorted_len(s.drop_last(), by, ascending);
        lemma_insert_pos(prev, x, by, ascending, 0);
        let a = prev.subrange(0, p);
        let b = prev.subrange(p, prev.len() as int);
        assert(prev.insert(p, x) =~= a + seq![x] + b);
        assert(prev =~= a + b);
        vstd::seq_lib::lemma_multiset_commutative(a + seq![x], b);
        vstd::seq_lib::lemma_multiset_commutative(a, seq![x]);
        vstd::seq_lib::lemma_multiset_commutative(a, b);
        assert(s =~= s.drop_last().push(x));
        vstd::seq_lib::lemma_multiset_commutative(s.drop_last(), seq![x]);
        assert(s.drop_last() + seq![x] =~= s);
    }
}

fn lower_name(e: &StatEntry) -> (r: Vec<char>)
    ensures
        r@ == lowercase(e.name@),
{
    let l = to_lowercase(e.name.as_str());
    chars_of(l.as_str())
}

fn key_lt(a: &StatEntry, b: &StatEntry, by: StatSort) -> (r: bool)
    ensures
        r == stat_key_lt(*a, *b, by),
{
    match by {
        StatSort::Name => {
            let la = lower_name(a);
            let lb = lower_name(b);
            compare_chars(&la, &lb) < 0
        }
        StatSort::Cpu => float_key(a.cpu_percent_bits) < float_key(b.cpu_percent_bits),
        StatSort::Memory => a.memory_usage < b.memory_usage,
        StatSort::NetRx => a.net_rx < b.net_rx,
        StatSort::NetTx => a.net_tx < b.net_tx,
        StatSort::BlockRead => a.block_read < b.block_read,
        StatSort::BlockWrite => a.block_write < b.block_write,
        StatSort::Pids => a.pids < b.pids,
    }
}

fn before(a: &StatEntry, b: &StatEntry, by: StatSort, ascending: bool) -> (r: bool)
    ensures
        r == stat_before(*a, *b, by, ascending),
{
    if ascending { key_lt(a, b, by) } else { key_lt(b, a, by) }
}

/// Sorts statistics by column `by` (see [`sorted_stats`]).
pub fn sort_stats(items: &Vec<StatEntry>, by: StatSort, ascending: bool) -> (r: Vec<StatEntry>)
    ensures
        r@ == sorted_stats(items@, by, ascending),
{
    let mut out: Vec<StatEntry> = Vec::new();
    let mut i: usize = 0;
    while i < items.len()
        invariant
            i <= items@.len(),
            out@ == sorted_stats(items@.subrange(0, i as int), by, ascending),
        decreases items@.len() - i,
    {
        let x = items[i].clone();
        let ghost sub = items@.subrange(0, i + 1);
        assert(sub.drop_last() =~= items@.subrange(0, i as int));
        assert(sub.last() == x);
        proof {
            lemma_sorted_len(items@.subrange(0, i as int), by, ascending);
            lemma_insert_pos(out@, x, by, ascending, 0);
        }
        let mut p: usize = 0;
        while p < out.len() && !before(&x, &out[p], by, ascending)
            invariant
                p <= out@.len(),
                insert_pos(out@, x, by, ascending, p as int) == insert_pos(out@, x, by, ascending, 0),
            decreases out@.len() - p,
        {
            p = p + 1;
        }
        out.insert(p, x);
        i = i + 1;
    }
    assert(items@.subrange(0, i as int) =~= items@);
    out
}

/// The sort columns in the order the cycle visits them.
pub open spec fn stat_index(s: StatSort) -> int {
    match s {
        StatSort::Name => 0,
        StatSort::Cpu => 1,
        StatSort::Memory => 2,
        StatSort::NetRx => 3,
        StatSort::NetTx => 4,
        StatSort::BlockRead => 5,
        StatSort::BlockWrite => 6,
        StatSort::Pids => 7,
    }
}

/// The sort column at position `i` of the cycle.
pub open spec fn stat_at(i: int) -> StatSort {
    if i == 0 { StatSort::Name }
    else if i == 1 { StatSort::Cpu }
    else if i == 2 { StatSort::Memory }
    else if i == 3 { StatSort::NetRx }
    else if i == 4 { StatSort::NetTx }
    else if i == 5 { StatSort::BlockRead }
    else if i == 6 { StatSort::BlockWrite }
    else { StatSort::Pids }
}

fn stat_at_exec(i: u64) -> (r: StatSort)
    ensures
        r == stat_at(i as int),
{
    if i == 0 { StatSort::Name }
    else if i == 1 { StatSort::Cpu }
    else if i == 2 { StatSort::Memory }
    else if i == 3 { StatSort::NetRx }
    else if i == 4 { StatSort::NetTx }
    else if i == 5 { StatSort::BlockRead }
    else if i == 6 { StatSort::BlockWrite }
    else { StatSort::Pids }
}

fn stat_index_exec(s: StatSort) -> (r: u64)
    ensures
        r == stat_index(s),
{
    match s {
        StatSort::Name => 0,
        StatSort::Cpu => 1,
        StatSort::Memory => 2,
        StatSort::NetRx => 3,
        StatSort::NetTx => 4,
        StatSort::BlockRead => 5,
        StatSort::BlockWrite => 6,
        StatSort::Pids => 7,
    }
}

/// The sort column `dir` steps along the cycle from `s`, wrapping around.
pub open spec fn cycled(s: StatSort, dir: i32) -> StatSort {
    stat_at((stat_index(s) + dir) % 8)
}

/// Moves the sort column `dir` steps along the cycle (see [`cycled`]).
pub fn cycle_sort(s: StatSort, dir: i32) -> (r: StatSort)
    ensures
        r == cycled(s, dir),
{
    let pos = stat_index_exec(s);
    let shifted: u64 = ((dir as i64) + 2147483648i64) as u64;
    let v = pos + shifted;
    proof {
        vstd::arithmetic::div_mod::lemma_mod_multiples_vanish(268435456, stat_index(s) + dir, 8);
        assert(v as int == 8 * 268435456 + (stat_index(s) + dir));
    }
    stat_at_exec(v % 8)
}

/// What the statistics reducer does with each event it handles; other
/// events change nothing.
pub open spec fn statistics_post(s0: AppState, event: AppEvent, now: u64, s1: AppState, cmds: Seq<Command>) -> bool {
    let t0 = s0.statistics;
    &&& cmds.len() == 0
    &&& match event {
        AppEvent::StatisticsUpdated(list) => {
            &&& s1 == AppState {
                statistics: StatisticsState { items: s1.statistics.items, loading: false, last_updated: Some(now), ..t0 },
                ..s0
            }
            &&& s1.statistics.items@ == sorted_stats(list@, t0.sort_by, t0.sort_ascending)
        },
        AppEvent::CycleSortStat(dir) => s1 == AppState { statistics: StatisticsState { sort_by: cycled(t0.sort_by, dir), ..t0 }, ..s0 },
        AppEvent::ToggleSortDirection => s1 == AppState { statistics: StatisticsState { sort_ascending: !t0.sort_ascending, ..t0 }, ..s0 },
        _ => s1 == s0,
    }
}

/// Re-sorts the statistics by the current column and direction.
pub fn resort_statistics(stats: &mut StatisticsState)
    ensures
        *final(stats) == (StatisticsState { items: final(stats).items, ..*old(stats) }),
        final(stats).items@ == sorted_stats(old(stats).items@, old(stats).sort_by, old(stats).sort_ascending),
{
    stats.items = sort_stats(&stats.items, stats.sort_by, stats.sort_ascending);
}

/// The statistics reducer (see [`statistics_post`]).
pub fn reduce(state: &mut AppState, event: &AppEvent, now: u64) -> (r: Vec<Command>)
    ensures
        statistics_post(*old(state), *event, now, *final(state), r@),
{
    match event {
        AppEvent::StatisticsUpdated(list) => {
            state.statistics.items = sort_stats(list, state.statistics.sort_by, state.statistics.sort_ascending);
            state.statistics.loading = false;
            state.statistics.last_updated = Some(now);
        }
        AppEvent::CycleSortStat(dir) => {
            state.statistics.sort_by = cycle_sort(state.statistics.sort_by, *dir);
        }
        AppEvent::ToggleSortDirection => {
            state.statistics.sort_ascending = !state.statistics.sort_ascending;
        }
        _ => {}
    }
    Vec::new()
}

} // verus!
