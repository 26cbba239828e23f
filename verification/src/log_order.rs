//! Why "sort by log order" gives the log back: the requests of every snapshot
//! read from a log carry their own positions, every sort only rearranges them,
//! and a stable sort by position of any rearrangement is the log's order again.
use vstd::prelude::*;
use crate::snapshot_viewer::{
    DetailLine, SessionSnapView, SnapshotParseState, SortColumn, column_order, directed_order, header_transition,
    lemma_column_order_flip, lemma_directed_flip, number_or_zero_i32, number_or_zero_i64,
    is_permutation, parse_snapshot_log, part_step, parts_fold, session_line_step, snapshot_fold,
    snapshot_line_step, snapshot_of_block, snapshots_of_blocks, sorted_stably, stable_arrangement,
};
use crate::text::{Order, lex_order, lines, split, trim, trim_end};
use crate::report::separator_line;

verus! {

/// Every request sits at the position it carries.
pub open spec fn in_log_order(ss: Seq<SessionSnapView>) -> bool {
    forall|i: int| 0 <= i < ss.len() ==> #[trigger] ss[i].original_idx == i
}

/// `res` is `orig` rearranged by the permutation `p`.
pub open spec fn arranged_by(orig: Seq<SessionSnapView>, res: Seq<SessionSnapView>, p: Seq<int>) -> bool {
    &&& res.len() == orig.len()
    &&& is_permutation(p, orig.len() as int)
    &&& forall|i: int| 0 <= i < res.len() ==> #[trigger] res[i] == orig[p[i]]
}

/// `res` holds the requests of `orig`, each once, in some order.
pub open spec fn rearranges(orig: Seq<SessionSnapView>, res: Seq<SessionSnapView>) -> bool {
    exists|p: Seq<int>| arranged_by(orig, res, p)
}

proof fn lemma_part_keeps_position(kind: DetailLine, c: SessionSnapView, p: Seq<char>)
    ensures
        part_step(kind, c, p).original_idx == c.original_idx,
{
}

proof fn lemma_parts_keep_position(kind: DetailLine, c: SessionSnapView, parts: Seq<Seq<char>>)
    ensures
        parts_fold(kind, c, parts).original_idx == c.original_idx,
    decreases parts.len(),
{
    if parts.len() > 0 {
        lemma_parts_keep_position(kind, c, parts.drop_last());
        lemma_part_keeps_position(kind, parts_fold(kind, c, parts.drop_last()), parts.last());
    }
}

/// What reading a block keeps true: the requests closed so far sit at their
/// positions, and the one being read carries the next position.
pub open spec fn positions_kept(st: SnapshotParseState) -> bool {
    &&& in_log_order(st.snap.sessions)
    &&& st.in_session ==> st.snap.sessions.len() == st.counter - 1 && st.cur.original_idx == st.counter - 1
    &&& !st.in_session ==> st.snap.sessions.len() == 0 && st.counter == 0
}

proof fn lemma_session_line_keeps_position(st: SnapshotParseState, l: Seq<char>)
    ensures
        session_line_step(st, l).cur.original_idx == st.cur.original_idx,
        session_line_step(st, l).snap == st.snap,
        session_line_step(st, l).in_session == st.in_session,
        session_line_step(st, l).counter == st.counter,
{
    let parts = split(l, " | "@);
    lemma_parts_keep_position(DetailLine::Spid, st.cur, parts);
    lemma_parts_keep_position(DetailLine::Wait, st.cur, parts);
    lemma_parts_keep_position(DetailLine::Resource, st.cur, parts);
    lemma_parts_keep_position(DetailLine::Io, st.cur, parts);
    lemma_parts_keep_position(DetailLine::Rows, st.cur, parts);
    lemma_parts_keep_position(DetailLine::Client, st.cur, parts);
    lemma_parts_keep_position(DetailLine::Command, st.cur, parts);
}

proof fn lemma_line_keeps_positions(st: SnapshotParseState, raw: Seq<char>)
    requires
        positions_kept(st),
    ensures
        positions_kept(snapshot_line_step(st, raw)),
{
    let next = snapshot_line_step(st, raw);
    if st.in_session {
        lemma_session_line_keeps_position(st, trim_end(raw));
    }
    if next.snap.sessions.len() == st.snap.sessions.len() + 1 {
        assert forall|i: int| 0 <= i < next.snap.sessions.len() implies #[trigger] next.snap.sessions[i].original_idx
            == i by {
            if i < st.snap.sessions.len() {
                assert(next.snap.sessions[i] == st.snap.sessions[i]);
            }
        }
    }
}

proof fn lemma_fold_keeps_positions(ls: Seq<Seq<char>>)
    ensures
        positions_kept(snapshot_fold(ls)),
    decreases ls.len(),
{
    if ls.len() > 0 {
        lemma_fold_keeps_positions(ls.drop_last());
        lemma_line_keeps_positions(snapshot_fold(ls.drop_last()), ls.last());
    }
}

proof fn lemma_block_in_log_order(b: Seq<char>)
    ensures
        snapshot_of_block(b) matches Some(s) ==> in_log_order(s.sessions),
{
    let st = snapshot_fold(lines(b));
    lemma_fold_keeps_positions(lines(b));
    if st.in_session {
        let ss = st.snap.sessions.push(st.cur);
        assert forall|i: int| 0 <= i < ss.len() implies #[trigger] ss[i].original_idx == i by {
            if i < st.snap.sessions.len() {
                assert(ss[i] == st.snap.sessions[i]);
            }
        }
    }
}

proof fn lemma_blocks_in_log_order(blocks: Seq<Seq<char>>)
    ensures
        forall|k: int|
            0 <= k < snapshots_of_blocks(blocks).len() ==> in_log_order(
                #[trigger] snapshots_of_blocks(blocks)[k].sessions,
            ),
    decreases blocks.len(),
{
    if blocks.len() > 0 {
        let prev = snapshots_of_blocks(blocks.drop_last());
        lemma_blocks_in_log_order(blocks.drop_last());
        let b = trim(blocks.last());
        lemma_block_in_log_order(b);
        let all = snapshots_of_blocks(blocks);
        assert forall|k: int| 0 <= k < all.len() implies in_log_order(#[trigger] all[k].sessions) by {
            if k < prev.len() {
                assert(all[k] == prev[k]);
            }
        }
    }
}

/// Every snapshot read from a log lists its requests in the log's order, each
/// carrying its position among them.
pub proof fn law_parsed_requests_carry_positions(content: Seq<char>)
    ensures
        forall|k: int|
            0 <= k < parse_snapshot_log(content).len() ==> in_log_order(
                #[trigger] parse_snapshot_log(content)[k].sessions,
            ),
{
    lemma_blocks_in_log_order(split(content, separator_line()));
}

/// A stable sort only rearranges the requests.
pub proof fn law_sort_rearranges(orig: Seq<SessionSnapView>, res: Seq<SessionSnapView>, col: SortColumn, asc: bool)
    requires
        sorted_stably(orig, res, col, asc),
    ensures
        rearranges(orig, res),
{
    let p = choose|p: Seq<int>| stable_arrangement(orig, res, col, asc, p);
    assert(arranged_by(orig, res, p));
}

/// Rearranging a rearrangement is a rearrangement.
pub proof fn law_rearranges_compose(a: Seq<SessionSnapView>, b: Seq<SessionSnapView>, c: Seq<SessionSnapView>)
    requires
        rearranges(a, b),
        rearranges(b, c),
    ensures
        rearranges(a, c),
{
    let p = choose|p: Seq<int>| arranged_by(a, b, p);
    let q = choose|q: Seq<int>| arranged_by(b, c, q);
    let n = a.len() as int;
    let r = Seq::new(n as nat, |i: int| p[q[i]]);
    assert forall|i: int| 0 <= i < n implies 0 <= #[trigger] r[i] < n by {
        assert(0 <= q[i] < n);
    }
    assert forall|i: int, j: int| 0 <= i < n && 0 <= j < n && i != j implies r[i] != r[j] by {
        assert(q[i] != q[j]);
        assert(0 <= q[i] < n && 0 <= q[j] < n);
    }
    assert forall|i: int| 0 <= i < c.len() implies #[trigger] c[i] == a[r[i]] by {
        assert(c[i] == b[q[i]]);
        assert(0 <= q[i] < n);
    }
    assert(arranged_by(a, c, r));
}

proof fn lemma_increasing_bounded_below(r: Seq<int>, i: int)
    requires
        0 <= i < r.len(),
        forall|k: int| 0 <= k < r.len() ==> 0 <= #[trigger] r[k],
        forall|a: int, b: int| 0 <= a < b < r.len() ==> #[trigger] r[a] < #[trigger] r[b],
    ensures
        r[i] >= i,
    decreases i,
{
    if i > 0 {
        lemma_increasing_bounded_below(r, i - 1);
        assert(r[i - 1] < r[i]);
    }
}

proof fn lemma_increasing_bounded_above(r: Seq<int>, i: int)
    requires
        0 <= i < r.len(),
        forall|k: int| 0 <= k < r.len() ==> #[trigger] r[k] < r.len(),
        forall|a: int, b: int| 0 <= a < b < r.len() ==> #[trigger] r[a] < #[trigger] r[b],
    ensures
        r[i] <= i,
    decreases r.len() - i,
{
    if i < r.len() - 1 {
        lemma_increasing_bounded_above(r, i + 1);
        assert(r[i] < r[i + 1]);
    }
}

/// Sorting any rearrangement of a snapshot's requests by log order, ascending,
/// gives the requests in the order of the log.
pub proof fn law_log_order_restored(orig: Seq<SessionSnapView>, shown: Seq<SessionSnapView>, out: Seq<SessionSnapView>)
    requires
        in_log_order(orig),
        rearranges(orig, shown),
        sorted_stably(shown, out, SortColumn::Original, true),
    ensures
        out == orig,
{
    law_sort_rearranges(shown, out, SortColumn::Original, true);
    law_rearranges_compose(orig, shown, out);
    let r = choose|r: Seq<int>| arranged_by(orig, out, r);
    let n = orig.len() as int;
    let s = choose|s: Seq<int>| stable_arrangement(shown, out, SortColumn::Original, true, s);
    reveal(column_order);
    assert forall|i: int| 0 <= i < n implies #[trigger] out[i].original_idx == r[i] by {
        assert(out[i] == orig[r[i]]);
        assert(0 <= r[i] < n);
    }
    assert forall|a: int, b: int| 0 <= a < b < n implies #[trigger] r[a] < #[trigger] r[b] by {
        assert(column_order(SortColumn::Original, out[a], out[b]) != Order::Greater);
        assert(out[a].original_idx == r[a]);
        assert(out[b].original_idx == r[b]);
        assert(r[a] != r[b]);
    }
    assert forall|i: int| 0 <= i < n implies #[trigger] out[i] == orig[i] by {
        lemma_increasing_bounded_below(r, i);
        lemma_increasing_bounded_above(r, i);
    }
    assert(out =~= orig);
}

/// Sorting again by the same column and direction changes nothing: a stable
/// sort of requests that are already sorted keeps them as they are.
pub proof fn law_sort_again_unchanged(
    orig: Seq<SessionSnapView>,
    once: Seq<SessionSnapView>,
    twice: Seq<SessionSnapView>,
    col: SortColumn,
    asc: bool,
)
    requires
        sorted_stably(orig, once, col, asc),
        sorted_stably(once, twice, col, asc),
    ensures
        twice == once,
{
    let p = choose|p: Seq<int>| stable_arrangement(orig, once, col, asc, p);
    let s = choose|s: Seq<int>| stable_arrangement(once, twice, col, asc, s);
    let n = once.len() as int;
    assert forall|a: int, b: int| 0 <= a < b < n implies #[trigger] s[a] < #[trigger] s[b] by {
        let o = directed_order(col, asc, twice[a], twice[b]);
        assert(twice[a] == once[s[a]]);
        assert(twice[b] == once[s[b]]);
        if o != Order::Equal && s[b] < s[a] {
            assert(directed_order(col, asc, once[s[b]], once[s[a]]) != Order::Greater);
            lemma_directed_flip(col, asc, twice[a], twice[b]);
        }
        assert(s[a] != s[b]);
    }
    assert forall|i: int| 0 <= i < n implies #[trigger] twice[i] == once[i] by {
        lemma_increasing_bounded_below(s, i);
        lemma_increasing_bounded_above(s, i);
        assert(twice[i] == once[s[i]]);
    }
    assert(twice =~= once);
}

/// Sorting by a column orders the requests by that column's field: ascending,
/// each request's field is not after that of any later request (by the number
/// written for the request id, elapsed time and blocking id, by position in the
/// log for the action column, by text for the others); descending, the other
/// way round.
pub proof fn law_sorted_by_the_column_field(
    orig: Seq<SessionSnapView>,
    res: Seq<SessionSnapView>,
    col: SortColumn,
    asc: bool,
)
    requires
        sorted_stably(orig, res, col, asc),
    ensures
        forall|i: int, j: int|
            #![trigger res[i], res[j]]
            0 <= i < j < res.len() ==> {
                let a = if asc { res[i] } else { res[j] };
                let b = if asc { res[j] } else { res[i] };
                match col {
                    SortColumn::Original => a.original_idx <= b.original_idx,
                    SortColumn::Spid => number_or_zero_i32(a.spid) <= number_or_zero_i32(b.spid),
                    SortColumn::Elapsed => number_or_zero_i64(a.elapsed) <= number_or_zero_i64(b.elapsed),
                    SortColumn::Status => lex_order(a.status, b.status) != Order::Greater,
                    SortColumn::WaitType => lex_order(a.wait_type, b.wait_type) != Order::Greater,
                    SortColumn::WaitResource => lex_order(a.wait_resource, b.wait_resource) != Order::Greater,
                    SortColumn::Blocking => number_or_zero_i32(a.blocking_spid) <= number_or_zero_i32(
                        b.blocking_spid,
                    ),
                    SortColumn::Sql => lex_order(a.executing_sql, b.executing_sql) != Order::Greater,
                }
            },
{
    let p = choose|p: Seq<int>| stable_arrangement(orig, res, col, asc, p);
    assert forall|i: int, j: int|
        #![trigger res[i], res[j]]
        0 <= i < j < res.len() implies {
            let a = if asc { res[i] } else { res[j] };
            let b = if asc { res[j] } else { res[i] };
            column_order(col, a, b) != Order::Greater
        } by {
        assert(directed_order(col, asc, res[i], res[j]) != Order::Greater);
        lemma_column_order_flip(col, res[i], res[j]);
    }
    reveal(column_order);
}

/// A click on the action column sorts by log order, ascending, unless that is
/// already the sort (a second click there turns it descending).
pub proof fn law_action_click_sorts_by_log_order(col: SortColumn, asc: bool)
    requires
        !(col == SortColumn::Original && asc),
    ensures
        header_transition(col, asc, SortColumn::Original) == (SortColumn::Original, true),
{
}

/// Clicking the same header again keeps its column and reverses the direction,
/// so two more clicks give the sort back.
pub proof fn law_repeated_click_reverses(col: SortColumn, asc: bool, clicked: SortColumn)
    ensures
        ({
            let first = header_transition(col, asc, clicked);
            let second = header_transition(first.0, first.1, clicked);
            let third = header_transition(second.0, second.1, clicked);
            &&& first.0 == clicked
            &&& second == (clicked, !first.1)
            &&& third == first
        }),
{
}

} // verus!
