//! The position ledger: rows that carry a position inside their sibling
//! group, kept dense (the positions of a group of `n` rows are exactly
//! `0..n`) by every composite operation.
use crate::store::StoreOp;
use vstd::prelude::*;

verus! {

/// One ordered row: a list inside its project, or a card inside its list.
#[derive(Clone, Copy, Debug, PartialEq, Eq, Structural)]
pub struct Row {
    pub id: i32,
    pub group: i32,
    pub position: i32,
}

/// How many rows belong to group `g`.
pub open spec fn count_in(rows: Seq<Row>, g: i32) -> nat
    decreases rows.len(),
{
    if rows.len() == 0 {
        0
    } else {
        count_in(rows.drop_last(), g) + if rows.last().group == g {
            1nat
        } else {
            0nat
        }
    }
}

/// The highest position in group `g`, or -1 when the group is empty.
pub open spec fn highest_in(rows: Seq<Row>, g: i32) -> int
    decreases rows.len(),
{
    if rows.len() == 0 {
        -1
    } else {
        let h = highest_in(rows.drop_last(), g);
        if rows.last().group == g && rows.last().position > h {
            rows.last().position as int
        } else {
            h
        }
    }
}

/// Every position of group `g` lies in `0..count` and no two rows of the
/// group share one.
pub open spec fn group_dense(rows: Seq<Row>, g: i32) -> bool {
    &&& forall|i: int|
        0 <= i < rows.len() && #[trigger] rows[i].group == g ==> 0 <= rows[i].position < count_in(
            rows,
            g,
        )
    &&& forall|i: int, j: int|
        0 <= i < rows.len() && 0 <= j < rows.len() && i != j && #[trigger] rows[i].group == g
            && #[trigger] rows[j].group == g ==> rows[i].position != rows[j].position
}

pub open spec fn unique_ids(rows: Seq<Row>) -> bool {
    forall|i: int, j: int|
        0 <= i < rows.len() && 0 <= j < rows.len() && i != j ==> #[trigger] rows[i].id
            != #[trigger] rows[j].id
}

/// Ids are unique and every sibling group is dense.
pub open spec fn ledger_wf(rows: Seq<Row>) -> bool {
    &&& unique_ids(rows)
    &&& forall|g: i32| #[trigger] group_dense(rows, g)
}

/// Some row of group `g` sits at position `p`.
pub open spec fn occupied(rows: Seq<Row>, g: i32, p: int) -> bool {
    exists|i: int| 0 <= i < rows.len() && rows[i].group == g && #[trigger] rows[i].position == p
}

/// A row after the positions of group `g` above `after` moved down by one.
pub open spec fn lowered(r: Row, g: i32, after: int) -> Row {
    if r.group == g && r.position > after {
        Row { id: r.id, group: r.group, position: (r.position - 1) as i32 }
    } else {
        r
    }
}

pub open spec fn decremented(rows: Seq<Row>, g: i32, after: int) -> Seq<Row> {
    Seq::new(rows.len(), |i: int| lowered(rows[i], g, after))
}

/// Row `k` moved to the end of group `dest`, its old siblings closing the gap.
pub open spec fn moved(rows: Seq<Row>, k: int, dest: i32) -> Seq<Row> {
    let r = rows[k];
    decremented(
        rows.update(k, Row { id: r.id, group: dest, position: (highest_in(rows, dest) + 1) as i32 }),
        r.group,
        r.position as int,
    )
}

/// Row `k` removed, its later siblings closing the gap.
pub open spec fn deleted(rows: Seq<Row>, k: int) -> Seq<Row> {
    decremented(rows.remove(k), rows[k].group, rows[k].position as int)
}

/// A row of group `g` appended after the highest one.
pub open spec fn inserted(rows: Seq<Row>, id: i32, g: i32) -> Seq<Row> {
    rows.push(Row { id, group: g, position: (highest_in(rows, g) + 1) as i32 })
}

pub open spec fn index_of(rows: Seq<Row>, id: i32) -> int {
    choose|i: int| 0 <= i < rows.len() && rows[i].id == id
}

pub open spec fn has_id(rows: Seq<Row>, id: i32) -> bool {
    exists|i: int| 0 <= i < rows.len() && #[trigger] rows[i].id == id
}

proof fn lemma_count_push(rows: Seq<Row>, r: Row, g: i32)
    ensures
        count_in(rows.push(r), g) == count_in(rows, g) + if r.group == g {
            1nat
        } else {
            0nat
        },
{
    assert(rows.push(r).drop_last() =~= rows);
}

proof fn lemma_count_update(rows: Seq<Row>, k: int, r: Row, g: i32)
    requires
        0 <= k < rows.len(),
    ensures
        count_in(rows.update(k, r), g) + (if rows[k].group == g {
            1nat
        } else {
            0nat
        }) == count_in(rows, g) + if r.group == g {
            1nat
        } else {
            0nat
        },
    decreases rows.len(),
{
    if k == rows.len() - 1 {
        assert(rows.update(k, r).drop_last() =~= rows.drop_last());
    } else {
        assert(rows.update(k, r).drop_last() =~= rows.drop_last().update(k, r));
        lemma_count_update(rows.drop_last(), k, r, g);
    }
}

proof fn lemma_count_remove(rows: Seq<Row>, k: int, g: i32)
    requires
        0 <= k < rows.len(),
    ensures
        count_in(rows.remove(k), g) + (if rows[k].group == g {
            1nat
        } else {
            0nat
        }) == count_in(rows, g),
    decreases rows.len(),
{
    if k == rows.len() - 1 {
        assert(rows.remove(k) =~= rows.drop_last());
    } else {
        assert(rows.remove(k).drop_last() =~= rows.drop_last().remove(k));
        assert(rows.remove(k).last() == rows.last());
        lemma_count_remove(rows.drop_last(), k, g);
    }
}

proof fn lemma_count_decremented(rows: Seq<Row>, g: i32, after: int, h: i32)
    ensures
        count_in(decremented(rows, g, after), h) == count_in(rows, h),
    decreases rows.len(),
{
    if rows.len() > 0 {
        assert(decremented(rows, g, after).drop_last() =~= decremented(rows.drop_last(), g, after));
        lemma_count_decremented(rows.drop_last(), g, after, h);
    }
}

proof fn lemma_highest_bounds(rows: Seq<Row>, g: i32)
    ensures
        highest_in(rows, g) >= -1,
        forall|i: int|
            0 <= i < rows.len() && #[trigger] rows[i].group == g ==> rows[i].position <= highest_in(
                rows,
                g,
            ),
        highest_in(rows, g) != -1 ==> exists|i: int|
            0 <= i < rows.len() && rows[i].group == g && #[trigger] rows[i].position == highest_in(
                rows,
                g,
            ),
    decreases rows.len(),
{
    if rows.len() > 0 {
        let init = rows.drop_last();
        lemma_highest_bounds(init, g);
        assert forall|i: int| 0 <= i < rows.len() && #[trigger] rows[i].group == g implies rows[i].position
            <= highest_in(rows, g) by {
            if i < rows.len() - 1 {
                assert(init[i] == rows[i]);
            }
        }
        if highest_in(rows, g) != -1 && highest_in(rows, g) == highest_in(init, g) {
            let i = choose|i: int|
                0 <= i < init.len() && init[i].group == g && #[trigger] init[i].position
                    == highest_in(init, g);
            assert(rows[i] == init[i]);
        }
        if highest_in(rows, g) != highest_in(init, g) {
            assert(rows[rows.len() - 1].position == highest_in(rows, g));
        }
    }
}

/// No more rows of a group fit in `0..m` with pairwise distinct positions
/// than `m`.
proof fn lemma_pigeonhole(rows: Seq<Row>, g: i32, m: int)
    requires
        m >= 0,
        forall|i: int|
            0 <= i < rows.len() && #[trigger] rows[i].group == g ==> 0 <= rows[i].position < m,
        forall|i: int, j: int|
            0 <= i < rows.len() && 0 <= j < rows.len() && i != j && #[trigger] rows[i].group == g
                && #[trigger] rows[j].group == g ==> rows[i].position != rows[j].position,
    ensures
        count_in(rows, g) <= m,
    decreases rows.len(),
{
    if rows.len() > 0 {
        let init = rows.drop_last();
        let last = rows.last();
        if last.group != g {
            assert forall|i: int| 0 <= i < init.len() && #[trigger] init[i].group == g implies 0
                <= init[i].position < m by {
                assert(rows[i] == init[i]);
            }
            assert forall|i: int, j: int|
                0 <= i < init.len() && 0 <= j < init.len() && i != j && #[trigger] init[i].group
                    == g && #[trigger] init[j].group == g implies init[i].position
                != init[j].position by {
                assert(rows[i] == init[i] && rows[j] == init[j]);
            }
            lemma_pigeonhole(init, g, m);
        } else {
            let q = last.position as int;
            let low = decremented(init, g, q);
            assert forall|i: int| 0 <= i < low.len() && #[trigger] low[i].group == g implies 0
                <= low[i].position < m - 1 by {
                assert(rows[i] == init[i]);
                assert(rows[i].position != rows[rows.len() - 1].position);
            }
            assert forall|i: int, j: int|
                0 <= i < low.len() && 0 <= j < low.len() && i != j && #[trigger] low[i].group == g
                    && #[trigger] low[j].group == g implies low[i].position
                != low[j].position by {
                assert(rows[i] == init[i] && rows[j] == init[j]);
                assert(rows[i].position != rows[rows.len() - 1].position);
                assert(rows[j].position != rows[rows.len() - 1].position);
            }
            lemma_pigeonhole(low, g, m - 1);
            lemma_count_decremented(init, g, q, g);
        }
    }
}

/// In a dense group of `n` rows every position of `0..n` is taken: the
/// positions are exactly `0, 1, ..., n - 1`.
pub proof fn lemma_dense_covers(rows: Seq<Row>, g: i32, p: int)
    requires
        group_dense(rows, g),
        0 <= p < count_in(rows, g),
    ensures
        occupied(rows, g, p),
{
    if !occupied(rows, g, p) {
        let low = decremented(rows, g, p);
        assert forall|i: int| 0 <= i < low.len() && #[trigger] low[i].group == g implies 0
            <= low[i].position < count_in(rows, g) - 1 by {
            assert(rows[i].position != p);
        }
        assert forall|i: int, j: int|
            0 <= i < low.len() && 0 <= j < low.len() && i != j && #[trigger] low[i].group == g
                && #[trigger] low[j].group == g implies low[i].position != low[j].position by {
            assert(rows[i].position != p);
            assert(rows[j].position != p);
        }
        lemma_pigeonhole(low, g, count_in(rows, g) - 1);
        lemma_count_decremented(rows, g, p, g);
    }
}

/// In a dense group the highest position is one below the number of rows.
pub proof fn lemma_dense_highest(rows: Seq<Row>, g: i32)
    requires
        group_dense(rows, g),
    ensures
        highest_in(rows, g) == count_in(rows, g) - 1,
{
    lemma_highest_bounds(rows, g);
    if count_in(rows, g) > 0 {
        lemma_dense_covers(rows, g, count_in(rows, g) - 1);
    } else {
        if highest_in(rows, g) != -1 {
            let i = choose|i: int|
                0 <= i < rows.len() && rows[i].group == g && #[trigger] rows[i].position
                    == highest_in(rows, g);
        }
    }
}

/// Closing the gap left at position `p` of group `g0` keeps a group dense
/// when the rows of `g0` other than the gap were dense one row up.
proof fn lemma_close_gap(rows: Seq<Row>, g0: i32, p: int, h: i32)
    requires
        forall|i: int|
            0 <= i < rows.len() && #[trigger] rows[i].group == h ==> 0 <= rows[i].position < count_in(
                rows,
                h,
            ) + if h == g0 {
                1int
            } else {
                0int
            },
        forall|i: int, j: int|
            0 <= i < rows.len() && 0 <= j < rows.len() && i != j && #[trigger] rows[i].group == h
                && #[trigger] rows[j].group == h ==> rows[i].position != rows[j].position,
        h == g0 ==> forall|i: int| 0 <= i < rows.len() && #[trigger] rows[i].group == h ==> rows[i].position != p,
        h == g0 ==> 0 <= p <= count_in(rows, h),
    ensures
        group_dense(decremented(rows, g0, p), h),
{
    let d = decremented(rows, g0, p);
    lemma_count_decremented(rows, g0, p, h);
    assert forall|i: int| 0 <= i < d.len() && #[trigger] d[i].group == h implies 0 <= d[i].position
        < count_in(d, h) by {
        assert(d[i] == lowered(rows[i], g0, p));
    }
    assert forall|i: int, j: int|
        0 <= i < d.len() && 0 <= j < d.len() && i != j && #[trigger] d[i].group == h
            && #[trigger] d[j].group == h implies d[i].position != d[j].position by {
        assert(d[i] == lowered(rows[i], g0, p));
        assert(d[j] == lowered(rows[j], g0, p));
    }
}

/// Deleting a row keeps every sibling group dense.
pub proof fn lemma_deleted_wf(rows: Seq<Row>, k: int)
    requires
        ledger_wf(rows),
        0 <= k < rows.len(),
    ensures
        ledger_wf(deleted(rows, k)),
{
    let g0 = rows[k].group;
    let p = rows[k].position as int;
    let r = rows.remove(k);
    rows.remove_ensures(k);
    assert forall|h: i32| #[trigger] group_dense(deleted(rows, k), h) by {
        assert(group_dense(rows, h));
        lemma_count_remove(rows, k, h);
        assert forall|i: int| 0 <= i < r.len() && #[trigger] r[i].group == h implies 0 <= r[i].position
            < count_in(r, h) + if h == g0 {
            1int
        } else {
            0int
        } by {
            if i < k {
                assert(r[i] == rows[i]);
            } else {
                assert(r[i] == rows[i + 1]);
            }
        }
        assert forall|i: int, j: int|
            0 <= i < r.len() && 0 <= j < r.len() && i != j && #[trigger] r[i].group == h
                && #[trigger] r[j].group == h implies r[i].position != r[j].position by {
            let a = if i < k { i } else { i + 1 };
            let b = if j < k { j } else { j + 1 };
            assert(r[i] == rows[a] && r[j] == rows[b]);
        }
        if h == g0 {
            assert forall|i: int| 0 <= i < r.len() && #[trigger] r[i].group == h implies r[i].position
                != p by {
                let a = if i < k { i } else { i + 1 };
                assert(r[i] == rows[a]);
            }
        }
        lemma_close_gap(r, g0, p, h);
    }
    let d = deleted(rows, k);
    assert forall|i: int, j: int| 0 <= i < d.len() && 0 <= j < d.len() && i != j implies #[trigger] d[i].id
        != #[trigger] d[j].id by {
        let a = if i < k { i } else { i + 1 };
        let b = if j < k { j } else { j + 1 };
        assert(r[i] == rows[a] && r[j] == rows[b]);
    }
}

/// Appending a row after the highest of its group keeps every group dense.
pub proof fn lemma_inserted_wf(rows: Seq<Row>, id: i32, g: i32)
    requires
        ledger_wf(rows),
        !has_id(rows, id),
        rows.len() < i32::MAX,
    ensures
        ledger_wf(inserted(rows, id, g)),
        highest_in(rows, g) + 1 == count_in(rows, g),
{
    let n = inserted(rows, id, g);
    assert(group_dense(rows, g));
    lemma_dense_highest(rows, g);
    lemma_count_bound(rows, g);
    lemma_highest_bounds(rows, g);
    assert forall|h: i32| #[trigger] group_dense(n, h) by {
        assert(group_dense(rows, h));
        lemma_count_push(rows, n.last(), h);
        assert forall|i: int| 0 <= i < n.len() && #[trigger] n[i].group == h implies 0 <= n[i].position
            < count_in(n, h) by {
            if i < rows.len() {
                assert(n[i] == rows[i]);
            }
        }
        assert forall|i: int, j: int|
            0 <= i < n.len() && 0 <= j < n.len() && i != j && #[trigger] n[i].group == h
                && #[trigger] n[j].group == h implies n[i].position != n[j].position by {
            if i < rows.len() {
                assert(n[i] == rows[i]);
            }
            if j < rows.len() {
                assert(n[j] == rows[j]);
            }
        }
    }
    assert forall|i: int, j: int| 0 <= i < n.len() && 0 <= j < n.len() && i != j implies #[trigger] n[i].id
        != #[trigger] n[j].id by {
        if i < rows.len() {
            assert(n[i] == rows[i]);
        }
        if j < rows.len() {
            assert(n[j] == rows[j]);
        }
    }
}

proof fn lemma_count_bound(rows: Seq<Row>, g: i32)
    ensures
        count_in(rows, g) <= rows.len(),
    decreases rows.len(),
{
    if rows.len() > 0 {
        lemma_count_bound(rows.drop_last(), g);
    }
}

/// Moving a row to the end of another group keeps every group dense.
pub proof fn lemma_moved_wf(rows: Seq<Row>, k: int, dest: i32)
    requires
        ledger_wf(rows),
        0 <= k < rows.len(),
        rows[k].group != dest,
        rows.len() < i32::MAX,
    ensures
        ledger_wf(moved(rows, k, dest)),
        highest_in(rows, dest) + 1 == count_in(rows, dest),
{
    let g0 = rows[k].group;
    let p = rows[k].position as int;
    assert(group_dense(rows, dest));
    lemma_dense_highest(rows, dest);
    lemma_count_bound(rows, dest);
    lemma_highest_bounds(rows, dest);
    let top = highest_in(rows, dest) + 1;
    let u = rows.update(k, Row { id: rows[k].id, group: dest, position: top as i32 });
    assert forall|h: i32| #[trigger] group_dense(moved(rows, k, dest), h) by {
        assert(group_dense(rows, h));
        lemma_count_update(rows, k, u[k], h);
        assert forall|i: int| 0 <= i < u.len() && #[trigger] u[i].group == h implies 0 <= u[i].position
            < count_in(u, h) + if h == g0 {
            1int
        } else {
            0int
        } by {
            if i != k {
                assert(u[i] == rows[i]);
            }
        }
        assert forall|i: int, j: int|
            0 <= i < u.len() && 0 <= j < u.len() && i != j && #[trigger] u[i].group == h
                && #[trigger] u[j].group == h implies u[i].position != u[j].position by {
            if i != k {
                assert(u[i] == rows[i]);
            }
            if j != k {
                assert(u[j] == rows[j]);
            }
        }
        if h == g0 {
            assert forall|i: int| 0 <= i < u.len() && #[trigger] u[i].group == h implies u[i].position
                != p by {
                assert(u[i] == rows[i]);
            }
        }
        lemma_close_gap(u, g0, p, h);
    }
    let m = moved(rows, k, dest);
    assert forall|i: int, j: int| 0 <= i < m.len() && 0 <= j < m.len() && i != j implies #[trigger] m[i].id
        != #[trigger] m[j].id by {
        assert(m[i].id == rows[i].id && m[j].id == rows[j].id);
    }
}

/// Moving the last row of a group to another group and straight back leaves
/// every row, and so the order of both groups, as it was.
pub proof fn lemma_move_round_trip(rows: Seq<Row>, k: int, dest: i32)
    requires
        ledger_wf(rows),
        0 <= k < rows.len(),
        rows[k].group != dest,
        rows[k].position == count_in(rows, rows[k].group) - 1,
        rows.len() < i32::MAX,
    ensures
        moved(moved(rows, k, dest), k, rows[k].group) == rows,
{
    let g0 = rows[k].group;
    let p = rows[k].position as int;
    lemma_moved_wf(rows, k, dest);
    lemma_count_bound(rows, dest);
    let top = highest_in(rows, dest) + 1;
    let u = rows.update(k, Row { id: rows[k].id, group: dest, position: top as i32 });
    let m1 = moved(rows, k, dest);
    assert(group_dense(rows, g0));
    assert(group_dense(rows, dest));
    assert(m1 =~= u) by {
        assert forall|i: int| 0 <= i < u.len() implies #[trigger] m1[i] == u[i] by {
            if i != k && u[i].group == g0 {
                assert(rows[i].position != p);
            }
        }
    }
    // back in its old group, the row lands at the position it left
    assert(group_dense(m1, g0));
    lemma_count_update(rows, k, u[k], g0);
    lemma_dense_highest(m1, g0);
    assert(count_in(m1, g0) == count_in(u, g0));
    assert(highest_in(m1, g0) + 1 == p);
    let v = m1.update(k, Row { id: rows[k].id, group: g0, position: p as i32 });
    assert(v =~= rows);
    let m2 = moved(m1, k, g0);
    assert(m1[k].group == dest && m1[k].position == top);
    assert(m2 =~= decremented(v, dest, top));
    assert(m2 =~= rows) by {
        assert forall|i: int| 0 <= i < rows.len() implies #[trigger] m2[i] == rows[i] by {
            if i != k && rows[i].group == dest {
                assert(rows[i].position <= highest_in(rows, dest)) by {
                    lemma_highest_bounds(rows, dest);
                }
            }
        }
    }
}

/// Row `a` one place up and row `b` one place down.
pub open spec fn swapped(rows: Seq<Row>, a: int, b: int) -> Seq<Row> {
    rows.update(
        a,
        Row { id: rows[a].id, group: rows[a].group, position: (rows[a].position + 1) as i32 },
    ).update(b, Row { id: rows[b].id, group: rows[b].group, position: (rows[b].position - 1) as i32 })
}

/// Swapping a row with the sibling right after it keeps every group dense.
pub proof fn lemma_swapped_wf(rows: Seq<Row>, a: int, b: int)
    requires
        ledger_wf(rows),
        0 <= a < rows.len(),
        0 <= b < rows.len(),
        rows[a].group == rows[b].group,
        rows[b].position == rows[a].position + 1,
    ensures
        ledger_wf(swapped(rows, a, b)),
{
    let s = swapped(rows, a, b);
    let u = rows.update(a, s[a]);
    assert forall|h: i32| #[trigger] group_dense(s, h) by {
        assert(group_dense(rows, h));
        lemma_count_update(rows, a, s[a], h);
        lemma_count_update(u, b, s[b], h);
        assert forall|i: int| 0 <= i < s.len() && #[trigger] s[i].group == h implies 0 <= s[i].position
            < count_in(s, h) by {
            if i != a && i != b {
                assert(s[i] == rows[i]);
            }
        }
        assert forall|i: int, j: int|
            0 <= i < s.len() && 0 <= j < s.len() && i != j && #[trigger] s[i].group == h
                && #[trigger] s[j].group == h implies s[i].position != s[j].position by {
            if i != a && i != b {
                assert(s[i] == rows[i]);
            }
            if j != a && j != b {
                assert(s[j] == rows[j]);
            }
        }
    }
    assert forall|i: int, j: int| 0 <= i < s.len() && 0 <= j < s.len() && i != j implies #[trigger] s[i].id
        != #[trigger] s[j].id by {
        assert(s[i].id == rows[i].id && s[j].id == rows[j].id);
    }
}

/// An ordered table: the rows of one kind (lists, or cards), each placed
/// inside its group.
pub struct PositionTable {
    pub rows: Vec<Row>,
}

impl PositionTable {
    pub open spec fn wf(&self) -> bool {
        ledger_wf(self.rows@)
    }

    pub fn new() -> (r: PositionTable)
        ensures
            r.rows@.len() == 0,
            r.wf(),
    {
        PositionTable { rows: Vec::new() }
    }

    fn find(&self, id: i32) -> (r: Option<usize>)
        ensures
            match r {
                Some(i) => i < self.rows@.len() && self.rows@[i as int].id == id,
                None => !has_id(self.rows@, id),
            },
    {
        let mut i: usize = 0;
        while i < self.rows.len()
            invariant
                i <= self.rows@.len(),
                forall|j: int| 0 <= j < i ==> self.rows@[j].id != id,
            decreases self.rows@.len() - i,
        {
            if self.rows[i].id == id {
                return Some(i);
            }
            i += 1;
        }
        None
    }

    /// The position of the row with this id, if there is one.
    pub fn get_position(&self, id: i32) -> (r: Option<i32>)
        requires
            self.wf(),
        ensures
            r.is_some() == has_id(self.rows@, id),
            r.is_some() ==> r.unwrap() == self.rows@[index_of(self.rows@, id)].position,
    {
        match self.find(id) {
            Some(i) => {
                proof {
                    let j = index_of(self.rows@, id);
                    assert(self.rows@[j].id == id);
                }
                Some(self.rows[i].position)
            },
            None => None,
        }
    }

    /// The highest position of the group, -1 when it has no row.
    pub fn get_highest_position(&self, group: i32) -> (r: i32)
        ensures
            r == highest_in(self.rows@, group),
            self.wf() ==> r == count_in(self.rows@, group) - 1,
    {
        let mut best: i32 = -1;
        let mut i: usize = 0;
        while i < self.rows.len()
            invariant
                i <= self.rows@.len(),
                best == highest_in(self.rows@.subrange(0, i as int), group),
            decreases self.rows@.len() - i,
        {
            proof {
                assert(self.rows@.subrange(0, i + 1).drop_last() =~= self.rows@.subrange(0, i as int));
            }
            let r = self.rows[i];
            if r.group == group && r.position > best {
                best = r.position;
            }
            i += 1;
        }
        proof {
            assert(self.rows@.subrange(0, i as int) =~= self.rows@);
            if self.wf() {
                assert(group_dense(self.rows@, group));
                lemma_dense_highest(self.rows@, group);
            }
        }
        best
    }

    /// Lowers by one every position above `after`, in every group.
    pub fn decrement_positions_after(&mut self, after: i32)
        ensures
            final(self).rows@.len() == old(self).rows@.len(),
            forall|i: int|
                0 <= i < old(self).rows@.len() ==> #[trigger] final(self).rows@[i] == lowered(
                    old(self).rows@[i],
                    old(self).rows@[i].group,
                    after as int,
                ),
    {
        let mut i: usize = 0;
        while i < self.rows.len()
            invariant
                i <= self.rows@.len(),
                self.rows@.len() == old(self).rows@.len(),
                forall|j: int|
                    0 <= j < i ==> #[trigger] self.rows@[j] == lowered(
                        old(self).rows@[j],
                        old(self).rows@[j].group,
                        after as int,
                    ),
                forall|j: int| i <= j < self.rows@.len() ==> #[trigger] self.rows@[j] == old(self).rows@[j],
            decreases self.rows@.len() - i,
        {
            let r = self.rows[i];
            if r.position > after {
                self.rows.set(i, Row { id: r.id, group: r.group, position: r.position - 1 });
            }
            i += 1;
        }
    }

    /// Lowers by one every position above `after` inside one group.
    pub fn decrement_positions_after_where(&mut self, after: i32, group: i32)
        ensures
            final(self).rows@ == decremented(old(self).rows@, group, after as int),
    {
        let mut i: usize = 0;
        while i < self.rows.len()
            invariant
                i <= self.rows@.len(),
                self.rows@.len() == old(self).rows@.len(),
                forall|j: int|
                    0 <= j < i ==> #[trigger] self.rows@[j] == lowered(
                        old(self).rows@[j],
                        group,
                        after as int,
                    ),
                forall|j: int| i <= j < self.rows@.len() ==> #[trigger] self.rows@[j] == old(self).rows@[j],
            decreases self.rows@.len() - i,
        {
            let r = self.rows[i];
            if r.group == group && r.position > after {
                self.rows.set(i, Row { id: r.id, group: r.group, position: r.position - 1 });
            }
            i += 1;
        }
        assert(self.rows@ =~= decremented(old(self).rows@, group, after as int));
    }

    /// Moves row `id` one place down its group and `swap_with`, the row right
    /// after it, one place up. False, with nothing changed, when either row
    /// is missing or they are not such neighbours.
    pub fn increment_position(&mut self, id: i32, swap_with: i32) -> (r: bool)
        requires
            old(self).wf(),
        ensures
            final(self).wf(),
            r == (has_id(old(self).rows@, id) && has_id(old(self).rows@, swap_with) && {
                let a = index_of(old(self).rows@, id);
                let b = index_of(old(self).rows@, swap_with);
                old(self).rows@[a].group == old(self).rows@[b].group
                    && old(self).rows@[b].position == old(self).rows@[a].position + 1
            }),
            r ==> final(self).rows@ == swapped(
                old(self).rows@,
                index_of(old(self).rows@, id),
                index_of(old(self).rows@, swap_with),
            ),
            !r ==> final(self).rows@ == old(self).rows@,
    {
        self.swap_neighbours(id, swap_with)
    }

    /// Moves row `id` one place up its group and `swap_with`, the row right
    /// before it, one place down. False, with nothing changed, when either
    /// row is missing or they are not such neighbours.
    pub fn decrement_position(&mut self, id: i32, swap_with: i32) -> (r: bool)
        requires
            old(self).wf(),
        ensures
            final(self).wf(),
            r == (has_id(old(self).rows@, id) && has_id(old(self).rows@, swap_with) && {
                let a = index_of(old(self).rows@, swap_with);
                let b = index_of(old(self).rows@, id);
                old(self).rows@[a].group == old(self).rows@[b].group
                    && old(self).rows@[b].position == old(self).rows@[a].position + 1
            }),
            r ==> final(self).rows@ == swapped(
                old(self).rows@,
                index_of(old(self).rows@, swap_with),
                index_of(old(self).rows@, id),
            ),
            !r ==> final(self).rows@ == old(self).rows@,
    {
        self.swap_neighbours(swap_with, id)
    }

    fn swap_neighbours(&mut self, lower: i32, upper: i32) -> (r: bool)
        requires
            old(self).wf(),
        ensures
            final(self).wf(),
            r == (has_id(old(self).rows@, lower) && has_id(old(self).rows@, upper) && {
                let a = index_of(old(self).rows@, lower);
                let b = index_of(old(self).rows@, upper);
                old(self).rows@[a].group == old(self).rows@[b].group
                    && old(self).rows@[b].position == old(self).rows@[a].position + 1
            }),
            r ==> final(self).rows@ == swapped(
                old(self).rows@,
                index_of(old(self).rows@, lower),
                index_of(old(self).rows@, upper),
            ),
            !r ==> final(self).rows@ == old(self).rows@,
    {
        let ghost rows = self.rows@;
        let fa = self.find(lower);
        let fb = self.find(upper);
        match (fa, fb) {
            (Some(a), Some(b)) => {
                proof {
                    let ia = index_of(rows, lower);
                    let ib = index_of(rows, upper);
                    assert(rows[ia].id == lower && rows[ib].id == upper);
                    assert(ia == a && ib == b);
                }
                let ra = self.rows[a];
                let rb = self.rows[b];
                if ra.group == rb.group && ra.position < i32::MAX && rb.position == ra.position + 1 {
                    proof {
                        lemma_swapped_wf(rows, a as int, b as int);
                    }
                    self.rows.set(a, Row { id: ra.id, group: ra.group, position: ra.position + 1 });
                    self.rows.set(b, Row { id: rb.id, group: rb.group, position: rb.position - 1 });
                    true
                } else {
                    false
                }
            },
            _ => false,
        }
    }

    /// Adds a row at the end of its group. False, with nothing changed, when
    /// the id is taken.
    pub fn insert(&mut self, id: i32, group: i32) -> (r: bool)
        requires
            old(self).wf(),
            old(self).rows@.len() < i32::MAX,
        ensures
            final(self).wf(),
            r == !has_id(old(self).rows@, id),
            r ==> final(self).rows@ == inserted(old(self).rows@, id, group),
            !r ==> final(self).rows@ == old(self).rows@,
    {
        if self.find(id).is_some() {
            return false;
        }
        proof {
            lemma_inserted_wf(self.rows@, id, group);
            lemma_count_bound(self.rows@, group);
        }
        let top = self.get_highest_position(group);
        self.rows.push(Row { id, group, position: top + 1 });
        true
    }

    /// Deletes a row and closes the gap it leaves in its group. False, with
    /// nothing changed, when no row has the id.
    pub fn delete(&mut self, id: i32) -> (r: bool)
        requires
            old(self).wf(),
        ensures
            final(self).wf(),
            r == has_id(old(self).rows@, id),
            r ==> final(self).rows@ == deleted(old(self).rows@, index_of(old(self).rows@, id)),
            !r ==> final(self).rows@ == old(self).rows@,
    {
        match self.find(id) {
            Some(k) => {
                let ghost rows = self.rows@;
                proof {
                    let j = index_of(rows, id);
                    assert(rows[j].id == id);
                    assert(j == k);
                    lemma_deleted_wf(rows, k as int);
                }
                let r = self.rows.remove(k);
                self.decrement_positions_after_where(r.position, r.group);
                true
            },
            None => false,
        }
    }

    /// Moves a row to the end of another group: first the row takes its new
    /// group and position, then its old siblings close the gap. False, with
    /// nothing changed, when no row has the id or it is in `dest` already.
    pub fn move_to(&mut self, id: i32, dest: i32) -> (r: bool)
        requires
            old(self).wf(),
            old(self).rows@.len() < i32::MAX,
        ensures
            final(self).wf(),
            r == (has_id(old(self).rows@, id) && old(self).rows@[index_of(old(self).rows@, id)].group
                != dest),
            r ==> final(self).rows@ == moved(old(self).rows@, index_of(old(self).rows@, id), dest),
            !r ==> final(self).rows@ == old(self).rows@,
    {
        match self.find(id) {
            Some(k) => {
                let ghost rows = self.rows@;
                proof {
                    let j = index_of(rows, id);
                    assert(rows[j].id == id);
                    assert(j == k);
                }
                let r = self.rows[k];
                if r.group == dest {
                    return false;
                }
                proof {
                    lemma_moved_wf(rows, k as int, dest);
                    lemma_count_bound(rows, dest);
                }
                let top = self.get_highest_position(dest);
                self.rows.set(k, Row { id: r.id, group: dest, position: top + 1 });
                self.decrement_positions_after_where(r.position, r.group);
                true
            },
            None => false,
        }
    }
}

impl PositionTable {
    /// Performs on a table of cards (grouped by list) a write of the board:
    /// swaps, moves and deletes of cards; other writes leave it as it is.
    /// Whatever the write, every list stays dense.
    pub fn apply_card_op(&mut self, op: &StoreOp) -> (r: bool)
        requires
            old(self).wf(),
            old(self).rows@.len() < i32::MAX,
        ensures
            final(self).wf(),
            !r ==> final(self).rows@ == old(self).rows@,
            r ==> match *op {
                StoreOp::IncrementCardPosition { id, next_id } => final(self).rows@ == swapped(
                    old(self).rows@,
                    index_of(old(self).rows@, id),
                    index_of(old(self).rows@, next_id),
                ),
                StoreOp::DecrementCardPosition { id, prev_id } => final(self).rows@ == swapped(
                    old(self).rows@,
                    index_of(old(self).rows@, prev_id),
                    index_of(old(self).rows@, id),
                ),
                StoreOp::MoveCard { card_id, to_list, .. } => final(self).rows@ == moved(
                    old(self).rows@,
                    index_of(old(self).rows@, card_id),
                    to_list,
                ),
                StoreOp::DeleteCard { card_id, .. } => final(self).rows@ == deleted(
                    old(self).rows@,
                    index_of(old(self).rows@, card_id),
                ),
                _ => false,
            },
    {
        match op {
            StoreOp::IncrementCardPosition { id, next_id } => self.increment_position(*id, *next_id),
            StoreOp::DecrementCardPosition { id, prev_id } => self.decrement_position(*id, *prev_id),
            StoreOp::MoveCard { card_id, to_list, .. } => self.move_to(*card_id, *to_list),
            StoreOp::DeleteCard { card_id, .. } => self.delete(*card_id),
            _ => false,
        }
    }
}

} // verus!
