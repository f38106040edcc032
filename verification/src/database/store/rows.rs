//! Sequences of rows: finding a row, keeping some rows, and keys that no two rows share.
use vstd::prelude::*;

verus! {

/// Whether `found` is the row `row`, or nothing where `row` is nothing.
pub open spec fn shows<T: View>(found: Option<T>, row: Option<T::V>) -> bool {
    match found {
        Some(value) => row == Some(value@),
        None => row.is_none(),
    }
}

/// Whether some row meets `wanted`.
pub open spec fn any<T>(rows: Seq<T>, wanted: spec_fn(T) -> bool) -> bool {
    exists|i: int| 0 <= i < rows.len() && wanted(#[trigger] rows[i])
}

/// Whether `i` is the place of the first row that meets `wanted`.
pub open spec fn is_first<T>(rows: Seq<T>, wanted: spec_fn(T) -> bool, i: int) -> bool {
    &&& 0 <= i < rows.len()
    &&& wanted(rows[i])
    &&& forall|j: int| 0 <= j < i ==> !wanted(#[trigger] rows[j])
}

/// The first row that meets `wanted`, if there is one.
pub open spec fn find<T>(rows: Seq<T>, wanted: spec_fn(T) -> bool) -> Option<T> {
    if any(rows, wanted) {
        Some(rows[choose|i: int| is_first(rows, wanted, i)])
    } else {
        None
    }
}

/// The opposite of a condition on rows.
pub open spec fn not<T>(wanted: spec_fn(T) -> bool) -> spec_fn(T) -> bool {
    |row: T| !wanted(row)
}

/// The rows without those that meet `unwanted`, in their order.
pub open spec fn without<T>(rows: Seq<T>, unwanted: spec_fn(T) -> bool) -> Seq<T> {
    rows.filter(not(unwanted))
}

/// Whether no two rows have the same key.
pub open spec fn distinct_by<T, K>(rows: Seq<T>, key: spec_fn(T) -> K) -> bool {
    forall|i: int, j: int|
        0 <= i < rows.len() && 0 <= j < rows.len() && i != j ==> key(#[trigger] rows[i]) != key(
            #[trigger] rows[j],
        )
}

/// The first `limit` rows, or all of them where there are fewer.
pub open spec fn first_rows<T>(rows: Seq<T>, limit: nat) -> Seq<T> {
    if rows.len() <= limit {
        rows
    } else {
        rows.take(limit as int)
    }
}

/// Whether every row meets `wanted`.
pub open spec fn all<T>(rows: Seq<T>, wanted: spec_fn(T) -> bool) -> bool {
    forall|i: int| 0 <= i < rows.len() ==> wanted(#[trigger] rows[i])
}

/// Whether every row of `children` has a row among `parents` that it refers to, where
/// `parent_of` gives, for a child, the parents it refers to.
pub open spec fn refers<C, P>(
    children: Seq<C>,
    parents: Seq<P>,
    parent_of: spec_fn(C) -> spec_fn(P) -> bool,
) -> bool {
    forall|i: int| 0 <= i < children.len() ==> any(parents, parent_of(#[trigger] children[i]))
}

/// A row of the store: a value that can be copied, and that specifications see through its
/// view.
pub trait Row: View + Sized {
    /// A copy of the row.
    fn copy(&self) -> (r: Self)
        ensures
            r@ == self@,
    ;
}

/// The rows as values of specifications, in their order.
pub open spec fn views<T: View>(rows: Seq<T>) -> Seq<T::V> {
    rows.map_values(|row: T| row@)
}

/// Finds the first row that passes `test`.
pub(crate) fn position<T: View, F: Fn(&T) -> bool>(
    rows: &Vec<T>,
    test: F,
    Ghost(wanted): Ghost<spec_fn(T::V) -> bool>,
) -> (r: Option<usize>)
    requires
        forall|row: &T| #[trigger] test.requires((row,)),
        forall|row: &T, hit: bool| #[trigger] test.ensures((row,), hit) ==> hit == wanted(row@),
    ensures
        match r {
            Some(i) => is_first(views(rows@), wanted, i as int),
            None => !any(views(rows@), wanted),
        },
{
    let mut i: usize = 0;
    while i < rows.len()
        invariant
            i <= rows.len(),
            forall|row: &T| #[trigger] test.requires((row,)),
            forall|row: &T, hit: bool|
                #[trigger] test.ensures((row,), hit) ==> hit == wanted(row@),
            forall|j: int| 0 <= j < i ==> !wanted(#[trigger] views(rows@)[j]),
        decreases rows.len() - i,
    {
        if test(&rows[i]) {
            return Some(i);
        }
        i += 1;
    }
    None
}

/// Copies the rows that pass `test`, in their order.
pub(crate) fn select<T: Row, F: Fn(&T) -> bool>(
    rows: &Vec<T>,
    test: F,
    Ghost(wanted): Ghost<spec_fn(T::V) -> bool>,
) -> (r: Vec<T>)
    requires
        forall|row: &T| #[trigger] test.requires((row,)),
        forall|row: &T, hit: bool| #[trigger] test.ensures((row,), hit) ==> hit == wanted(row@),
    ensures
        views(r@) == views(rows@).filter(wanted),
{
    let mut out: Vec<T> = Vec::new();
    let mut i: usize = 0;
    proof {
        lemma_filter_none(views(rows@), wanted);
        assert(views(out@) =~= Seq::<T::V>::empty());
    }
    while i < rows.len()
        invariant
            i <= rows.len(),
            forall|row: &T| #[trigger] test.requires((row,)),
            forall|row: &T, hit: bool|
                #[trigger] test.ensures((row,), hit) ==> hit == wanted(row@),
            views(out@) == views(rows@).take(i as int).filter(wanted),
        decreases rows.len() - i,
    {
        proof {
            lemma_filter_step(views(rows@), wanted, i as int);
        }
        if test(&rows[i]) {
            let row = rows[i].copy();
            let ghost before = out@;
            out.push(row);
            assert(views(out@) =~= views(before).push(row@));
        }
        i += 1;
    }
    proof {
        lemma_filter_none(views(rows@), wanted);
    }
    out
}

/// Copies the first rows that pass `test`, in their order, and at most `limit` of them.
pub(crate) fn select_up_to<T: Row, F: Fn(&T) -> bool>(
    rows: &Vec<T>,
    test: F,
    limit: usize,
    Ghost(wanted): Ghost<spec_fn(T::V) -> bool>,
) -> (r: Vec<T>)
    requires
        forall|row: &T| #[trigger] test.requires((row,)),
        forall|row: &T, hit: bool| #[trigger] test.ensures((row,), hit) ==> hit == wanted(row@),
    ensures
        views(r@) == first_rows(views(rows@).filter(wanted), limit as nat),
{
    let mut out: Vec<T> = Vec::new();
    let mut i: usize = 0;
    proof {
        lemma_filter_none(views(rows@), wanted);
        assert(views(out@) =~= Seq::<T::V>::empty());
    }
    while i < rows.len() && out.len() < limit
        invariant
            i <= rows.len(),
            out.len() <= limit,
            forall|row: &T| #[trigger] test.requires((row,)),
            forall|row: &T, hit: bool|
                #[trigger] test.ensures((row,), hit) ==> hit == wanted(row@),
            views(out@) == views(rows@).take(i as int).filter(wanted),
        decreases rows.len() - i,
    {
        proof {
            lemma_filter_step(views(rows@), wanted, i as int);
        }
        if test(&rows[i]) {
            let row = rows[i].copy();
            let ghost before = out@;
            out.push(row);
            assert(views(out@) =~= views(before).push(row@));
        }
        i += 1;
    }
    proof {
        lemma_filter_none(views(rows@), wanted);
        lemma_filter_prefix(views(rows@), wanted, i as int);
        let kept = views(rows@).filter(wanted);
        if i == rows.len() {
            assert(kept.take(kept.len() as int) =~= kept);
        }
    }
    out
}

/// Copies all rows, in their order.
pub(crate) fn copy_all<T: Row>(rows: &Vec<T>) -> (r: Vec<T>)
    ensures
        views(r@) == views(rows@),
{
    let mut out: Vec<T> = Vec::new();
    let mut i: usize = 0;
    assert(views(out@) =~= views(rows@).take(0));
    while i < rows.len()
        invariant
            i <= rows.len(),
            views(out@) == views(rows@).take(i as int),
        decreases rows.len() - i,
    {
        let row = rows[i].copy();
        let ghost before = out@;
        out.push(row);
        assert(views(out@) =~= views(before).push(row@));
        assert(views(rows@).take(i as int + 1) =~= views(rows@).take(i as int).push(
            views(rows@)[i as int],
        ));
        i += 1;
    }
    assert(views(rows@).take(rows.len() as int) =~= views(rows@));
    out
}

/// Whether every row passes `test`.
pub(crate) fn every<T: View, F: Fn(&T) -> bool>(
    rows: &Vec<T>,
    test: F,
    Ghost(wanted): Ghost<spec_fn(T::V) -> bool>,
) -> (r: bool)
    requires
        forall|row: &T| #[trigger] test.requires((row,)),
        forall|row: &T, hit: bool| #[trigger] test.ensures((row,), hit) ==> hit == wanted(row@),
    ensures
        r == all(views(rows@), wanted),
{
    let mut i: usize = 0;
    while i < rows.len()
        invariant
            i <= rows.len(),
            forall|row: &T| #[trigger] test.requires((row,)),
            forall|row: &T, hit: bool|
                #[trigger] test.ensures((row,), hit) ==> hit == wanted(row@),
            forall|j: int| 0 <= j < i ==> wanted(#[trigger] views(rows@)[j]),
        decreases rows.len() - i,
    {
        if !test(&rows[i]) {
            assert(!wanted(views(rows@)[i as int]));
            return false;
        }
        i += 1;
    }
    true
}

/// Whether no two rows have the same key, where `same` tells whether two rows have.
pub(crate) fn distinct<T: View, K, F: Fn(&T, &T) -> bool>(
    rows: &Vec<T>,
    same: F,
    Ghost(key): Ghost<spec_fn(T::V) -> K>,
) -> (r: bool)
    requires
        forall|a: &T, b: &T| #[trigger] same.requires((a, b)),
        forall|a: &T, b: &T, hit: bool| #[trigger]
            same.ensures((a, b), hit) ==> hit == (key(a@) == key(b@)),
    ensures
        r == distinct_by(views(rows@), key),
{
    let mut i: usize = 0;
    while i < rows.len()
        invariant
            i <= rows.len(),
            forall|a: &T, b: &T| #[trigger] same.requires((a, b)),
            forall|a: &T, b: &T, hit: bool| #[trigger]
                same.ensures((a, b), hit) ==> hit == (key(a@) == key(b@)),
            forall|p: int, q: int|
                0 <= p < q < i ==> key(#[trigger] views(rows@)[p]) != key(
                    #[trigger] views(rows@)[q],
                ),
        decreases rows.len() - i,
    {
        let mut j: usize = 0;
        while j < i
            invariant
                j <= i < rows.len(),
                forall|a: &T, b: &T| #[trigger] same.requires((a, b)),
                forall|a: &T, b: &T, hit: bool| #[trigger]
                    same.ensures((a, b), hit) ==> hit == (key(a@) == key(b@)),
                forall|p: int|
                    0 <= p < j ==> key(#[trigger] views(rows@)[p]) != key(
                        views(rows@)[i as int],
                    ),
            decreases i - j,
        {
            if same(&rows[j], &rows[i]) {
                assert(key(views(rows@)[j as int]) == key(views(rows@)[i as int]));
                return false;
            }
            j += 1;
        }
        i += 1;
    }
    assert forall|p: int, q: int|
        0 <= p < rows.len() && 0 <= q < rows.len() && p != q implies key(
        #[trigger] views(rows@)[p],
    ) != key(#[trigger] views(rows@)[q]) by {
        if p < q {
        } else {
            assert(key(views(rows@)[q]) != key(views(rows@)[p]));
        }
    }
    true
}

/// The first row that meets a condition is the one that `find` gives.
pub proof fn lemma_find_hit<T>(rows: Seq<T>, wanted: spec_fn(T) -> bool, i: int)
    requires
        is_first(rows, wanted, i),
    ensures
        find(rows, wanted) == Some(rows[i]),
{
    let k = choose|k: int| is_first(rows, wanted, k);
    assert(is_first(rows, wanted, k));
    if k < i {
        assert(!wanted(rows[k]));
    }
    if i < k {
        assert(!wanted(rows[i]));
    }
}

/// A row that is added is the one that `find` gives for a condition that the row meets and
/// no earlier row does.
pub proof fn lemma_find_pushed<T>(rows: Seq<T>, wanted: spec_fn(T) -> bool, row: T)
    requires
        !any(rows, wanted),
        wanted(row),
    ensures
        find(rows.push(row), wanted) == Some(row),
{
    let more = rows.push(row);
    let at = rows.len() as int;
    assert(more[at] == row);
    assert forall|j: int| 0 <= j < at implies !wanted(#[trigger] more[j]) by {
        assert(more[j] == rows[j]);
    }
    lemma_find_hit(more, wanted, at);
}

/// Where some row meets a condition, a first one does.
pub proof fn lemma_first_exists<T>(rows: Seq<T>, wanted: spec_fn(T) -> bool, upto: int)
    requires
        0 <= upto < rows.len(),
        wanted(rows[upto]),
    ensures
        exists|i: int| is_first(rows, wanted, i),
    decreases upto,
{
    if forall|j: int| 0 <= j < upto ==> !wanted(#[trigger] rows[j]) {
        assert(is_first(rows, wanted, upto));
    } else {
        let j = choose|j: int| 0 <= j < upto && wanted(#[trigger] rows[j]);
        lemma_first_exists(rows, wanted, j);
    }
}

/// What `find` gives is a row of the sequence that meets the condition, and it gives none
/// only where no row meets it.
pub proof fn lemma_find<T>(rows: Seq<T>, wanted: spec_fn(T) -> bool)
    ensures
        match find(rows, wanted) {
            Some(row) => rows.contains(row) && wanted(row),
            None => forall|i: int| 0 <= i < rows.len() ==> !wanted(#[trigger] rows[i]),
        },
{
    if any(rows, wanted) {
        let w = choose|i: int| 0 <= i < rows.len() && wanted(#[trigger] rows[i]);
        lemma_first_exists(rows, wanted, w);
        let k = choose|k: int| is_first(rows, wanted, k);
        assert(is_first(rows, wanted, k));
    }
}

/// Where no two rows share a key, the row that `find` gives for a key is the only row with
/// that key.
pub proof fn lemma_find_by_key<T, K>(
    rows: Seq<T>,
    key: spec_fn(T) -> K,
    wanted: spec_fn(T) -> bool,
    i: int,
)
    requires
        distinct_by(rows, key),
        0 <= i < rows.len(),
        wanted(rows[i]),
        forall|j: int|
            0 <= j < rows.len() && wanted(#[trigger] rows[j]) ==> key(rows[j]) == key(rows[i]),
    ensures
        find(rows, wanted) == Some(rows[i]),
{
    assert forall|j: int| 0 <= j < i implies !wanted(#[trigger] rows[j]) by {
        if wanted(rows[j]) {
            assert(key(rows[j]) == key(rows[i]));
        }
    }
    lemma_find_hit(rows, wanted, i);
}

/// Keeping rows of one more row of a sequence: the row is added if it is wanted.
pub proof fn lemma_filter_step<T>(rows: Seq<T>, wanted: spec_fn(T) -> bool, i: int)
    requires
        0 <= i < rows.len(),
    ensures
        rows.take(i + 1).filter(wanted) == if wanted(rows[i]) {
            rows.take(i).filter(wanted).push(rows[i])
        } else {
            rows.take(i).filter(wanted)
        },
{
    reveal(Seq::filter);
    assert(rows.take(i + 1).drop_last() =~= rows.take(i));
}

/// Nothing is kept of no rows.
pub proof fn lemma_filter_none<T>(rows: Seq<T>, wanted: spec_fn(T) -> bool)
    ensures
        rows.take(0).filter(wanted) == Seq::<T>::empty(),
        rows.take(rows.len() as int) == rows,
{
    reveal(Seq::filter);
    assert(rows.take(0) =~= Seq::<T>::empty());
    assert(rows.take(rows.len() as int) =~= rows);
}

/// A row is kept exactly when it is a row of the sequence and wanted.
pub proof fn lemma_filter_member<T>(rows: Seq<T>, wanted: spec_fn(T) -> bool)
    ensures
        forall|row: T| #[trigger]
            rows.filter(wanted).contains(row) <==> rows.contains(row) && wanted(row),
{
    assert forall|row: T| #[trigger]
        rows.filter(wanted).contains(row) <==> rows.contains(row) && wanted(row) by {
        if rows.filter(wanted).contains(row) {
            rows.lemma_filter_contains_rev(wanted, row);
            let k = choose|k: int|
                0 <= k < rows.filter(wanted).len() && rows.filter(wanted)[k] == row;
            rows.lemma_filter_pred(wanted, k);
        }
        if rows.contains(row) && wanted(row) {
            let i = choose|i: int| 0 <= i < rows.len() && rows[i] == row;
            rows.lemma_filter_contains(wanted, i);
        }
    }
}

/// Rows that share no key still share none when only some of them are kept.
pub proof fn lemma_filter_distinct<T, K>(
    rows: Seq<T>,
    key: spec_fn(T) -> K,
    wanted: spec_fn(T) -> bool,
)
    requires
        distinct_by(rows, key),
    ensures
        distinct_by(rows.filter(wanted), key),
    decreases rows.len(),
{
    reveal(Seq::filter);
    if rows.len() > 0 {
        let front = rows.drop_last();
        assert forall|i: int, j: int|
            0 <= i < front.len() && 0 <= j < front.len() && i != j implies key(
            #[trigger] front[i],
        ) != key(#[trigger] front[j]) by {
            assert(front[i] == rows[i] && front[j] == rows[j]);
        }
        lemma_filter_distinct(front, key, wanted);
        let kept = front.filter(wanted);
        if wanted(rows.last()) {
            lemma_filter_member(front, wanted);
            assert forall|i: int| 0 <= i < kept.len() implies key(#[trigger] kept[i]) != key(
                rows.last(),
            ) by {
                assert(kept.contains(kept[i]));
                assert(front.contains(kept[i]));
                let k = choose|k: int| 0 <= k < front.len() && front[k] == kept[i];
                assert(rows[k] == kept[i]);
                assert(rows[rows.len() - 1] == rows.last());
            }
            let all = kept.push(rows.last());
            assert forall|i: int, j: int|
                0 <= i < all.len() && 0 <= j < all.len() && i != j implies key(
                #[trigger] all[i],
            ) != key(#[trigger] all[j]) by {
                if i < kept.len() {
                    assert(all[i] == kept[i]);
                }
                if j < kept.len() {
                    assert(all[j] == kept[j]);
                }
            }
        }
    }
}

/// What is kept of the first rows of a sequence stands at the start of what is kept of all.
pub proof fn lemma_filter_prefix<T>(rows: Seq<T>, wanted: spec_fn(T) -> bool, i: int)
    requires
        0 <= i <= rows.len(),
    ensures
        rows.take(i).filter(wanted).len() <= rows.filter(wanted).len(),
        rows.filter(wanted).take(rows.take(i).filter(wanted).len() as int) == rows.take(
            i,
        ).filter(wanted),
{
    let head = rows.take(i);
    let tail = rows.skip(i);
    assert(head + tail =~= rows);
    Seq::filter_distributes_over_add(head, tail, wanted);
    assert((head.filter(wanted) + tail.filter(wanted)).take(head.filter(wanted).len() as int)
        =~= head.filter(wanted));
}

/// Keeping the wanted rows of what was kept changes nothing.
pub proof fn lemma_filter_twice<T>(rows: Seq<T>, wanted: spec_fn(T) -> bool)
    ensures
        rows.filter(wanted).filter(wanted) == rows.filter(wanted),
    decreases rows.len(),
{
    reveal(Seq::filter);
    if rows.len() > 0 {
        let front = rows.drop_last();
        lemma_filter_twice(front, wanted);
        if wanted(rows.last()) {
            let kept = front.filter(wanted).push(rows.last());
            assert(kept.drop_last() =~= front.filter(wanted));
        }
    }
}

/// A row of the sequence that meets a condition shows that some row meets it.
pub proof fn lemma_any_member<T>(rows: Seq<T>, wanted: spec_fn(T) -> bool, row: T)
    requires
        rows.contains(row),
        wanted(row),
    ensures
        any(rows, wanted),
{
    let i = choose|i: int| 0 <= i < rows.len() && rows[i] == row;
    assert(wanted(rows[i]));
}

/// What holds of every row holds of every row that is kept.
pub proof fn lemma_filter_all<T>(
    rows: Seq<T>,
    holds: spec_fn(T) -> bool,
    wanted: spec_fn(T) -> bool,
)
    requires
        all(rows, holds),
    ensures
        all(rows.filter(wanted), holds),
{
    lemma_filter_member(rows, wanted);
    let kept = rows.filter(wanted);
    assert forall|i: int| 0 <= i < kept.len() implies holds(#[trigger] kept[i]) by {
        assert(kept.contains(kept[i]));
        let k = choose|k: int| 0 <= k < rows.len() && rows[k] == kept[i];
        assert(holds(rows[k]));
    }
}

/// Children still refer to parents when some children and some parents are kept, as long as
/// the parents of every kept child are kept.
pub proof fn lemma_filter_refers<C, P>(
    children: Seq<C>,
    parents: Seq<P>,
    parent_of: spec_fn(C) -> spec_fn(P) -> bool,
    keep_child: spec_fn(C) -> bool,
    keep_parent: spec_fn(P) -> bool,
)
    requires
        refers(children, parents, parent_of),
        forall|i: int, j: int|
            0 <= i < children.len() && 0 <= j < parents.len() && keep_child(
                #[trigger] children[i],
            ) && parent_of(children[i])(#[trigger] parents[j]) ==> keep_parent(parents[j]),
    ensures
        refers(children.filter(keep_child), parents.filter(keep_parent), parent_of),
{
    lemma_filter_member(children, keep_child);
    lemma_filter_member(parents, keep_parent);
    let kept = children.filter(keep_child);
    assert forall|i: int| 0 <= i < kept.len() implies any(
        parents.filter(keep_parent),
        parent_of(#[trigger] kept[i]),
    ) by {
        assert(kept.contains(kept[i]));
        let k = choose|k: int| 0 <= k < children.len() && children[k] == kept[i];
        assert(any(parents, parent_of(children[k])));
        let j = choose|j: int|
            0 <= j < parents.len() && parent_of(children[k])(#[trigger] parents[j]);
        assert(keep_parent(parents[j]));
        assert(parents.contains(parents[j]));
        lemma_any_member(parents.filter(keep_parent), parent_of(kept[i]), parents[j]);
    }
}

/// Children still refer to parents when a parent is added.
pub proof fn lemma_push_parent_refers<C, P>(
    children: Seq<C>,
    parents: Seq<P>,
    parent_of: spec_fn(C) -> spec_fn(P) -> bool,
    parent: P,
)
    requires
        refers(children, parents, parent_of),
    ensures
        refers(children, parents.push(parent), parent_of),
{
    let more = parents.push(parent);
    assert forall|i: int| 0 <= i < children.len() implies any(
        more,
        parent_of(#[trigger] children[i]),
    ) by {
        let j = choose|j: int|
            0 <= j < parents.len() && parent_of(children[i])(#[trigger] parents[j]);
        assert(more[j] == parents[j]);
    }
}

/// Rows that share no key share none when a row with a new key is added.
pub proof fn lemma_push_distinct<T, K>(rows: Seq<T>, key: spec_fn(T) -> K, row: T)
    requires
        distinct_by(rows, key),
        forall|i: int| 0 <= i < rows.len() ==> key(#[trigger] rows[i]) != key(row),
    ensures
        distinct_by(rows.push(row), key),
{
    let more = rows.push(row);
    assert forall|i: int, j: int|
        0 <= i < more.len() && 0 <= j < more.len() && i != j implies key(#[trigger] more[i])
        != key(#[trigger] more[j]) by {
        if i < rows.len() {
            assert(more[i] == rows[i]);
        }
        if j < rows.len() {
            assert(more[j] == rows[j]);
        }
    }
}

} // verus!
