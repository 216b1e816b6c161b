//! A keyed store over a vector: records carry their own key, keys are
//! pairwise distinct, and lookup is by linear scan. The protocol keeps its
//! agents, listings and escrows in such stores, addressed by a
//! deterministic content key instead of any host-derived address.

use vstd::prelude::*;

verus! {

/// A record addressed by a key of its own fields.
pub trait Keyed: Sized {
    /// The key type the store is addressed by.
    type Key;

    /// The record's key.
    spec fn key(&self) -> Self::Key;

    /// Compares the record's key against `k`.
    fn has_key(&self, k: &Self::Key) -> (r: bool)
        ensures
            r == (self.key() == *k),
    ;
}

/// No two records of the store share a key.
pub open spec fn keys_unique<T: Keyed>(rows: Seq<T>) -> bool {
    forall|i: int, j: int| 0 <= i < j < rows.len() ==> rows[i].key() != rows[j].key()
}

/// Whether some record of the store carries key `k`.
pub open spec fn contains_key<T: Keyed>(rows: Seq<T>, k: <T as Keyed>::Key) -> bool {
    exists|i: int| 0 <= i < rows.len() && rows[i].key() == k
}

/// The index of the record carrying `k`; meaningful only while
/// `contains_key(rows, k)` holds.
pub open spec fn index_of_key<T: Keyed>(rows: Seq<T>, k: <T as Keyed>::Key) -> int {
    choose|i: int| 0 <= i < rows.len() && rows[i].key() == k
}

/// The record carrying `k`, if one does.
pub open spec fn record_of<T: Keyed>(rows: Seq<T>, k: <T as Keyed>::Key) -> Option<T> {
    if contains_key(rows, k) {
        Some(rows[index_of_key(rows, k)])
    } else {
        None
    }
}

/// With unique keys, the record at any index is the one its key looks up.
pub proof fn lemma_record_at<T: Keyed>(rows: Seq<T>, i: int)
    requires
        keys_unique(rows),
        0 <= i < rows.len(),
    ensures
        record_of(rows, rows[i].key()) == Some(rows[i]),
        index_of_key(rows, rows[i].key()) == i,
{
    let k = rows[i].key();
    assert(contains_key(rows, k));
    let j = index_of_key(rows, k);
    assert(0 <= j < rows.len() && rows[j].key() == k);
}

/// Replacing the record at `i` by one with the same key keeps the keys
/// unique, makes the new record the one that key looks up, and leaves the
/// record of every other key as it was.
pub proof fn lemma_update_row<T: Keyed>(pre: Seq<T>, post: Seq<T>, i: int)
    requires
        keys_unique(pre),
        0 <= i < pre.len(),
        post == pre.update(i, post[i]),
        post[i].key() == pre[i].key(),
    ensures
        keys_unique(post),
        record_of(post, pre[i].key()) == Some(post[i]),
        forall|k: <T as Keyed>::Key| k != pre[i].key() ==> record_of(post, k) == record_of(
            pre,
            k,
        ),
{
    assert(keys_unique(post));
    lemma_record_at(post, i);
    assert forall|k: <T as Keyed>::Key| k != pre[i].key() implies record_of(post, k) == record_of(
        pre,
        k,
    ) by {
        if contains_key(pre, k) {
            let j = index_of_key(pre, k);
            assert(0 <= j < pre.len() && pre[j].key() == k);
            assert(j != i);
            lemma_record_at(pre, j);
            lemma_record_at(post, j);
        } else {
            if contains_key(post, k) {
                let j = index_of_key(post, k);
                assert(0 <= j < post.len() && post[j].key() == k);
                assert(pre[j].key() == k);
            }
        }
    }
}

/// Appending a record whose key is absent keeps the keys unique, makes the
/// record the one its key looks up, and leaves the record of every other
/// key as it was.
pub proof fn lemma_push_row<T: Keyed>(pre: Seq<T>, post: Seq<T>, v: T)
    requires
        keys_unique(pre),
        !contains_key(pre, v.key()),
        post == pre.push(v),
    ensures
        keys_unique(post),
        record_of(post, v.key()) == Some(v),
        forall|k: <T as Keyed>::Key| k != v.key() ==> record_of(post, k) == record_of(pre, k),
{
    assert forall|a: int, b: int| 0 <= a < b < post.len() implies post[a].key() != post[
        b
    ].key() by {
        if b < post.len() - 1 {
            assert(post[a] == pre[a] && post[b] == pre[b]);
        } else {
            assert(post[b] == v && post[a] == pre[a]);
        }
    }
    lemma_record_at(post, post.len() - 1);
    assert forall|k: <T as Keyed>::Key| k != v.key() implies record_of(post, k) == record_of(
        pre,
        k,
    ) by {
        if contains_key(pre, k) {
            let j = index_of_key(pre, k);
            assert(0 <= j < pre.len() && pre[j].key() == k);
            assert(post[j] == pre[j]);
            lemma_record_at(pre, j);
            lemma_record_at(post, j);
        } else {
            if contains_key(post, k) {
                let j = index_of_key(post, k);
                assert(0 <= j < post.len() && post[j].key() == k);
                assert(j != post.len() - 1);
                assert(pre[j].key() == k);
            }
        }
    }
}

/// Removing the record at `i` keeps the keys unique, empties its key's
/// lookup, and leaves the record of every other key as it was.
pub proof fn lemma_remove_row<T: Keyed>(pre: Seq<T>, post: Seq<T>, i: int)
    requires
        keys_unique(pre),
        0 <= i < pre.len(),
        post == pre.remove(i),
    ensures
        keys_unique(post),
        record_of(post, pre[i].key()) == None::<T>,
        forall|k: <T as Keyed>::Key| k != pre[i].key() ==> record_of(post, k) == record_of(
            pre,
            k,
        ),
{
    pre.remove_ensures(i);
    let shift = |j: int| if j < i { j } else { j + 1 };
    assert forall|a: int, b: int| 0 <= a < b < post.len() implies post[a].key() != post[
        b
    ].key() by {
        assert(post[a] == pre[shift(a)] && post[b] == pre[shift(b)]);
    }
    assert(!contains_key(post, pre[i].key())) by {
        if contains_key(post, pre[i].key()) {
            let j = index_of_key(post, pre[i].key());
            assert(0 <= j < post.len() && post[j].key() == pre[i].key());
            assert(post[j] == pre[shift(j)]);
            assert(shift(j) != i);
        }
    }
    assert forall|k: <T as Keyed>::Key| k != pre[i].key() implies record_of(post, k) == record_of(
        pre,
        k,
    ) by {
        if contains_key(pre, k) {
            let j = index_of_key(pre, k);
            assert(0 <= j < pre.len() && pre[j].key() == k);
            assert(j != i);
            let j2 = if j < i { j } else { j - 1 };
            assert(post[j2] == pre[j]);
            lemma_record_at(pre, j);
            lemma_record_at(post, j2);
        } else {
            if contains_key(post, k) {
                let j = index_of_key(post, k);
                assert(0 <= j < post.len() && post[j].key() == k);
                assert(pre[shift(j)].key() == k);
            }
        }
    }
}

/// Finds the index of the record carrying `k` by scanning the store.
pub fn find_index<T: Keyed>(rows: &Vec<T>, k: &<T as Keyed>::Key) -> (r: Option<usize>)
    ensures
        match r {
            Some(i) => i < rows@.len() && rows@[i as int].key() == *k,
            None => !contains_key(rows@, *k),
        },
{
    let mut i: usize = 0;
    while i < rows.len()
        invariant
            i <= rows@.len(),
            forall|j: int| 0 <= j < i ==> rows@[j].key() != *k,
        decreases rows@.len() - i,
    {
        if rows[i].has_key(k) {
            return Some(i);
        }
        i = i + 1;
    }
    None
}

/// Overwrites the record at `i`.
pub fn set_at<T>(rows: &mut Vec<T>, i: usize, v: T)
    requires
        i < old(rows)@.len(),
    ensures
        final(rows)@ == old(rows)@.update(i as int, v),
{
    let slot = &mut rows[i];
    *slot = v;
}

} // verus!
