//! The in-memory comment store: keyed storage with insert and lookup.
//!
//! The store owns every comment record. Ids are generated at insertion time
//! and are pairwise distinct; nothing is ever overwritten or removed, so the
//! store only grows. Callers receive independent copies of the records.

use vstd::prelude::*;

use crate::comment::{views, Comment, CommentView};
use crate::errors::RequestError;

verus! {

/// The ids of `s` are pairwise distinct.
pub open spec fn distinct_ids(s: Seq<CommentView>) -> bool {
    forall|i: int, j: int| 0 <= i < j < s.len() ==> s[i].id != s[j].id
}

/// Some entry of `s` carries the id.
pub open spec fn contains_id(s: Seq<CommentView>, id: u128) -> bool {
    exists|i: int| 0 <= i < s.len() && s[i].id == id
}

/// The entry of `s` carrying the id, if any.
pub open spec fn spec_get(s: Seq<CommentView>, id: u128) -> Option<CommentView> {
    if contains_id(s, id) {
        Some(s[choose|i: int| 0 <= i < s.len() && s[i].id == id])
    } else {
        None
    }
}

/// Under distinct ids, the entry at a matching index is the one `spec_get`
/// returns.
pub proof fn lemma_spec_get_at(s: Seq<CommentView>, i: int)
    requires
        distinct_ids(s),
        0 <= i < s.len(),
    ensures
        spec_get(s, s[i].id) == Some(s[i]),
{
    let id = s[i].id;
    assert(contains_id(s, id));
    let j = choose|j: int| 0 <= j < s.len() && s[j].id == id;
    assert(s[j].id == id);
    if i != j {
        assert(false);
    }
}

/// Relies on uuid::Uuid::new_v4 (read through uuid::Uuid::as_u128): a random
/// version-4 UUID. The value is random, so nothing is promised of it; the
/// store itself checks freshness.
#[verifier::external_body]
fn fresh_candidate_id() -> u128 {
    uuid::Uuid::new_v4().as_u128()
}

/// Pigeonhole: a collection of `n` comments with pairwise distinct ids cannot
/// carry every one of the `n + 1` ids `0 ..= n`, so one of them is free.
proof fn lemma_some_small_id_free(s: Seq<CommentView>, n: int)
    requires
        distinct_ids(s),
        s.len() == n,
        0 <= n <= u128::MAX,
    ensures
        exists|v: int| 0 <= v <= n && !(#[trigger] contains_id(s, v as u128)),
{
    broadcast use vstd::seq_lib::seq_to_set_is_finite;

    if forall|v: int| 0 <= v <= n ==> #[trigger] contains_id(s, v as u128) {
        lemma_all_small_ids_taken_impossible(s, n);
    }
}

/// The heart of the pigeonhole argument: if all of `0 ..= n` were taken, the
/// distinct ids would number at least `n + 1`.
proof fn lemma_all_small_ids_taken_impossible(s: Seq<CommentView>, n: int)
    requires
        distinct_ids(s),
        s.len() == n,
        0 <= n <= u128::MAX,
        forall|j: int| 0 <= j <= n ==> #[trigger] contains_id(s, j as u128),
    ensures
        exists|v: int| 0 <= v <= n && !(#[trigger] contains_id(s, v as u128)),
{
    broadcast use vstd::seq_lib::seq_to_set_is_finite;

    let ids = Seq::new(s.len(), |i: int| s[i].id as int);
    assert(ids.no_duplicates()) by {
        assert forall|i: int, j: int|
            0 <= i < ids.len() && 0 <= j < ids.len() && i != j implies ids[i] != ids[j] by {
            if i < j {
                assert(s[i].id != s[j].id);
            } else {
                assert(s[j].id != s[i].id);
            }
        }
    }
    ids.unique_seq_to_set();
    let range = vstd::set_lib::set_int_range(0, n + 1);
    vstd::set_lib::lemma_int_range(0, n + 1);
    assert(range.subset_of(ids.to_set())) by {
        assert forall|v: int| range.contains(v) implies ids.to_set().contains(v) by {
            assert(contains_id(s, v as u128));
            let i = choose|i: int| 0 <= i < s.len() && s[i].id == (v as u128);
            assert(ids[i] == v);
            assert(ids.contains(v));
        }
    }
    vstd::set_lib::lemma_len_subset(range, ids.to_set());
}

/// No lost writes: appending a record under a fresh id grows the store by
/// exactly one entry and keeps all ids pairwise distinct. Since every insert
/// appends one record under a fresh id inside the writer's critical section,
/// any serialization of concurrent inserts ends with exactly as many records
/// as inserts, every id unique.
pub proof fn lemma_insert_no_lost_writes(s: Seq<CommentView>, c: CommentView)
    requires
        distinct_ids(s),
        !contains_id(s, c.id),
    ensures
        s.push(c).len() == s.len() + 1,
        distinct_ids(s.push(c)),
{
    assert forall|i: int, j: int| 0 <= i < j < s.push(c).len() implies s.push(c)[i].id != s.push(
        c,
    )[j].id by {
        if j < s.len() {
            assert(s[i].id != s[j].id);
        } else {
            assert(s.push(c)[j] == c);
            if s[i].id == c.id {
                assert(contains_id(s, c.id));
            }
        }
    }
}

/// No lost writes, for a whole run: any serialization of a sequence of
/// inserts, each appending one record under an id fresh at its turn, ends
/// with exactly the initial size plus the number of inserts, every id still
/// unique.
pub proof fn lemma_insert_sequence_no_lost_writes(s: Seq<CommentView>, cs: Seq<CommentView>)
    requires
        distinct_ids(s),
        forall|i: int|
            0 <= i < cs.len() ==> !contains_id(s + #[trigger] cs.subrange(0, i), cs[i].id),
    ensures
        (s + cs).len() == s.len() + cs.len(),
        distinct_ids(s + cs),
    decreases cs.len(),
{
    if cs.len() > 0 {
        let s1 = s.push(cs[0]);
        let cs1 = cs.subrange(1, cs.len() as int);
        assert(s + cs.subrange(0, 0) =~= s);
        lemma_insert_no_lost_writes(s, cs[0]);
        assert(s1 =~= s + cs.subrange(0, 1));
        assert forall|i: int|
            0 <= i < cs1.len() implies !contains_id(
            s1 + #[trigger] cs1.subrange(0, i),
            cs1[i].id,
        ) by {
            assert(s1 + cs1.subrange(0, i) =~= s + cs.subrange(0, i + 1));
            assert(!contains_id(s + cs.subrange(0, i + 1), cs[i + 1].id));
        }
        lemma_insert_sequence_no_lost_writes(s1, cs1);
        assert(s + cs =~= s1 + cs1);
    } else {
        assert(s + cs =~= s);
    }
}

/// A comment just inserted is found under the id the insert returned, with
/// identical field values.
pub proof fn lemma_get_after_insert(s: Seq<CommentView>, c: CommentView)
    requires
        distinct_ids(s),
        !contains_id(s, c.id),
    ensures
        spec_get(s.push(c), c.id) == Some(c),
{
    lemma_insert_no_lost_writes(s, c);
    lemma_spec_get_at(s.push(c), s.len() as int);
}

/// An id carried by no stored comment is not found: looking it up yields no
/// record, so `get` reports `NotFound`.
pub proof fn lemma_get_absent(s: Seq<CommentView>, id: u128)
    requires
        !contains_id(s, id),
    ensures
        spec_get(s, id) is None,
{
}

/// The in-memory comment store.
pub struct Store {
    comments: Vec<Comment>,
}

impl View for Store {
    type V = Seq<CommentView>;

    closed spec fn view(&self) -> Seq<CommentView> {
        self.comments@.map_values(|c: Comment| c@)
    }
}

impl Store {
    /// Well-formed: no two stored comments share an id.
    pub open spec fn wf(self) -> bool {
        distinct_ids(self@)
    }

    /// An empty store.
    pub fn new() -> (s: Store)
        ensures
            s@ =~= Seq::<CommentView>::empty(),
            s.wf(),
    {
        Store { comments: Vec::new() }
    }

    /// Number of stored comments.
    pub fn len(&self) -> (n: usize)
        ensures
            n == self@.len(),
    {
        self.comments.len()
    }

    /// Index of the entry carrying `id`, if any.
    fn find_index(&self, id: u128) -> (r: Option<usize>)
        ensures
            match r {
                Some(i) => i < self@.len() && self@[i as int].id == id,
                None => !contains_id(self@, id),
            },
    {
        let n = self.comments.len();
        let mut k: usize = 0;
        while k < n
            invariant
                n == self@.len(),
                k <= n,
                forall|j: int| 0 <= j < k ==> self@[j].id != id,
            decreases n - k,
        {
            if self.comments[k].id == id {
                return Some(k);
            }
            k = k + 1;
        }
        None
    }

    /// Look up a comment by id; a copy of the record, or `NotFound`.
    pub fn get(&self, id: u128) -> (r: Result<Comment, RequestError>)
        requires
            self.wf(),
        ensures
            match r {
                Ok(c) => spec_get(self@, id) == Some(c@),
                Err(e) => e == RequestError::NotFound && spec_get(self@, id) is None,
            },
    {
        match self.find_index(id) {
            Some(i) => {
                let c = self.comments[i].clone();
                proof {
                    lemma_spec_get_at(self@, i as int);
                }
                Ok(c)
            },
            None => Err(RequestError::NotFound),
        }
    }

    /// An id carried by no stored comment, found among `0 ..= len` by
    /// pigeonhole. A fallback for the unlikely case that a random candidate
    /// collides.
    fn fallback_id(&self) -> (id: u128)
        requires
            self.wf(),
            self@.len() < usize::MAX,
        ensures
            !contains_id(self@, id),
    {
        let n = self.comments.len();
        let mut k: usize = 0;
        while k <= n
            invariant
                self.wf(),
                n == self@.len(),
                n < usize::MAX,
                k <= n + 1,
                forall|j: int| 0 <= j < k ==> #[trigger] contains_id(self@, j as u128),
            decreases n + 1 - k,
        {
            match self.find_index(k as u128) {
                None => {
                    return k as u128;
                },
                Some(i) => {
                    proof {
                        assert(self@[i as int].id == k as u128);
                        assert(contains_id(self@, k as u128));
                    }
                },
            }
            k = k + 1;
        }
        proof {
            lemma_some_small_id_free(self@, n as int);
            let v = choose|v: int| 0 <= v <= n && !(#[trigger] contains_id(self@, v as u128));
            assert(contains_id(self@, v as u128));
            assert(false);
        }
        0
    }

    /// Store a new comment: a fresh id, never carried by any earlier record,
    /// is generated; the record is appended; a copy of it is returned.
    /// Always succeeds.
    pub fn insert(&mut self, name: String, text: String, created_at: i64) -> (c: Comment)
        requires
            old(self).wf(),
            old(self)@.len() < usize::MAX,
        ensures
            final(self)@ == old(self)@.push(c@),
            final(self).wf(),
            !contains_id(old(self)@, c.id),
            c@.name == name@,
            c@.text == text@,
            c@.created_at == created_at,
            spec_get(final(self)@, c.id) == Some(c@),
    {
        let candidate = fresh_candidate_id();
        let id = match self.find_index(candidate) {
            None => candidate,
            Some(_) => self.fallback_id(),
        };
        let c = Comment { id, name, text, created_at };
        let record = c.clone();
        self.comments.push(record);
        proof {
            let pre = old(self)@;
            assert(self@ =~= pre.push(c@));
            assert(distinct_ids(self@)) by {
                assert forall|i: int, j: int|
                    0 <= i < j < self@.len() implies self@[i].id != self@[j].id by {
                    if j < pre.len() {
                        assert(pre[i].id != pre[j].id);
                    } else {
                        assert(self@[j] == c@);
                        if self@[i].id == c.id {
                            assert(pre[i].id == c.id);
                            assert(contains_id(pre, c.id));
                        }
                    }
                }
            }
            lemma_spec_get_at(self@, pre.len() as int);
        }
        c
    }

    /// An independent copy of all current records, safe to read and sort
    /// without touching the store again.
    pub fn snapshot(&self) -> (v: Vec<Comment>)
        ensures
            views(v@) == self@,
    {
        let n = self.comments.len();
        let mut v: Vec<Comment> = Vec::new();
        let mut k: usize = 0;
        while k < n
            invariant
                n == self@.len(),
                k <= n,
                v@.len() == k,
                forall|j: int| 0 <= j < k ==> v@[j]@ == self@[j],
            decreases n - k,
        {
            v.push(self.comments[k].clone());
            k = k + 1;
        }
        proof {
            assert(views(v@) =~= self@);
        }
        v
    }
}

} // verus!
