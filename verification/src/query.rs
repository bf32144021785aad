//! The query engine: sorting a snapshot by recency and paging over it.
//!
//! Listings are ordered newest first: descending `created_at`, with ties
//! broken deterministically by ascending id.

use vstd::prelude::*;

use crate::comment::{views, Comment, CommentView};

verus! {

/// `a` comes no later than `b` in a listing: newer first; equal timestamps
/// are ordered by ascending id.
pub open spec fn precedes(a: CommentView, b: CommentView) -> bool {
    a.created_at > b.created_at || (a.created_at == b.created_at && a.id <= b.id)
}

/// Sorted for listing: every earlier entry precedes every later one.
pub open spec fn sorted_newest_first(s: Seq<CommentView>) -> bool {
    forall|i: int, j: int| 0 <= i < j < s.len() ==> precedes(s[i], s[j])
}

/// Exec comparison agreeing with `precedes`.
fn precedes_exec(a: &Comment, b: &Comment) -> (r: bool)
    ensures
        r == precedes(a@, b@),
{
    if a.created_at > b.created_at {
        true
    } else if a.created_at == b.created_at {
        a.id <= b.id
    } else {
        false
    }
}

/// Sort comments newest first. The result is a permutation of the input,
/// ordered by `precedes`.
pub fn sort_newest_first(v: Vec<Comment>) -> (r: Vec<Comment>)
    ensures
        sorted_newest_first(views(r@)),
        views(r@).to_multiset() == views(v@).to_multiset(),
{
    broadcast use vstd::seq_lib::group_to_multiset_ensures;
    broadcast use vstd::multiset::group_multiset_axioms;

    let mut src = v;
    let mut out: Vec<Comment> = Vec::new();
    while src.len() > 0
        invariant
            views(out@).to_multiset().add(views(src@).to_multiset()) == views(
                v@,
            ).to_multiset(),
            sorted_newest_first(views(out@)),
            forall|i: int, j: int|
                0 <= i < out@.len() && 0 <= j < src@.len() ==> precedes(out@[i]@, src@[j]@),
        decreases src.len(),
    {
        let mut m: usize = 0;
        let mut p: usize = 1;
        while p < src.len()
            invariant
                src@.len() > 0,
                m < p,
                p <= src@.len(),
                forall|q: int| 0 <= q < p ==> precedes(src@[m as int]@, src@[q]@),
            decreases src.len() - p,
        {
            if !precedes_exec(&src[m], &src[p]) {
                m = p;
            }
            p = p + 1;
        }
        let ghost pre_src = src@;
        let ghost pre_out = out@;
        let c = src.remove(m);
        out.push(c);
        proof {
            assert(views(src@) =~= views(pre_src).remove(m as int));
            assert(views(out@) =~= views(pre_out).push(c@));
            views(pre_src).remove_ensures(m as int);
            assert(views(pre_src)[m as int] == c@);
            assert(views(pre_src).contains(c@));
            vstd::seq_lib::to_multiset_contains(views(pre_src), c@);
            vstd::seq_lib::to_multiset_remove(views(pre_src), m as int);
            vstd::seq_lib::to_multiset_build(views(pre_out), c@);
            assert(views(pre_src).to_multiset().count(c@) >= 1);
            assert(views(out@).to_multiset().add(views(src@).to_multiset()) =~= views(
                pre_out,
            ).to_multiset().add(views(pre_src).to_multiset()));
            assert(sorted_newest_first(views(out@))) by {
                assert forall|i: int, j: int|
                    0 <= i < j < views(out@).len() implies precedes(
                    views(out@)[i],
                    views(out@)[j],
                ) by {
                    if j == views(out@).len() - 1 {
                        assert(views(out@)[j] == c@);
                        assert(precedes(pre_out[i]@, pre_src[m as int]@));
                    }
                }
            }
            assert forall|i: int, j: int|
                0 <= i < out@.len() && 0 <= j < src@.len() implies precedes(
                out@[i]@,
                src@[j]@,
            ) by {
                let jj: int = if j < m as int {
                    j
                } else {
                    j + 1
                };
                assert(src@[j]@ == pre_src[jj]@);
                if i < out@.len() - 1 {
                    assert(precedes(pre_out[i]@, pre_src[jj]@));
                } else {
                    assert(out@[i]@ == c@);
                    assert(precedes(pre_src[m as int]@, pre_src[jj]@));
                }
            }
        }
    }
    out
}

/// Start of the page window: `offset`, clamped to the collection size.
pub open spec fn page_start(len: int, offset: int) -> int {
    if offset < len {
        offset
    } else {
        len
    }
}

/// End of the page window: `offset + limit`, clamped to the collection size.
pub open spec fn page_end(len: int, offset: int, limit: int) -> int {
    if offset + limit < len {
        offset + limit
    } else {
        len
    }
}

/// `page` is what listing `all` with the given offset and limit may return:
/// the window of some newest-first ordering of `all`.
pub open spec fn is_page_of(
    all: Seq<CommentView>,
    offset: int,
    limit: int,
    page: Seq<CommentView>,
) -> bool {
    exists|s: Seq<CommentView>|
        {
            &&& #[trigger] s.to_multiset() == all.to_multiset()
            &&& sorted_newest_first(s)
            &&& page == s.subrange(page_start(s.len() as int, offset), page_end(s.len() as int, offset, limit))
        }
}

/// One page of a listing, together with the total number of comments in the
/// store at snapshot time.
pub struct Page {
    pub entries: Vec<Comment>,
    pub total: usize,
}

/// The window `offset ..` of at most `limit` entries of `v`.
fn paginate(v: Vec<Comment>, offset: usize, limit: usize) -> (r: Vec<Comment>)
    ensures
        views(r@) == views(v@).subrange(
            page_start(v@.len() as int, offset as int),
            page_end(v@.len() as int, offset as int, limit as int),
        ),
{
    let n = v.len();
    let start = if offset < n {
        offset
    } else {
        n
    };
    let remaining = n - start;
    let take = if limit < remaining {
        limit
    } else {
        remaining
    };
    let mut r: Vec<Comment> = Vec::new();
    let mut k: usize = 0;
    while k < take
        invariant
            start + take <= n,
            n == v@.len(),
            k <= take,
            r@.len() == k,
            forall|j: int| 0 <= j < k ==> r@[j]@ == v@[start + j]@,
        decreases take - k,
    {
        r.push(v[start + k].clone());
        k = k + 1;
    }
    proof {
        assert(start + take == page_end(v@.len() as int, offset as int, limit as int));
        assert(views(r@) =~= views(v@).subrange(
            page_start(v@.len() as int, offset as int),
            page_end(v@.len() as int, offset as int, limit as int),
        ));
    }
    r
}

/// List comments: sort an independent snapshot of the store newest first,
/// skip `offset` entries, return up to `limit` entries, together with the
/// total count at snapshot time.
///
/// An offset at or beyond the store size yields an empty page, never an
/// error.
pub fn list(store: &crate::store::Store, offset: usize, limit: usize) -> (page: Page)
    ensures
        page.total == store@.len(),
        is_page_of(store@, offset as int, limit as int, views(page.entries@)),
{
    let total = store.len();
    let snap = store.snapshot();
    let sorted = sort_newest_first(snap);
    let ghost witness = views(sorted@);
    let entries = paginate(sorted, offset, limit);
    proof {
        assert(witness.to_multiset() == store@.to_multiset());
        assert(is_page_of(store@, offset as int, limit as int, views(entries@)));
    }
    Page { entries, total }
}

/// Opens a page relation: the newest-first ordering of `all` that the page
/// was cut from.
pub proof fn lemma_page_witness(
    all: Seq<CommentView>,
    offset: int,
    limit: int,
    page: Seq<CommentView>,
) -> (s: Seq<CommentView>)
    requires
        is_page_of(all, offset, limit, page),
    ensures
        s.to_multiset() == all.to_multiset(),
        sorted_newest_first(s),
        s.len() == all.len(),
        page == s.subrange(
            page_start(s.len() as int, offset),
            page_end(s.len() as int, offset, limit),
        ),
{
    let s = choose|s: Seq<CommentView>|
        {
            &&& #[trigger] s.to_multiset() == all.to_multiset()
            &&& sorted_newest_first(s)
            &&& page == s.subrange(
                page_start(s.len() as int, offset),
                page_end(s.len() as int, offset, limit),
            )
        };
    vstd::seq_lib::to_multiset_len(s);
    vstd::seq_lib::to_multiset_len(all);
    s
}

/// Listing with an offset at or beyond the collection size yields an empty
/// page (the total count still reports the collection size; see `list`).
pub proof fn lemma_offset_beyond_size_empty(
    all: Seq<CommentView>,
    offset: int,
    limit: int,
    page: Seq<CommentView>,
)
    requires
        is_page_of(all, offset, limit, page),
        offset >= all.len(),
        limit >= 0,
    ensures
        page.len() == 0,
{
    let s = lemma_page_witness(all, offset, limit, page);
}

/// Listing the whole collection (offset zero, limit at least the size) when
/// all timestamps are distinct returns every comment exactly once, sorted
/// strictly descending by `created_at`.
pub proof fn lemma_full_listing_strictly_descending(
    all: Seq<CommentView>,
    limit: int,
    page: Seq<CommentView>,
)
    requires
        is_page_of(all, 0, limit, page),
        all.len() <= limit,
        forall|i: int, j: int| 0 <= i < j < all.len() ==> all[i].created_at != all[j].created_at,
    ensures
        page.to_multiset() == all.to_multiset(),
        page.len() == all.len(),
        forall|i: int, j: int| 0 <= i < j < page.len() ==> page[i].created_at > page[j].created_at,
{
    let s = lemma_page_witness(all, 0, limit, page);
    assert(page =~= s);
    assert(all.no_duplicates()) by {
        assert forall|i: int, j: int|
            0 <= i < all.len() && 0 <= j < all.len() && i != j implies all[i] != all[j] by {
            if i < j {
                assert(all[i].created_at != all[j].created_at);
            } else {
                assert(all[j].created_at != all[i].created_at);
            }
        }
    }
    all.lemma_multiset_has_no_duplicates();
    page.lemma_multiset_has_no_duplicates_conv();
    assert forall|i: int, j: int|
        0 <= i < j < page.len() implies page[i].created_at > page[j].created_at by {
        assert(precedes(page[i], page[j]));
        if page[i].created_at == page[j].created_at {
            assert(page[i] != page[j]);
            vstd::seq_lib::to_multiset_contains(page, page[i]);
            vstd::seq_lib::to_multiset_contains(page, page[j]);
            vstd::seq_lib::to_multiset_contains(all, page[i]);
            vstd::seq_lib::to_multiset_contains(all, page[j]);
            let k = choose|k: int| 0 <= k < all.len() && all[k] == page[i];
            let l = choose|l: int| 0 <= l < all.len() && all[l] == page[j];
            if k < l {
                assert(all[k].created_at != all[l].created_at);
            } else {
                assert(all[l].created_at != all[k].created_at);
            }
        }
    }
}

/// Listing with offset zero and a limit of `k` returns exactly `k` entries,
/// and they are the `k` most recent: every comment left out of the page is
/// preceded (newer first, ties by id) by every entry of the page.
pub proof fn lemma_limit_returns_most_recent(
    all: Seq<CommentView>,
    k: int,
    page: Seq<CommentView>,
)
    requires
        is_page_of(all, 0, k, page),
        0 <= k <= all.len(),
    ensures
        page.len() == k,
        sorted_newest_first(page),
        forall|x: CommentView, i: int|
            #![trigger page.to_multiset().count(x), page[i]]
            all.to_multiset().count(x) > page.to_multiset().count(x) && 0 <= i < page.len()
                ==> precedes(page[i], x),
{
    let s = lemma_page_witness(all, 0, k, page);
    let tail = s.subrange(k, s.len() as int);
    assert(s =~= page + tail);
    vstd::seq_lib::lemma_multiset_commutative(page, tail);
    assert forall|x: CommentView, i: int|
        #![trigger page.to_multiset().count(x), page[i]]
        all.to_multiset().count(x) > page.to_multiset().count(x) && 0 <= i < page.len()
            implies precedes(page[i], x) by {
        assert(tail.to_multiset().count(x) > 0);
        vstd::seq_lib::to_multiset_contains(tail, x);
        let j = choose|j: int| 0 <= j < tail.len() && tail[j] == x;
        assert(s[k + j] == x);
        assert(s[i] == page[i]);
        assert(precedes(s[i], s[k + j]));
    }
}

} // verus!
