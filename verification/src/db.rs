//! Data access against the relational store, modeled as the sequence of rows
//! it holds: the two read queries the routes need, and the closed enum of
//! storage-layer failures they report.
//!
//! The connection pool in front of the store is modeled by a single flag on
//! the handle: whether an acquisition from the pool currently succeeds. Both
//! queries are read-only.

use vstd::prelude::*;

verus! {

broadcast use
    vstd::seq_lib::group_to_multiset_ensures,
    vstd::multiset::group_multiset_axioms,
;

/// A blog post row: a URL-safe unique slug, a title, a body (possibly
/// markup), and its publication time, where a larger value is more recent.
#[derive(Debug, PartialEq, Eq)]
pub struct Post {
    pub slug: String,
    pub title: String,
    pub body: String,
    pub published: u64,
}

impl Clone for Post {
    fn clone(&self) -> (r: Self)
        ensures
            r == *self,
    {
        Post {
            slug: self.slug.clone(),
            title: self.title.clone(),
            body: self.body.clone(),
            published: self.published,
        }
    }
}

/// A storage-layer failure, as the routes see it. Driver detail is logged at
/// the point of detection and carried no further.
#[derive(Clone, Copy, Debug, PartialEq, Eq, Structural)]
pub enum DatabaseError {
    /// No connection or session could be acquired from the pool: exhaustion
    /// or backend unavailability.
    ConnectionPoolError,
    /// The query executed but yielded no matching row; only meaningful for
    /// single-row lookups.
    NotFound,
    /// Any other execution failure: malformed query, constraint violation,
    /// backend error.
    QueryError,
}

/// The relational store's visible contents: the post rows, in no particular
/// order.
pub struct Store {
    pub posts: Vec<Post>,
}

impl Store {
    /// The store's invariant: slugs are unique. The rows are created by an
    /// out-of-scope authoring process and are read-only here.
    pub open spec fn wf(&self) -> bool {
        forall|i: int, j: int|
            0 <= i < j < self.posts@.len() ==> self.posts@[i].slug@ != self.posts@[j].slug@
    }
}

/// A handle to the store as seen through its connection pool: the stored
/// rows, and whether an acquisition from the pool currently succeeds.
pub struct StoreHandle {
    pub store: Store,
    pub pool_available: bool,
}

/// Whether some row of `posts` carries exactly this slug.
pub open spec fn has_slug(posts: Seq<Post>, slug: Seq<char>) -> bool {
    exists|i: int| 0 <= i < posts.len() && posts[i].slug@ == slug
}

/// Non-strictly decreasing publication times: most recent first.
pub open spec fn sorted_by_published_desc(s: Seq<Post>) -> bool {
    forall|i: int, j: int| 0 <= i <= j < s.len() ==> s[i].published >= s[j].published
}

/// Every row of `all` left out of `out` is no more recent than any row kept.
pub open spec fn picks_most_recent(all: Seq<Post>, out: Seq<Post>) -> bool {
    forall|p: Post, i: int|
        #![trigger all.to_multiset().sub(out.to_multiset()).count(p), out[i]]
        (all.to_multiset().sub(out.to_multiset()).count(p) > 0 && 0 <= i < out.len())
            ==> p.published <= out[i].published
}

/// Returns up to `n` posts ordered by publication time descending (most
/// recent first); an empty store yields an empty sequence, not an error.
/// Fails with `ConnectionPoolError` exactly when no connection can be
/// acquired.
pub fn select_last_n_posts(n: usize, handle: &StoreHandle) -> (r: Result<Vec<Post>, DatabaseError>)
    ensures
        !handle.pool_available ==> r == Err::<Vec<Post>, DatabaseError>(
            DatabaseError::ConnectionPoolError,
        ),
        handle.pool_available ==> (r matches Ok(out) && {
            &&& out@.len() == vstd::math::min(n as int, handle.store.posts@.len() as int)
            &&& sorted_by_published_desc(out@)
            &&& out@.to_multiset().subset_of(handle.store.posts@.to_multiset())
            &&& picks_most_recent(handle.store.posts@, out@)
        }),
{
    if !handle.pool_available {
        return Err(DatabaseError::ConnectionPoolError);
    }
    let ghost all: Seq<Post> = handle.store.posts@;

    let mut remaining: Vec<Post> = Vec::new();
    let mut i: usize = 0;
    while i < handle.store.posts.len()
        invariant
            handle.pool_available,
            i <= all.len(),
            all == handle.store.posts@,
            remaining@ == all.take(i as int),
        decreases all.len() - i,
    {
        remaining.push(handle.store.posts[i].clone());
        i = i + 1;
    }
    assert(remaining@ =~= all);

    let k: usize = if n <= remaining.len() {
        n
    } else {
        remaining.len()
    };
    let mut out: Vec<Post> = Vec::new();
    while out.len() < k
        invariant
            handle.pool_available,
            all == handle.store.posts@,
            k <= all.len(),
            out@.len() <= k,
            out@.len() + remaining@.len() == all.len(),
            out@.to_multiset().add(remaining@.to_multiset()) =~= all.to_multiset(),
            sorted_by_published_desc(out@),
            forall|a: int, b: int|
                0 <= a < out@.len() && 0 <= b < remaining@.len() ==> out@[a].published
                    >= remaining@[b].published,
        decreases k - out.len(),
    {
        let mut best: usize = 0;
        let mut j: usize = 1;
        while j < remaining.len()
            invariant
                0 < remaining@.len(),
                best < j,
                j <= remaining@.len(),
                forall|t: int|
                    0 <= t < j ==> remaining@[t].published <= remaining@[best as int].published,
            decreases remaining@.len() - j,
        {
            if remaining[j].published > remaining[best].published {
                best = j;
            }
            j = j + 1;
        }
        let ghost old_out = out@;
        let ghost old_rem = remaining@;
        let p = remaining.remove(best);
        out.push(p);
        proof {
            assert(old_rem[best as int] == p);
            assert(old_rem.contains(p));
            assert(old_rem.to_multiset().count(p) > 0);
            assert(out@.to_multiset().add(remaining@.to_multiset()) =~= all.to_multiset()) by {
                assert(out@.to_multiset() =~= old_out.to_multiset().insert(p));
                assert(remaining@.to_multiset() =~= old_rem.to_multiset().remove(p));
                assert forall|v: Post|
                    out@.to_multiset().add(remaining@.to_multiset()).count(v) == all.to_multiset().count(v) by {
                    assert(old_out.to_multiset().add(old_rem.to_multiset()).count(v) == all.to_multiset().count(v));
                }
            }
            assert(sorted_by_published_desc(out@)) by {
                assert forall|a: int, b: int| 0 <= a <= b < out@.len() implies out@[a].published
                    >= out@[b].published by {
                    if b < out@.len() - 1 {
                        assert(out@[a] == old_out[a] && out@[b] == old_out[b]);
                    } else if a < out@.len() - 1 {
                        assert(out@[a] == old_out[a] && out@[b] == p);
                        assert(old_out[a].published >= old_rem[best as int].published);
                    }
                }
            }
            assert forall|a: int, b: int|
                0 <= a < out@.len() && 0 <= b < remaining@.len() implies out@[a].published
                >= remaining@[b].published by {
                let b_old: int = if b < best { b } else { b + 1 };
                assert(remaining@[b] == old_rem[b_old]);
                assert(old_rem[b_old].published <= old_rem[best as int].published);
                if a < out@.len() - 1 {
                    assert(out@[a] == old_out[a]);
                } else {
                    assert(out@[a] == p);
                }
            }
        }
    }
    proof {
        assert(out@.to_multiset().subset_of(all.to_multiset())) by {
            assert forall|v: Post| out@.to_multiset().count(v) <= all.to_multiset().count(v) by {
                assert(out@.to_multiset().add(remaining@.to_multiset()).count(v) == all.to_multiset().count(v));
            }
        }
        assert(picks_most_recent(all, out@)) by {
            assert forall|p: Post, i: int|
                (all.to_multiset().sub(out@.to_multiset()).count(p) > 0 && 0 <= i < out@.len())
                implies p.published <= out@[i].published by {
                assert(out@.to_multiset().add(remaining@.to_multiset()).count(p) == all.to_multiset().count(p));
                assert(remaining@.to_multiset().count(p) > 0);
                assert(remaining@.contains(p));
                let b: int = choose|b: int| 0 <= b < remaining@.len() && remaining@[b] == p;
                assert(out@[i].published >= remaining@[b].published);
            }
        }
    }
    Ok(out)
}

/// Returns the single post whose slug matches exactly; fails with `NotFound`
/// exactly when the query ran and no row matched, and with
/// `ConnectionPoolError` exactly when no connection could be acquired.
pub fn select_post_with_slug(slug: &str, handle: &StoreHandle) -> (r: Result<Post, DatabaseError>)
    ensures
        !handle.pool_available ==> r == Err::<Post, DatabaseError>(
            DatabaseError::ConnectionPoolError,
        ),
        handle.pool_available && has_slug(handle.store.posts@, slug@) ==> (r matches Ok(p)
            && handle.store.posts@.contains(p) && p.slug@ == slug@),
        handle.pool_available && !has_slug(handle.store.posts@, slug@) ==> r == Err::<
            Post,
            DatabaseError,
        >(DatabaseError::NotFound),
        handle.store.wf() ==> (r matches Ok(p) ==> forall|i: int|
            0 <= i < handle.store.posts@.len() && handle.store.posts@[i].slug@ == slug@
                ==> handle.store.posts@[i] == p),
{
    if !handle.pool_available {
        return Err(DatabaseError::ConnectionPoolError);
    }
    let target: String = slug.to_owned();
    let posts = &handle.store.posts;
    let mut i: usize = 0;
    while i < posts.len()
        invariant
            handle.pool_available,
            i <= posts@.len(),
            posts == &handle.store.posts,
            target@ == slug@,
            forall|t: int| 0 <= t < i ==> posts@[t].slug@ != slug@,
        decreases posts@.len() - i,
    {
        if posts[i].slug == target {
            let found = posts[i].clone();
            assert(posts@[i as int] == found);
            assert(posts@.contains(found));
            return Ok(found);
        }
        i = i + 1;
    }
    assert(!has_slug(handle.store.posts@, slug@));
    Err(DatabaseError::NotFound)
}

} // verus!
