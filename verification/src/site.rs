use vstd::prelude::*;

use crate::post::{url_path_of, Post};
use crate::time::ts_le;

verus! {

/// The site's collection order: ascending by creation timestamp.
pub open spec fn sorted_by_created(s: Seq<Post>) -> bool {
    forall|i: int, j: int| 0 <= i < j < s.len() ==> ts_le(s[i].created, s[j].created)
}

proof fn lemma_insert_sorted(s: Seq<Post>, t: Seq<Post>, n: int, pos: int, x: Post)
    requires
        0 <= pos <= n <= s.len(),
        t == s.insert(pos, x),
        forall|a: int, b: int|
            0 <= a < b < n ==> ts_le(#[trigger] s[a].created, #[trigger] s[b].created),
        forall|k: int| 0 <= k < pos ==> ts_le(#[trigger] s[k].created, x.created),
        pos < n ==> ts_le(x.created, s[pos].created),
    ensures
        forall|i: int, j: int|
            0 <= i < j < n + 1 ==> ts_le(#[trigger] t[i].created, #[trigger] t[j].created),
{
    s.insert_ensures(pos, x);
    assert forall|i: int, j: int|
        0 <= i < j < n + 1 implies ts_le(t[i].created, t[j].created) by {
        if j < pos {
            assert(t[i] == s[i] && t[j] == s[j]);
            assert(ts_le(s[i].created, s[j].created));
        } else if j == pos {
            assert(t[i] == s[i] && t[j] == x);
            assert(ts_le(s[i].created, x.created));
        } else {
            assert(t[j] == s[j - 1]);
            if i < pos {
                assert(t[i] == s[i]);
                assert(ts_le(s[i].created, x.created));
                if i < j - 1 {
                    assert(ts_le(s[i].created, s[j - 1].created));
                }
            } else if i == pos {
                assert(t[i] == x);
                assert(ts_le(x.created, s[pos as int].created));
                if pos < j - 1 {
                    assert(ts_le(s[pos as int].created, s[j - 1].created));
                }
            } else {
                assert(t[i] == s[i - 1]);
                assert(ts_le(s[i - 1].created, s[j - 1].created));
            }
        }
    }
}

proof fn lemma_insert_to_multiset(s: Seq<Post>, pos: int, x: Post)
    requires
        0 <= pos <= s.len(),
    ensures
        s.insert(pos, x).to_multiset() == s.to_multiset().insert(x),
{
    broadcast use vstd::seq_lib::group_to_multiset_ensures;
    broadcast use vstd::multiset::group_multiset_axioms;

    let p = s.subrange(0, pos);
    let q = s.subrange(pos, s.len() as int);
    vstd::seq_lib::lemma_multiset_commutative(p.push(x), q);
    vstd::seq_lib::lemma_multiset_commutative(p, q);
    assert(s == p + q) by {
        assert(s =~= p + q);
    }
    assert(p.push(x).to_multiset() =~= p.to_multiset().insert(x));
    assert(s.insert(pos, x).to_multiset() =~= s.to_multiset().insert(x));
}

/// Sorts the collection ascending by creation timestamp, keeping exactly the
/// same documents.
pub fn sort_posts(posts: &mut Vec<Post>)
    ensures
        sorted_by_created(final(posts)@),
        final(posts)@.to_multiset() == old(posts)@.to_multiset(),
        final(posts)@.len() == old(posts)@.len(),
{
    broadcast use vstd::seq_lib::group_to_multiset_ensures;
    broadcast use vstd::multiset::group_multiset_axioms;

    if posts.len() < 2 {
        return ;
    }
    let mut n: usize = 1;
    proof {
        assert(sorted_by_created(posts@.take(1)));
    }
    while n < posts.len()
        invariant
            1 <= n <= posts@.len(),
            2 <= posts@.len(),
            sorted_by_created(posts@.take(n as int)),
            posts@.to_multiset() == old(posts)@.to_multiset(),
            posts@.len() == old(posts)@.len(),
        decreases posts@.len() - n,
    {
        let ghost before = posts@;
        let x = posts.remove(n);
        let ghost s0 = posts@;
        proof {
            before.to_multiset_ensures();
            assert(forall|k: int| 0 <= k < n ==> s0[k] == before[k]);
            assert(s0.to_multiset() =~= before.to_multiset().remove(x));
        }
        let mut pos: usize = 0;
        while pos < n && posts[pos].created.le(&x.created)
            invariant
                pos <= n,
                n < s0.len() + 1,
                s0.len() + 1 == old(posts)@.len(),
                posts@ == s0,
                forall|k: int| 0 <= k < pos ==> ts_le(s0[k].created, x.created),
            decreases n - pos,
        {
            pos = pos + 1;
        }
        posts.insert(pos, x);
        proof {
            lemma_insert_to_multiset(s0, pos as int, x);
            before.to_multiset_ensures();
            assert(before.to_multiset().contains(x)) by {
                assert(before[n as int] == x);
                assert(before.contains(x));
                assert(before.to_multiset().count(x) > 0);
            }
            assert(posts@.to_multiset() =~= before.to_multiset());
            assert forall|a: int, b: int|
                0 <= a < b < n implies ts_le(s0[a].created, s0[b].created) by {
                assert(before.take(n as int)[a] == before[a]);
                assert(before.take(n as int)[b] == before[b]);
                assert(ts_le(before.take(n as int)[a].created, before.take(n as int)[b].created));
            }
            if pos < n {
                assert(!ts_le(s0[pos as int].created, x.created));
                assert(ts_le(x.created, s0[pos as int].created));
            }
            lemma_insert_sorted(s0, posts@, n as int, pos as int, x);
            assert forall|i: int, j: int|
                #![trigger posts@.take(n as int + 1)[i], posts@.take(n as int + 1)[j]]
                0 <= i < j < n + 1 implies ts_le(
                posts@.take(n as int + 1)[i].created,
                posts@.take(n as int + 1)[j].created,
            ) by {
                assert(posts@.take(n as int + 1)[i] == posts@[i]);
                assert(posts@.take(n as int + 1)[j] == posts@[j]);
                assert(ts_le(posts@[i].created, posts@[j].created));
            }
            assert(sorted_by_created(posts@.take(n as int + 1)));
        }
        n = n + 1;
    }
    proof {
        if posts@.len() >= 1 {
            assert(posts@.take(posts@.len() as int) =~= posts@);
        }
    }
}

/// One landing-page entry: the document's link, title and keywords.
pub struct Preview {
    pub link: String,
    pub title: String,
    pub keywords: Vec<String>,
}

/// Whether a preview entry presents a given document.
pub open spec fn preview_matches(p: Preview, post: Post) -> bool {
    p.link@ == url_path_of(post.title@) && p.title@ == post.title@ && p.keywords.deep_view()
        == post.keywords.deep_view()
}

fn clone_strings(v: &Vec<String>) -> (r: Vec<String>)
    ensures
        r.deep_view() == v.deep_view(),
{
    let mut out: Vec<String> = Vec::new();
    let mut i: usize = 0;
    while i < v.len()
        invariant
            i <= v@.len(),
            out.deep_view() == v.deep_view().take(i as int),
        decreases v@.len() - i,
    {
        let c = v[i].clone();
        let ghost pre = out@;
        let ghost pre_dv = out.deep_view();
        out.push(c);
        proof {
            assert(c == v@[i as int]);
            assert(pre_dv.len() == pre.len());
            assert(pre.len() == i as int);
            assert(out@ == pre.push(c));
            assert forall|k: int| 0 <= k < out@.len() implies out.deep_view()[k] == v.deep_view().take(
                i as int + 1,
            )[k] by {
                if k < i as int {
                    assert(out@[k] == pre[k]);
                    assert(pre_dv[k] == pre[k].deep_view());
                    assert(pre_dv[k] == v.deep_view().take(i as int)[k]);
                } else {
                    assert(out@[k] == c);
                }
            }
            assert(out.deep_view() =~= v.deep_view().take(i as int + 1));
        }
        i = i + 1;
    }
    proof {
        assert(v.deep_view().take(v@.len() as int) =~= v.deep_view());
    }
    out
}

/// The landing-page preview list: the first ten entries of the collection in
/// the order handed in. On the sorted collection this is the ten documents
/// with the oldest creation timestamps, oldest first — the literal published
/// behaviour, not "most recent first".
pub fn recent_previews(posts: &Vec<Post>) -> (r: Vec<Preview>)
    ensures
        r@.len() == (if posts@.len() < 10 { posts@.len() as int } else { 10 }),
        forall|i: int| 0 <= i < r@.len() ==> preview_matches(#[trigger] r@[i], posts@[i]),
{
    let mut out: Vec<Preview> = Vec::new();
    let mut i: usize = 0;
    let limit: usize = if posts.len() < 10 {
        posts.len()
    } else {
        10
    };
    while i < limit
        invariant
            i <= limit,
            limit == (if posts@.len() < 10 { posts@.len() as int } else { 10 }),
            out@.len() == i,
            forall|k: int| 0 <= k < i ==> preview_matches(#[trigger] out@[k], posts@[k]),
        decreases limit - i,
    {
        let p = &posts[i];
        let entry = Preview {
            link: p.url_path(),
            title: p.title.clone(),
            keywords: clone_strings(&p.keywords),
        };
        out.push(entry);
        i = i + 1;
    }
    out
}

/// The preview order follows the collection order: on a sorted collection,
/// an earlier preview entry always presents a document created no later than
/// a later entry's — the landing page shows the oldest documents first.
pub proof fn lemma_preview_order(posts: Seq<Post>, previews: Seq<Preview>, i: int, j: int)
    requires
        sorted_by_created(posts),
        previews.len() <= posts.len(),
        forall|k: int| 0 <= k < previews.len() ==> preview_matches(#[trigger] previews[k], posts[k]),
        0 <= i <= j < previews.len(),
    ensures
        ts_le(posts[i].created, posts[j].created),
        previews[i].link@ == url_path_of(posts[i].title@),
{
}

} // verus!
