use vstd::prelude::*;

use crate::model::{CreateUser, Post};
use crate::persistence::{addresses, is_live, live_posts_of, Tables, MAX_ID, StoreError};
use crate::status::PostStatus;

verus! {

/// The listing of an author's posts holds exactly the live posts of that
/// author that the table holds.
pub proof fn lemma_listing_is_live_posts_of_author(posts: Seq<Post>, author: i32, p: Post)
    ensures
        live_posts_of(posts, author).contains(p) <==> (posts.contains(p) && p.author == author
            && is_live(p)),
    decreases posts.len(),
{
    if posts.len() > 0 {
        let rest = posts.drop_last();
        let x = posts.last();
        let listed = live_posts_of(rest, author);
        lemma_listing_is_live_posts_of_author(rest, author, p);
        lemma_push_contains(rest, x, p);
        assert(posts =~= rest.push(x));
        if x.author == author && is_live(x) {
            lemma_push_contains(listed, x, p);
        }
    }
}

proof fn lemma_push_contains<A>(s: Seq<A>, x: A, p: A)
    ensures
        s.push(x).contains(p) <==> (s.contains(p) || x == p),
{
    if s.contains(p) {
        let k = choose|k: int| 0 <= k < s.len() && s[k] == p;
        assert(s.push(x)[k] == p);
    }
    if x == p {
        assert(s.push(x)[s.len() as int] == p);
    }
    if s.push(x).contains(p) {
        let k = choose|k: int| 0 <= k < s.push(x).len() && s.push(x)[k] == p;
        if k < s.len() {
            assert(s[k] == p);
        }
    }
}

/// A post whose status is `Deleted` is returned by no read, whichever
/// author asks for it.
pub proof fn lemma_deleted_posts_are_hidden(t: Tables, i: int, author: i32)
    requires
        t.wf(),
        0 <= i < t.posts.len(),
        t.posts[i].status == PostStatus::Deleted,
    ensures
        t.read_post(t.posts[i].id, author) == Err::<Post, StoreError>(StoreError::NotFound),
        !t.read_posts(author).contains(t.posts[i]),
{
    lemma_listing_is_live_posts_of_author(t.posts, author, t.posts[i]);
    if t.has_post(t.posts[i].id, author) {
        let j = t.post_pos(t.posts[i].id, author);
        assert(t.posts[j].id == t.posts[i].id);
    }
}

/// A post is read by `(post_id, author)` exactly when a live row has both
/// that id and that author; every other request fails as not found.
pub proof fn lemma_read_post_needs_id_and_author(t: Tables, post_id: i32, author: i32)
    requires
        t.wf(),
    ensures
        t.read_post(post_id, author) is Ok <==> exists|i: int|
            0 <= i < t.posts.len() && addresses(#[trigger] t.posts[i], post_id, author) && is_live(
                t.posts[i],
            ),
        t.read_post(post_id, author) is Ok ==> ({
            let p = t.read_post(post_id, author)->Ok_0;
            &&& p.id == post_id
            &&& p.author == author
            &&& is_live(p)
            &&& t.posts.contains(p)
        }),
        t.read_post(post_id, author) is Err ==> t.read_post(post_id, author) == Err::<
            Post,
            StoreError,
        >(StoreError::NotFound),
{
    if exists|i: int|
        0 <= i < t.posts.len() && addresses(#[trigger] t.posts[i], post_id, author) && is_live(
            t.posts[i],
        ) {
        let i = choose|i: int|
            0 <= i < t.posts.len() && addresses(#[trigger] t.posts[i], post_id, author) && is_live(
                t.posts[i],
            );
        let j = t.post_pos(post_id, author);
        assert(t.posts[j].id == t.posts[i].id);
    }
    if t.read_post(post_id, author) is Ok {
        let j = t.post_pos(post_id, author);
        assert(t.posts[j] == t.read_post(post_id, author)->Ok_0);
    }
}

/// Deleting a post twice leaves the tables as the first deletion did and
/// returns the same result both times: the deleted row where
/// `(post_id, author)` addresses one, not found otherwise.
pub proof fn lemma_delete_is_idempotent(t: Tables, post_id: i32, author: i32)
    requires
        t.wf(),
    ensures
        ({
            let (t1, r1) = t.delete_post(post_id, author);
            let (t2, r2) = t1.delete_post(post_id, author);
            &&& r1 is Ok <==> t.has_post(post_id, author)
            &&& r1 is Ok ==> r1->Ok_0.status == PostStatus::Deleted
            &&& r2 == r1
            &&& t2 == t1
        }),
{
    let (t1, r1) = t.delete_post(post_id, author);
    if t.has_post(post_id, author) {
        let i = t.post_pos(post_id, author);
        assert(addresses(t1.posts[i], post_id, author));
        assert(t1.has_post(post_id, author));
        let j = t1.post_pos(post_id, author);
        assert(t.posts[j].id == t1.posts[j].id);
        assert(t.posts[j].id == t.posts[i].id);
        let (t2, r2) = t1.delete_post(post_id, author);
        assert(t2.posts =~= t1.posts);
    }
}

/// A user read back by the id that its creation returned has the fields
/// that the creation supplied. Creation succeeds while the id sequence
/// has ids left.
pub proof fn lemma_created_user_reads_back(t: Tables, input: CreateUser)
    requires
        t.wf(),
    ensures
        ({
            let (t1, r) = t.create_user(input);
            &&& r is Ok <==> t.next_user_id <= MAX_ID
            &&& r is Ok ==> t1.read_user(r->Ok_0.id) == r
            &&& r is Ok ==> {
                let u = r->Ok_0;
                &&& u.username == input.username
                &&& u.display_name == input.display_name
                &&& u.about_me == input.about_me
                &&& u.description == input.description
                &&& u.avatar == input.avatar
            }
        }),
{
    let (t1, r) = t.create_user(input);
    if r is Ok {
        let last = t1.users.len() - 1;
        assert(t1.users[last].id == r->Ok_0.id);
        assert(t1.has_user(r->Ok_0.id));
        let j = t1.user_pos(r->Ok_0.id);
        if j < last {
            assert(t1.users[j] == t.users[j]);
        }
    }
}

} // verus!
