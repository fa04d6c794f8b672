use vstd::prelude::*;

use crate::model::{
    copy_text, patched, patched_opt, CreateUser, NewPost, Post, PostChanges, UpdateUser, User,
};
use crate::status::PostStatus;

verus! {

/// The largest id that the `SERIAL` sequences hand out.
pub const MAX_ID: i64 = 2147483647;

/// A failure of the store. Every failure of a statement surfaces as one of
/// these, unchanged.
#[derive(Debug, Clone, Copy, PartialEq, Eq, Structural)]
pub enum StoreError {
    /// No row satisfies the statement's filter. A row that exists but
    /// belongs to another author, or is deleted, gives this too.
    NotFound,
    /// A post names an author that is not a user.
    ForeignKeyViolation,
    /// The table's id sequence has no id left.
    SequenceExhausted,
}

impl StoreError {
    /// The message carried up to the API caller.
    pub fn message(&self) -> (r: String)
        ensures
            r@ == self.text(),
    {
        proof {
            reveal_strlit("Record not found");
            reveal_strlit("insert or update on table \"posts\" violates foreign key constraint");
            reveal_strlit("nextval: reached maximum value of sequence");
        }
        match self {
            StoreError::NotFound => "Record not found".to_owned(),
            StoreError::ForeignKeyViolation => "insert or update on table \"posts\" violates foreign key constraint".to_owned(),
            StoreError::SequenceExhausted => "nextval: reached maximum value of sequence".to_owned(),
        }
    }

    pub open spec fn text(&self) -> Seq<char> {
        match self {
            StoreError::NotFound => "Record not found"@,
            StoreError::ForeignKeyViolation => "insert or update on table \"posts\" violates foreign key constraint"@,
            StoreError::SequenceExhausted => "nextval: reached maximum value of sequence"@,
        }
    }
}

/// The state of the two tables, with the next value of each id sequence.
pub struct Tables {
    pub users: Seq<User>,
    pub posts: Seq<Post>,
    pub next_user_id: int,
    pub next_post_id: int,
}

/// Whether a post is visible to reads: every status but `Deleted`.
pub open spec fn is_live(p: Post) -> bool {
    p.status != PostStatus::Deleted
}

/// Whether a post is the one that `(post_id, author)` addresses.
pub open spec fn addresses(p: Post, post_id: i32, author: i32) -> bool {
    p.id == post_id && p.author == author
}

/// The live posts of an author, in table order.
pub open spec fn live_posts_of(posts: Seq<Post>, author: i32) -> Seq<Post>
    decreases posts.len(),
{
    if posts.len() == 0 {
        Seq::empty()
    } else {
        let rest = live_posts_of(posts.drop_last(), author);
        let p = posts.last();
        if p.author == author && is_live(p) {
            rest.push(p)
        } else {
            rest
        }
    }
}

impl Tables {
    /// Ids come from the sequences, so they are positive, below the next
    /// value, and never repeated.
    pub open spec fn wf(&self) -> bool {
        &&& 1 <= self.next_user_id <= MAX_ID + 1
        &&& 1 <= self.next_post_id <= MAX_ID + 1
        &&& forall|i: int|
            0 <= i < self.users.len() ==> 1 <= #[trigger] self.users[i].id < self.next_user_id
        &&& forall|i: int, j: int|
            0 <= i < self.users.len() && 0 <= j < self.users.len() && #[trigger] self.users[i].id
                == #[trigger] self.users[j].id ==> i == j
        &&& forall|i: int|
            0 <= i < self.posts.len() ==> 1 <= #[trigger] self.posts[i].id < self.next_post_id
        &&& forall|i: int, j: int|
            0 <= i < self.posts.len() && 0 <= j < self.posts.len() && #[trigger] self.posts[i].id
                == #[trigger] self.posts[j].id ==> i == j
    }

    pub open spec fn has_user(&self, user_id: i32) -> bool {
        exists|i: int| 0 <= i < self.users.len() && #[trigger] self.users[i].id == user_id
    }

    /// The position of the user with the given id, where there is one.
    pub open spec fn user_pos(&self, user_id: i32) -> int {
        choose|i: int| 0 <= i < self.users.len() && #[trigger] self.users[i].id == user_id
    }

    pub open spec fn has_post(&self, post_id: i32, author: i32) -> bool {
        exists|i: int| 0 <= i < self.posts.len() && addresses(#[trigger] self.posts[i], post_id, author)
    }

    /// The position of the post that `(post_id, author)` addresses, where
    /// there is one.
    pub open spec fn post_pos(&self, post_id: i32, author: i32) -> int {
        choose|i: int| 0 <= i < self.posts.len() && addresses(#[trigger] self.posts[i], post_id, author)
    }

    /// `INSERT INTO users ... RETURNING *`.
    pub open spec fn create_user(self, input: CreateUser) -> (Tables, Result<User, StoreError>) {
        if self.next_user_id > MAX_ID {
            (self, Err(StoreError::SequenceExhausted))
        } else {
            let u = User {
                id: self.next_user_id as i32,
                username: input.username,
                display_name: input.display_name,
                about_me: input.about_me,
                description: input.description,
                avatar: input.avatar,
            };
            (Tables { users: self.users.push(u), next_user_id: self.next_user_id + 1, ..self }, Ok(u))
        }
    }

    /// `UPDATE users SET <supplied fields> WHERE id = $1 RETURNING *`.
    pub open spec fn update_user(self, user_id: i32, changes: UpdateUser) -> (Tables, Result<User, StoreError>) {
        if self.has_user(user_id) {
            let i = self.user_pos(user_id);
            let old = self.users[i];
            let u = User {
                id: old.id,
                username: patched(old.username, changes.username),
                display_name: patched_opt(old.display_name, changes.display_name),
                about_me: patched_opt(old.about_me, changes.about_me),
                description: patched_opt(old.description, changes.description),
                avatar: patched_opt(old.avatar, changes.avatar),
            };
            (Tables { users: self.users.update(i, u), ..self }, Ok(u))
        } else {
            (self, Err(StoreError::NotFound))
        }
    }
    /// `SELECT * FROM users WHERE id = $1 LIMIT 1`.
    pub open spec fn read_user(self, user_id: i32) -> Result<User, StoreError> {
        if self.has_user(user_id) {
            Ok(self.users[self.user_pos(user_id)])
        } else {
            Err(StoreError::NotFound)
        }
    }

    /// `INSERT INTO posts ... RETURNING *`, at time `now`, which both
    /// timestamps take. The author must be a user.
    pub open spec fn create_post(self, input: NewPost, now: i64) -> (Tables, Result<Post, StoreError>) {
        if !self.has_user(input.author) {
            (self, Err(StoreError::ForeignKeyViolation))
        } else if self.next_post_id > MAX_ID {
            (self, Err(StoreError::SequenceExhausted))
        } else {
            let p = Post {
                id: self.next_post_id as i32,
                author: input.author,
                blocks: input.blocks,
                created_at: Some(now),
                updated_at: Some(now),
                status: input.status,
            };
            (Tables { posts: self.posts.push(p), next_post_id: self.next_post_id + 1, ..self }, Ok(p))
        }
    }

    /// `UPDATE posts SET <changes> WHERE id = $1 AND author = $2 RETURNING *`.
    /// The status is not consulted: a deleted post can be written to.
    pub open spec fn update_post(self, post_id: i32, author: i32, changes: PostChanges) -> (Tables, Result<Post, StoreError>) {
        if self.has_post(post_id, author) {
            let i = self.post_pos(post_id, author);
            let old = self.posts[i];
            let p = Post {
                blocks: patched_opt(old.blocks, changes.blocks),
                status: changes.status,
                ..old
            };
            (Tables { posts: self.posts.update(i, p), ..self }, Ok(p))
        } else {
            (self, Err(StoreError::NotFound))
        }
    }

    /// `UPDATE posts SET status = 'DELETED' WHERE id = $1 AND author = $2
    /// RETURNING *`, whatever the status was.
    pub open spec fn delete_post(self, post_id: i32, author: i32) -> (Tables, Result<Post, StoreError>) {
        if self.has_post(post_id, author) {
            let i = self.post_pos(post_id, author);
            let p = Post { status: PostStatus::Deleted, ..self.posts[i] };
            (Tables { posts: self.posts.update(i, p), ..self }, Ok(p))
        } else {
            (self, Err(StoreError::NotFound))
        }
    }

    /// `SELECT * FROM posts WHERE id = $1 AND author = $2 AND NOT status =
    /// 'DELETED' LIMIT 1`.
    pub open spec fn read_post(self, post_id: i32, author: i32) -> Result<Post, StoreError> {
        if self.has_post(post_id, author) && is_live(self.posts[self.post_pos(post_id, author)]) {
            Ok(self.posts[self.post_pos(post_id, author)])
        } else {
            Err(StoreError::NotFound)
        }
    }

    /// `SELECT * FROM posts WHERE author = $1 AND NOT status = 'DELETED'`.
    pub open spec fn read_posts(self, author: i32) -> Seq<Post> {
        live_posts_of(self.posts, author)
    }
}

/// The persistence gateway: the one component that runs statements against
/// the `users` and `posts` tables. Each method is one statement, applied to
/// the tables as a whole or not at all.
pub struct DBPostgres {
    users: Vec<User>,
    posts: Vec<Post>,
    next_user_id: i64,
    next_post_id: i64,
}

impl View for DBPostgres {
    type V = Tables;

    closed spec fn view(&self) -> Tables {
        Tables {
            users: self.users@,
            posts: self.posts@,
            next_user_id: self.next_user_id as int,
            next_post_id: self.next_post_id as int,
        }
    }
}

impl DBPostgres {
    pub open spec fn wf(&self) -> bool {
        self@.wf()
    }

    /// Empty tables, with both sequences at their start.
    pub fn init() -> (r: DBPostgres)
        ensures
            r.wf(),
            r@.users.len() == 0,
            r@.posts.len() == 0,
            r@.next_user_id == 1,
            r@.next_post_id == 1,
    {
        DBPostgres { users: Vec::new(), posts: Vec::new(), next_user_id: 1, next_post_id: 1 }
    }

    fn user_index(&self, user_id: i32) -> (r: Option<usize>)
        requires
            self.wf(),
        ensures
            r is Some <==> self@.has_user(user_id),
            r is Some ==> r->Some_0 == self@.user_pos(user_id),
    {
        let mut i: usize = 0;
        while i < self.users.len()
            invariant
                self.wf(),
                i <= self.users@.len(),
                forall|k: int| 0 <= k < i ==> (#[trigger] self.users@[k]).id != user_id,
            decreases self.users@.len() - i,
        {
            if self.users[i].id == user_id {
                proof {
                    assert(self@.users[i as int].id == user_id);
                    let j = self@.user_pos(user_id);
                    assert(self@.users[j].id == self@.users[i as int].id);
                }
                return Some(i);
            }
            i = i + 1;
        }
        None
    }

    fn post_index(&self, post_id: i32, author: i32) -> (r: Option<usize>)
        requires
            self.wf(),
        ensures
            r is Some <==> self@.has_post(post_id, author),
            r is Some ==> r->Some_0 == self@.post_pos(post_id, author),
    {
        let mut i: usize = 0;
        while i < self.posts.len()
            invariant
                self.wf(),
                i <= self.posts@.len(),
                forall|k: int| 0 <= k < i ==> !addresses(#[trigger] self.posts@[k], post_id, author),
            decreases self.posts@.len() - i,
        {
            if self.posts[i].id == post_id && self.posts[i].author == author {
                proof {
                    assert(addresses(self@.posts[i as int], post_id, author));
                    let j = self@.post_pos(post_id, author);
                    assert(self@.posts[j].id == self@.posts[i as int].id);
                }
                return Some(i);
            }
            i = i + 1;
        }
        None
    }
    /// Inserts a user and returns the row as stored.
    pub fn create_user(&mut self, user: CreateUser) -> (r: Result<User, StoreError>)
        requires
            old(self).wf(),
        ensures
            final(self).wf(),
            (final(self)@, r) == old(self)@.create_user(user),
    {
        if self.next_user_id > MAX_ID {
            return Err(StoreError::SequenceExhausted);
        }
        let row = User {
            id: self.next_user_id as i32,
            username: user.username,
            display_name: user.display_name,
            about_me: user.about_me,
            description: user.description,
            avatar: user.avatar,
        };
        let returned = row.copy();
        self.users.push(row);
        self.next_user_id = self.next_user_id + 1;
        proof {
            let t = self@;
            assert forall|i: int, j: int|
                0 <= i < t.users.len() && 0 <= j < t.users.len() && #[trigger] t.users[i].id
                    == #[trigger] t.users[j].id implies i == j by {
                assert(old(self)@.wf());
                if i < t.users.len() - 1 {
                    assert(t.users[i] == old(self)@.users[i]);
                }
                if j < t.users.len() - 1 {
                    assert(t.users[j] == old(self)@.users[j]);
                }
            }
            assert(t.users =~= old(self)@.create_user(user).0.users);
        }
        Ok(returned)
    }

    /// Writes the supplied fields of the user with the given id.
    pub fn update_user(&mut self, user_id: i32, user: UpdateUser) -> (r: Result<User, StoreError>)
        requires
            old(self).wf(),
        ensures
            final(self).wf(),
            (final(self)@, r) == old(self)@.update_user(user_id, user),
    {
        match self.user_index(user_id) {
            None => Err(StoreError::NotFound),
            Some(i) => {
                let cur = self.users[i].copy();
                let row = User {
                    id: cur.id,
                    username: match user.username {
                        Some(v) => v,
                        None => cur.username,
                    },
                    display_name: match user.display_name {
                        Some(v) => Some(v),
                        None => cur.display_name,
                    },
                    about_me: match user.about_me {
                        Some(v) => Some(v),
                        None => cur.about_me,
                    },
                    description: match user.description {
                        Some(v) => Some(v),
                        None => cur.description,
                    },
                    avatar: match user.avatar {
                        Some(v) => Some(v),
                        None => cur.avatar,
                    },
                };
                let returned = row.copy();
                self.users.set(i, row);
                proof {
                    let t = self@;
                    assert forall|a: int, b: int|
                        0 <= a < t.users.len() && 0 <= b < t.users.len() && #[trigger] t.users[a].id
                            == #[trigger] t.users[b].id implies a == b by {
                        assert(old(self)@.wf());
                        assert(t.users[a].id == old(self)@.users[a].id);
                        assert(t.users[b].id == old(self)@.users[b].id);
                    }
                    assert forall|a: int| 0 <= a < t.users.len() implies 1 <= #[trigger] t.users[a].id < t.next_user_id by {
                        assert(t.users[a].id == old(self)@.users[a].id);
                    }
                    assert(t.users =~= old(self)@.update_user(user_id, user).0.users);
                }
                Ok(returned)
            },
        }
    }

    /// The user with the given id.
    pub fn get_user(&self, user_id: i32) -> (r: Result<User, StoreError>)
        requires
            self.wf(),
        ensures
            r == self@.read_user(user_id),
    {
        match self.user_index(user_id) {
            None => Err(StoreError::NotFound),
            Some(i) => Ok(self.users[i].copy()),
        }
    }
    /// Inserts a post at time `now` and returns the row as stored.
    pub fn create_post(&mut self, post: NewPost, now: i64) -> (r: Result<Post, StoreError>)
        requires
            old(self).wf(),
        ensures
            final(self).wf(),
            (final(self)@, r) == old(self)@.create_post(post, now),
    {
        if self.user_index(post.author).is_none() {
            return Err(StoreError::ForeignKeyViolation);
        }
        if self.next_post_id > MAX_ID {
            return Err(StoreError::SequenceExhausted);
        }
        let row = Post {
            id: self.next_post_id as i32,
            author: post.author,
            blocks: post.blocks,
            created_at: Some(now),
            updated_at: Some(now),
            status: post.status,
        };
        let returned = row.copy();
        self.posts.push(row);
        self.next_post_id = self.next_post_id + 1;
        proof {
            let t = self@;
            assert forall|i: int, j: int|
                0 <= i < t.posts.len() && 0 <= j < t.posts.len() && #[trigger] t.posts[i].id
                    == #[trigger] t.posts[j].id implies i == j by {
                assert(old(self)@.wf());
                if i < t.posts.len() - 1 {
                    assert(t.posts[i] == old(self)@.posts[i]);
                }
                if j < t.posts.len() - 1 {
                    assert(t.posts[j] == old(self)@.posts[j]);
                }
            }
            assert(t.posts =~= old(self)@.create_post(post, now).0.posts);
        }
        Ok(returned)
    }

    /// Replaces row `i` of `posts` by a row with the same id.
    fn replace_post(&mut self, i: usize, row: Post)
        requires
            old(self).wf(),
            i < old(self)@.posts.len(),
            row.id == old(self)@.posts[i as int].id,
        ensures
            final(self).wf(),
            final(self)@ == (Tables { posts: old(self)@.posts.update(i as int, row), ..old(self)@ }),
    {
        self.posts.set(i, row);
        proof {
            let t = self@;
            assert forall|a: int, b: int|
                0 <= a < t.posts.len() && 0 <= b < t.posts.len() && #[trigger] t.posts[a].id
                    == #[trigger] t.posts[b].id implies a == b by {
                assert(old(self)@.wf());
                assert(t.posts[a].id == old(self)@.posts[a].id);
                assert(t.posts[b].id == old(self)@.posts[b].id);
            }
            assert forall|a: int| 0 <= a < t.posts.len() implies 1 <= #[trigger] t.posts[a].id < t.next_post_id by {
                assert(t.posts[a].id == old(self)@.posts[a].id);
            }
            assert(t.posts =~= old(self)@.posts.update(i as int, row));
        }
    }

    /// Writes the changes to the post that `(post_id, author)` addresses.
    pub fn update_post(&mut self, post_id: i32, author: i32, post: PostChanges) -> (r: Result<Post, StoreError>)
        requires
            old(self).wf(),
        ensures
            final(self).wf(),
            (final(self)@, r) == old(self)@.update_post(post_id, author, post),
    {
        match self.post_index(post_id, author) {
            None => Err(StoreError::NotFound),
            Some(i) => {
                let cur = self.posts[i].copy();
                let row = Post {
                    id: cur.id,
                    author: cur.author,
                    blocks: match post.blocks {
                        Some(v) => Some(v),
                        None => cur.blocks,
                    },
                    created_at: cur.created_at,
                    updated_at: cur.updated_at,
                    status: post.status,
                };
                let returned = row.copy();
                self.replace_post(i, row);
                Ok(returned)
            },
        }
    }

    /// Marks the post that `(post_id, author)` addresses as deleted; the row
    /// stays in the table.
    pub fn delete_post(&mut self, post_id: i32, author: i32) -> (r: Result<Post, StoreError>)
        requires
            old(self).wf(),
        ensures
            final(self).wf(),
            (final(self)@, r) == old(self)@.delete_post(post_id, author),
    {
        match self.post_index(post_id, author) {
            None => Err(StoreError::NotFound),
            Some(i) => {
                let cur = self.posts[i].copy();
                let row = Post { status: PostStatus::Deleted, ..cur };
                let returned = row.copy();
                self.replace_post(i, row);
                Ok(returned)
            },
        }
    }

    /// The live post that `(post_id, author)` addresses.
    pub fn get_post(&self, post_id: i32, author: i32) -> (r: Result<Post, StoreError>)
        requires
            self.wf(),
        ensures
            r == self@.read_post(post_id, author),
    {
        match self.post_index(post_id, author) {
            Some(i) if self.posts[i].status != PostStatus::Deleted => Ok(self.posts[i].copy()),
            _ => Err(StoreError::NotFound),
        }
    }

    /// The live posts of an author, in table order.
    pub fn get_posts(&self, author: i32) -> (r: Result<Vec<Post>, StoreError>)
        requires
            self.wf(),
        ensures
            r is Ok,
            r->Ok_0@ == self@.read_posts(author),
    {
        let mut out: Vec<Post> = Vec::new();
        let mut i: usize = 0;
        while i < self.posts.len()
            invariant
                i <= self.posts@.len(),
                out@ == live_posts_of(self.posts@.subrange(0, i as int), author),
            decreases self.posts@.len() - i,
        {
            proof {
                assert(self.posts@.subrange(0, i + 1).drop_last() =~= self.posts@.subrange(0, i as int));
            }
            if self.posts[i].author == author && self.posts[i].status != PostStatus::Deleted {
                out.push(self.posts[i].copy());
            }
            i = i + 1;
        }
        proof {
            assert(self.posts@.subrange(0, i as int) =~= self.posts@);
        }
        Ok(out)
    }
}

} // verus!
