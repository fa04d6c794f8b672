use vstd::prelude::*;

use crate::model::{CreatePost, CreateUser, NewPost, Post, PostChanges, UpdatePost, UpdateUser, User};
use crate::persistence::{DBPostgres, StoreError};
use crate::status::{normalized, requested_status, PostStatus};

verus! {

/// An error as the API reports it on a field.
#[derive(Debug, Clone, Copy, PartialEq, Eq, Structural)]
pub enum ApiError {
    /// The requested post status is not `PUBLISHED` or `DRAFT`; the store
    /// was not touched.
    Validation,
    /// The store failed; its error is passed on unchanged.
    Persistence(StoreError),
}

impl ApiError {
    /// The message of the field error.
    pub fn message(&self) -> (r: String)
        ensures
            r@ == self.text(),
    {
        proof {
            reveal_strlit("Wrong status format");
        }
        match self {
            ApiError::Validation => "Wrong status format".to_owned(),
            ApiError::Persistence(e) => e.message(),
        }
    }

    pub open spec fn text(&self) -> Seq<char> {
        match self {
            ApiError::Validation => "Wrong status format"@,
            ApiError::Persistence(e) => e.text(),
        }
    }
}

/// A store result as the API reports it.
pub open spec fn reported<T>(r: Result<T, StoreError>) -> Result<T, ApiError> {
    match r {
        Ok(v) => Ok(v),
        Err(e) => Err(ApiError::Persistence(e)),
    }
}

fn report<T>(r: Result<T, StoreError>) -> (out: Result<T, ApiError>)
    ensures
        out == reported(r),
{
    match r {
        Ok(v) => Ok(v),
        Err(e) => Err(ApiError::Persistence(e)),
    }
}

/// The insert that a validated create request asks for.
pub open spec fn insert_for(input: CreatePost, status: PostStatus) -> NewPost {
    NewPost { author: input.author, blocks: input.blocks, status }
}

/// The changeset that a validated update request asks for.
pub open spec fn changes_for(input: UpdatePost, status: PostStatus) -> PostChanges {
    PostChanges { blocks: input.blocks, status }
}

/// The read operations.
pub struct Query;

impl Query {
    /// The user with the given id.
    pub fn get_user(&self, db: &DBPostgres, user_id: i32) -> (r: Result<User, ApiError>)
        requires
            db.wf(),
        ensures
            r == reported(db@.read_user(user_id)),
    {
        report(db.get_user(user_id))
    }

    /// The live post that `(post_id, author)` addresses.
    pub fn get_post(&self, db: &DBPostgres, post_id: i32, author: i32) -> (r: Result<Post, ApiError>)
        requires
            db.wf(),
        ensures
            r == reported(db@.read_post(post_id, author)),
    {
        report(db.get_post(post_id, author))
    }

    /// The live posts of an author.
    pub fn get_posts(&self, db: &DBPostgres, author: i32) -> (r: Result<Vec<Post>, ApiError>)
        requires
            db.wf(),
        ensures
            r is Ok,
            r->Ok_0@ == db@.read_posts(author),
    {
        report(db.get_posts(author))
    }
}

/// The write operations.
pub struct Mutation;

impl Mutation {
    /// Creates a user.
    pub fn create_user(&self, db: &mut DBPostgres, input: CreateUser) -> (r: Result<User, ApiError>)
        requires
            old(db).wf(),
        ensures
            final(db).wf(),
            final(db)@ == old(db)@.create_user(input).0,
            r == reported(old(db)@.create_user(input).1),
    {
        report(db.create_user(input))
    }

    /// Writes the supplied fields of a user.
    pub fn update_user(&self, db: &mut DBPostgres, user_id: i32, input: UpdateUser) -> (r: Result<User, ApiError>)
        requires
            old(db).wf(),
        ensures
            final(db).wf(),
            final(db)@ == old(db)@.update_user(user_id, input).0,
            r == reported(old(db)@.update_user(user_id, input).1),
    {
        report(db.update_user(user_id, input))
    }

    /// Creates a post at time `now`, once its status has been validated. The
    /// status is stored in its normal form: `published ` is stored as
    /// `PUBLISHED`.
    pub fn create_post(&self, db: &mut DBPostgres, input: CreatePost, now: i64) -> (r: Result<Post, ApiError>)
        requires
            old(db).wf(),
        ensures
            final(db).wf(),
            match requested_status(normalized(input.status@)) {
                None => final(db)@ == old(db)@ && r == Err::<Post, ApiError>(ApiError::Validation),
                Some(s) => final(db)@ == old(db)@.create_post(insert_for(input, s), now).0
                    && r == reported(old(db)@.create_post(insert_for(input, s), now).1),
            },
    {
        match PostStatus::parse(input.status.as_str()) {
            None => Err(ApiError::Validation),
            Some(status) => {
                let post = NewPost { author: input.author, blocks: input.blocks, status };
                report(db.create_post(post, now))
            },
        }
    }

    /// Updates the post that `(post_id, author)` addresses, once the
    /// requested status has been validated.
    pub fn update_post(&self, db: &mut DBPostgres, post_id: i32, author: i32, input: UpdatePost) -> (r: Result<Post, ApiError>)
        requires
            old(db).wf(),
        ensures
            final(db).wf(),
            match requested_status(normalized(input.status@)) {
                None => final(db)@ == old(db)@ && r == Err::<Post, ApiError>(ApiError::Validation),
                Some(s) => final(db)@ == old(db)@.update_post(post_id, author, changes_for(input, s)).0
                    && r == reported(old(db)@.update_post(post_id, author, changes_for(input, s)).1),
            },
    {
        match PostStatus::parse(input.status.as_str()) {
            None => Err(ApiError::Validation),
            Some(status) => {
                let changes = PostChanges { blocks: input.blocks, status };
                report(db.update_post(post_id, author, changes))
            },
        }
    }

    /// Soft-deletes the post that `(post_id, author)` addresses.
    pub fn delete_post(&self, db: &mut DBPostgres, post_id: i32, author: i32) -> (r: Result<Post, ApiError>)
        requires
            old(db).wf(),
        ensures
            final(db).wf(),
            final(db)@ == old(db)@.delete_post(post_id, author).0,
            r == reported(old(db)@.delete_post(post_id, author).1),
    {
        report(db.delete_post(post_id, author))
    }
}

} // verus!
