use vstd::prelude::*;

use crate::status::PostStatus;

verus! {

/// A row of the `users` table.
#[derive(Debug, PartialEq, Eq)]
pub struct User {
    pub id: i32,
    pub username: String,
    pub display_name: Option<String>,
    pub about_me: Option<String>,
    pub description: Option<String>,
    pub avatar: Option<String>,
}

/// A row of the `posts` table. `blocks` holds the structured content as
/// JSON text; the timestamps are seconds since the Unix epoch.
#[derive(Debug, PartialEq, Eq)]
pub struct Post {
    pub id: i32,
    pub author: i32,
    pub blocks: Option<String>,
    pub created_at: Option<i64>,
    pub updated_at: Option<i64>,
    pub status: PostStatus,
}

/// The fields supplied when a user is created.
#[derive(Debug)]
pub struct CreateUser {
    pub username: String,
    pub display_name: Option<String>,
    pub about_me: Option<String>,
    pub description: Option<String>,
    pub avatar: Option<String>,
}

/// A partial update of a user: only the fields that are `Some` are written.
#[derive(Debug)]
pub struct UpdateUser {
    pub username: Option<String>,
    pub display_name: Option<String>,
    pub about_me: Option<String>,
    pub description: Option<String>,
    pub avatar: Option<String>,
}

/// The post a client asks to create; `status` is free text until validated.
#[derive(Debug)]
pub struct CreatePost {
    pub author: i32,
    pub blocks: Option<String>,
    pub status: String,
}

/// The changes a client asks for on a post; `status` is free text until
/// validated, `blocks` is written only when it is `Some`.
#[derive(Debug)]
pub struct UpdatePost {
    pub blocks: Option<String>,
    pub status: String,
}

/// A validated post insert, as the gateway receives it.
#[derive(Debug)]
pub struct NewPost {
    pub author: i32,
    pub blocks: Option<String>,
    pub status: PostStatus,
}

/// A validated post changeset, as the gateway receives it.
#[derive(Debug)]
pub struct PostChanges {
    pub blocks: Option<String>,
    pub status: PostStatus,
}

/// The value a required column takes under a partial update.
pub open spec fn patched<T>(current: T, supplied: Option<T>) -> T {
    match supplied {
        Some(v) => v,
        None => current,
    }
}

/// The value a nullable column takes under a partial update: a field that is
/// not supplied keeps its value, so a partial update never writes `NULL`.
pub open spec fn patched_opt<T>(current: Option<T>, supplied: Option<T>) -> Option<T> {
    match supplied {
        Some(v) => Some(v),
        None => current,
    }
}

/// A copy of a nullable text value.
pub fn copy_text(s: &Option<String>) -> (r: Option<String>)
    ensures
        r == *s,
{
    match s {
        Some(t) => Some(t.clone()),
        None => None,
    }
}

impl User {
    /// A field-by-field copy of the row.
    pub fn copy(&self) -> (r: User)
        ensures
            r == *self,
    {
        User {
            id: self.id,
            username: self.username.clone(),
            display_name: copy_text(&self.display_name),
            about_me: copy_text(&self.about_me),
            description: copy_text(&self.description),
            avatar: copy_text(&self.avatar),
        }
    }
}

impl Post {
    /// A field-by-field copy of the row.
    pub fn copy(&self) -> (r: Post)
        ensures
            r == *self,
    {
        Post {
            id: self.id,
            author: self.author,
            blocks: copy_text(&self.blocks),
            created_at: self.created_at,
            updated_at: self.updated_at,
            status: self.status,
        }
    }
}

} // verus!
