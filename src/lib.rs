//! Users and blog posts: the persistence gateway over the `users` and `posts`
//! tables, and the query and mutation resolvers in front of it.

pub mod model;
pub mod status;
pub mod persistence;
pub mod handler;
pub mod lemmas;
