use blog_api::handler::{ApiError, Mutation, Query};
use blog_api::model::{CreatePost, CreateUser, Post, UpdatePost, UpdateUser, User};
use blog_api::persistence::{DBPostgres, StoreError};
use blog_api::status::PostStatus;

fn new_user(name: &str) -> CreateUser {
    CreateUser {
        username: name.to_string(),
        display_name: None,
        about_me: None,
        description: None,
        avatar: None,
    }
}

fn new_post(author: i32, status: &str) -> CreatePost {
    CreatePost { author, blocks: Some("[]".to_string()), status: status.to_string() }
}

/// A store with one user (id 1) who owns one draft post (id 1), and a
/// second user (id 2).
fn seeded() -> DBPostgres {
    let mut db = DBPostgres::init();
    Mutation.create_user(&mut db, new_user("alice")).unwrap();
    Mutation.create_user(&mut db, new_user("bob")).unwrap();
    Mutation.create_post(&mut db, new_post(1, "DRAFT"), 100).unwrap();
    db
}

#[test]
fn parse_accepts_trimmed_upper_cased_statuses() {
    assert_eq!(PostStatus::parse("PUBLISHED"), Some(PostStatus::Published));
    assert_eq!(PostStatus::parse("published "), Some(PostStatus::Published));
    assert_eq!(PostStatus::parse("  Draft\t"), Some(PostStatus::Draft));
    assert_eq!(PostStatus::parse("dRaFt"), Some(PostStatus::Draft));
}

#[test]
fn parse_rejects_other_statuses() {
    assert_eq!(PostStatus::parse("DELETED"), None);
    assert_eq!(PostStatus::parse("deleted"), None);
    assert_eq!(PostStatus::parse(""), None);
    assert_eq!(PostStatus::parse("   "), None);
    assert_eq!(PostStatus::parse("PUBLISH"), None);
    assert_eq!(PostStatus::parse("DRAFT PUBLISHED"), None);
    assert_eq!(PostStatus::from_normalized("draft"), None);
    assert_eq!(PostStatus::from_normalized("DRAFT"), Some(PostStatus::Draft));
}

#[test]
fn status_text_is_the_column_value() {
    assert_eq!(PostStatus::Draft.as_str(), "DRAFT");
    assert_eq!(PostStatus::Published.as_str(), "PUBLISHED");
    assert_eq!(PostStatus::Deleted.as_str(), "DELETED");
}

#[test]
fn error_messages() {
    assert_eq!(ApiError::Validation.message(), "Wrong status format");
    assert_eq!(ApiError::Persistence(StoreError::NotFound).message(), "Record not found");
    assert_eq!(StoreError::NotFound.message(), "Record not found");
}

#[test]
fn create_user_then_get_user_round_trips() {
    let mut db = DBPostgres::init();
    let input = CreateUser {
        username: "carol".to_string(),
        display_name: Some("Carol".to_string()),
        about_me: None,
        description: Some("writer".to_string()),
        avatar: None,
    };
    let created = Mutation.create_user(&mut db, input).unwrap();
    assert_eq!(created.id, 1);
    let fetched = Query.get_user(&db, created.id).unwrap();
    assert_eq!(
        fetched,
        User {
            id: 1,
            username: "carol".to_string(),
            display_name: Some("Carol".to_string()),
            about_me: None,
            description: Some("writer".to_string()),
            avatar: None,
        }
    );
}

#[test]
fn user_ids_come_in_sequence() {
    let mut db = DBPostgres::init();
    assert_eq!(Mutation.create_user(&mut db, new_user("a")).unwrap().id, 1);
    assert_eq!(Mutation.create_user(&mut db, new_user("b")).unwrap().id, 2);
    assert_eq!(Query.get_user(&db, 2).unwrap().username, "b");
}

#[test]
fn get_user_missing_is_not_found() {
    let db = seeded();
    assert_eq!(Query.get_user(&db, 3), Err(ApiError::Persistence(StoreError::NotFound)));
    assert_eq!(Query.get_user(&db, 0), Err(ApiError::Persistence(StoreError::NotFound)));
}

#[test]
fn update_user_writes_supplied_fields_only() {
    let mut db = DBPostgres::init();
    let mut input = new_user("dave");
    input.avatar = Some("a.png".to_string());
    Mutation.create_user(&mut db, input).unwrap();
    let changes = UpdateUser {
        username: None,
        display_name: Some("Dave".to_string()),
        about_me: None,
        description: None,
        avatar: None,
    };
    let updated = Mutation.update_user(&mut db, 1, changes).unwrap();
    assert_eq!(updated.username, "dave");
    assert_eq!(updated.display_name, Some("Dave".to_string()));
    assert_eq!(updated.avatar, Some("a.png".to_string()));
    assert_eq!(Query.get_user(&db, 1).unwrap(), updated);
}

#[test]
fn update_user_missing_is_not_found() {
    let mut db = DBPostgres::init();
    let changes = UpdateUser {
        username: Some("x".to_string()),
        display_name: None,
        about_me: None,
        description: None,
        avatar: None,
    };
    assert_eq!(
        Mutation.update_user(&mut db, 7, changes),
        Err(ApiError::Persistence(StoreError::NotFound))
    );
}

#[test]
fn create_post_with_loose_status_stores_normalized_status() {
    let mut db = seeded();
    let post = Mutation.create_post(&mut db, new_post(1, "published "), 200).unwrap();
    assert_eq!(
        post,
        Post {
            id: 2,
            author: 1,
            blocks: Some("[]".to_string()),
            created_at: Some(200),
            updated_at: Some(200),
            status: PostStatus::Published,
        }
    );
    assert_eq!(post.status.as_str(), "PUBLISHED");
    assert_eq!(Query.get_post(&db, 2, 1).unwrap(), post);
}

#[test]
fn create_post_rejects_bad_status_without_storing() {
    let mut db = seeded();
    for status in ["archived", "DELETED", "", "PUBLISHED!"] {
        assert_eq!(
            Mutation.create_post(&mut db, new_post(1, status), 300),
            Err(ApiError::Validation)
        );
    }
    assert_eq!(Query.get_posts(&db, 1).unwrap().len(), 1);
    let next = Mutation.create_post(&mut db, new_post(1, "draft"), 300).unwrap();
    assert_eq!(next.id, 2);
}

#[test]
fn create_post_for_unknown_author_fails() {
    let mut db = seeded();
    assert_eq!(
        Mutation.create_post(&mut db, new_post(9, "DRAFT"), 1),
        Err(ApiError::Persistence(StoreError::ForeignKeyViolation))
    );
}

#[test]
fn update_post_by_owner() {
    let mut db = seeded();
    let changes = UpdatePost { blocks: None, status: " Published".to_string() };
    let post = Mutation.update_post(&mut db, 1, 1, changes).unwrap();
    assert_eq!(post.status, PostStatus::Published);
    assert_eq!(post.blocks, Some("[]".to_string()));
    assert_eq!(post.created_at, Some(100));
    let changes = UpdatePost { blocks: Some("[1]".to_string()), status: "draft".to_string() };
    let post = Mutation.update_post(&mut db, 1, 1, changes).unwrap();
    assert_eq!(post.blocks, Some("[1]".to_string()));
    assert_eq!(Query.get_post(&db, 1, 1).unwrap(), post);
}

#[test]
fn update_post_by_other_author_fails_and_keeps_row() {
    let mut db = seeded();
    let before = Query.get_post(&db, 1, 1).unwrap();
    let changes = UpdatePost { blocks: Some("[9]".to_string()), status: "PUBLISHED".to_string() };
    assert_eq!(
        Mutation.update_post(&mut db, 1, 2, changes),
        Err(ApiError::Persistence(StoreError::NotFound))
    );
    assert_eq!(Query.get_post(&db, 1, 1).unwrap(), before);
}

#[test]
fn update_post_rejects_bad_status_without_writing() {
    let mut db = seeded();
    let before = Query.get_post(&db, 1, 1).unwrap();
    let changes = UpdatePost { blocks: Some("[9]".to_string()), status: "deleted".to_string() };
    assert_eq!(Mutation.update_post(&mut db, 1, 1, changes), Err(ApiError::Validation));
    let changes = UpdatePost { blocks: None, status: "PUBLISHED".to_string() };
    assert_eq!(Mutation.update_post(&mut db, 5, 1, changes), Err(ApiError::Persistence(StoreError::NotFound)));
    assert_eq!(Query.get_post(&db, 1, 1).unwrap(), before);
}

#[test]
fn get_post_needs_matching_id_and_author() {
    let db = seeded();
    assert_eq!(Query.get_post(&db, 1, 1).unwrap().status, PostStatus::Draft);
    assert_eq!(Query.get_post(&db, 1, 2), Err(ApiError::Persistence(StoreError::NotFound)));
    assert_eq!(Query.get_post(&db, 2, 1), Err(ApiError::Persistence(StoreError::NotFound)));
}

#[test]
fn deleted_posts_are_hidden_from_reads() {
    let mut db = seeded();
    Mutation.create_post(&mut db, new_post(1, "PUBLISHED"), 150).unwrap();
    let deleted = Mutation.delete_post(&mut db, 1, 1).unwrap();
    assert_eq!(deleted.status, PostStatus::Deleted);
    assert_eq!(Query.get_post(&db, 1, 1), Err(ApiError::Persistence(StoreError::NotFound)));
    assert_eq!(Query.get_post(&db, 1, 2), Err(ApiError::Persistence(StoreError::NotFound)));
    let listed = Query.get_posts(&db, 1).unwrap();
    assert_eq!(listed.len(), 1);
    assert_eq!(listed[0].id, 2);
    assert!(Query.get_posts(&db, 2).unwrap().is_empty());
}

#[test]
fn get_posts_lists_live_posts_of_author_in_order() {
    let mut db = seeded();
    Mutation.create_post(&mut db, new_post(2, "DRAFT"), 1).unwrap();
    Mutation.create_post(&mut db, new_post(1, "PUBLISHED"), 2).unwrap();
    let ids: Vec<i32> = Query.get_posts(&db, 1).unwrap().iter().map(|p| p.id).collect();
    assert_eq!(ids, vec![1, 3]);
    let ids: Vec<i32> = Query.get_posts(&db, 2).unwrap().iter().map(|p| p.id).collect();
    assert_eq!(ids, vec![2]);
    assert!(Query.get_posts(&db, 5).unwrap().is_empty());
}

#[test]
fn delete_post_twice_returns_deleted_row_both_times() {
    let mut db = seeded();
    let first = Mutation.delete_post(&mut db, 1, 1).unwrap();
    let second = Mutation.delete_post(&mut db, 1, 1).unwrap();
    assert_eq!(first.status, PostStatus::Deleted);
    assert_eq!(second, first);
}

#[test]
fn delete_post_is_scoped_by_author() {
    let mut db = seeded();
    assert_eq!(Mutation.delete_post(&mut db, 1, 2), Err(ApiError::Persistence(StoreError::NotFound)));
    assert_eq!(Mutation.delete_post(&mut db, 4, 1), Err(ApiError::Persistence(StoreError::NotFound)));
    assert_eq!(Query.get_post(&db, 1, 1).unwrap().status, PostStatus::Draft);
}

#[test]
fn deleted_post_can_still_be_updated() {
    let mut db = seeded();
    Mutation.delete_post(&mut db, 1, 1).unwrap();
    let changes = UpdatePost { blocks: None, status: "DRAFT".to_string() };
    let post = Mutation.update_post(&mut db, 1, 1, changes).unwrap();
    assert_eq!(post.status, PostStatus::Draft);
    assert_eq!(Query.get_post(&db, 1, 1).unwrap(), post);
}
