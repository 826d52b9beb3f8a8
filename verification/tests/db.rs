use blog_server::db::{DatabaseError, Post, Store, StoreHandle};
use blog_server::db::{select_last_n_posts, select_post_with_slug};

fn sample_post(slug: &str, title: &str, published: u64) -> Post {
    Post {
        slug: slug.to_owned(),
        title: title.to_owned(),
        body: format!("body of {}", slug),
        published,
    }
}

fn handle_with(posts: Vec<Post>, pool_available: bool) -> StoreHandle {
    StoreHandle { store: Store { posts }, pool_available }
}

#[test]
fn last_n_orders_most_recent_first() {
    let handle = handle_with(
        vec![sample_post("a", "First", 1), sample_post("b", "Second", 2)],
        true,
    );
    let posts = select_last_n_posts(10, &handle).unwrap();
    assert_eq!(posts.len(), 2);
    assert_eq!(posts[0].slug, "b");
    assert_eq!(posts[1].slug, "a");
}

#[test]
fn last_n_returns_all_when_store_is_smaller() {
    let handle = handle_with(
        vec![
            sample_post("one", "One", 30),
            sample_post("two", "Two", 10),
            sample_post("three", "Three", 20),
        ],
        true,
    );
    let posts = select_last_n_posts(10, &handle).unwrap();
    assert_eq!(posts.len(), 3);
    assert_eq!(posts[0].slug, "one");
    assert_eq!(posts[1].slug, "three");
    assert_eq!(posts[2].slug, "two");
}

#[test]
fn last_n_on_empty_store_is_empty_not_an_error() {
    let handle = handle_with(vec![], true);
    let posts = select_last_n_posts(10, &handle).unwrap();
    assert!(posts.is_empty());
}

#[test]
fn last_n_keeps_only_the_most_recent() {
    let handle = handle_with(
        vec![
            sample_post("old", "Old", 1),
            sample_post("mid", "Mid", 5),
            sample_post("new", "New", 9),
        ],
        true,
    );
    let posts = select_last_n_posts(2, &handle).unwrap();
    assert_eq!(posts.len(), 2);
    assert_eq!(posts[0].slug, "new");
    assert_eq!(posts[1].slug, "mid");
}

#[test]
fn last_n_pool_failure_is_connection_pool_error() {
    let handle = handle_with(vec![sample_post("a", "First", 1)], false);
    assert_eq!(
        select_last_n_posts(10, &handle),
        Err(DatabaseError::ConnectionPoolError)
    );
}

#[test]
fn slug_lookup_finds_the_matching_post() {
    let handle = handle_with(
        vec![sample_post("a", "First", 1), sample_post("b", "Second", 2)],
        true,
    );
    let found = select_post_with_slug("a", &handle).unwrap();
    assert_eq!(found.slug, "a");
    assert_eq!(found.title, "First");
    assert_eq!(found.published, 1);
}

#[test]
fn slug_lookup_with_absent_slug_is_not_found() {
    let handle = handle_with(vec![sample_post("a", "First", 1)], true);
    assert_eq!(
        select_post_with_slug("missing", &handle),
        Err(DatabaseError::NotFound)
    );
}

#[test]
fn slug_lookup_on_empty_store_is_not_found() {
    let handle = handle_with(vec![], true);
    assert_eq!(select_post_with_slug("a", &handle), Err(DatabaseError::NotFound));
}

#[test]
fn slug_lookup_pool_failure_is_connection_pool_error() {
    let handle = handle_with(vec![sample_post("a", "First", 1)], false);
    assert_eq!(
        select_post_with_slug("a", &handle),
        Err(DatabaseError::ConnectionPoolError)
    );
}
