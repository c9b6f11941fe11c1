use user_graph::errors::{ApiError, UserError};
use user_graph::store::{MutationRoot, QueryRoot, UserStore};
use user_graph::text::contains_ignore_case;
use user_graph::user::{DBUser, User, UserCreateInput, UserSearchInput};

fn create(store: &mut UserStore, name: &str, email: &str, age: u8) -> User {
    MutationRoot.create_user(
        store,
        UserCreateInput { name: name.to_string(), email: email.to_string(), age },
    )
}

fn no_filter() -> UserSearchInput {
    UserSearchInput { name: None, email: None, age: None }
}

fn ids(users: &[User]) -> Vec<i32> {
    users.iter().map(|u| u.id).collect()
}

#[test]
fn create_assigns_increasing_ids() {
    let mut store = UserStore::new();
    let a = create(&mut store, "A", "a@x.com", 1);
    let b = create(&mut store, "B", "b@x.com", 2);
    let c = create(&mut store, "C", "c@x.com", 3);
    assert_eq!((a.id, b.id, c.id), (1, 2, 3));
    assert!(a.id < b.id && b.id < c.id);
}

#[test]
fn create_then_lookup_returns_fields() {
    let mut store = UserStore::new();
    let u = create(&mut store, "A", "a@x.com", 20);
    let found = QueryRoot.user_by_id(&store, u.id).expect("created record");
    assert_eq!(found.id, u.id);
    assert_eq!(found.name, "A");
    assert_eq!(found.email, "a@x.com");
    assert_eq!(found.age, 20);
}

#[test]
fn lookup_of_missing_id_is_none() {
    let mut store = UserStore::new();
    create(&mut store, "A", "a@x.com", 20);
    assert!(QueryRoot.user_by_id(&store, 7).is_none());
}

#[test]
fn update_name_only_keeps_other_fields() {
    let mut store = UserStore::new();
    let u = create(&mut store, "A", "a@x.com", 20);
    let updated = MutationRoot
        .update_user(&mut store, u.id, Some("Z".to_string()), None, None)
        .expect("existing record");
    assert_eq!(updated.name, "Z");
    assert_eq!(updated.email, "a@x.com");
    assert_eq!(updated.age, 20);
    let stored = QueryRoot.user_by_id(&store, u.id).unwrap();
    assert_eq!((stored.name.as_str(), stored.email.as_str(), stored.age), ("Z", "a@x.com", 20));
}

#[test]
fn update_all_fields() {
    let mut store = UserStore::new();
    let u = create(&mut store, "A", "a@x.com", 20);
    let updated = MutationRoot
        .update_user(&mut store, u.id, Some("B".to_string()), Some("b@y.org".to_string()), Some(33))
        .unwrap();
    assert_eq!((updated.name.as_str(), updated.email.as_str(), updated.age), ("B", "b@y.org", 33));
}

#[test]
fn update_missing_id_reports_id_and_keeps_store() {
    let mut store = UserStore::new();
    create(&mut store, "A", "a@x.com", 20);
    let err = MutationRoot
        .update_user(&mut store, 42, Some("Z".to_string()), None, None)
        .unwrap_err();
    assert_eq!(err.message, "User not found");
    assert_eq!(err.id, Some(42));
    let all = QueryRoot.all_users(&store);
    assert_eq!(all.len(), 1);
    assert_eq!(all[0].name, "A");
}

#[test]
fn delete_existing_and_missing() {
    let mut store = UserStore::new();
    create(&mut store, "A", "a@x.com", 20);
    create(&mut store, "B", "b@x.com", 30);
    assert!(MutationRoot.delete_user(&mut store, 1));
    assert_eq!(ids(&QueryRoot.all_users(&store)), vec![2]);
    assert!(!MutationRoot.delete_user(&mut store, 9));
    assert_eq!(ids(&QueryRoot.all_users(&store)), vec![2]);
}

#[test]
fn search_by_minimum_age() {
    let mut store = UserStore::new();
    create(&mut store, "Old", "old@x.com", 18);
    create(&mut store, "Young", "young@x.com", 17);
    create(&mut store, "Older", "older@x.com", 40);
    let input = UserSearchInput { name: None, email: None, age: Some(18) };
    assert_eq!(ids(&QueryRoot.search_users(&store, input)), vec![1, 3]);
}

#[test]
fn search_name_ignores_case() {
    let mut store = UserStore::new();
    create(&mut store, "Farid", "farid@example.com", 20);
    create(&mut store, "Bob", "bob@example.com", 17);
    let input = UserSearchInput { name: Some("far".to_string()), email: None, age: None };
    assert_eq!(ids(&QueryRoot.search_users(&store, input)), vec![1]);
    let upper = UserSearchInput { name: Some("FAR".to_string()), email: None, age: None };
    assert_eq!(ids(&QueryRoot.search_users(&store, upper)), vec![1]);
}

#[test]
fn search_combines_criteria() {
    let mut store = UserStore::new();
    create(&mut store, "Ann", "ann@corp.com", 30);
    create(&mut store, "Anna", "anna@home.net", 30);
    create(&mut store, "Annie", "annie@corp.com", 12);
    let input = UserSearchInput {
        name: Some("ann".to_string()),
        email: Some("CORP".to_string()),
        age: Some(18),
    };
    assert_eq!(ids(&QueryRoot.search_users(&store, input)), vec![1]);
    assert_eq!(ids(&QueryRoot.search_users(&store, no_filter())), vec![1, 2, 3]);
}

#[test]
fn search_with_no_match_is_empty() {
    let mut store = UserStore::new();
    create(&mut store, "Ann", "ann@corp.com", 30);
    let input = UserSearchInput { name: Some("zed".to_string()), email: None, age: None };
    assert!(QueryRoot.search_users(&store, input).is_empty());
}

#[test]
fn reset_empties_store() {
    let mut store = UserStore::new();
    create(&mut store, "A", "a@x.com", 20);
    create(&mut store, "B", "b@x.com", 21);
    assert!(MutationRoot.reset_users(&mut store));
    assert!(QueryRoot.all_users(&store).is_empty());
    assert_eq!(store.len(), 0);
}

#[test]
fn create_search_delete_scenario() {
    let mut store = UserStore::new();
    let farid = create(&mut store, "Farid", "farid@example.com", 20);
    assert_eq!(farid.id, 1);
    let bob = create(&mut store, "Bob", "bob@example.com", 17);
    assert_eq!(bob.id, 2);
    let adults =
        QueryRoot.search_users(&store, UserSearchInput { name: None, email: None, age: Some(18) });
    assert_eq!(adults.len(), 1);
    assert_eq!(adults[0].name, "Farid");
    assert!(MutationRoot.delete_user(&mut store, 1));
    let all = QueryRoot.all_users(&store);
    assert_eq!(all.len(), 1);
    assert_eq!((all[0].id, all[0].name.as_str()), (2, "Bob"));
}

#[test]
fn id_is_reused_after_delete() {
    let mut store = UserStore::new();
    create(&mut store, "A", "a@x.com", 1);
    create(&mut store, "B", "b@x.com", 2);
    MutationRoot.delete_user(&mut store, 1);
    let c = create(&mut store, "C", "c@x.com", 3);
    assert_eq!(c.id, 2);
}

#[test]
fn contains_ignore_case_folds_both_sides() {
    assert!(contains_ignore_case("Farid", "far"));
    assert!(contains_ignore_case("farid", "ARI"));
    assert!(contains_ignore_case("anything", ""));
    assert!(!contains_ignore_case("Bob", "far"));
}

#[test]
fn not_found_message_is_fixed() {
    let e = UserError::from(sqlx::Error::RowNotFound);
    assert_eq!(e, UserError::NotFound);
    assert_eq!(e.message(), "User not found");
    let api = e.to_api_error();
    assert_eq!(api.message, "User not found");
    assert_eq!(api.id, None);
}

#[test]
fn storage_failure_message_keeps_driver_text() {
    let driver = sqlx::Error::PoolTimedOut;
    let text = driver.to_string();
    let e = UserError::from(driver);
    assert_eq!(e, UserError::DatabaseError(text.clone()));
    let msg = e.message();
    assert!(msg.starts_with("Database error: "));
    assert!(msg.contains(&text));
    assert_eq!(UserError::DatabaseError("boom".to_string()).message(), "Database error: boom");
}

#[test]
fn from_parts_tells_failures_apart() {
    assert_eq!(UserError::from_parts(true, "no rows".to_string()), UserError::NotFound);
    assert_eq!(
        UserError::from_parts(false, "refused".to_string()),
        UserError::DatabaseError("refused".to_string())
    );
}

fn row(id: i32) -> DBUser {
    DBUser { id, name: format!("u{}", id), email: format!("u{}@x.com", id), age: 30 }
}

#[test]
fn db_lookup_outcomes() {
    let found = QueryRoot.db_user_by_id(Ok(Some(row(3)))).unwrap();
    assert_eq!(found.id, 3);
    let missing = QueryRoot.db_user_by_id(Ok(None)).unwrap_err();
    assert_eq!(missing, UserError::NotFound);
    assert_eq!(missing.message(), "User not found");
    let failed = QueryRoot.db_user_by_id(Err(sqlx::Error::PoolClosed)).unwrap_err();
    assert!(matches!(failed, UserError::DatabaseError(_)));
    assert!(failed.message().contains(&sqlx::Error::PoolClosed.to_string()));
}

#[test]
fn db_list_outcomes() {
    let rows = QueryRoot.db_users(Ok(vec![row(1), row(2)])).unwrap();
    assert_eq!(rows.iter().map(|r| r.id).collect::<Vec<_>>(), vec![1, 2]);
    let failed = QueryRoot.db_users(Err(sqlx::Error::WorkerCrashed)).unwrap_err();
    assert!(matches!(failed, UserError::DatabaseError(_)));
}

#[test]
fn graphql_error_carries_message_and_id() {
    let g = ApiError::not_found(42).into_graphql();
    assert_eq!(g.message, "User not found");
    let ext = g.extensions.expect("id extension");
    assert_eq!(ext.get("id"), Some(&async_graphql::Value::from(42)));

    let plain = UserError::DatabaseError("down".to_string()).to_api_error().into_graphql();
    assert_eq!(plain.message, "Database error: down");
    assert!(plain.extensions.is_none());
}
