use gossip::db::{Db, StoreError};
use gossip::features::auth::repositories::{AuthRepo, AuthRepoImpl};
use gossip::features::users::repositories::{UserRepo, UserRepoImpl};
use gossip::features::users::routes::{user_by_email, user_by_id, UserError};

fn row_by_id(repo: &AuthRepo, id: i32) -> &gossip::features::users::models::User {
    &repo.db.rows.iter().find(|row| row.user.id == id).expect("should return user").user
}

#[test]
fn test_create_user() {
    let mut repo = AuthRepo { db: Db::new() };

    let id = repo
        .create_user("a.b@c.com", "abc", "abc", "123")
        .unwrap()
        .expect("should return user ID");

    repo.create_user("user1@c.com", "abc", "user1", "123").unwrap().unwrap();
    repo.create_user("user2@c.com", "abc", "user2", "123").unwrap().unwrap();
    repo.create_user("user3@c.com", "abc", "user3", "123").unwrap().unwrap();
    repo.create_user("user4@c.com", "abc", "user4", "123").unwrap().unwrap();

    let user = row_by_id(&repo, id);
    assert_eq!(user.email, "a.b@c.com");
    assert_eq!(user.password_hash, "abc");

    let id = repo
        .create_user("a.b@c.com", "def", "abc", "123")
        .unwrap()
        .expect("should return user ID");

    let user = row_by_id(&repo, id);
    assert_eq!(&id, &user.id);
    assert_eq!(&user.email, "a.b@c.com");
    assert_eq!(&user.password_hash, "def");

    repo.verify_email("a.b@c.com").unwrap().expect("should return user");

    let user_repo = UserRepo { db: repo.db };
    let user = user_repo.find_by_email("a.b@c.com").unwrap().expect("should return user");
    let mut repo = AuthRepo { db: user_repo.db };

    let id = repo.create_user("a.b@c.com", "ghi", "abc", "123").unwrap();
    assert_eq!(id, None);

    let user = row_by_id(&repo, user.id);
    assert_eq!(user.email, "a.b@c.com");
    assert_eq!(user.password_hash, "def");
}

#[test]
fn test_verify_email_deletes_verification_code() {
    let mut repo = AuthRepo { db: Db::new() };

    let id = repo
        .create_user("a.b@c.com", "abc", "me", "123456")
        .unwrap()
        .expect("should return user ID");

    let verification = repo.get_pending_verification("a.b@c.com").unwrap();
    assert!(verification.is_some());

    let user = repo.verify_email("a.b@c.com").unwrap().expect("should return user").0;

    let verification = repo.get_pending_verification("a.b@c.com").unwrap();
    assert!(verification.is_none());

    assert_eq!(user.id, id);
    assert_eq!(user.email, "a.b@c.com");
    assert_eq!(user.username, "me");
    assert_eq!(user.password_hash, "abc");

    let user = row_by_id(&repo, id);
    assert!(user.is_verified);
}

#[test]
fn test_should_not_fetch_unverified_users_by_id() {
    let mut auth = AuthRepo { db: Db::new() };
    let user_id = auth.create_user("abc@def.com", "def", "ghi", "jkl").unwrap().unwrap();

    let repo = UserRepo { db: auth.db };
    let user = repo.find_by_id(user_id).unwrap();
    assert!(user.is_none());

    let user = repo.find_by_email("abc@def.com").unwrap();
    assert!(user.is_none());

    let mut auth = AuthRepo { db: repo.db };
    let auth_user = auth.verify_email("abc@def.com").unwrap().unwrap().0;

    let repo = UserRepo { db: auth.db };
    let user = repo.find_by_id(user_id).unwrap().unwrap();
    assert_eq!(user.username, "ghi");
    assert_eq!(auth_user.email, "abc@def.com")
}

#[test]
fn new_store_is_empty() {
    let repo = AuthRepo { db: Db::new() };
    assert_eq!(repo.is_email_taken("a@x.com"), Ok(false));
    assert!(repo.get_pending_verification("a@x.com").unwrap().is_none());
    assert!(repo.find_user_id_password_by_email("a@x.com").unwrap().is_none());
    assert!(repo.db.rows.is_empty());
}

#[test]
fn ids_are_given_in_order_and_kept() {
    let mut db = Db::new();
    assert_eq!(db.upsert_unverified("a@x.com", "h", "a", "111111"), Ok(Some(1)));
    assert_eq!(db.upsert_unverified("b@x.com", "h", "b", "222222"), Ok(Some(2)));
    assert_eq!(db.upsert_unverified("a@x.com", "h2", "a2", "333333"), Ok(Some(1)));
    assert_eq!(db.upsert_unverified("c@x.com", "h", "c", "444444"), Ok(Some(3)));
    assert_eq!(db.rows.len(), 3);
}

#[test]
fn reregistration_overwrites_hash_name_and_code() {
    let mut db = Db::new();
    let first = db.upsert_unverified("a@x.com", "h1", "n1", "111111").unwrap().unwrap();
    let second = db.upsert_unverified("a@x.com", "h2", "n2", "222222").unwrap().unwrap();
    assert_eq!(first, second);
    assert_eq!(db.rows.len(), 1);
    assert_eq!(db.pending_for("a@x.com"), Some((first, String::from("222222"))));
    assert_eq!(db.find_credentials("a@x.com"), Some((first, String::from("h2"))));
    assert_eq!(db.rows[0].user.username, "n2");
    assert!(!db.rows[0].user.is_verified);
}

#[test]
fn many_registrations_of_one_email_make_one_account() {
    let mut db = Db::new();
    db.upsert_unverified("other@x.com", "h", "o", "000001").unwrap();
    let mut ids = Vec::new();
    for k in 0..25 {
        let code = format!("{}", 100000 + k);
        ids.push(db.upsert_unverified("new@x.com", "h", "n", &code).unwrap().unwrap());
    }
    assert!(ids.iter().all(|id| *id == 2));
    assert_eq!(db.rows.iter().filter(|row| row.user.email == "new@x.com").count(), 1);
    assert_eq!(db.rows.len(), 2);
    assert_eq!(db.pending_for("new@x.com"), Some((2, String::from("100024"))));
}

#[test]
fn confirmed_account_is_not_overwritten() {
    let mut db = Db::new();
    let id = db.upsert_unverified("a@x.com", "h1", "n1", "111111").unwrap().unwrap();
    let user = db.confirm("a@x.com").expect("unverified account");
    assert_eq!(user.id, id);
    assert!(user.is_verified);
    assert!(db.is_confirmed("a@x.com"));
    assert_eq!(db.upsert_unverified("a@x.com", "h2", "n2", "222222"), Ok(None));
    assert_eq!(db.rows.len(), 1);
    assert_eq!(db.rows[0].user.password_hash, "h1");
    assert_eq!(db.rows[0].user.username, "n1");
    assert!(db.rows[0].user.is_verified);
    assert!(db.rows[0].code.is_none());
    assert_eq!(db.find_credentials("a@x.com"), Some((id, String::from("h1"))));
}

#[test]
fn confirm_needs_an_unverified_account() {
    let mut db = Db::new();
    assert!(db.confirm("nobody@x.com").is_none());
    db.upsert_unverified("a@x.com", "h", "n", "111111").unwrap();
    assert!(db.confirm("a@x.com").is_some());
    assert!(db.confirm("a@x.com").is_none());
    assert!(db.rows[0].user.is_verified);
    assert_eq!(db.pending_for("a@x.com"), None);
}

#[test]
fn is_confirmed_only_of_verified_accounts() {
    let mut db = Db::new();
    assert!(!db.is_confirmed("a@x.com"));
    db.upsert_unverified("a@x.com", "h", "n", "111111").unwrap();
    assert!(!db.is_confirmed("a@x.com"));
    db.confirm("a@x.com").unwrap();
    assert!(db.is_confirmed("a@x.com"));
    assert!(!db.is_confirmed("A@x.com"));
}

#[test]
fn credentials_are_found_before_and_after_verification() {
    let mut db = Db::new();
    assert_eq!(db.find_credentials("a@x.com"), None);
    db.upsert_unverified("a@x.com", "h", "n", "111111").unwrap();
    assert_eq!(db.find_credentials("a@x.com"), Some((1, String::from("h"))));
    db.confirm("a@x.com").unwrap();
    assert_eq!(db.find_credentials("a@x.com"), Some((1, String::from("h"))));
}

#[test]
fn position_finds_the_row_of_an_email() {
    let mut db = Db::new();
    db.upsert_unverified("a@x.com", "h", "n", "111111").unwrap();
    db.upsert_unverified("b@x.com", "h", "n", "111111").unwrap();
    assert_eq!(db.position(&String::from("b@x.com")), Some(1));
    assert_eq!(db.position(&String::from("a@x.com")), Some(0));
    assert_eq!(db.position(&String::from("c@x.com")), None);
}

#[test]
fn profiles_by_id_skip_unknown_and_unverified() {
    let mut db = Db::new();
    db.upsert_unverified("a@x.com", "h", "n", "111111").unwrap();
    db.upsert_unverified("b@x.com", "h", "m", "111111").unwrap();
    db.confirm("b@x.com").unwrap();
    assert!(db.find_by_id(0).is_none());
    assert!(db.find_by_id(-1).is_none());
    assert!(db.find_by_id(1).is_none());
    assert!(db.find_by_id(3).is_none());
    assert!(db.find_by_id(i32::MAX).is_none());
    assert!(db.find_by_id(i32::MIN).is_none());
    let user = db.find_by_id(2).unwrap();
    assert_eq!(user.email, "b@x.com");
    assert_eq!(user.username, "m");
    assert!(user.is_verified);
}

#[test]
fn profile_routes_answer_not_found() {
    let mut db = Db::new();
    db.upsert_unverified("a@x.com", "h", "n", "111111").unwrap();
    let repo = UserRepo { db };
    assert_eq!(user_by_id(1, &repo).unwrap_err(), UserError::NotFound);
    assert_eq!(user_by_email("a@x.com", &repo).unwrap_err(), UserError::NotFound);
    let mut db = repo.db;
    db.confirm("a@x.com").unwrap();
    let repo = UserRepo { db };
    assert_eq!(user_by_id(1, &repo).unwrap().email, "a@x.com");
    assert_eq!(user_by_email("a@x.com", &repo).unwrap().id, 1);
    assert_eq!(user_by_id(2, &repo).unwrap_err(), UserError::NotFound);
    assert_eq!(UserError::NotFound.status_code(), 404);
    assert_eq!(UserError::InternalError.status_code(), 500);
}

#[test]
fn store_errors_are_told_apart() {
    assert_ne!(StoreError::Backend, StoreError::IdsExhausted);
}

#[test]
fn a_full_table_refuses_new_accounts_only() {
    let mut db = Db::with_limit(2);
    assert_eq!(db.limit, 2);
    assert_eq!(db.upsert_unverified("a@x.com", "h", "a", "111111"), Ok(Some(1)));
    assert_eq!(db.upsert_unverified("b@x.com", "h", "b", "222222"), Ok(Some(2)));
    assert_eq!(
        db.upsert_unverified("c@x.com", "h", "c", "333333"),
        Err(StoreError::IdsExhausted)
    );
    assert_eq!(db.rows.len(), 2);
    assert_eq!(db.find_credentials("c@x.com"), None);
    assert_eq!(db.upsert_unverified("a@x.com", "h2", "a2", "444444"), Ok(Some(1)));
    db.confirm("b@x.com").unwrap();
    assert_eq!(db.upsert_unverified("b@x.com", "h", "b", "555555"), Ok(None));
    assert_eq!(
        db.upsert_unverified("c@x.com", "h", "c", "333333"),
        Err(StoreError::IdsExhausted)
    );
}

#[test]
fn a_table_without_room_takes_nobody() {
    for limit in [0, -1, i32::MIN] {
        let mut db = Db::with_limit(limit);
        assert_eq!(db.limit, 0);
        assert_eq!(
            db.upsert_unverified("a@x.com", "h", "a", "111111"),
            Err(StoreError::IdsExhausted)
        );
        assert!(db.rows.is_empty());
        assert!(!db.is_confirmed("a@x.com"));
        assert!(db.confirm("a@x.com").is_none());
    }
    assert_eq!(Db::new().limit, i32::MAX);
}
