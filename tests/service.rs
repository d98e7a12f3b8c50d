use api::config::Config;
use api::context::authenticate;
use api::error::{Error, TokenError};
use api::group::{Group, GroupCreate, GroupUpdate};
use api::hasher::Hasher;
use api::id::Id;
use api::policy::{can_act_on_user, require_authenticated};
use api::schema::{Mutation, Query, CREATE_GROUPS, DELETE_GROUP, DELETE_USER, UPDATE_GROUP, UPDATE_USER, VIEW_GROUPS};
use api::tokeniser::Tokeniser;
use api::user::{User, UserCreate, UserLogin, UserUpdate, DELETE_DENIED, UPDATE_DENIED, VIEW_DENIED};
use api::user_group::UserGroup;

const U1: Id = Id(1);
const U2: Id = Id(2);

fn hasher() -> Hasher {
    Hasher::new("somesalt".to_string())
}

fn registration() -> UserCreate {
    UserCreate {
        id: U1,
        email: "a@test.com".to_string(),
        password: "test".to_string(),
        name: Some("Tester".to_string()),
    }
}

fn login_of(password: &str) -> UserLogin {
    UserLogin { email: "a@test.com".to_string(), password: password.to_string() }
}

fn stored(m: api::user_group::UserGroupCreate) -> UserGroup {
    UserGroup { id: m.id, added_at: m.added_at, user_id: m.user_id, group_id: m.group_id }
}

#[test]
fn owner_may_act_only_on_own_record() {
    assert!(can_act_on_user(Some(U1), U1));
    assert!(!can_act_on_user(Some(U1), U2));
    assert!(!can_act_on_user(None, U1));
}

#[test]
fn anonymous_caller_is_unauthenticated() {
    assert_eq!(require_authenticated(Some(U1), "m"), Ok(U1));
    assert_eq!(require_authenticated(None, "m"), Err(Error::Unauthenticated("m")));
}

#[test]
fn register_returns_token_for_the_new_user() {
    let tokeniser = Tokeniser::new("secret".to_string());
    let row = User::create(&hasher(), &registration()).unwrap();
    assert_eq!(row.id, U1);
    assert_eq!(row.email, "a@test.com");
    assert_eq!(row.name, Some("Tester".to_string()));
    assert_ne!(row.password, "test");
    assert_eq!(hasher().verify(&row.password, "test"), Ok(true));
    let claims = tokeniser.generate(row.id).unwrap();
    let verified = tokeniser.check(Some(claims), true, 1_000_000_000_000).err();
    assert_eq!(verified, Some(TokenError::Expired));
    let claims = tokeniser.claims_at(row.id, 1_000, Id(3)).unwrap();
    let token = tokeniser.sign(&claims).unwrap();
    let signed = tokeniser.signature_checks(&token);
    assert_eq!(tokeniser.check(Some(claims), signed, 1_000).unwrap().sub, U1);
}

#[test]
fn register_with_unusable_salt_fails() {
    let short = Hasher::new("salt".to_string());
    assert_eq!(User::create(&short, &registration()).err(), Some(Error::Hasher));
}

#[test]
fn read_by_another_user_is_unauthorized() {
    assert_eq!(Query::user(Some(U2), U1), Err(Error::Unauthorized(VIEW_DENIED)));
    assert_eq!(User::read(&U2, &U1), Err(Error::Unauthorized(VIEW_DENIED)));
    assert_eq!(Query::user(Some(U1), U1), Ok(U1));
}

#[test]
fn read_without_login_is_unauthenticated() {
    let e = Query::user(None, U1).unwrap_err();
    assert_eq!(e.message(), "Unauthorised - Must be logged in to view users");
}

#[test]
fn login_with_wrong_password_is_not_found() {
    let digest = User::create(&hasher(), &registration()).unwrap().password;
    let wrong = User::authenticate(&hasher(), Some((U1, digest)), &login_of("wrong"));
    let unknown = User::authenticate(&hasher(), None, &login_of("test"));
    assert_eq!(wrong, Err(Error::NotFound));
    assert_eq!(unknown, Err(Error::NotFound));
    assert_eq!(wrong, unknown);
}

#[test]
fn login_with_right_password_issues_token() {
    let tokeniser = Tokeniser::new("secret".to_string());
    let digest = User::create(&hasher(), &registration()).unwrap().password;
    let claims = User::login(&tokeniser, &hasher(), Some((U1, digest)), &login_of("test")).unwrap();
    assert_eq!(claims.sub, U1);
    assert_eq!(claims.exp - claims.iat, 900);
}

#[test]
fn login_at_issues_exact_claims() {
    let tokeniser = Tokeniser::new("secret".to_string());
    let digest = User::create(&hasher(), &registration()).unwrap().password;
    let claims = User::login_at(&tokeniser, &hasher(), Some((U1, digest.clone())), &login_of("test"), 500, Id(8)).unwrap();
    assert_eq!((claims.sub, claims.iat, claims.exp, claims.jti), (U1, 500, 1400, Id(8)));
    let refused = User::login_at(&tokeniser, &hasher(), Some((U1, digest)), &login_of("nope"), 500, Id(8));
    assert_eq!(refused.err(), Some(Error::NotFound));
}

#[test]
fn login_against_malformed_digest_is_a_hashing_error() {
    let tokeniser = Tokeniser::new("secret".to_string());
    let r = User::login(&tokeniser, &hasher(), Some((U1, "plain".to_string())), &login_of("plain"));
    assert_eq!(r.err(), Some(Error::Hasher));
}

#[test]
fn group_is_visible_to_creator_only() {
    let group = GroupCreate { id: Id(10), name: "g".to_string(), created_at: 42 };
    let (row, membership) = Mutation::create_group(Some(U1), &group).unwrap();
    assert_eq!(membership.user_id, U1);
    assert_eq!(membership.group_id, Id(10));
    assert_eq!(membership.added_at, 42);
    let groups = vec![
        Group { id: Id(11), name: "other".to_string(), created_at: 1 },
        Group { id: row.id, name: row.name, created_at: row.created_at },
    ];
    let memberships = vec![stored(membership)];
    let mine = Group::read_all(&U1, &groups, &memberships);
    assert_eq!(mine.len(), 1);
    assert_eq!(mine[0].id, Id(10));
    assert_eq!(mine[0].name, "g");
    assert!(Group::read_all(&U2, &groups, &memberships).is_empty());
    assert_eq!(UserGroup::read_groups(&U1, &groups, &memberships).len(), 1);
    assert!(UserGroup::read_groups(&U2, &groups, &memberships).is_empty());
    let found = Group::read(&U1, &Id(10), Some(groups[1].copy()), &memberships).unwrap();
    assert_eq!(found.created_at, 42);
    let hidden = Group::read(&U2, &Id(10), Some(groups[1].copy()), &memberships);
    assert_eq!(hidden.err(), Some(Error::NotFound));
    let absent = Group::read(&U1, &Id(12), None, &memberships);
    assert_eq!(absent.err(), Some(Error::NotFound));
}

#[test]
fn read_all_keeps_order_of_visible_groups() {
    let groups = vec![
        Group { id: Id(20), name: "a".to_string(), created_at: 0 },
        Group { id: Id(21), name: "b".to_string(), created_at: 0 },
        Group { id: Id(22), name: "c".to_string(), created_at: 0 },
    ];
    let memberships = vec![
        UserGroup { id: Id(30), added_at: 0, user_id: U1, group_id: Id(22) },
        UserGroup { id: Id(31), added_at: 0, user_id: U2, group_id: Id(21) },
        UserGroup { id: Id(32), added_at: 0, user_id: U1, group_id: Id(20) },
    ];
    let mine: Vec<Id> = Group::read_all(&U1, &groups, &memberships).iter().map(|g| g.id).collect();
    assert_eq!(mine, vec![Id(20), Id(22)]);
}

#[test]
fn group_changes_need_membership() {
    let memberships = vec![UserGroup { id: Id(30), added_at: 0, user_id: U1, group_id: Id(10) }];
    let edit = GroupUpdate { id: Id(10), name: Some("renamed".to_string()) };
    assert!(Group::update(&U1, &edit, &memberships));
    assert!(!Group::update(&U2, &edit, &memberships));
    assert!(Group::delete(&U1, &Id(10), &memberships));
    assert!(!Group::delete(&U1, &Id(11), &memberships));
    assert!(Group::changed(1));
    assert!(!Group::changed(0));
    assert!(Group::created(1, 1));
    assert!(!Group::created(1, 0));
}

#[test]
fn group_operations_need_login() {
    let group = GroupCreate { id: Id(10), name: "g".to_string(), created_at: 0 };
    assert_eq!(Mutation::create_group(None, &group).err(), Some(Error::Unauthenticated(CREATE_GROUPS)));
    assert_eq!(Query::group(None), Err(Error::Unauthenticated(VIEW_GROUPS)));
    assert_eq!(Mutation::update_group(None), Err(Error::Unauthenticated(UPDATE_GROUP)));
    assert_eq!(Mutation::delete_group(None), Err(Error::Unauthenticated(DELETE_GROUP)));
    assert_eq!(Mutation::delete_group(Some(U2)), Ok(U2));
}

#[test]
fn updated_password_replaces_the_old_one() {
    let old_digest = User::create(&hasher(), &registration()).unwrap().password;
    let edit = UserUpdate { id: U1, email: None, password: Some("new".to_string()), name: None };
    let change = Mutation::update_user(&hasher(), Some(U1), &edit).unwrap();
    assert_eq!(change.id, U1);
    assert_eq!(change.email, None);
    assert_eq!(change.name, None);
    let new_digest = change.password.unwrap();
    assert_ne!(new_digest, old_digest);
    assert_eq!(User::authenticate(&hasher(), Some((U1, new_digest.clone())), &login_of("new")), Ok(U1));
    assert_eq!(User::authenticate(&hasher(), Some((U1, new_digest)), &login_of("test")), Err(Error::NotFound));
}

#[test]
fn update_without_password_keeps_fields() {
    let edit = UserUpdate { id: U1, email: Some("b@test.com".to_string()), password: None, name: None };
    let change = Mutation::update_user(&hasher(), Some(U1), &edit).unwrap();
    assert_eq!(change.email, Some("b@test.com".to_string()));
    assert_eq!(change.password, None);
}

#[test]
fn update_of_another_user_is_refused() {
    let edit = UserUpdate { id: U1, email: None, password: None, name: None };
    let r = Mutation::update_user(&hasher(), Some(U2), &edit);
    assert_eq!(r.err(), Some(Error::Unauthorized(UPDATE_DENIED)));
    let r = Mutation::update_user(&hasher(), None, &edit);
    assert_eq!(r.err(), Some(Error::Unauthenticated(UPDATE_USER)));
}

#[test]
fn deleting_twice_changes_nothing_the_second_time() {
    assert_eq!(Mutation::delete_user(Some(U1), U1), Ok(U1));
    assert!(User::changed(1));
    assert_eq!(Mutation::delete_user(Some(U1), U1), Ok(U1));
    assert!(!User::changed(0));
}

#[test]
fn delete_of_another_user_is_refused() {
    assert_eq!(Mutation::delete_user(Some(U2), U1), Err(Error::Unauthorized(DELETE_DENIED)));
    assert_eq!(User::delete(&U2, &U1), Err(Error::Unauthorized(DELETE_DENIED)));
    assert_eq!(Mutation::delete_user(None, U1), Err(Error::Unauthenticated(DELETE_USER)));
}

#[test]
fn request_identity_comes_from_the_token() {
    let tokeniser = Tokeniser::new("secret".to_string());
    assert_eq!(authenticate(&tokeniser, None), Ok(None));
    let claims = tokeniser.generate(U1).unwrap();
    assert_eq!(authenticate(&tokeniser, Some((Some(claims), true))), Ok(Some(U1)));
    let claims = tokeniser.generate(U1).unwrap();
    assert_eq!(
        authenticate(&tokeniser, Some((Some(claims), false))),
        Err(Error::Token(TokenError::BadSignature))
    );
    assert_eq!(authenticate(&tokeniser, Some((None, true))), Err(Error::Token(TokenError::Malformed)));
}

#[test]
fn config_holds_its_values() {
    let config = Config::new("test", "tester", "test", "127.0.0.1", "somesalt", true, "secret");
    assert_eq!(config.db_name, "test");
    assert_eq!(config.db_user, "tester");
    assert_eq!(config.db_password, "test");
    assert_eq!(config.db_server, "127.0.0.1");
    assert_eq!(config.hash_salt, "somesalt");
    assert!(config.testing);
    assert_eq!(config.token_secret, "secret");
    assert_eq!(config.address, [127, 0, 0, 1]);
}

#[test]
fn direct_setting_wins_over_file() {
    assert_eq!(Config::find_arg(Some("a".to_string()), Some("b".to_string())), Ok("a".to_string()));
    assert_eq!(Config::find_arg(None, Some("b".to_string())), Ok("b".to_string()));
    assert_eq!(Config::find_arg(None, None), Err(Error::Str("Args missing")));
}

#[test]
fn error_messages() {
    assert_eq!(Error::NotFound.message(), "Not found");
    assert_eq!(Error::Hasher.message(), "Password hashing failed");
    assert_eq!(Error::Storage("duplicate key".to_string()).message(), "duplicate key");
    assert_eq!(Error::Unauthorized(VIEW_DENIED).message(), VIEW_DENIED);
}
