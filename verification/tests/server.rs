use blog_core::application::auth_service::{
    answer_login, check_credentials, stored_or_error, subject_of,
};
use blog_core::application::blog_service::{answer, classify};
use blog_core::application::{AuthService, BlogService};
use blog_core::blog_grpc;
use blog_core::data::post_repository::{MemoryPostRepository, PostRepository, PostRepositoryError};
use blog_core::data::user_repository::{check_unique, MemoryUserRepository, UserRepository};
use blog_core::domain::auth::{Auth, Login, User};
use blog_core::domain::error::{BlogError, DomainError, GrpcCode};
use blog_core::domain::post::{CreatePost, Post, UpdatePost};
use blog_core::ids::UserId;
use blog_core::infrastructure::security::{password_hash, Claims, JwtService, TokenError};
use blog_core::presentation::auth::{
    authorize, bearer_token, extract_user_from_token, AuthenticatedUser, Authorization,
};
use blog_core::presentation::dto::{default_limit, default_offset, PaginationParams};
use blog_core::presentation::grpc_service::{
    create_for, delete_for, extract_token_from_metadata, into_wire_posts, merge_update,
    update_for, BlogGrpcService,
};
use blog_core::presentation::handlers::{protect, public};

const SECRET: &str = "0123456789abcdef0123456789abcdef";

fn auth_service() -> AuthService<MemoryUserRepository> {
    AuthService::new(MemoryUserRepository::new(), JwtService::new(SECRET.to_string(), 1440))
}

fn blog_service() -> BlogService<MemoryPostRepository> {
    BlogService::new(MemoryPostRepository::new())
}

fn grpc() -> BlogGrpcService<MemoryUserRepository, MemoryPostRepository> {
    BlogGrpcService::new(auth_service(), blog_service())
}

fn credentials(name: &str, email: &str, password: &str) -> Auth {
    Auth { username: name.to_string(), email: email.to_string(), password: password.to_string() }
}

fn new_post(title: &str, content: &str) -> CreatePost {
    CreatePost { title: title.to_string(), content: content.to_string() }
}

fn bearer(token: &str) -> Authorization {
    Authorization::Value(format!("Bearer {}", token))
}

#[test]
fn registering_the_same_username_twice_fails_and_keeps_the_first_actor() {
    let mut auth = auth_service();
    let first = auth.register(credentials("alice", "alice@example.com", "pw1")).unwrap();
    let second = auth.register(credentials("alice", "other@example.com", "pw2"));
    assert!(matches!(second, Err(BlogError::Validation(m)) if m == "Username exists"));
    let kept = auth.get_user(first.id).unwrap();
    assert_eq!(kept.username, "alice");
    assert_eq!(kept.email, "alice@example.com");
    assert_eq!(kept.password_hash, first.password_hash);
    assert!(auth.login_by_username("alice", "pw1").is_ok());
    assert!(matches!(auth.login_by_username("alice", "pw2"), Err(BlogError::Unautorized)));
}

#[test]
fn registering_a_taken_email_fails() {
    let mut auth = auth_service();
    auth.register(credentials("alice", "a@example.com", "pw")).unwrap();
    let second = auth.register(credentials("bob", "a@example.com", "pw"));
    assert!(matches!(second, Err(BlogError::Validation(m)) if m == "email exists"));
    assert!(matches!(auth.login_by_username("bob", "pw"), Err(BlogError::Unautorized)));
}

#[test]
fn a_second_registration_with_anothers_email_reports_the_row_that_was_found() {
    let mut auth = auth_service();
    auth.register(credentials("carol", "c@example.com", "pw")).unwrap();
    auth.register(credentials("alice", "a@example.com", "pw")).unwrap();
    let again = auth.register(credentials("alice", "c@example.com", "pw"));
    assert!(matches!(again, Err(BlogError::Validation(m)) if m == "email exists"));
    let again = auth.register(credentials("alice", "a@example.com", "pw"));
    assert!(matches!(again, Err(BlogError::Validation(m)) if m == "Username exists"));
    assert!(auth.login_by_username("alice", "pw").is_ok());
    assert!(auth.login_by_username("carol", "pw").is_ok());
}

#[test]
fn registration_stores_a_hash_and_never_the_password() {
    let mut auth = auth_service();
    let stored = auth.register(credentials("alice", "a@example.com", "plain text")).unwrap();
    assert_ne!(stored.password_hash, "plain text");
    assert!(stored.password_hash.starts_with("$argon2"));
    assert_eq!(stored.username, "alice");
    assert_eq!(stored.email, "a@example.com");
}

#[test]
fn login_folds_unknown_name_and_wrong_password_into_one_error() {
    let mut auth = auth_service();
    auth.register(credentials("alice", "a@example.com", "pw")).unwrap();
    let unknown = auth.login_by_username("nobody", "pw");
    let wrong = auth.login_by_username("alice", "nope");
    assert!(matches!(unknown, Err(BlogError::Unautorized)));
    assert!(matches!(wrong, Err(BlogError::Unautorized)));
}

#[test]
fn login_answers_with_the_actor_and_a_token_for_it() {
    let mut auth = auth_service();
    let alice = auth.register(credentials("alice", "a@example.com", "pw")).unwrap();
    let answer = auth.login_by_username("alice", "pw").unwrap();
    assert_eq!(answer.uuid, alice.id);
    let claims = auth.keys().verify_token(&answer.token).unwrap();
    assert_eq!(claims.sub, alice.id.to_text());
}

#[test]
fn a_token_resolves_to_the_actor_it_was_issued_for_and_to_no_other() {
    let mut auth = auth_service();
    let alice = auth.register(credentials("alice", "a@example.com", "pw")).unwrap();
    let bob = auth.register(credentials("bob", "b@example.com", "pw")).unwrap();
    let for_alice = auth.login_by_username("alice", "pw").unwrap().token;
    let for_bob = auth.login_by_username("bob", "pw").unwrap().token;
    assert_eq!(auth.resolve(&for_alice).unwrap().id, alice.id);
    assert_eq!(auth.resolve(&for_bob).unwrap().id, bob.id);
    assert_ne!(auth.resolve(&for_alice).unwrap().id, bob.id);
    assert_eq!(extract_user_from_token(&for_alice, &auth).unwrap().id, alice.id);
}

#[test]
fn a_token_signed_with_another_secret_does_not_resolve() {
    let mut auth = auth_service();
    let alice = auth.register(credentials("alice", "a@example.com", "pw")).unwrap();
    let forger = JwtService::new("another secret, of the same length!".to_string(), 1440);
    let forged = forger.generate_token(alice.id).unwrap();
    assert!(matches!(auth.resolve(&forged), Err(BlogError::Unautorized)));
    assert!(matches!(extract_user_from_token(&forged, &auth), Err(BlogError::Unautorized)));
}

#[test]
fn a_token_for_an_actor_that_is_not_stored_does_not_resolve() {
    let auth = auth_service();
    let token = auth.keys().generate_token(UserId(42)).unwrap();
    assert!(auth.keys().verify_token(&token).is_ok());
    assert!(matches!(auth.resolve(&token), Err(BlogError::Unautorized)));
}

#[test]
fn get_user_reports_a_missing_actor_as_not_found() {
    let auth = auth_service();
    assert!(matches!(
        auth.get_user(UserId(1)),
        Err(BlogError::NotFound(m)) if m == "user not found"
    ));
}

#[test]
fn check_credentials_decides_by_lookup_and_hash() {
    let hash = password_hash("pw").unwrap();
    let user = || User::new("alice".to_string(), "a@example.com".to_string(), hash.clone());
    assert_eq!(check_credentials(Ok(user()), "pw").unwrap().username, "alice");
    assert!(matches!(check_credentials(Ok(user()), "no"), Err(BlogError::Unautorized)));
    assert!(matches!(
        check_credentials(Err(DomainError::UserNotFound), "pw"),
        Err(BlogError::Unautorized)
    ));
    assert!(matches!(
        check_credentials(Err(DomainError::Internal("down".to_string())), "pw"),
        Err(BlogError::Unautorized)
    ));
    let broken = User::new("alice".to_string(), "a@example.com".to_string(), "junk".to_string());
    assert!(matches!(check_credentials(Ok(broken), "pw"), Err(BlogError::Unautorized)));
}

#[test]
fn answer_login_maps_a_signing_failure_to_internal() {
    let user = User::new("alice".to_string(), "a@example.com".to_string(), "h".to_string());
    let ok = answer_login(&user, Ok("token".to_string())).unwrap();
    assert_eq!((ok.token.as_str(), ok.uuid), ("token", user.id));
    let failed = answer_login(&user, Err(TokenError::Signing("boom".to_string())));
    assert!(matches!(failed, Err(BlogError::Internal(m)) if m == "Signing failed: boom"));
}

#[test]
fn subject_of_reads_the_identifier_or_refuses() {
    let claims = |sub: &str| Claims { sub: sub.to_string(), exp: 2, iat: 1 };
    assert_eq!(
        subject_of(Ok(claims("00000000-0000-0000-0000-00000000002a"))).unwrap(),
        UserId(42)
    );
    assert!(matches!(subject_of(Ok(claims("alice"))), Err(BlogError::Unautorized)));
    assert!(matches!(subject_of(Err(TokenError::InvalidToken)), Err(BlogError::Unautorized)));
}

#[test]
fn check_unique_classifies_by_the_field_that_collided() {
    let user = |name: &str, email: &str| {
        User::new(name.to_string(), email.to_string(), "h".to_string())
    };
    let candidate = user("alice", "a@example.com");
    assert!(check_unique(None, &candidate).is_ok());
    let same_name = user("alice", "x@example.com");
    assert!(matches!(
        check_unique(Some(&same_name), &candidate),
        Err(DomainError::Validation(m)) if m == "Username exists"
    ));
    let same_email = user("bob", "a@example.com");
    assert!(matches!(
        check_unique(Some(&same_email), &candidate),
        Err(DomainError::Validation(m)) if m == "email exists"
    ));
    let both = user("alice", "a@example.com");
    assert!(matches!(
        check_unique(Some(&both), &candidate),
        Err(DomainError::Validation(m)) if m == "Username exists"
    ));
    let neither = user("bob", "b@example.com");
    assert!(check_unique(Some(&neither), &candidate).is_ok());
}

#[test]
fn user_store_finds_by_id_name_and_email() {
    let mut repo = MemoryUserRepository::new();
    let alice = User::new("alice".to_string(), "a@example.com".to_string(), "h".to_string());
    let id = alice.id;
    let stored = repo.create_user(alice).unwrap();
    assert_eq!(stored.id, id);
    assert_eq!(repo.get_user_by_id(id).unwrap().username, "alice");
    assert_eq!(repo.get_user_by_username("alice").unwrap().id, id);
    assert_eq!(repo.get_user_by_email("a@example.com").unwrap().id, id);
    assert!(matches!(repo.get_user_by_id(UserId(1)), Err(DomainError::UserNotFound)));
    assert!(matches!(repo.get_user_by_username("bob"), Err(DomainError::UserNotFound)));
    assert!(matches!(repo.get_user_by_email("b@example.com"), Err(DomainError::UserNotFound)));
    let twin = User {
        id,
        username: "carol".to_string(),
        email: "c@example.com".to_string(),
        password_hash: "h".to_string(),
        created_at: 0,
    };
    assert!(matches!(repo.create_user(twin), Err(DomainError::Internal(_))));
}

#[test]
fn create_then_get_round_trip() {
    let mut blog = blog_service();
    let author = UserId(7);
    let created = blog.create_post(new_post("T", "C"), author).unwrap();
    let read = blog.get_post_by_id(created.id).unwrap();
    assert_eq!(read.id, created.id);
    assert_eq!(read.title, "T");
    assert_eq!(read.content, "C");
    assert_eq!(read.author_id, author);
    assert_eq!(read.updated_at, None);
    assert_eq!(read.created_at, created.created_at);
}

#[test]
fn get_of_a_missing_post_is_not_found() {
    let mut blog = blog_service();
    assert!(matches!(
        blog.get_post_by_id(1),
        Err(BlogError::NotFound(m)) if m == "Posts not found"
    ));
    let created = blog.create_post(new_post("T", "C"), UserId(7)).unwrap();
    assert!(matches!(blog.get_post_by_id(created.id + 1), Err(BlogError::NotFound(_))));
    assert!(matches!(blog.get_post_by_id(-1), Err(BlogError::NotFound(_))));
}

#[test]
fn two_creations_get_different_ids_and_are_listed_newest_first() {
    let mut blog = blog_service();
    let author = UserId(7);
    let first = blog.create_post(new_post("one", "1"), author).unwrap();
    let second = blog.create_post(new_post("two", "2"), author).unwrap();
    assert_ne!(first.id, second.id);
    let listed = blog.get_next_posts(0, 10).unwrap();
    assert_eq!(listed.len(), 2);
    assert_eq!((listed[0].id, listed[0].title.as_str()), (second.id, "two"));
    assert_eq!((listed[1].id, listed[1].title.as_str()), (first.id, "one"));
}

#[test]
fn listing_pages_through_the_posts() {
    let mut blog = blog_service();
    for n in 1..=5 {
        blog.create_post(new_post(&format!("p{}", n), ""), UserId(1)).unwrap();
    }
    let titles = |posts: Vec<Post>| posts.into_iter().map(|p| p.title).collect::<Vec<_>>();
    assert_eq!(titles(blog.get_next_posts(0, 2).unwrap()), vec!["p5", "p4"]);
    assert_eq!(titles(blog.get_next_posts(2, 2).unwrap()), vec!["p3", "p2"]);
    assert_eq!(titles(blog.get_next_posts(4, 2).unwrap()), vec!["p1"]);
    assert_eq!(titles(blog.get_next_posts(5, 2).unwrap()), Vec::<String>::new());
    assert_eq!(titles(blog.get_next_posts(9, 2).unwrap()), Vec::<String>::new());
    assert_eq!(titles(blog.get_next_posts(0, 0).unwrap()), Vec::<String>::new());
    assert_eq!(blog.get_next_posts(0, i64::MAX).unwrap().len(), 5);
    assert!(matches!(blog.get_next_posts(0, -1), Err(BlogError::Internal(_))));
    assert!(matches!(blog.get_next_posts(-1, 1), Err(BlogError::Internal(_))));
}

#[test]
fn update_replaces_title_and_content_and_keeps_the_rest() {
    let mut blog = blog_service();
    let other = blog.create_post(new_post("other", "o"), UserId(2)).unwrap();
    let created = blog.create_post(new_post("T", "C"), UserId(7)).unwrap();
    let update = UpdatePost { title: "T2".to_string(), content: "C2".to_string() };
    let updated = blog.update_post(&created, update).unwrap();
    assert_eq!(updated.id, created.id);
    assert_eq!(updated.title, "T2");
    assert_eq!(updated.content, "C2");
    assert_eq!(updated.author_id, UserId(7));
    assert_eq!(updated.created_at, created.created_at);
    assert!(updated.updated_at.is_some());
    let read = blog.get_post_by_id(created.id).unwrap();
    assert_eq!((read.title.as_str(), read.content.as_str()), ("T2", "C2"));
    assert_eq!(blog.get_post_by_id(other.id).unwrap().title, "other");
    let listed = blog.get_next_posts(0, 10).unwrap();
    assert_eq!(listed[0].id, created.id);
}

#[test]
fn update_and_delete_of_a_missing_post_are_not_found() {
    let mut blog = blog_service();
    let ghost = Post::new(99, "T".to_string(), "C".to_string(), UserId(7));
    let update = UpdatePost { title: "x".to_string(), content: "y".to_string() };
    assert!(matches!(blog.update_post(&ghost, update), Err(BlogError::NotFound(_))));
    assert!(matches!(blog.delete_post(99), Err(BlogError::NotFound(_))));
}

#[test]
fn delete_removes_only_that_post() {
    let mut blog = blog_service();
    let a = blog.create_post(new_post("a", ""), UserId(1)).unwrap();
    let b = blog.create_post(new_post("b", ""), UserId(1)).unwrap();
    let c = blog.create_post(new_post("c", ""), UserId(1)).unwrap();
    blog.delete_post(b.id).unwrap();
    assert!(matches!(blog.get_post_by_id(b.id), Err(BlogError::NotFound(_))));
    let ids: Vec<i64> = blog.get_next_posts(0, 10).unwrap().iter().map(|p| p.id).collect();
    assert_eq!(ids, vec![c.id, a.id]);
    let d = blog.create_post(new_post("d", ""), UserId(1)).unwrap();
    assert!(d.id != a.id && d.id != b.id && d.id != c.id);
}

#[test]
fn posts_by_user_are_only_that_users() {
    let mut blog = blog_service();
    blog.create_post(new_post("a1", ""), UserId(1)).unwrap();
    blog.create_post(new_post("b1", ""), UserId(2)).unwrap();
    blog.create_post(new_post("a2", ""), UserId(1)).unwrap();
    let mut titles: Vec<String> =
        blog.get_posts_by_user(UserId(1)).unwrap().into_iter().map(|p| p.title).collect();
    titles.sort();
    assert_eq!(titles, vec!["a1", "a2"]);
    assert!(blog.get_posts_by_user(UserId(3)).unwrap().is_empty());
}

#[test]
fn post_store_operations() {
    let mut repo = MemoryPostRepository::new();
    let p = repo.create_post(new_post("T", "C"), UserId(1)).unwrap();
    assert_eq!(p.id, 1);
    assert_eq!(repo.get_post(1).unwrap().title, "T");
    assert!(matches!(repo.get_post(2), Err(PostRepositoryError::NotFound)));
    assert_eq!(repo.get_last_posts(10, None).unwrap().len(), 1);
    assert!(matches!(
        repo.get_last_posts(-1, None),
        Err(PostRepositoryError::DatabaseError(_))
    ));
    let update = UpdatePost { title: "x".to_string(), content: "y".to_string() };
    assert!(matches!(repo.update_post(2, update), Err(PostRepositoryError::NotFound)));
    assert!(matches!(repo.delete_post(2), Err(PostRepositoryError::NotFound)));
    assert!(repo.delete_post(1).is_ok());
    assert!(repo.get_last_posts(10, Some(0)).unwrap().is_empty());
}

#[test]
fn repository_errors_become_errors_of_the_taxonomy() {
    assert!(matches!(
        classify(PostRepositoryError::NotFound, None),
        BlogError::NotFound(m) if m == "Posts not found"
    ));
    assert!(matches!(
        classify(PostRepositoryError::AutorNotFound, Some(UserId(1))),
        BlogError::NotFound(m) if m == "Not found Uuid: 00000000-0000-0000-0000-000000000001"
    ));
    assert!(matches!(
        classify(PostRepositoryError::AutorNotFound, None),
        BlogError::NotFound(m) if m == "Autor not found"
    ));
    assert!(matches!(
        classify(PostRepositoryError::DatabaseError("down".to_string()), None),
        BlogError::Internal(m) if m == "Database error: down"
    ));
}

#[test]
fn repository_answers_pass_through_or_are_classified() {
    assert_eq!(answer(Ok(5), None).unwrap(), 5);
    assert!(matches!(
        answer::<i32>(Err(PostRepositoryError::NotFound), None),
        Err(BlogError::NotFound(m)) if m == "Posts not found"
    ));
    assert!(matches!(
        answer::<i32>(Err(PostRepositoryError::AutorNotFound), Some(UserId(3))),
        Err(BlogError::NotFound(m)) if m == "Not found Uuid: 00000000-0000-0000-0000-000000000003"
    ));
    let user = User::new("alice".to_string(), "a@example.com".to_string(), "h".to_string());
    let id = user.id;
    assert_eq!(stored_or_error(Ok(user)).unwrap().id, id);
    assert!(matches!(
        stored_or_error(Err(DomainError::UserNotFound)),
        Err(BlogError::NotFound(m)) if m == "user not found"
    ));
    assert!(matches!(
        stored_or_error(Err(DomainError::Validation("email exists".to_string()))),
        Err(BlogError::Validation(m)) if m == "email exists"
    ));
}

#[test]
fn ensure_owner_lets_only_the_author_pass() {
    let user = AuthenticatedUser { id: UserId(1) };
    assert!(protect::ensure_owner(UserId(1), &user).is_ok());
    assert!(matches!(protect::ensure_owner(UserId(2), &user), Err(BlogError::Forbidden)));
}

#[test]
fn update_and_delete_by_a_non_owner_are_forbidden_and_change_nothing() {
    let mut blog = blog_service();
    let owner = AuthenticatedUser { id: UserId(1) };
    let intruder = AuthenticatedUser { id: UserId(2) };
    let post = protect::create_post(&owner, &mut blog, new_post("T", "C")).unwrap().body;
    let update = UpdatePost { title: "hacked".to_string(), content: "!".to_string() };
    assert!(matches!(
        protect::update_post(&intruder, &mut blog, post.id, update),
        Err(BlogError::Forbidden)
    ));
    assert!(matches!(
        protect::delete_post(&intruder, &mut blog, post.id),
        Err(BlogError::Forbidden)
    ));
    let read = blog.get_post_by_id(post.id).unwrap();
    assert_eq!((read.title.as_str(), read.content.as_str()), ("T", "C"));
    assert_eq!(read.updated_at, None);
}

#[test]
fn protected_operations_for_the_owner() {
    let mut blog = blog_service();
    let owner = AuthenticatedUser { id: UserId(1) };
    let created = protect::create_post(&owner, &mut blog, new_post("T", "C")).unwrap();
    assert_eq!(created.status, 201);
    assert_eq!(created.body.author_id, UserId(1));
    let update = UpdatePost { title: "T2".to_string(), content: "C2".to_string() };
    let updated = protect::update_post(&owner, &mut blog, created.body.id, update).unwrap();
    assert_eq!(updated.status, 200);
    assert_eq!(updated.body.title, "T2");
    let deleted = protect::delete_post(&owner, &mut blog, created.body.id).unwrap();
    assert_eq!(deleted.status, 200);
    assert_eq!((deleted.body.post, deleted.body.delete), (created.body.id, true));
    assert!(matches!(
        protect::delete_post(&owner, &mut blog, created.body.id),
        Err(BlogError::NotFound(_))
    ));
    let update = UpdatePost { title: "T3".to_string(), content: "C3".to_string() };
    assert!(matches!(
        protect::update_post(&owner, &mut blog, created.body.id, update),
        Err(BlogError::NotFound(_))
    ));
}

#[test]
fn request_id_defaults_to_unknown() {
    assert_eq!(protect::request_id(Some("r-1".to_string())), "r-1");
    assert_eq!(protect::request_id(None), "unknown");
}

#[test]
fn guard_rejects_in_the_stated_order() {
    let mut auth = auth_service();
    auth.register(credentials("alice", "a@example.com", "pw")).unwrap();
    let token = auth.login_by_username("alice", "pw").unwrap().token;

    assert!(matches!(authorize(&Authorization::Missing, &auth), Err(BlogError::Unautorized)));
    assert!(matches!(
        authorize(&Authorization::Unreadable, &auth),
        Err(BlogError::Validation(m)) if m == "Invalid token"
    ));
    assert!(matches!(
        authorize(&Authorization::Value(token.clone()), &auth),
        Err(BlogError::Validation(m)) if m == "invalid authorization header"
    ));
    assert!(matches!(
        authorize(&Authorization::Value(format!("bearer {}", token)), &auth),
        Err(BlogError::Validation(_))
    ));
    assert!(matches!(authorize(&bearer("garbage"), &auth), Err(BlogError::Unautorized)));
    let user = authorize(&bearer(&token), &auth).unwrap();
    assert_eq!(user.id, auth.login_by_username("alice", "pw").unwrap().uuid);
    assert_eq!(bearer_token(&bearer("abc")).unwrap(), "abc");
}

#[test]
fn health_is_ok() {
    let reply = public::health();
    assert_eq!(reply.status, 200);
    assert_eq!(reply.body.status, "ok");
    assert!(reply.body.timestamp > 1_600_000_000);
}

#[test]
fn pagination_defaults() {
    assert_eq!(default_limit(), 10);
    assert_eq!(default_offset(), 0);
    assert_eq!(PaginationParams::from_query(None, None), PaginationParams { limit: 10, offset: 0 });
    assert_eq!(
        PaginationParams::from_query(Some(3), Some(4)),
        PaginationParams { limit: 3, offset: 4 }
    );
}

#[test]
fn end_to_end_register_login_create_list() {
    let mut auth = auth_service();
    let mut blog = blog_service();

    let registered = public::register(&mut auth, credentials("alice", "a@example.com", "pw"))
        .unwrap();
    assert_eq!(registered.status, 200);
    let login = Login { username: "alice".to_string(), password: "pw".to_string() };
    let logged_in = public::login(&auth, &login).unwrap();
    assert_eq!(logged_in.body.uuid, registered.body.uuid);

    let user = authorize(&bearer(&logged_in.body.token), &auth).unwrap();
    protect::create_post(&user, &mut blog, new_post("Hi", "World")).unwrap();

    let page = public::get_post(&blog, &PaginationParams { limit: 10, offset: 0 }).unwrap();
    assert_eq!(page.status, 200);
    assert_eq!(page.body.total, 1);
    assert_eq!((page.body.limit, page.body.offset), (10, 0));
    assert_eq!(page.body.post.len(), 1);
    assert_eq!(page.body.post[0].title, "Hi");
    assert_eq!(page.body.post[0].content, "World");
    assert_eq!(page.body.post[0].author_id, registered.body.uuid);

    let one = public::get_post_by_id(&blog, page.body.post[0].id).unwrap();
    assert_eq!(one.body.post.title, "Hi");
    assert!(matches!(
        public::get_post_by_id(&blog, page.body.post[0].id + 1),
        Err(BlogError::NotFound(_))
    ));
    assert!(matches!(
        public::get_post(&blog, &PaginationParams { limit: -1, offset: 0 }),
        Err(BlogError::Internal(_))
    ));
}

#[test]
fn http_register_of_a_taken_name_is_a_validation_error() {
    let mut auth = auth_service();
    public::register(&mut auth, credentials("alice", "a@example.com", "pw")).unwrap();
    let again = public::register(&mut auth, credentials("alice", "b@example.com", "pw"));
    assert!(matches!(again, Err(BlogError::Validation(m)) if m == "Username exists"));
    let login = Login { username: "alice".to_string(), password: "wrong".to_string() };
    assert!(matches!(public::login(&auth, &login), Err(BlogError::Unautorized)));
}

#[test]
fn grpc_end_to_end() {
    let mut service = grpc();
    let token = service
        .register(blog_grpc::RegisterRequest {
            username: "alice".to_string(),
            email: "a@example.com".to_string(),
            password: "pw".to_string(),
        })
        .unwrap()
        .token;
    let again = service
        .login(blog_grpc::LoginRequest { username: "alice".to_string(), password: "pw".to_string() })
        .unwrap()
        .token;
    let alice = service.actor(&bearer(&token)).unwrap();
    assert_eq!(service.actor(&bearer(&again)).unwrap(), alice);

    let created = service
        .create_post(
            &bearer(&token),
            blog_grpc::CreatePostRequest { title: "Hi".to_string(), content: "World".to_string() },
        )
        .unwrap()
        .post
        .unwrap();
    assert_eq!(created.title, "Hi");
    assert_eq!(created.author_id, alice.to_text());
    assert_eq!(created.updated_at, None);

    let listed = service.list_post(blog_grpc::ListPostsRequest { offset: 0, limit: 10 }).unwrap();
    assert_eq!(listed.total, 1);
    assert_eq!((listed.limit, listed.offset), (10, 0));
    assert_eq!(listed.post.len(), 1);
    assert_eq!(listed.post[0].title, "Hi");
    assert_eq!(listed.post[0].content, "World");
    assert_eq!(listed.post[0].author_id, alice.to_text());

    let read = service.get_post(blog_grpc::GetPostRequest { id: created.id }).unwrap();
    assert_eq!(read.post.unwrap().content, "World");
    let missing = service.get_post(blog_grpc::GetPostRequest { id: created.id + 1 }).unwrap_err();
    assert_eq!(missing.code, GrpcCode::NotFound);
    assert_eq!(missing.message, "Not found: Posts not found");
}

#[test]
fn grpc_update_keeps_what_the_request_leaves_out() {
    let mut service = grpc();
    let token = service
        .register(blog_grpc::RegisterRequest {
            username: "alice".to_string(),
            email: "a@example.com".to_string(),
            password: "pw".to_string(),
        })
        .unwrap()
        .token;
    let id = service
        .create_post(
            &bearer(&token),
            blog_grpc::CreatePostRequest { title: "T".to_string(), content: "C".to_string() },
        )
        .unwrap()
        .post
        .unwrap()
        .id;
    let updated = service
        .update_post(
            &bearer(&token),
            blog_grpc::UpdatePostRequest { id, title: Some("T2".to_string()), content: None },
        )
        .unwrap()
        .post
        .unwrap();
    assert_eq!((updated.title.as_str(), updated.content.as_str()), ("T2", "C"));
    assert!(updated.updated_at.is_some());
    let updated = service
        .update_post(
            &bearer(&token),
            blog_grpc::UpdatePostRequest { id, title: None, content: Some("C2".to_string()) },
        )
        .unwrap()
        .post
        .unwrap();
    assert_eq!((updated.title.as_str(), updated.content.as_str()), ("T2", "C2"));
    let gone = service
        .delete_post(&bearer(&token), blog_grpc::DeletePostRequest { post_id: id })
        .unwrap();
    assert!(gone.success);
    let missing = service
        .delete_post(&bearer(&token), blog_grpc::DeletePostRequest { post_id: id })
        .unwrap_err();
    assert_eq!(missing.code, GrpcCode::NotFound);
}

#[test]
fn grpc_update_and_delete_by_a_non_owner_are_denied() {
    let mut service = grpc();
    let register = |service: &mut BlogGrpcService<MemoryUserRepository, MemoryPostRepository>,
                    name: &str| {
        service
            .register(blog_grpc::RegisterRequest {
                username: name.to_string(),
                email: format!("{}@example.com", name),
                password: "pw".to_string(),
            })
            .unwrap()
            .token
    };
    let alice = register(&mut service, "alice");
    let bob = register(&mut service, "bob");
    let id = service
        .create_post(
            &bearer(&alice),
            blog_grpc::CreatePostRequest { title: "T".to_string(), content: "C".to_string() },
        )
        .unwrap()
        .post
        .unwrap()
        .id;
    let denied = service
        .update_post(
            &bearer(&bob),
            blog_grpc::UpdatePostRequest { id, title: Some("x".to_string()), content: None },
        )
        .unwrap_err();
    assert_eq!(denied.code, GrpcCode::PermissionDenied);
    assert_eq!(denied.message, "Forbidden");
    let denied = service
        .delete_post(&bearer(&bob), blog_grpc::DeletePostRequest { post_id: id })
        .unwrap_err();
    assert_eq!(denied.code, GrpcCode::PermissionDenied);
    let read = service.get_post(blog_grpc::GetPostRequest { id }).unwrap().post.unwrap();
    assert_eq!((read.title.as_str(), read.updated_at), ("T", None));
}

#[test]
fn grpc_guard_statuses() {
    let mut service = grpc();
    let request =
        || blog_grpc::CreatePostRequest { title: "T".to_string(), content: "C".to_string() };
    let missing = service.create_post(&Authorization::Missing, request()).unwrap_err();
    assert_eq!((missing.code, missing.message.as_str()), (GrpcCode::Unauthenticated, "Token not found"));
    let unreadable = service.create_post(&Authorization::Unreadable, request()).unwrap_err();
    assert_eq!(
        (unreadable.code, unreadable.message.as_str()),
        (GrpcCode::InvalidArgument, "Invalid token")
    );
    let no_prefix = service
        .create_post(&Authorization::Value("Token abc".to_string()), request())
        .unwrap_err();
    assert_eq!(
        (no_prefix.code, no_prefix.message.as_str()),
        (GrpcCode::InvalidArgument, "invalid authorization header")
    );
    let bad = service.create_post(&bearer("abc"), request()).unwrap_err();
    assert_eq!((bad.code, bad.message.as_str()), (GrpcCode::Unauthenticated, "Unauthorized"));
    assert_eq!(extract_token_from_metadata(&bearer("abc")).unwrap(), "abc");
    assert!(service.list_post(blog_grpc::ListPostsRequest { offset: 0, limit: 10 })
        .unwrap()
        .post
        .is_empty());
}

#[test]
fn grpc_register_of_a_taken_name_is_invalid_argument() {
    let mut service = grpc();
    let request = || blog_grpc::RegisterRequest {
        username: "alice".to_string(),
        email: "a@example.com".to_string(),
        password: "pw".to_string(),
    };
    service.register(request()).unwrap();
    let again = service.register(request()).unwrap_err();
    assert_eq!(
        (again.code, again.message.as_str()),
        (GrpcCode::InvalidArgument, "Validation error: Username exists")
    );
    let wrong = service
        .login(blog_grpc::LoginRequest { username: "alice".to_string(), password: "no".to_string() })
        .unwrap_err();
    assert_eq!(wrong.code, GrpcCode::Unauthenticated);
}

#[test]
fn wire_posts_round_trip() {
    let post = Post {
        id: 5,
        title: "T".to_string(),
        content: "C".to_string(),
        author_id: UserId(0xa1a2a3a4b1b2c1c2d1d2d3d4d5d6d7d8),
        created_at: 1_700_000_000,
        updated_at: Some(1_700_000_100),
    };
    let wire = post.duplicate().into_wire();
    assert_eq!(wire.id, 5);
    assert_eq!(wire.author_id, "a1a2a3a4-b1b2-c1c2-d1d2-d3d4d5d6d7d8");
    assert_eq!((wire.created_at, wire.updated_at), (1_700_000_000, Some(1_700_000_100)));
    let back = Post::try_from(wire).unwrap();
    assert_eq!(back.author_id, post.author_id);
    assert_eq!((back.id, back.title.as_str(), back.content.as_str()), (5, "T", "C"));
    assert_eq!(back.created_at, 1_700_000_000);
    assert_eq!(back.updated_at, Some(1_700_000_100));
    let all = into_wire_posts(vec![post.duplicate(), post]);
    assert_eq!(all.len(), 2);
    assert_eq!(all[1].title, "T");
}

#[test]
fn a_wire_post_that_was_never_updated_is_read_without_a_time_of_update() {
    let wire = blog_grpc::Post {
        id: 1,
        title: "T".to_string(),
        content: "C".to_string(),
        author_id: "00000000-0000-0000-0000-000000000001".to_string(),
        created_at: 0,
        updated_at: None,
    };
    let post = Post::try_from(wire).unwrap();
    assert_eq!((post.id, post.title.as_str(), post.content.as_str()), (1, "T", "C"));
    assert_eq!(post.author_id, UserId(1));
    assert_eq!(post.created_at, 0);
    assert_eq!(post.updated_at, None);
    let again = Post::try_from(post.duplicate().into_wire()).unwrap();
    assert_eq!(again.updated_at, None);
    assert_eq!(again.author_id, UserId(1));
}

#[test]
fn wire_posts_are_read_within_the_range_of_dates_and_not_beyond() {
    let wire = |created_at: i64| blog_grpc::Post {
        id: 1,
        title: "T".to_string(),
        content: "C".to_string(),
        author_id: "00000000-0000-0000-0000-000000000001".to_string(),
        created_at,
        updated_at: None,
    };
    assert!(Post::try_from(wire(-8_334_601_228_800)).is_ok());
    assert!(Post::try_from(wire(-8_334_601_228_801)).is_err());
    assert!(Post::try_from(wire(8_210_266_876_799)).is_ok());
    assert!(Post::try_from(wire(8_210_266_876_800)).is_err());
    assert!(Post::try_from(wire(i64::MIN)).is_err());
}

#[test]
fn the_resolved_actor_decides_update_and_delete_over_grpc() {
    let mut blog = blog_service();
    let post = blog.create_post(new_post("T", "C"), UserId(1)).unwrap();
    let update = |title: &str| blog_grpc::UpdatePostRequest {
        id: post.id,
        title: Some(title.to_string()),
        content: None,
    };
    let denied = update_for(&mut blog, UserId(2), update("x")).unwrap_err();
    assert_eq!((denied.code, denied.message.as_str()), (GrpcCode::PermissionDenied, "Forbidden"));
    let denied =
        delete_for(&mut blog, UserId(2), blog_grpc::DeletePostRequest { post_id: post.id })
            .unwrap_err();
    assert_eq!(denied.code, GrpcCode::PermissionDenied);
    assert_eq!(blog.get_post_by_id(post.id).unwrap().title, "T");

    let missing = update_for(
        &mut blog,
        UserId(1),
        blog_grpc::UpdatePostRequest { id: post.id + 1, title: None, content: None },
    )
    .unwrap_err();
    assert_eq!(
        (missing.code, missing.message.as_str()),
        (GrpcCode::NotFound, "Not found: Posts not found")
    );

    let changed = update_for(&mut blog, UserId(1), update("T2")).unwrap().post.unwrap();
    assert_eq!((changed.title.as_str(), changed.content.as_str()), ("T2", "C"));
    let created = create_for(
        &mut blog,
        UserId(3),
        blog_grpc::CreatePostRequest { title: "N".to_string(), content: "M".to_string() },
    )
    .unwrap()
    .post
    .unwrap();
    assert_eq!(created.author_id, UserId(3).to_text());
    assert!(delete_for(&mut blog, UserId(1), blog_grpc::DeletePostRequest { post_id: post.id })
        .unwrap()
        .success);
    let gone = delete_for(&mut blog, UserId(1), blog_grpc::DeletePostRequest { post_id: post.id })
        .unwrap_err();
    assert_eq!(gone.code, GrpcCode::NotFound);
}

#[test]
fn a_new_user_gets_a_version_4_identifier() {
    let user = User::new("alice".to_string(), "a@example.com".to_string(), "hash".to_string());
    assert_eq!(
        user.id.0 & 0x0000_0000_0000_f000_c000_0000_0000_0000,
        0x0000_0000_0000_4000_8000_0000_0000_0000
    );
    assert_eq!((user.username.as_str(), user.email.as_str()), ("alice", "a@example.com"));
    assert_eq!(user.password_hash, "hash");
}

#[test]
fn a_login_fails_only_for_an_unknown_name_or_a_password_that_is_turned_away() {
    let mut auth = auth_service();
    auth.register(credentials("alice", "a@example.com", "pw")).unwrap();
    assert!(auth.login_by_username("alice", "pw").is_ok());
    assert!(matches!(auth.login_by_username("alice", "pW"), Err(BlogError::Unautorized)));
    assert!(matches!(auth.login_by_username("Alice", "pw"), Err(BlogError::Unautorized)));
    let broken = User::new("bob".to_string(), "b@example.com".to_string(), "junk".to_string());
    auth.enrol(broken).unwrap();
    assert!(matches!(auth.login_by_username("bob", "junk"), Err(BlogError::Unautorized)));
}

#[test]
fn enrolling_classifies_by_the_field_that_collided() {
    let mut auth = auth_service();
    let actor = |name: &str, email: &str| {
        User::new(name.to_string(), email.to_string(), "hash".to_string())
    };
    let alice = auth.enrol(actor("alice", "a@example.com")).unwrap();
    assert_eq!(alice.password_hash, "hash");
    assert!(matches!(
        auth.enrol(actor("alice", "b@example.com")),
        Err(BlogError::Validation(m)) if m == "Username exists"
    ));
    assert!(matches!(
        auth.enrol(actor("bob", "a@example.com")),
        Err(BlogError::Validation(m)) if m == "email exists"
    ));
    let twin = User { id: alice.id, ..actor("carol", "c@example.com") };
    assert!(matches!(auth.enrol(twin), Err(BlogError::Internal(_))));
    assert!(auth.enrol(actor("bob", "b@example.com")).is_ok());
}

#[test]
fn a_token_is_not_accepted_past_its_expiry() {
    // Expired one minute before it was issued: within a leeway of a minute
    // it would still pass.
    let keys = JwtService::new(SECRET.to_string(), -1);
    let token = keys.generate_token(UserId(1)).unwrap();
    assert!(keys.verify_token(&token).is_err());
    let keys = JwtService::new(SECRET.to_string(), 1);
    let token = keys.generate_token(UserId(1)).unwrap();
    assert!(keys.verify_token(&token).is_ok());
}

#[test]
fn wire_post_with_a_bad_author_or_time_is_a_validation_error() {
    let wire = |author: &str, created_at: i64| blog_grpc::Post {
        id: 1,
        title: "T".to_string(),
        content: "C".to_string(),
        author_id: author.to_string(),
        created_at,
        updated_at: None,
    };
    assert!(matches!(Post::try_from(wire("nobody", 0)), Err(BlogError::Validation(_))));
    assert!(matches!(
        Post::try_from(wire("00000000-0000-0000-0000-000000000001", i64::MAX)),
        Err(BlogError::Validation(m)) if m == "9223372036854775807"
    ));
    assert!(Post::try_from(wire("00000000-0000-0000-0000-000000000001", -1)).is_ok());
}

#[test]
fn merge_update_prefers_the_request() {
    let stored = Post::new(1, "T".to_string(), "C".to_string(), UserId(1));
    let merged = merge_update(
        blog_grpc::UpdatePostRequest { id: 1, title: None, content: Some("new".to_string()) },
        &stored,
    );
    assert_eq!((merged.title.as_str(), merged.content.as_str()), ("T", "new"));
    let request = CreatePost::from_wire(blog_grpc::CreatePostRequest {
        title: "a".to_string(),
        content: "b".to_string(),
    });
    assert_eq!((request.title.as_str(), request.content.as_str()), ("a", "b"));
}
