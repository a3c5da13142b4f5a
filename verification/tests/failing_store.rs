use blog_core::application::{AuthService, BlogService};
use blog_core::data::post_repository::{PostRepository, PostRepositoryError};
use blog_core::data::user_repository::UserRepository;
use blog_core::domain::auth::{Auth, User};
use blog_core::domain::error::{BlogError, DomainError};
use blog_core::domain::post::{CreatePost, Post, UpdatePost};
use blog_core::ids::UserId;
use blog_core::infrastructure::JwtService;
use blog_core::presentation::auth::AuthenticatedUser;
use blog_core::presentation::handlers::protect;

struct DownUsers;

impl UserRepository for DownUsers {
    fn create_user(&mut self, _user: User) -> Result<User, DomainError> {
        Err(DomainError::Internal("database error: down".to_string()))
    }

    fn get_user_by_id(&self, _id: UserId) -> Result<User, DomainError> {
        Err(DomainError::Internal("database error: down".to_string()))
    }

    fn get_user_by_username(&self, _username: &str) -> Result<User, DomainError> {
        Err(DomainError::Internal("database error: down".to_string()))
    }

    fn get_user_by_email(&self, _email: &str) -> Result<User, DomainError> {
        Err(DomainError::Internal("database error: down".to_string()))
    }
}

struct DownPosts;

impl PostRepository for DownPosts {
    fn create_post(&mut self, _post: CreatePost, _author: UserId) -> Result<Post, PostRepositoryError> {
        Err(PostRepositoryError::AutorNotFound)
    }

    fn get_post(&self, _id: i64) -> Result<Post, PostRepositoryError> {
        Err(PostRepositoryError::DatabaseError("down".to_string()))
    }

    fn get_last_posts(&self, _len: i64, _offset: Option<i64>) -> Result<Vec<Post>, PostRepositoryError> {
        Err(PostRepositoryError::DatabaseError("down".to_string()))
    }

    fn get_posts_by_author(&self, _user: UserId) -> Result<Vec<Post>, PostRepositoryError> {
        Err(PostRepositoryError::AutorNotFound)
    }

    fn update_post(&mut self, _id: i64, _post: UpdatePost) -> Result<Post, PostRepositoryError> {
        Err(PostRepositoryError::DatabaseError("down".to_string()))
    }

    fn delete_post(&mut self, _id: i64) -> Result<(), PostRepositoryError> {
        Err(PostRepositoryError::DatabaseError("down".to_string()))
    }
}

#[test]
fn a_failing_user_store_is_internal_at_registration_and_unauthorized_at_login() {
    let mut auth = AuthService::new(DownUsers, JwtService::new("secret".to_string(), 10));
    let payload = Auth {
        username: "alice".to_string(),
        email: "a@example.com".to_string(),
        password: "pw".to_string(),
    };
    assert!(matches!(
        auth.register(payload),
        Err(BlogError::Internal(m)) if m == "database error: down"
    ));
    assert!(matches!(auth.login_by_username("alice", "pw"), Err(BlogError::Unautorized)));
    assert!(matches!(auth.get_user(UserId(1)), Err(BlogError::Internal(_))));
    let token = auth.keys().generate_token(UserId(1)).unwrap();
    assert!(matches!(auth.resolve(&token), Err(BlogError::Unautorized)));
}

#[test]
fn a_failing_post_store_is_internal_or_not_found_with_the_author() {
    let mut blog = BlogService::new(DownPosts);
    assert!(matches!(
        blog.get_post_by_id(1),
        Err(BlogError::Internal(m)) if m == "Database error: down"
    ));
    assert!(matches!(blog.get_next_posts(0, 10), Err(BlogError::Internal(_))));
    let post = CreatePost { title: "T".to_string(), content: "C".to_string() };
    assert!(matches!(
        blog.create_post(post, UserId(1)),
        Err(BlogError::NotFound(m)) if m == "Not found Uuid: 00000000-0000-0000-0000-000000000001"
    ));
    assert!(matches!(
        blog.get_posts_by_user(UserId(2)),
        Err(BlogError::NotFound(m)) if m == "Not found Uuid: 00000000-0000-0000-0000-000000000002"
    ));
    assert!(matches!(blog.delete_post(1), Err(BlogError::Internal(_))));
    let user = AuthenticatedUser { id: UserId(1) };
    let update = UpdatePost { title: "x".to_string(), content: "y".to_string() };
    assert!(matches!(
        protect::update_post(&user, &mut blog, 1, update),
        Err(BlogError::Internal(_))
    ));
}
