use blog_core::blog_cli::command::{
    Cli, Commands, CreateArgs, DeleteArgs, GetArgs, ListArgs, LoginArgs, RegisterArgs, UpdateArgs,
};
use blog_core::blog_cli::run::{
    plan, print_post, report_delete, report_get, report_list, report_login, report_post,
    report_register, report_stored, transport_for,
};
use blog_core::blog_cli::security::{get_token_path, restore_token};
use blog_core::blog_client::client::{
    settle, settle_auth, settle_post, Answer, Backend, Request,
};
use blog_core::blog_client::grpc_client::{call_reply, GrpcClient, GrpcMessage};
use blog_core::blog_client::http_client::{
    auth_reply, get_auth_header, message_reply, post_reply, status_is_success, Body, HttpClient,
    HttpReply, Method,
};
use blog_core::blog_client::{AppError, BlogClient, Transport};
use blog_core::blog_grpc::{
    AuthResponse, DeletePostResponse, ListPostsResponse, Post, PostResponse,
};
use blog_core::domain::error::{BlogError, DetailsError, ErrorResponse, GrpcCode, GrpcStatus};
use blog_core::presentation::auth::{bearer_token, Authorization};
use blog_core::presentation::grpc_service::extract_token_from_metadata;

fn http() -> BlogClient {
    BlogClient::new(Transport::Http("http://127.0.0.1:8081".to_string()))
}

fn grpc() -> BlogClient {
    BlogClient::new(Transport::Grpc("http://127.0.0.1:50051".to_string()))
}

fn post(id: i64) -> Post {
    Post {
        id,
        title: "Hi".to_string(),
        content: "World".to_string(),
        author_id: "00000000-0000-0000-0000-000000000001".to_string(),
        created_at: 1,
        updated_at: None,
    }
}

fn http_of(request: Request) -> blog_core::blog_client::http_client::HttpRequest {
    match request {
        Request::Http(h) => h,
        Request::Grpc(_) => panic!("expected an HTTP request"),
    }
}

fn grpc_of(request: Request) -> blog_core::blog_client::grpc_client::GrpcCall {
    match request {
        Request::Grpc(g) => g,
        Request::Http(_) => panic!("expected a gRPC call"),
    }
}

#[test]
fn the_backend_is_chosen_at_construction() {
    assert!(matches!(http().backend, Backend::Http(c) if c.addr == "http://127.0.0.1:8081"));
    assert!(matches!(grpc().backend, Backend::Grpc(c) if c.url == "http://127.0.0.1:50051"));
    assert!(http().get_token().is_none());
    let copy = Transport::Http("x".to_string()).clone();
    assert!(matches!(copy, Transport::Http(url) if url == "x"));
}

#[test]
fn mutating_commands_without_a_token_fail_locally() {
    for client in [http(), grpc()] {
        assert!(matches!(client.create_post("T", "C"), Err(AppError::Unauthorized)));
        assert!(matches!(client.update_post(1, None, None), Err(AppError::Unauthorized)));
        assert!(matches!(client.delete_post(1), Err(AppError::Unauthorized)));
    }
}

#[test]
fn http_requests_of_the_public_commands() {
    let client = http();
    let r = http_of(client.register("alice", "a@example.com", "pw"));
    assert_eq!(r.method, Method::Post);
    assert_eq!(r.url, "http://127.0.0.1:8081/api/auth/register");
    assert!(r.authorization.is_none());
    assert!(matches!(r.body, Body::Register(m)
        if m.username == "alice" && m.email == "a@example.com" && m.password == "pw"));

    let r = http_of(client.login("alice", "pw"));
    assert_eq!((r.method, r.url.as_str()), (Method::Post, "http://127.0.0.1:8081/api/auth/login"));
    assert!(matches!(r.body, Body::Login(m) if m.username == "alice" && m.password == "pw"));

    let r = http_of(client.get_post(42));
    assert_eq!((r.method, r.url.as_str()), (Method::Get, "http://127.0.0.1:8081/api/posts/42"));
    assert!(matches!(r.body, Body::Empty));

    let r = http_of(client.list_posts(10, 0));
    assert_eq!(r.url, "http://127.0.0.1:8081/api/posts?limit=10&offset=0");
    let r = http_of(client.list_posts(-1, 7));
    assert_eq!(r.url, "http://127.0.0.1:8081/api/posts?limit=-1&offset=7");
}

#[test]
fn http_requests_of_the_protected_commands_carry_the_token() {
    let mut client = http();
    client.set_token("tok".to_string());
    assert_eq!(client.get_token(), Some(&"tok".to_string()));

    let r = http_of(client.create_post("T", "C").unwrap());
    assert_eq!((r.method, r.url.as_str()), (Method::Post, "http://127.0.0.1:8081/protect/post"));
    assert_eq!(r.authorization.as_deref(), Some("Bearer tok"));
    assert!(matches!(r.body, Body::CreatePost(m) if m.title == "T" && m.content == "C"));

    let r = http_of(client.update_post(7, Some("T2".to_string()), None).unwrap());
    assert_eq!((r.method, r.url.as_str()), (Method::Put, "http://127.0.0.1:8081/protect/post/7"));
    assert_eq!(r.authorization.as_deref(), Some("Bearer tok"));
    assert!(matches!(r.body, Body::UpdatePost(m)
        if m.id == 7 && m.title.as_deref() == Some("T2") && m.content.is_none()));

    let r = http_of(client.delete_post(7).unwrap());
    assert_eq!(
        (r.method, r.url.as_str()),
        (Method::Delete, "http://127.0.0.1:8081/protect/post/7")
    );
    assert_eq!(r.authorization.as_deref(), Some("Bearer tok"));
    assert!(matches!(r.body, Body::Empty));
}

#[test]
fn grpc_calls_of_every_command() {
    let mut client = grpc();
    let c = grpc_of(client.register("alice", "a@example.com", "pw"));
    assert!(c.authorization.is_none());
    assert!(matches!(c.message, GrpcMessage::Register(m)
        if m.username == "alice" && m.email == "a@example.com" && m.password == "pw"));
    let c = grpc_of(client.login("alice", "pw"));
    assert!(matches!(c.message, GrpcMessage::Login(m) if m.username == "alice" && m.password == "pw"));
    let c = grpc_of(client.get_post(3));
    assert!(matches!(c.message, GrpcMessage::GetPost(m) if m.id == 3));
    let c = grpc_of(client.list_posts(10, 2));
    assert!(matches!(c.message, GrpcMessage::ListPost(m) if m.limit == 10 && m.offset == 2));

    client.set_token("tok".to_string());
    let c = grpc_of(client.create_post("T", "C").unwrap());
    assert_eq!(c.authorization.as_deref(), Some("Bearer tok"));
    assert!(matches!(c.message, GrpcMessage::CreatePost(m) if m.title == "T" && m.content == "C"));
    let c = grpc_of(client.update_post(3, None, Some("C2".to_string())).unwrap());
    assert_eq!(c.authorization.as_deref(), Some("Bearer tok"));
    assert!(matches!(c.message, GrpcMessage::UpdatePost(m)
        if m.id == 3 && m.title.is_none() && m.content.as_deref() == Some("C2")));
    let c = grpc_of(client.delete_post(3).unwrap());
    assert_eq!(c.authorization.as_deref(), Some("Bearer tok"));
    assert!(matches!(c.message, GrpcMessage::DeletePost(m) if m.post_id == 3));
}

#[test]
fn backends_build_the_same_requests_as_the_dispatcher() {
    let backend = HttpClient::new("http://h");
    assert_eq!(backend.get_post(-5).url, "http://h/api/posts/-5");
    assert_eq!(backend.delete_post("t", 9).url, "http://h/protect/post/9");
    assert_eq!(backend.create_post("t", "a", "b").authorization.as_deref(), Some("Bearer t"));
    let backend = GrpcClient::new("http://g");
    assert_eq!(backend.url, "http://g");
    assert_eq!(backend.delete_post("t", 9).authorization.as_deref(), Some("Bearer t"));
}

#[test]
fn the_auth_header_is_read_back_by_the_guard() {
    let header = get_auth_header("abc.def.ghi");
    assert_eq!(header, "Bearer abc.def.ghi");
    assert_eq!(bearer_token(&Authorization::Value(header.clone())).unwrap(), "abc.def.ghi");
    assert_eq!(
        extract_token_from_metadata(&Authorization::Value(header)).unwrap(),
        "abc.def.ghi"
    );
}

#[test]
fn success_statuses() {
    assert!(status_is_success(200));
    assert!(status_is_success(201));
    assert!(status_is_success(299));
    assert!(!status_is_success(199));
    assert!(!status_is_success(300));
    assert!(!status_is_success(404));
}

fn reply<T>(status: u16, body: Option<T>) -> HttpReply<T> {
    HttpReply { status, body, error: None }
}

fn failed<T>(e: &BlogError) -> HttpReply<T> {
    HttpReply { status: e.status_code(), body: None, error: Some(e.error_response()) }
}

#[test]
fn http_replies_to_register_and_login() {
    let ok = auth_reply(reply(200, Some(AuthResponse { token: "t".to_string() }))).unwrap();
    assert_eq!(ok.token, "t");
    assert!(matches!(auth_reply(reply(200, None)), Err(AppError::Unauthorized)));
    assert!(matches!(
        auth_reply(failed(&BlogError::Validation("Username exists".to_string()))),
        Err(AppError::Validation(m)) if m == "Username exists"
    ));
    assert!(matches!(auth_reply(failed(&BlogError::Unautorized)), Err(AppError::Unauthorized)));
    assert!(matches!(
        auth_reply(reply(503, Some(AuthResponse { token: "t".to_string() }))),
        Err(AppError::Internal(m)) if m == "Server responce: 503"
    ));
}

#[test]
fn http_replies_to_create_and_update() {
    let ok = post_reply(reply(201, Some(post(3)))).unwrap();
    assert_eq!(ok.post.unwrap().id, 3);
    assert!(matches!(
        post_reply(reply(200, None)),
        Err(AppError::Internal(m)) if m == "Server responce: 200"
    ));
    assert!(matches!(post_reply(failed(&BlogError::Forbidden)), Err(AppError::Forbidden)));
    assert!(matches!(
        post_reply(failed(&BlogError::NotFound("Posts not found".to_string()))),
        Err(AppError::NotFound)
    ));
}

#[test]
fn http_replies_with_a_whole_message() {
    let ok = message_reply(reply(200, Some(DeletePostResponse { success: true }))).unwrap();
    assert!(ok.success);
    assert!(matches!(
        message_reply::<PostResponse>(reply(200, None)),
        Err(AppError::Internal(m)) if m == "Server responce: 200"
    ));
    assert!(matches!(
        message_reply::<PostResponse>(failed(&BlogError::NotFound("x".to_string()))),
        Err(AppError::NotFound)
    ));
    let error = ErrorResponse {
        error: "Validation error: bad".to_string(),
        details: Some(DetailsError { resource: "bad".to_string() }),
    };
    assert!(matches!(
        message_reply::<PostResponse>(HttpReply { status: 400, body: None, error: Some(error) }),
        Err(AppError::Validation(m)) if m == "bad"
    ));
}

#[test]
fn grpc_outcomes() {
    assert_eq!(call_reply(Ok(5)).unwrap(), 5);
    assert!(matches!(
        call_reply::<i32>(Err(GrpcStatus::new(GrpcCode::NotFound, "Posts not found"))),
        Err(AppError::NotFound)
    ));
    assert!(matches!(
        call_reply::<i32>(Err(GrpcStatus::new(GrpcCode::PermissionDenied, "no"))),
        Err(AppError::Forbidden)
    ));
}

#[test]
fn a_missing_post_looks_the_same_over_both_transports() {
    let e = BlogError::NotFound("Posts not found".to_string());
    let over_http: Answer<PostResponse, PostResponse> = Answer::Http(failed(&e));
    let over_grpc: Answer<PostResponse, PostResponse> = Answer::Grpc(Err(e.grpc_status()));
    assert!(matches!(settle(over_http), Err(AppError::NotFound)));
    assert!(matches!(settle(over_grpc), Err(AppError::NotFound)));
}

#[test]
fn answers_settle_on_both_transports() {
    let token = || AuthResponse { token: "t".to_string() };
    assert_eq!(settle_auth(Answer::Http(reply(200, Some(token())))).unwrap().token, "t");
    assert_eq!(settle_auth(Answer::Grpc(Ok(token()))).unwrap().token, "t");
    assert!(matches!(
        settle_auth(Answer::Grpc(Err(GrpcStatus::new(GrpcCode::Unauthenticated, "x")))),
        Err(AppError::Unauthorized)
    ));
    assert_eq!(settle_post(Answer::Http(reply(200, Some(post(1))))).unwrap().post.unwrap().id, 1);
    assert_eq!(
        settle_post(Answer::Grpc(Ok(PostResponse { post: Some(post(2)) }))).unwrap().post.unwrap().id,
        2
    );
    assert!(matches!(
        settle_post(Answer::Http(failed(&BlogError::Forbidden))),
        Err(AppError::Forbidden)
    ));
}

fn cli(grpc: bool, server: &str, port: &str, command: Commands) -> Cli {
    Cli { grpc, server: server.to_string(), port: port.to_string(), command }
}

fn list() -> Commands {
    Commands::List(ListArgs { limit: 10, offset: 0 })
}

#[test]
fn transport_from_the_flags() {
    let url = |t: Transport| match t {
        Transport::Http(u) => format!("http {}", u),
        Transport::Grpc(u) => format!("grpc {}", u),
    };
    assert_eq!(url(transport_for(&cli(false, "127.0.0.1", "8081", list()))), "http http://127.0.0.1:8081");
    assert_eq!(url(transport_for(&cli(true, "127.0.0.1", "8081", list()))), "grpc http://127.0.0.1:50051");
    assert_eq!(url(transport_for(&cli(true, "127.0.0.1", "9000", list()))), "grpc http://127.0.0.1:9000");
    assert_eq!(url(transport_for(&cli(false, "http://blog", "80", list()))), "http http://blog:80");
    assert_eq!(
        url(transport_for(&cli(false, "https://blog", "443", list()))),
        "http http://https://blog:443"
    );
}

#[test]
fn every_command_plans_its_request() {
    let mut client = http();
    client.set_token("tok".to_string());
    let url = |command: Commands| http_of(plan(&command, &client).unwrap()).url;
    let base = "http://127.0.0.1:8081";
    assert_eq!(
        url(Commands::Register(RegisterArgs {
            username: "a".to_string(),
            email: "e".to_string(),
            password: "p".to_string()
        })),
        format!("{}/api/auth/register", base)
    );
    assert_eq!(
        url(Commands::Login(LoginArgs { username: "a".to_string(), password: "p".to_string() })),
        format!("{}/api/auth/login", base)
    );
    assert_eq!(
        url(Commands::Create(CreateArgs { title: "t".to_string(), content: "c".to_string() })),
        format!("{}/protect/post", base)
    );
    assert_eq!(url(Commands::Get(GetArgs { id: 4 })), format!("{}/api/posts/4", base));
    assert_eq!(
        url(Commands::Update(UpdateArgs { id: 4, title: None, content: None })),
        format!("{}/protect/post/4", base)
    );
    assert_eq!(url(Commands::Delete(DeleteArgs { id: 4 })), format!("{}/protect/post/4", base));
    assert_eq!(url(list()), format!("{}/api/posts?limit=10&offset=0", base));
    let update = Commands::Update(UpdateArgs { id: 4, title: Some("t".to_string()), content: None });
    assert_eq!(http_of(plan(&update, &client).unwrap()).method, Method::Put);
    let delete = Commands::Delete(DeleteArgs { id: 4 });
    assert_eq!(http_of(plan(&delete, &client).unwrap()).method, Method::Delete);
}

#[test]
fn planning_a_protected_command_without_a_token_sends_nothing() {
    let client = grpc();
    assert!(matches!(
        plan(&Commands::Delete(DeleteArgs { id: 1 }), &client),
        Err(AppError::Unauthorized)
    ));
    assert!(matches!(plan(&list(), &client), Ok(Request::Grpc(_))));
}

#[test]
fn token_file_path_and_restore() {
    assert_eq!(get_token_path(), ".blog_token");
    let mut client = http();
    restore_token(&mut client, None);
    assert!(client.get_token().is_none());
    restore_token(&mut client, Some("tok".to_string()));
    assert_eq!(client.get_token(), Some(&"tok".to_string()));
    restore_token(&mut client, None);
    assert_eq!(client.get_token(), Some(&"tok".to_string()));
}

#[test]
fn a_post_is_shown_on_three_lines() {
    assert_eq!(print_post(&post(12)), "id: 12, \ntitle: Hi, \ncontent: World");
}

#[test]
fn reports_of_register_and_login() {
    let token = || AuthResponse { token: "t".to_string() };
    let report = report_register(Answer::Grpc(Ok(token()))).unwrap();
    assert_eq!(report.lines, vec!["successfully", "successfully"]);
    assert_eq!(report.new_token.as_deref(), Some("t"));
    let report = report_login(Answer::Http(reply(200, Some(token())))).unwrap();
    assert!(report.lines.is_empty());
    assert_eq!(report.new_token.as_deref(), Some("t"));
    assert!(matches!(
        report_login(Answer::Http(reply::<AuthResponse>(401, None))),
        Err(AppError::Unauthorized)
    ));
}

#[test]
fn reports_of_the_post_commands() {
    let report = report_stored(Answer::Http(reply(201, Some(post(1))))).unwrap();
    assert_eq!(report.lines, vec!["id: 1, \ntitle: Hi, \ncontent: World"]);
    assert!(report.new_token.is_none());
    let report = report_get(Answer::Grpc(Ok(PostResponse { post: None }))).unwrap();
    assert!(report.lines.is_empty());
    let report = report_get(Answer::Grpc(Ok(PostResponse { post: Some(post(7)) }))).unwrap();
    assert_eq!(report.lines, vec!["id: 7, \ntitle: Hi, \ncontent: World"]);
    let report =
        report_stored(Answer::Grpc(Ok(PostResponse { post: Some(post(8)) }))).unwrap();
    assert_eq!(report.lines, vec!["id: 8, \ntitle: Hi, \ncontent: World"]);
    assert!(report_post(PostResponse { post: Some(post(2)) }).lines[0].starts_with("id: 2"));
    assert!(matches!(
        report_get(Answer::Grpc(Err(GrpcStatus::new(GrpcCode::NotFound, "x")))),
        Err(AppError::NotFound)
    ));

    let report = report_delete(5, Answer::Grpc(Ok(DeletePostResponse { success: true }))).unwrap();
    assert_eq!(report.lines, vec!["Post with id 5 was deleted"]);
    let report = report_delete(5, Answer::Grpc(Ok(DeletePostResponse { success: false }))).unwrap();
    assert!(report.lines.is_empty());

    let page = ListPostsResponse { post: vec![post(2), post(1)], total: 2, limit: 10, offset: 0 };
    let report = report_list(Answer::Http(reply(200, Some(page)))).unwrap();
    assert_eq!(report.lines.len(), 2);
    assert!(report.lines[0].starts_with("id: 2"));
    assert!(report.lines[1].starts_with("id: 1"));
}
