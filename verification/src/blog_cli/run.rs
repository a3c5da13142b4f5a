//! One run of the command line client, as two decisions: the request to
//! send for the command, and what to print and to store for the answer.

use vstd::prelude::*;

use crate::blog_cli::command::{Cli, Commands};
use crate::blog_client::client::{
    failure, settle, settle_auth, settle_post, unreadable_body, Answer, Backend, Request,
};
use crate::blog_client::grpc_client::{GrpcCall, GrpcMessage};
use crate::blog_client::http_client::{Body, HttpRequest, Method};
use crate::blog_client::error::{AppError, AppErrorView};
use crate::blog_client::{BlogClient, Transport};
use crate::blog_grpc::{AuthResponse, DeletePostResponse, ListPostsResponse, Post, PostResponse};
use crate::text::{decimal_int, format_i64, join2, same_text, starts_with};

verus! {

/// The address that the flags name: the server, with `http://` in front
/// unless it is there already, a colon and the port; for gRPC the port
/// 50051 stands in for the HTTP default 8081.
pub open spec fn address(server: Seq<char>, port: Seq<char>, grpc: bool) -> Seq<char> {
    let host = if "http://"@.is_prefix_of(server) {
        server
    } else {
        "http://"@ + server
    };
    if grpc && port == "8081"@ {
        host + ":"@ + "50051"@
    } else {
        host + ":"@ + port
    }
}

/// The transport that the flags choose.
pub fn transport_for(cli: &Cli) -> (r: Transport)
    ensures
        match r {
            Transport::Http(url) => !cli.grpc && url@ == address(cli.server@, cli.port@, false),
            Transport::Grpc(url) => cli.grpc && url@ == address(cli.server@, cli.port@, true),
        },
{
    let host = if starts_with(cli.server.as_str(), "http://") {
        cli.server.clone()
    } else {
        join2("http://", cli.server.as_str())
    };
    let base = join2(host.as_str(), ":");
    if cli.grpc {
        if same_text(cli.port.as_str(), "8081") {
            Transport::Grpc(join2(base.as_str(), "50051"))
        } else {
            Transport::Grpc(join2(base.as_str(), cli.port.as_str()))
        }
    } else {
        Transport::Http(join2(base.as_str(), cli.port.as_str()))
    }
}

/// Which commands need a stored token.
pub open spec fn needs_token(command: Commands) -> bool {
    command is Create || command is Update || command is Delete
}

/// Whether `h` is the HTTP request of `command` to the server at `addr`:
/// the method, the address and the body of the operation.
pub open spec fn http_serves(h: HttpRequest, command: Commands, addr: Seq<char>) -> bool {
    match command {
        Commands::Register(a) => {
            &&& h.method == Method::Post
            &&& h.url@ == addr + "/api/auth/register"@
            &&& h.body matches Body::Register(m) && m.username@ == a.username@ && m.email@
                == a.email@ && m.password@ == a.password@
        },
        Commands::Login(a) => {
            &&& h.method == Method::Post
            &&& h.url@ == addr + "/api/auth/login"@
            &&& h.body matches Body::Login(m) && m.username@ == a.username@ && m.password@
                == a.password@
        },
        Commands::Create(a) => {
            &&& h.method == Method::Post
            &&& h.url@ == addr + "/protect/post"@
            &&& h.body matches Body::CreatePost(m) && m.title@ == a.title@ && m.content@
                == a.content@
        },
        Commands::Get(a) => {
            &&& h.method == Method::Get
            &&& h.url@ == addr + "/api/posts/"@ + decimal_int(a.id as int)
            &&& h.body is Empty
        },
        Commands::Update(a) => {
            &&& h.method == Method::Put
            &&& h.url@ == addr + "/protect/post/"@ + decimal_int(a.id as int)
            &&& h.body matches Body::UpdatePost(m) && m.id == a.id && m.title == a.title
                && m.content == a.content
        },
        Commands::Delete(a) => {
            &&& h.method == Method::Delete
            &&& h.url@ == addr + "/protect/post/"@ + decimal_int(a.id as int)
            &&& h.body is Empty
        },
        Commands::List(a) => {
            &&& h.method == Method::Get
            &&& h.url@ == addr + "/api/posts?limit="@ + decimal_int(a.limit as int) + "&offset="@
                + decimal_int(a.offset as int)
            &&& h.body is Empty
        },
    }
}

/// Whether `g` is the gRPC call of `command`: the method and its message.
pub open spec fn grpc_serves(g: GrpcCall, command: Commands) -> bool {
    match command {
        Commands::Register(a) => g.message matches GrpcMessage::Register(m) && m.username@
            == a.username@ && m.email@ == a.email@ && m.password@ == a.password@,
        Commands::Login(a) => g.message matches GrpcMessage::Login(m) && m.username@
            == a.username@ && m.password@ == a.password@,
        Commands::Create(a) => g.message matches GrpcMessage::CreatePost(m) && m.title@
            == a.title@ && m.content@ == a.content@,
        Commands::Get(a) => g.message matches GrpcMessage::GetPost(m) && m.id == a.id,
        Commands::Update(a) => g.message matches GrpcMessage::UpdatePost(m) && m.id == a.id
            && m.title == a.title && m.content == a.content,
        Commands::Delete(a) => g.message matches GrpcMessage::DeletePost(m) && m.post_id == a.id,
        Commands::List(a) => g.message matches GrpcMessage::ListPost(m) && m.limit == a.limit
            && m.offset == a.offset,
    }
}

/// The request that `command` sends through `client`; `Unauthorized`, and
/// nothing to send, for a command that needs a token where none is stored.
pub fn plan(command: &Commands, client: &BlogClient) -> (r: Result<Request, AppError>)
    ensures
        match r {
            Ok(request) => {
                &&& needs_token(*command) ==> client.token is Some
                &&& request.authorization() == (if needs_token(*command) {
                    Some("Bearer "@ + client.token->0@)
                } else {
                    None
                })
                &&& match request {
                    Request::Http(h) => client.backend matches Backend::Http(c) && http_serves(
                        h,
                        *command,
                        c.addr@,
                    ),
                    Request::Grpc(g) => client.backend is Grpc && grpc_serves(g, *command),
                }
            },
            Err(e) => needs_token(*command) && client.token is None && e is Unauthorized,
        },
{
    match command {
        Commands::Register(args) => Ok(
            client.register(args.username.as_str(), args.email.as_str(), args.password.as_str()),
        ),
        Commands::Login(args) => Ok(client.login(args.username.as_str(), args.password.as_str())),
        Commands::Create(args) => client.create_post(args.title.as_str(), args.content.as_str()),
        Commands::Get(args) => Ok(client.get_post(args.id)),
        Commands::Update(args) => client.update_post(
            args.id,
            args.title.clone(),
            args.content.clone(),
        ),
        Commands::Delete(args) => client.delete_post(args.id),
        Commands::List(args) => Ok(client.list_posts(args.limit, args.offset)),
    }
}

/// The lines that show a post.
pub open spec fn shown(post: crate::blog_grpc::PostView) -> Seq<char> {
    "id: "@ + decimal_int(post.id as int) + ", \ntitle: "@ + post.title + ", \ncontent: "@
        + post.content
}

/// The text that shows a post: its identifier, title and content.
pub fn print_post(post: &Post) -> (r: String)
    ensures
        r@ == shown(post@),
{
    let id = format_i64(post.id);
    let a = join2("id: ", id.as_str());
    let b = join2(a.as_str(), ", \ntitle: ");
    let c = join2(b.as_str(), post.title.as_str());
    let d = join2(c.as_str(), ", \ncontent: ");
    join2(d.as_str(), post.content.as_str())
}

/// What a run leaves: the texts to print, in order, and the token to write
/// to the token file, if the command obtained one.
#[derive(Debug)]
pub struct Report {
    pub lines: Vec<String>,
    pub new_token: Option<String>,
}

/// The texts of a sequence of strings.
pub open spec fn texts(lines: Seq<String>) -> Seq<Seq<char>> {
    lines.map_values(|l: String| l@)
}

/// The report of a registration: two lines `successfully`, and the token.
pub fn report_register(answer: Answer<AuthResponse, AuthResponse>) -> (r: Result<Report, AppError>)
    ensures
        match r {
            Ok(report) => {
                &&& failure(answer, AppErrorView::Unauthorized) is None
                &&& texts(report.lines@) == seq!["successfully"@, "successfully"@]
                &&& report.new_token matches Some(t) && (match answer {
                    Answer::Http(reply) => reply.body matches Some(a) && a.token == t,
                    Answer::Grpc(outcome) => outcome matches Ok(a) && a.token == t,
                })
            },
            Err(e) => failure(answer, AppErrorView::Unauthorized) == Some(e@),
        },
{
    let response = settle_auth(answer)?;
    let mut lines: Vec<String> = Vec::new();
    lines.push("successfully".to_owned());
    lines.push("successfully".to_owned());
    assert(texts(lines@) =~= seq!["successfully"@, "successfully"@]);
    Ok(Report { lines, new_token: Some(response.token) })
}

/// The report of a login: nothing to print, and the token.
pub fn report_login(answer: Answer<AuthResponse, AuthResponse>) -> (r: Result<Report, AppError>)
    ensures
        match r {
            Ok(report) => {
                &&& failure(answer, AppErrorView::Unauthorized) is None
                &&& report.lines@.len() == 0
                &&& report.new_token matches Some(t) && (match answer {
                    Answer::Http(reply) => reply.body matches Some(a) && a.token == t,
                    Answer::Grpc(outcome) => outcome matches Ok(a) && a.token == t,
                })
            },
            Err(e) => failure(answer, AppErrorView::Unauthorized) == Some(e@),
        },
{
    let response = settle_auth(answer)?;
    Ok(Report { lines: Vec::new(), new_token: Some(response.token) })
}

/// The report for a post that a command answered with: the post, if there
/// is one, and no token.
pub fn report_post(response: PostResponse) -> (r: Report)
    ensures
        r.new_token is None,
        texts(r.lines@) == post_lines(response.post),
{
    let mut lines: Vec<String> = Vec::new();
    match response.post {
        Some(post) => {
            lines.push(print_post(&post));
            assert(texts(lines@) =~= seq![shown(post@)]);
        },
        None => {
            assert(texts(lines@) =~= Seq::<Seq<char>>::empty());
        },
    }
    Report { lines, new_token: None }
}

/// The lines that show the post of an answer: the post, or nothing where
/// the answer has none.
pub open spec fn post_lines(post: Option<Post>) -> Seq<Seq<char>> {
    match post {
        Some(p) => seq![shown(p@)],
        None => Seq::<Seq<char>>::empty(),
    }
}

/// The post that the answer to a creation or an update carries: the body
/// over HTTP, the post of the response over gRPC.
pub open spec fn stored_post(answer: Answer<Post, PostResponse>) -> Option<Post> {
    match answer {
        Answer::Http(reply) => reply.body,
        Answer::Grpc(outcome) => match outcome {
            Ok(response) => response.post,
            Err(_) => None,
        },
    }
}

/// The message that an answer carries on either transport.
pub open spec fn message_of<T>(answer: Answer<T, T>) -> Option<T> {
    match answer {
        Answer::Http(reply) => reply.body,
        Answer::Grpc(outcome) => match outcome {
            Ok(response) => Some(response),
            Err(_) => None,
        },
    }
}

/// The report of a creation or an update: the stored post.
pub fn report_stored(answer: Answer<Post, PostResponse>) -> (r: Result<Report, AppError>)
    ensures
        match r {
            Ok(report) => {
                &&& failure(answer, unreadable_body(answer)) is None
                &&& report.new_token is None
                &&& texts(report.lines@) == post_lines(stored_post(answer))
            },
            Err(e) => failure(answer, unreadable_body(answer)) == Some(e@),
        },
{
    let response = settle_post(answer)?;
    Ok(report_post(response))
}

/// The report of a reading: the post that was read.
pub fn report_get(answer: Answer<PostResponse, PostResponse>) -> (r: Result<Report, AppError>)
    ensures
        match r {
            Ok(report) => {
                &&& failure(answer, unreadable_body(answer)) is None
                &&& report.new_token is None
                &&& message_of(answer) matches Some(response) && texts(report.lines@)
                    == post_lines(response.post)
            },
            Err(e) => failure(answer, unreadable_body(answer)) == Some(e@),
        },
{
    let response = settle(answer)?;
    Ok(report_post(response))
}

/// The line that tells of a deletion.
pub open spec fn deleted_line(id: i64) -> Seq<char> {
    "Post with id "@ + decimal_int(id as int) + " was deleted"@
}

/// The report of the deletion of the post `id`: one line where the server
/// says that it succeeded.
pub fn report_delete(id: i64, answer: Answer<DeletePostResponse, DeletePostResponse>) -> (r: Result<
    Report,
    AppError,
>)
    ensures
        match r {
            Ok(report) => {
                &&& failure(answer, unreadable_body(answer)) is None
                &&& report.new_token is None
                &&& message_of(answer) matches Some(response) && texts(report.lines@) == (
                if response.success {
                    seq![deleted_line(id)]
                } else {
                    Seq::<Seq<char>>::empty()
                })
            },
            Err(e) => failure(answer, unreadable_body(answer)) == Some(e@),
        },
{
    let response = settle(answer)?;
    let mut lines: Vec<String> = Vec::new();
    if response.success {
        let number = format_i64(id);
        let head = join2("Post with id ", number.as_str());
        lines.push(join2(head.as_str(), " was deleted"));
        assert(texts(lines@) =~= seq![deleted_line(id)]);
    } else {
        assert(texts(lines@) =~= Seq::<Seq<char>>::empty());
    }
    Ok(Report { lines, new_token: None })
}

/// The report of a listing: every post of the page, in order.
pub fn report_list(answer: Answer<ListPostsResponse, ListPostsResponse>) -> (r: Result<
    Report,
    AppError,
>)
    ensures
        match r {
            Ok(report) => {
                &&& failure(answer, unreadable_body(answer)) is None
                &&& report.new_token is None
                &&& (match answer {
                    Answer::Http(reply) => reply.body matches Some(page) && listing(
                        report.lines@,
                        page.post@,
                    ),
                    Answer::Grpc(outcome) => outcome matches Ok(page) && listing(
                        report.lines@,
                        page.post@,
                    ),
                })
            },
            Err(e) => failure(answer, unreadable_body(answer)) == Some(e@),
        },
{
    let response = settle(answer)?;
    let mut lines: Vec<String> = Vec::new();
    let mut i: usize = 0;
    while i < response.post.len()
        invariant
            i <= response.post@.len(),
            lines@.len() == i,
            forall|k: int| 0 <= k < i ==> (#[trigger] lines@[k])@ == shown(response.post@[k]@),
        decreases response.post@.len() - i,
    {
        lines.push(print_post(&response.post[i]));
        i += 1;
    }
    Ok(Report { lines, new_token: None })
}

/// Whether `lines` shows the posts `posts`, one line each, in order.
pub open spec fn listing(lines: Seq<String>, posts: Seq<Post>) -> bool {
    &&& lines.len() == posts.len()
    &&& forall|k: int| 0 <= k < lines.len() ==> (#[trigger] lines[k])@ == shown(posts[k]@)
}

} // verus!
