//! The server that keeps fetched posts in a database: its post type and
//! summary, its error type with the responses it turns into, the checks made
//! on the placeholder service's answer, and the cache-then-fetch flow of the
//! post route.

use vstd::prelude::*;

use crate::decimal::{decimal, digit_char, push_decimal};
use crate::placeholder::{post_url, spec_post_url};
use crate::text::{first_chars, lemma_first_chars, push_first_chars};

verus! {

#[verifier::external_type_specification]
#[verifier::external_body]
pub struct ExAnyhowError(anyhow::Error);

/// A blog post.
#[derive(Debug)]
pub struct Post {
    pub id: u32,
    pub title: String,
    pub body: String,
}

impl Clone for Post {
    fn clone(&self) -> (copy: Self)
        ensures
            copy == *self,
    {
        Post { id: self.id, title: self.title.clone(), body: self.body.clone() }
    }
}

/// Something that can be told in one line.
pub trait Summary {
    /// The one-line summary of `self`.
    spec fn summary(&self) -> Seq<char>;

    /// Returns the one-line summary.
    fn summarize(&self) -> (line: String)
        ensures
            line@ == self.summary(),
    ;
}

impl Summary for Post {
    /// `Post #{id}: Title: {first 20 characters of title}..., Body: {first 20
    /// characters of body}...`
    open spec fn summary(&self) -> Seq<char> {
        "Post #"@ + decimal(self.id as nat) + ": Title: "@ + first_chars(self.title@, 20)
            + "..., Body: "@ + first_chars(self.body@, 20) + "..."@
    }

    fn summarize(&self) -> (line: String) {
        let mut line = String::new();
        line.append("Post #");
        push_decimal(&mut line, self.id);
        line.append(": Title: ");
        push_first_chars(&mut line, self.title.as_str(), 20);
        line.append("..., Body: ");
        push_first_chars(&mut line, self.body.as_str(), 20);
        line.append("...");
        line
    }
}

/// Whether `to_string` on `e` gives exactly `text`.
pub open spec fn displays_as(e: &anyhow::Error, text: Seq<char>) -> bool {
    forall|s: String|
        #[trigger] vstd::string::to_string_from_display_ensures::<anyhow::Error>(e, s)
            <==> s@ == text
}

/// `anyhow::Error::msg`: an error that carries `message`. The source shows
/// that its `Display` writes the message and nothing else, which is what is
/// stated; nothing else of the error is visible here.
#[verifier::external_body]
fn error_from_message(message: String) -> (e: anyhow::Error)
    ensures
        displays_as(&e, message@),
{
    anyhow::Error::msg(message)
}

/// Everything that can go wrong while serving a post.
#[derive(Debug)]
pub enum AppError {
    /// The service has no post with this id.
    NotFound(u32),
    /// The request itself is wrong.
    BadRequest(String),
    /// The service answered with a failure.
    ExternalApi(String),
    /// Anything else, with its chain of causes.
    Unexpected(anyhow::Error),
}

impl From<anyhow::Error> for AppError {
    fn from(e: anyhow::Error) -> (err: Self) {
        AppError::Unexpected(e)
    }
}

impl vstd::std_specs::convert::FromSpecImpl<anyhow::Error> for AppError {
    open spec fn obeys_from_spec() -> bool {
        true
    }

    open spec fn from_spec(e: anyhow::Error) -> Self {
        AppError::Unexpected(e)
    }
}

impl AppError {
    /// The text the error displays: the message of each kind, and for an
    /// unexpected error the text of the error it wraps.
    pub fn message(&self) -> (text: String)
        ensures
            match self {
                AppError::NotFound(id) => text@ == "Post with ID "@ + decimal(*id as nat)
                    + " was not found"@,
                AppError::BadRequest(msg) => text@ == "Invalid input: "@ + msg@,
                AppError::ExternalApi(msg) => text@ == "External API error: "@ + msg@,
                AppError::Unexpected(e) => vstd::string::to_string_from_display_ensures::<
                    anyhow::Error,
                >(e, text),
            },
    {
        match self {
            AppError::NotFound(id) => {
                let mut text = String::new();
                text.append("Post with ID ");
                push_decimal(&mut text, *id);
                text.append(" was not found");
                text
            },
            AppError::BadRequest(msg) => {
                let mut text = String::new();
                text.append("Invalid input: ");
                text.append(msg.as_str());
                text
            },
            AppError::ExternalApi(msg) => {
                let mut text = String::new();
                text.append("External API error: ");
                text.append(msg.as_str());
                text
            },
            AppError::Unexpected(e) => e.to_string(),
        }
    }
}

/// A lowercase hexadecimal digit.
pub open spec fn hex_digit(d: int) -> char {
    if d < 10 {
        digit_char(d)
    } else if d == 10 {
        'a'
    } else if d == 11 {
        'b'
    } else if d == 12 {
        'c'
    } else if d == 13 {
        'd'
    } else if d == 14 {
        'e'
    } else {
        'f'
    }
}

/// How `serde_json` writes one character inside a string literal: a quote and
/// a backslash get a backslash in front, backspace, tab, line feed, form feed
/// and carriage return become `\b \t \n \f \r`, the other control
/// characters below U+0020 become `\u00` and two lowercase hex digits, and
/// every other character stays as it is.
pub open spec fn json_escape_char(c: char) -> Seq<char> {
    if c == '"' {
        seq!['\\', '"']
    } else if c == '\\' {
        seq!['\\', '\\']
    } else if c == '\u{8}' {
        seq!['\\', 'b']
    } else if c == '\t' {
        seq!['\\', 't']
    } else if c == '\n' {
        seq!['\\', 'n']
    } else if c == '\u{c}' {
        seq!['\\', 'f']
    } else if c == '\r' {
        seq!['\\', 'r']
    } else if (c as u32) < 0x20 {
        seq!['\\', 'u', '0', '0', hex_digit((c as int) / 16), hex_digit((c as int) % 16)]
    } else {
        seq![c]
    }
}

/// The characters of `text`, each written as [`json_escape_char`] writes it.
pub open spec fn json_escape(text: Seq<char>) -> Seq<char>
    decreases text.len(),
{
    if text.len() == 0 {
        seq![]
    } else {
        json_escape(text.drop_last()) + json_escape_char(text.last())
    }
}

/// The JSON string literal that `serde_json` writes for `text`: the escaped
/// text between double quotes.
pub open spec fn json_string_literal(text: Seq<char>) -> Seq<char> {
    seq!['"'] + json_escape(text) + seq!['"']
}

/// `Display` of `serde_json::Value::String`: the compact JSON form of a
/// string, which is [`json_string_literal`] of it, as the escape table of
/// `serde_json`'s serializer shows.
#[verifier::external_body]
fn json_string(text: &str) -> (literal: String)
    ensures
        literal@ == json_string_literal(text@),
{
    serde_json::Value::String(text.to_string()).to_string()
}

/// The JSON object `{"error": message, "status": status}` in compact form.
pub open spec fn error_body(message: Seq<char>, status: u16) -> Seq<char> {
    "{\"error\":"@ + json_string_literal(message) + ",\"status\":"@ + decimal(status as nat)
        + "}"@
}

/// What the post route answers when it fails: an HTTP status and a JSON body,
/// sent with the JSON content type.
pub struct ErrorResponse {
    pub status: u16,
    pub content_type: &'static str,
    pub body: String,
}

impl AppError {
    /// The HTTP status of the error: 404 Not Found, 400 Bad Request, 502 Bad
    /// Gateway, or 500 Internal Server Error for anything unexpected.
    pub open spec fn status_code(&self) -> u16 {
        match self {
            AppError::NotFound(_) => 404,
            AppError::BadRequest(_) => 400,
            AppError::ExternalApi(_) => 502,
            AppError::Unexpected(_) => 500,
        }
    }

    /// The message shown to the client. An unexpected error shows a fixed
    /// text, so that no internal detail reaches the client.
    pub open spec fn public_message(&self) -> Seq<char> {
        match self {
            AppError::NotFound(id) => "Post "@ + decimal(*id as nat) + " not found"@,
            AppError::BadRequest(msg) => msg@,
            AppError::ExternalApi(msg) => msg@,
            AppError::Unexpected(_) => "An internal server error occurred"@,
        }
    }

    /// Turns the error into the response sent to the client.
    pub fn into_response(self) -> (response: ErrorResponse)
        ensures
            response.status == self.status_code(),
            response.content_type@ == "application/json"@,
            response.body@ == error_body(self.public_message(), self.status_code()),
            match self {
                AppError::NotFound(id) => response.status == 404 && response.body@ == "{\"error\":"@
                    + json_string_literal("Post "@ + decimal(id as nat) + " not found"@)
                    + ",\"status\":"@ + decimal(404) + "}"@,
                AppError::BadRequest(msg) => response.status == 400 && response.body@
                    == "{\"error\":"@ + json_string_literal(msg@) + ",\"status\":"@ + decimal(400)
                    + "}"@,
                AppError::ExternalApi(msg) => response.status == 502 && response.body@
                    == "{\"error\":"@ + json_string_literal(msg@) + ",\"status\":"@ + decimal(502)
                    + "}"@,
                AppError::Unexpected(_) => response.status == 500 && response.body@
                    == "{\"error\":"@ + json_string_literal("An internal server error occurred"@)
                    + ",\"status\":"@ + decimal(500) + "}"@,
            },
    {
        let (status, message): (u16, String) = match self {
            AppError::NotFound(id) => {
                let mut text = String::new();
                text.append("Post ");
                push_decimal(&mut text, id);
                text.append(" not found");
                (404, text)
            },
            AppError::BadRequest(msg) => (400, msg),
            AppError::ExternalApi(msg) => (502, msg),
            AppError::Unexpected(_) => (500, String::from_str("An internal server error occurred")),
        };
        let mut body = String::new();
        body.append("{\"error\":");
        let literal = json_string(message.as_str());
        body.append(literal.as_str());
        body.append(",\"status\":");
        push_decimal(&mut body, status as u32);
        body.append("}");
        ErrorResponse { status, content_type: "application/json", body }
    }
}

/// Whatever went wrong inside, two unexpected errors get the same response:
/// status 500 and the same fixed message, so no internal detail leaks.
pub proof fn lemma_unexpected_errors_look_alike(a: anyhow::Error, b: anyhow::Error)
    ensures
        AppError::Unexpected(a).status_code() == 500,
        AppError::Unexpected(a).status_code() == AppError::Unexpected(b).status_code(),
        error_body(AppError::Unexpected(a).public_message(), 500) == error_body(
            AppError::Unexpected(b).public_message(),
            500,
        ),
{
}

/// The status line that `Display` of an HTTP status code writes, such as
/// `404 Not Found`: the code, a space, and the reason phrase of the code.
pub uninterp spec fn http_status_line(code: u16) -> Seq<char>;

/// `Display` of `axum::http::StatusCode` for the code `code`, named by
/// [`http_status_line`]; the table of reason phrases is not restated here.
/// Status codes run from 100 to 999.
#[verifier::external_body]
fn status_line(code: u16) -> (line: String)
    requires
        100 <= code <= 999,
    ensures
        line@ == http_status_line(code),
{
    match axum::http::StatusCode::from_u16(code) {
        Ok(status) => status.to_string(),
        Err(_) => String::new(),
    }
}

/// Whether an HTTP status code reports success (200 to 299).
pub open spec fn is_success(status: u16) -> bool {
    200 <= status < 300
}

/// What the service's answer for post `id` with HTTP status `status` means,
/// before its body is read: 404 is a missing post, any other status outside
/// 200..=299 is a failure of the service, and a success lets the body be read.
pub fn check_response_status(id: u32, status: u16) -> (checked: Result<(), AppError>)
    requires
        100 <= status <= 999,
    ensures
        status == 404 ==> checked == Err::<(), AppError>(AppError::NotFound(id)),
        status != 404 && !is_success(status) ==> (checked matches Err(
            AppError::ExternalApi(msg),
        ) && msg@ == "External server returned status: "@ + http_status_line(status)),
        is_success(status) ==> checked is Ok,
        200 <= status < 300 ==> checked is Ok,
        (status < 200 || 300 <= status) && status != 404 ==> (checked matches Err(
            AppError::ExternalApi(msg),
        ) && msg@ == "External server returned status: "@ + http_status_line(status)),
{
    if status == 404 {
        return Err(AppError::NotFound(id));
    }
    if !(200 <= status && status < 300) {
        let mut msg = String::new();
        msg.append("External server returned status: ");
        let line = status_line(status);
        msg.append(line.as_str());
        return Err(AppError::ExternalApi(msg));
    }
    Ok(())
}

#[verifier::external_type_specification]
#[verifier::external_body]
pub struct ExReqwestError(reqwest::Error);

/// `anyhow::Error::context` on an error of `reqwest`: the error wrapped with
/// `context` in front of it. The source shows that the `Display` of the result
/// writes the context alone, which is what is stated.
#[verifier::external_body]
fn error_with_context(e: reqwest::Error, context: String) -> (err: anyhow::Error)
    ensures
        displays_as(&err, context@),
{
    anyhow::Error::new(e).context(context)
}

/// The context given to an error in reaching the service.
pub open spec fn reach_failure_context() -> Seq<char> {
    "Attempting to reach the external JSON Placeholder API"@
}

/// The context given to an error in reading post `id` from the service's JSON.
pub open spec fn parse_failure_context(id: u32) -> Seq<char> {
    "Failed to parse JSON for post ID: "@ + decimal(id as nat)
}

/// Where the fetching of a post from the service stands.
#[derive(Debug)]
pub enum FetchPost {
    /// The request for post `id` has been sent; its response is awaited.
    AwaitingResponse { id: u32 },
    /// The response for post `id` was a success; its JSON body is awaited.
    AwaitingBody { id: u32 },
    /// The outcome is known.
    Finished,
}

/// What happened to the last step of a fetch.
pub enum FetchEvent {
    /// The service answered with this HTTP status, or could not be reached.
    Responded { status: Result<u16, reqwest::Error> },
    /// The body was read as a post, or could not be.
    BodyRead { post: Result<Post, reqwest::Error> },
}

/// What the fetch asks to be done next.
pub enum FetchAction {
    /// Send a GET request to this address.
    Send { url: String },
    /// Read the body of the response as a post.
    ReadBody,
    /// The fetch is over, with this outcome.
    Finish { result: Result<Post, AppError> },
}

impl FetchPost {
    /// How many more events the fetch can take before it is finished.
    pub open spec fn steps_left(&self) -> nat {
        match self {
            FetchPost::AwaitingResponse { .. } => 2,
            FetchPost::AwaitingBody { .. } => 1,
            FetchPost::Finished => 0,
        }
    }

    /// Whether `event` is an answer to the step that `self` waits for. A
    /// status is always in 100..=999.
    pub open spec fn expects(&self, event: &FetchEvent) -> bool {
        match (self, event) {
            (FetchPost::AwaitingResponse { .. }, FetchEvent::Responded { status }) => {
                status matches Ok(code) ==> 100 <= *code <= 999
            },
            (FetchPost::AwaitingBody { .. }, FetchEvent::BodyRead { .. }) => true,
            _ => false,
        }
    }

    /// Starts fetching post `id`: the request goes to the post's address.
    pub fn start(id: u32) -> (r: (FetchPost, FetchAction))
        ensures
            r.0 == (FetchPost::AwaitingResponse { id }),
            r.1 matches FetchAction::Send { url } && url@ == spec_post_url(id),
            r.1 matches FetchAction::Send { url } && url@
                == "https://jsonplaceholder.typicode.com/posts/"@ + decimal(id as nat),
    {
        (FetchPost::AwaitingResponse { id }, FetchAction::Send { url: post_url(id) })
    }

    /// The next step of `fetch_external_post` once `event` has happened. An
    /// unreachable service, or a body that is no post, ends the fetch with
    /// an unexpected error whose text is the context of the failure; a 404
    /// ends it with `NotFound`; any other failed status with `ExternalApi`;
    /// a success has the body read, and the post read is the outcome.
    pub fn fetch_external_post(self, event: FetchEvent) -> (r: (FetchPost, FetchAction))
        requires
            self.expects(&event),
        ensures
            r.0.steps_left() < self.steps_left(),
            r.0 == FetchPost::Finished <==> r.1 is Finish,
            self matches FetchPost::AwaitingResponse { id } ==> (event matches FetchEvent::Responded {
                status,
            } ==> (status is Err ==> (r.1 matches FetchAction::Finish {
                result: Err(AppError::Unexpected(e)),
            } && displays_as(&e, "Attempting to reach the external JSON Placeholder API"@)))),
            self matches FetchPost::AwaitingResponse { id } ==> (event matches FetchEvent::Responded {
                status,
            } ==> (status matches Ok(code) ==> (200 <= code < 300 ==> r == (
            FetchPost::AwaitingBody { id },
            FetchAction::ReadBody,
            )))),
            self matches FetchPost::AwaitingBody { id } ==> (event matches FetchEvent::BodyRead {
                post,
            } ==> (post is Err ==> (r.1 matches FetchAction::Finish {
                result: Err(AppError::Unexpected(e)),
            } && displays_as(&e, "Failed to parse JSON for post ID: "@ + decimal(id as nat))))),
            match (self, event) {
                (FetchPost::AwaitingResponse { id }, FetchEvent::Responded { status }) => {
                    match status {
                        Err(_) => {
                            &&& r.0 == FetchPost::Finished
                            &&& r.1 matches FetchAction::Finish {
                                result: Err(AppError::Unexpected(e)),
                            } && displays_as(&e, reach_failure_context())
                        },
                        Ok(code) => if code == 404 {
                            r.0 == FetchPost::Finished && r.1 == (FetchAction::Finish {
                                result: Err(AppError::NotFound(id)),
                            })
                        } else if !is_success(code) {
                            &&& r.0 == FetchPost::Finished
                            &&& r.1 matches FetchAction::Finish {
                                result: Err(AppError::ExternalApi(msg)),
                            } && msg@ == "External server returned status: "@ + http_status_line(
                                code,
                            )
                        } else {
                            r.0 == (FetchPost::AwaitingBody { id }) && r.1 == FetchAction::ReadBody
                        },
                    }
                },
                (FetchPost::AwaitingBody { id }, FetchEvent::BodyRead { post }) => {
                    &&& r.0 == FetchPost::Finished
                    &&& match post {
                        Ok(post) => r.1 == (FetchAction::Finish { result: Ok(post) }),
                        Err(_) => r.1 matches FetchAction::Finish {
                            result: Err(AppError::Unexpected(e)),
                        } && displays_as(&e, parse_failure_context(id)),
                    }
                },
                _ => false,
            },
    {
        match self {
            FetchPost::AwaitingResponse { id } => match event {
                FetchEvent::Responded { status } => match status {
                    Err(e) => {
                        let context = String::from_str(
                            "Attempting to reach the external JSON Placeholder API",
                        );
                        let err = error_with_context(e, context);
                        (FetchPost::Finished, FetchAction::Finish { result: Err(AppError::Unexpected(err)) })
                    },
                    Ok(code) => match check_response_status(id, code) {
                        Err(err) => (FetchPost::Finished, FetchAction::Finish { result: Err(err) }),
                        Ok(()) => (FetchPost::AwaitingBody { id }, FetchAction::ReadBody),
                    },
                },
                FetchEvent::BodyRead { .. } => (FetchPost::Finished, FetchAction::ReadBody),
            },
            FetchPost::AwaitingBody { id } => match event {
                FetchEvent::BodyRead { post } => match post {
                    Ok(post) => (FetchPost::Finished, FetchAction::Finish { result: Ok(post) }),
                    Err(e) => {
                        let mut context = String::new();
                        context.append("Failed to parse JSON for post ID: ");
                        push_decimal(&mut context, id);
                        let err = error_with_context(e, context);
                        (FetchPost::Finished, FetchAction::Finish { result: Err(AppError::Unexpected(err)) })
                    },
                },
                FetchEvent::Responded { .. } => (FetchPost::Finished, FetchAction::ReadBody),
            },
            FetchPost::Finished => (FetchPost::Finished, FetchAction::ReadBody),
        }
    }
}

/// Where the post route stands while it serves a request.
#[derive(Debug)]
pub enum GetPost {
    /// No request has come in yet.
    Waiting,
    /// The database is being asked for post `id`.
    CheckingCache { id: u32 },
    /// Post `id` is not in the database and is being fetched from the service.
    Fetching { id: u32 },
    /// The fetched post is being stored in the database.
    Saving { post: Post },
    /// The request has been answered.
    Answered,
}

/// What happened to the last step of the post route.
pub enum GetPostEvent {
    /// A request for post `id` came in.
    Requested { id: u32 },
    /// The database was asked: it holds the post, or not, or it failed with
    /// this text.
    CacheChecked { cached: Result<Option<Post>, String> },
    /// The fetch from the service ended with this outcome.
    Fetched { fetched: Result<Post, AppError> },
    /// Storing the post succeeded, or failed with this text.
    Saved { saved: Result<(), String> },
}

/// What the post route asks to be done next.
pub enum GetPostAction {
    /// Look post `id` up in the database.
    CheckCache { id: u32 },
    /// Fetch post `id` from the service.
    FetchRemote { id: u32 },
    /// Store this post in the database.
    SavePost { post: Post },
    /// Answer the request with this outcome.
    Answer { result: Result<Post, AppError> },
}

/// The text of a request for an id that is not positive.
pub open spec fn bad_id_message(id: u32) -> Seq<char> {
    "ID "@ + decimal(id as nat) + " is not a positive integer"@
}

impl GetPost {
    /// How many more events the route can take before the request is answered.
    pub open spec fn steps_left(&self) -> nat {
        match self {
            GetPost::Waiting => 4,
            GetPost::CheckingCache { .. } => 3,
            GetPost::Fetching { .. } => 2,
            GetPost::Saving { .. } => 1,
            GetPost::Answered => 0,
        }
    }

    /// Whether `event` is an answer to the step that `self` waits for.
    pub open spec fn expects(&self, event: &GetPostEvent) -> bool {
        match (self, event) {
            (GetPost::Waiting, GetPostEvent::Requested { .. }) => true,
            (GetPost::CheckingCache { .. }, GetPostEvent::CacheChecked { .. }) => true,
            (GetPost::Fetching { .. }, GetPostEvent::Fetched { .. }) => true,
            (GetPost::Saving { .. }, GetPostEvent::Saved { .. }) => true,
            _ => false,
        }
    }

    /// What one step of the post route does: `r` is the next stage and the
    /// action asked for when `event` happens at `self`. Id 0 is refused at
    /// once, before the database is asked; a post found in the database is
    /// served as it is; otherwise the post is fetched, a failed fetch is
    /// answered with its error, and a fetched post is stored before it is
    /// served. A database failure is answered with an unexpected error whose
    /// text tells what failed.
    pub open spec fn step_taken(self, event: GetPostEvent, r: (GetPost, GetPostAction)) -> bool {
        match (self, event) {
            (GetPost::Waiting, GetPostEvent::Requested { id }) => if id == 0 {
                &&& r.0 == GetPost::Answered
                &&& r.1 matches GetPostAction::Answer {
                    result: Err(AppError::BadRequest(msg)),
                } && msg@ == bad_id_message(id)
            } else {
                r.0 == (GetPost::CheckingCache { id }) && r.1 == (GetPostAction::CheckCache {
                    id,
                })
            },
            (GetPost::CheckingCache { id }, GetPostEvent::CacheChecked { cached }) => {
                match cached {
                    Ok(Some(post)) => r.0 == GetPost::Answered && r.1 == (
                    GetPostAction::Answer { result: Ok(post) }),
                    Ok(None) => r.0 == (GetPost::Fetching { id }) && r.1 == (
                    GetPostAction::FetchRemote { id }),
                    Err(detail) => {
                        &&& r.0 == GetPost::Answered
                        &&& r.1 matches GetPostAction::Answer {
                            result: Err(AppError::Unexpected(e)),
                        } && displays_as(&e, "Database error: "@ + detail@)
                    },
                }
            },
            (GetPost::Fetching { .. }, GetPostEvent::Fetched { fetched }) => match fetched {
                Ok(post) => r.0 == (GetPost::Saving { post }) && r.1 == (
                GetPostAction::SavePost { post }),
                Err(e) => r.0 == GetPost::Answered && r.1 == (GetPostAction::Answer {
                    result: Err(e),
                }),
            },
            (GetPost::Saving { post }, GetPostEvent::Saved { saved }) => match saved {
                Ok(()) => r.0 == GetPost::Answered && r.1 == (GetPostAction::Answer {
                    result: Ok(post),
                }),
                Err(detail) => {
                    &&& r.0 == GetPost::Answered
                    &&& r.1 matches GetPostAction::Answer {
                        result: Err(AppError::Unexpected(e)),
                    } && displays_as(&e, "Failed to persist post: "@ + detail@)
                },
            },
            _ => false,
        }
    }

    /// The next step of the post route once `event` has happened, as
    /// [`GetPost::step_taken`] describes it.
    pub fn get_post(self, event: GetPostEvent) -> (r: (GetPost, GetPostAction))
        requires
            self.expects(&event),
        ensures
            r.0.steps_left() < self.steps_left(),
            r.0 == GetPost::Answered <==> r.1 is Answer,
            self.step_taken(event, r),
            self is Waiting ==> (event matches GetPostEvent::Requested { id } ==> (id != 0 ==> r
                == (GetPost::CheckingCache { id }, GetPostAction::CheckCache { id }))),
            self is Waiting ==> (event matches GetPostEvent::Requested { id } ==> (id == 0 ==> (
            r.1 matches GetPostAction::Answer { result: Err(AppError::BadRequest(msg)) }
                && msg@ == "ID "@ + decimal(0) + " is not a positive integer"@))),
    {
        match self {
            GetPost::Waiting => match event {
                GetPostEvent::Requested { id } => {
                    if id == 0 {
                        let mut msg = String::new();
                        msg.append("ID ");
                        push_decimal(&mut msg, id);
                        msg.append(" is not a positive integer");
                        (GetPost::Answered, GetPostAction::Answer { result: Err(AppError::BadRequest(msg)) })
                    } else {
                        (GetPost::CheckingCache { id }, GetPostAction::CheckCache { id })
                    }
                },
                _ => (GetPost::Answered, GetPostAction::CheckCache { id: 0 }),
            },
            GetPost::CheckingCache { id } => match event {
                GetPostEvent::CacheChecked { cached } => match cached {
                    Ok(Some(post)) => (GetPost::Answered, GetPostAction::Answer { result: Ok(post) }),
                    Ok(None) => (GetPost::Fetching { id }, GetPostAction::FetchRemote { id }),
                    Err(detail) => {
                        let mut text = String::new();
                        text.append("Database error: ");
                        text.append(detail.as_str());
                        let e = error_from_message(text);
                        (GetPost::Answered, GetPostAction::Answer { result: Err(AppError::Unexpected(e)) })
                    },
                },
                _ => (GetPost::Answered, GetPostAction::CheckCache { id: 0 }),
            },
            GetPost::Fetching { .. } => match event {
                GetPostEvent::Fetched { fetched } => match fetched {
                    Ok(post) => {
                        let copy = post.clone();
                        (GetPost::Saving { post }, GetPostAction::SavePost { post: copy })
                    },
                    Err(e) => (GetPost::Answered, GetPostAction::Answer { result: Err(e) }),
                },
                _ => (GetPost::Answered, GetPostAction::CheckCache { id: 0 }),
            },
            GetPost::Saving { post } => match event {
                GetPostEvent::Saved { saved } => match saved {
                    Ok(()) => (GetPost::Answered, GetPostAction::Answer { result: Ok(post) }),
                    Err(detail) => {
                        let mut text = String::new();
                        text.append("Failed to persist post: ");
                        text.append(detail.as_str());
                        let e = error_from_message(text);
                        (GetPost::Answered, GetPostAction::Answer { result: Err(AppError::Unexpected(e)) })
                    },
                },
                _ => (GetPost::Answered, GetPostAction::CheckCache { id: 0 }),
            },
            GetPost::Answered => (GetPost::Answered, GetPostAction::CheckCache { id: 0 }),
        }
    }
}

/// A post that the route has served is served again from the database: when
/// a first request ended by storing `post` and answering with it, and the
/// database gives that post back to a later request for the same id, the
/// later request is answered with the same post after asking only the
/// database, with nothing fetched from the service and nothing stored.
pub proof fn lemma_stored_post_is_served_again(
    post: Post,
    id: u32,
    first: (GetPost, GetPostAction),
    lookup: (GetPost, GetPostAction),
    answer: (GetPost, GetPostAction),
)
    requires
        id != 0,
        (GetPost::Saving { post }).step_taken(GetPostEvent::Saved { saved: Ok(()) }, first),
        GetPost::Waiting.step_taken(GetPostEvent::Requested { id }, lookup),
        lookup.0.step_taken(GetPostEvent::CacheChecked { cached: Ok(Some(post)) }, answer),
    ensures
        first.1 == (GetPostAction::Answer { result: Ok(post) }),
        lookup.1 == (GetPostAction::CheckCache { id }),
        answer.0 == GetPost::Answered,
        answer.1 == (GetPostAction::Answer { result: Ok(post) }),
{
}

/// The summary tells the id in decimal, then the first 20 characters of the
/// title (all of it when shorter), then the first 20 characters of the body
/// (all of it when shorter), in this frame.
pub proof fn lemma_summary_cuts_title_and_body(post: &Post)
    ensures
        ({
            let tn = if post.title@.len() <= 20 { post.title@.len() as int } else { 20 };
            let bn = if post.body@.len() <= 20 { post.body@.len() as int } else { 20 };
            post.summary() == "Post #"@ + decimal(post.id as nat) + ": Title: "@
                + post.title@.subrange(0, tn) + "..., Body: "@ + post.body@.subrange(0, bn) + "..."@
        }),
{
    lemma_first_chars(post.title@, 20);
    lemma_first_chars(post.body@, 20);
}


/// Every error becomes the JSON object `{"error": message, "status": code}`
/// with its own code and message: a missing post 404 with `Post {id} not
/// found`, a bad request 400 and an external failure 502 with their message
/// unchanged, and anything unexpected 500 with a fixed text.
pub proof fn lemma_error_responses(e: AppError)
    ensures
        match e {
            AppError::NotFound(id) => e.status_code() == 404 && error_body(
                e.public_message(),
                e.status_code(),
            ) == "{\"error\":"@ + json_string_literal("Post "@ + decimal(id as nat) + " not found"@)
                + ",\"status\":"@ + decimal(404) + "}"@,
            AppError::BadRequest(msg) => e.status_code() == 400 && error_body(
                e.public_message(),
                e.status_code(),
            ) == "{\"error\":"@ + json_string_literal(msg@) + ",\"status\":"@ + decimal(400) + "}"@,
            AppError::ExternalApi(msg) => e.status_code() == 502 && error_body(
                e.public_message(),
                e.status_code(),
            ) == "{\"error\":"@ + json_string_literal(msg@) + ",\"status\":"@ + decimal(502) + "}"@,
            AppError::Unexpected(_) => e.status_code() == 500 && error_body(
                e.public_message(),
                e.status_code(),
            ) == "{\"error\":"@ + json_string_literal("An internal server error occurred"@)
                + ",\"status\":"@ + decimal(500) + "}"@,
        },
{
}

/// Only id 0 is refused: a request for any other id goes to the database
/// lookup for that id, and id 0 is answered with a bad request saying that 0
/// is not a positive integer.
pub proof fn lemma_only_id_zero_is_refused(id: u32, r: (GetPost, GetPostAction))
    requires
        GetPost::Waiting.step_taken(GetPostEvent::Requested { id }, r),
    ensures
        id != 0 ==> r == (GetPost::CheckingCache { id }, GetPostAction::CheckCache { id }),
        id == 0 ==> r.0 == GetPost::Answered && (r.1 matches GetPostAction::Answer {
            result: Err(AppError::BadRequest(msg)),
        } && msg@ == "ID 0 is not a positive integer"@),
{
    if id == 0 {
        reveal_strlit("ID ");
        reveal_strlit(" is not a positive integer");
        reveal_strlit("ID 0 is not a positive integer");
        assert(decimal(0) =~= seq!['0']);
        assert(bad_id_message(0) =~= "ID 0 is not a positive integer"@);
    }
}

/// A request for a post that the database lacks runs in four steps: the
/// database is asked for that id, the post is fetched from the service for
/// that id, the fetched post is stored as it is, and the same post is served.
pub proof fn lemma_missing_post_is_fetched_stored_and_served(
    id: u32,
    post: Post,
    r1: (GetPost, GetPostAction),
    r2: (GetPost, GetPostAction),
    r3: (GetPost, GetPostAction),
    r4: (GetPost, GetPostAction),
)
    requires
        id != 0,
        GetPost::Waiting.step_taken(GetPostEvent::Requested { id }, r1),
        r1.0.step_taken(GetPostEvent::CacheChecked { cached: Ok(None) }, r2),
        r2.0.step_taken(GetPostEvent::Fetched { fetched: Ok(post) }, r3),
        r3.0.step_taken(GetPostEvent::Saved { saved: Ok(()) }, r4),
    ensures
        r1.1 == (GetPostAction::CheckCache { id }),
        r2.1 == (GetPostAction::FetchRemote { id }),
        r3.1 == (GetPostAction::SavePost { post }),
        r4 == (GetPost::Answered, GetPostAction::Answer { result: Ok(post) }),
{
}

/// A request for a post that the database holds is served with that post,
/// after asking only the database.
pub proof fn lemma_cached_post_is_served(
    id: u32,
    post: Post,
    r1: (GetPost, GetPostAction),
    r2: (GetPost, GetPostAction),
)
    requires
        id != 0,
        GetPost::Waiting.step_taken(GetPostEvent::Requested { id }, r1),
        r1.0.step_taken(GetPostEvent::CacheChecked { cached: Ok(Some(post)) }, r2),
    ensures
        r1.1 == (GetPostAction::CheckCache { id }),
        r2 == (GetPost::Answered, GetPostAction::Answer { result: Ok(post) }),
{
}


/// Failures end the request at once: a failed database lookup or store is
/// answered with an unexpected error that tells what failed and why, and a
/// failed fetch is answered with the fetch's own error, unchanged.
pub proof fn lemma_failures_are_answered(
    id: u32,
    post: Post,
    detail: String,
    e: AppError,
    looked_up: (GetPost, GetPostAction),
    stored: (GetPost, GetPostAction),
    fetched: (GetPost, GetPostAction),
)
    requires
        (GetPost::CheckingCache { id }).step_taken(
            GetPostEvent::CacheChecked { cached: Err(detail) },
            looked_up,
        ),
        (GetPost::Saving { post }).step_taken(GetPostEvent::Saved { saved: Err(detail) }, stored),
        (GetPost::Fetching { id }).step_taken(GetPostEvent::Fetched { fetched: Err(e) }, fetched),
    ensures
        looked_up.0 == GetPost::Answered,
        looked_up.1 matches GetPostAction::Answer { result: Err(AppError::Unexpected(err)) }
            && displays_as(&err, "Database error: "@ + detail@),
        stored.0 == GetPost::Answered,
        stored.1 matches GetPostAction::Answer { result: Err(AppError::Unexpected(err)) }
            && displays_as(&err, "Failed to persist post: "@ + detail@),
        fetched == (GetPost::Answered, GetPostAction::Answer { result: Err(e) }),
{
}

} // verus!
