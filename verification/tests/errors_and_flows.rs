use rust_tour::database::{
    check_response_status, AppError, FetchAction, FetchEvent, FetchPost, GetPost, GetPostAction,
    GetPostEvent, Post, Summary,
};

fn post(id: u32) -> Post {
    Post { id, title: String::from("qui est esse"), body: String::from("est rerum tempore") }
}

fn reqwest_failure() -> reqwest::Error {
    reqwest::blocking::get("http://[::1").unwrap_err()
}

#[test]
fn error_messages() {
    assert_eq!(AppError::NotFound(7).message(), "Post with ID 7 was not found");
    assert_eq!(AppError::BadRequest(String::from("x")).message(), "Invalid input: x");
    assert_eq!(AppError::ExternalApi(String::from("y")).message(), "External API error: y");
    assert_eq!(AppError::Unexpected(anyhow::Error::msg("inner")).message(), "inner");
}

#[test]
fn from_anyhow_gives_unexpected() {
    let err: AppError = anyhow::Error::msg("boom").into();
    assert!(matches!(err, AppError::Unexpected(_)));
}

#[test]
fn not_found_response() {
    let r = AppError::NotFound(7).into_response();
    assert_eq!(r.status, 404);
    assert_eq!(r.content_type, "application/json");
    assert_eq!(r.body, "{\"error\":\"Post 7 not found\",\"status\":404}");
}

#[test]
fn bad_request_response_escapes_message() {
    let r = AppError::BadRequest(String::from("say \"hi\"\\\n")).into_response();
    assert_eq!(r.status, 400);
    assert_eq!(r.body, "{\"error\":\"say \\\"hi\\\"\\\\\\n\",\"status\":400}");
}

#[test]
fn external_api_response() {
    let r = AppError::ExternalApi(String::from("down")).into_response();
    assert_eq!(r.status, 502);
    assert_eq!(r.body, "{\"error\":\"down\",\"status\":502}");
}

#[test]
fn unexpected_response_hides_details() {
    let r = AppError::Unexpected(anyhow::Error::msg("password=hunter2")).into_response();
    assert_eq!(r.status, 500);
    assert_eq!(
        r.body,
        "{\"error\":\"An internal server error occurred\",\"status\":500}"
    );
    assert!(!r.body.contains("hunter2"));
}

#[test]
fn status_checks() {
    assert!(matches!(check_response_status(5, 404), Err(AppError::NotFound(5))));
    assert!(check_response_status(5, 200).is_ok());
    assert!(check_response_status(5, 299).is_ok());
    match check_response_status(5, 500) {
        Err(AppError::ExternalApi(msg)) => {
            assert_eq!(msg, "External server returned status: 500 Internal Server Error")
        }
        _ => panic!("expected an external API error"),
    }
    match check_response_status(5, 301) {
        Err(AppError::ExternalApi(msg)) => {
            assert_eq!(msg, "External server returned status: 301 Moved Permanently")
        }
        _ => panic!("expected an external API error"),
    }
}

#[test]
fn database_summary() {
    let p = post(2);
    assert_eq!(
        p.summarize(),
        "Post #2: Title: qui est esse..., Body: est rerum tempore..."
    );
    let q = p.clone();
    assert_eq!(q.id, 2);
    assert_eq!(q.title, p.title);
}

#[test]
fn fetch_goes_to_post_address() {
    let (stage, action) = FetchPost::start(4);
    assert!(matches!(stage, FetchPost::AwaitingResponse { id: 4 }));
    match action {
        FetchAction::Send { url } => assert_eq!(url, "https://jsonplaceholder.typicode.com/posts/4"),
        _ => panic!("expected a request"),
    }
}

#[test]
fn fetch_success_reads_body_then_finishes() {
    let (stage, _) = FetchPost::start(4);
    let (stage, action) = stage.fetch_external_post(FetchEvent::Responded { status: Ok(200) });
    assert!(matches!(stage, FetchPost::AwaitingBody { id: 4 }));
    assert!(matches!(action, FetchAction::ReadBody));
    let (stage, action) = stage.fetch_external_post(FetchEvent::BodyRead { post: Ok(post(4)) });
    assert!(matches!(stage, FetchPost::Finished));
    match action {
        FetchAction::Finish { result: Ok(p) } => assert_eq!(p.id, 4),
        _ => panic!("expected the post"),
    }
}

#[test]
fn fetch_not_found_and_failed_status() {
    let (stage, _) = FetchPost::start(9);
    let (_, action) = stage.fetch_external_post(FetchEvent::Responded { status: Ok(404) });
    assert!(matches!(action, FetchAction::Finish { result: Err(AppError::NotFound(9)) }));
    let (stage, _) = FetchPost::start(9);
    let (_, action) = stage.fetch_external_post(FetchEvent::Responded { status: Ok(503) });
    match action {
        FetchAction::Finish { result: Err(e @ AppError::ExternalApi(_)) } => assert_eq!(
            e.message(),
            "External API error: External server returned status: 503 Service Unavailable"
        ),
        _ => panic!("expected an external API error"),
    }
}

#[test]
fn fetch_unreachable_service_gives_context() {
    let (stage, _) = FetchPost::start(1);
    let (stage, action) =
        stage.fetch_external_post(FetchEvent::Responded { status: Err(reqwest_failure()) });
    assert!(matches!(stage, FetchPost::Finished));
    match action {
        FetchAction::Finish { result: Err(e @ AppError::Unexpected(_)) } => assert_eq!(
            e.message(),
            "Attempting to reach the external JSON Placeholder API"
        ),
        _ => panic!("expected an unexpected error"),
    }
}

#[test]
fn fetch_unreadable_body_gives_context() {
    let (stage, _) = FetchPost::start(17);
    let (stage, _) = stage.fetch_external_post(FetchEvent::Responded { status: Ok(200) });
    let (_, action) = stage.fetch_external_post(FetchEvent::BodyRead { post: Err(reqwest_failure()) });
    match action {
        FetchAction::Finish { result: Err(e @ AppError::Unexpected(_)) } => {
            assert_eq!(e.message(), "Failed to parse JSON for post ID: 17")
        }
        _ => panic!("expected an unexpected error"),
    }
}

#[test]
fn id_zero_is_refused_before_the_database() {
    let (stage, action) = GetPost::Waiting.get_post(GetPostEvent::Requested { id: 0 });
    assert!(matches!(stage, GetPost::Answered));
    match action {
        GetPostAction::Answer { result: Err(e @ AppError::BadRequest(_)) } => {
            assert_eq!(e.message(), "Invalid input: ID 0 is not a positive integer");
            let r = e.into_response();
            assert_eq!(r.status, 400);
            assert_eq!(r.body, "{\"error\":\"ID 0 is not a positive integer\",\"status\":400}");
        }
        _ => panic!("expected a bad request"),
    }
}

#[test]
fn cache_hit_is_served() {
    let (stage, action) = GetPost::Waiting.get_post(GetPostEvent::Requested { id: 3 });
    assert!(matches!(stage, GetPost::CheckingCache { id: 3 }));
    assert!(matches!(action, GetPostAction::CheckCache { id: 3 }));
    let (stage, action) = stage.get_post(GetPostEvent::CacheChecked { cached: Ok(Some(post(3))) });
    assert!(matches!(stage, GetPost::Answered));
    assert!(matches!(action, GetPostAction::Answer { result: Ok(Post { id: 3, .. }) }));
}

#[test]
fn cache_miss_fetches_saves_and_serves() {
    let (stage, _) = GetPost::Waiting.get_post(GetPostEvent::Requested { id: 3 });
    let (stage, action) = stage.get_post(GetPostEvent::CacheChecked { cached: Ok(None) });
    assert!(matches!(stage, GetPost::Fetching { id: 3 }));
    assert!(matches!(action, GetPostAction::FetchRemote { id: 3 }));
    let (stage, action) = stage.get_post(GetPostEvent::Fetched { fetched: Ok(post(3)) });
    assert!(matches!(stage, GetPost::Saving { .. }));
    match &action {
        GetPostAction::SavePost { post } => assert_eq!(post.title, "qui est esse"),
        _ => panic!("expected the post to be saved"),
    }
    let (stage, action) = stage.get_post(GetPostEvent::Saved { saved: Ok(()) });
    assert!(matches!(stage, GetPost::Answered));
    assert!(matches!(action, GetPostAction::Answer { result: Ok(Post { id: 3, .. }) }));
}

#[test]
fn fetch_error_is_passed_on() {
    let (stage, _) = GetPost::Waiting.get_post(GetPostEvent::Requested { id: 3 });
    let (stage, _) = stage.get_post(GetPostEvent::CacheChecked { cached: Ok(None) });
    let (stage, action) =
        stage.get_post(GetPostEvent::Fetched { fetched: Err(AppError::NotFound(3)) });
    assert!(matches!(stage, GetPost::Answered));
    assert!(matches!(action, GetPostAction::Answer { result: Err(AppError::NotFound(3)) }));
}

#[test]
fn database_failures_become_unexpected_errors() {
    let (stage, _) = GetPost::Waiting.get_post(GetPostEvent::Requested { id: 8 });
    let (_, action) =
        stage.get_post(GetPostEvent::CacheChecked { cached: Err(String::from("disk full")) });
    match action {
        GetPostAction::Answer { result: Err(e @ AppError::Unexpected(_)) } => {
            assert_eq!(e.message(), "Database error: disk full");
            assert_eq!(e.into_response().status, 500);
        }
        _ => panic!("expected an unexpected error"),
    }
    let (_, action) = GetPost::Saving { post: post(8) }
        .get_post(GetPostEvent::Saved { saved: Err(String::from("locked")) });
    match action {
        GetPostAction::Answer { result: Err(e @ AppError::Unexpected(_)) } => {
            assert_eq!(e.message(), "Failed to persist post: locked")
        }
        _ => panic!("expected an unexpected error"),
    }
}

#[test]
fn stored_post_is_served_again_from_the_database() {
    let (stage, _) = GetPost::Waiting.get_post(GetPostEvent::Requested { id: 6 });
    let (stage, _) = stage.get_post(GetPostEvent::CacheChecked { cached: Ok(None) });
    let (stage, action) = stage.get_post(GetPostEvent::Fetched { fetched: Ok(post(6)) });
    let stored = match action {
        GetPostAction::SavePost { post } => post,
        _ => panic!("expected the post to be saved"),
    };
    let (_, first) = stage.get_post(GetPostEvent::Saved { saved: Ok(()) });
    assert!(matches!(first, GetPostAction::Answer { result: Ok(Post { id: 6, .. }) }));

    let (stage, lookup) = GetPost::Waiting.get_post(GetPostEvent::Requested { id: 6 });
    assert!(matches!(lookup, GetPostAction::CheckCache { id: 6 }));
    let (stage, answer) = stage.get_post(GetPostEvent::CacheChecked { cached: Ok(Some(stored)) });
    assert!(matches!(stage, GetPost::Answered));
    match answer {
        GetPostAction::Answer { result: Ok(p) } => {
            assert_eq!(p.id, 6);
            assert_eq!(p.title, "qui est esse");
            assert_eq!(p.body, "est rerum tempore");
        }
        _ => panic!("expected the stored post"),
    }
}
