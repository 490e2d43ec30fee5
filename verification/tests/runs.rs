use social_cli::editor::{EditorFault, EditorSession};
use social_cli::environment::Environment;
use social_cli::http::{HttpRequest, HttpResponse, Reply};
use social_cli::platform::Platform;
use social_cli::run::{platform_of, start, Action, Composing, Context, Intent, Mode, Posting, Turn};
use social_cli::step::Stage;

fn env_of(pairs: &[(&str, &str)]) -> Environment {
    Environment::new(pairs.iter().map(|(k, v)| (k.to_string(), v.to_string())).collect())
}

fn full_env() -> Environment {
    env_of(&[
        ("BLUESKY_HANDLE", "alice.bsky.social"),
        ("BLUESKY_APP_PASSWORD", "app-pass"),
        ("X_CONSUMER_KEY", "ck"),
        ("X_CONSUMER_SECRET", "cs"),
        ("X_ACCESS_TOKEN", "at"),
        ("X_ACCESS_TOKEN_SECRET", "ats"),
        ("THREADS_ACCESS_TOKEN", "tok"),
        ("THREADS_USER_ID", "4242"),
    ])
}

fn context(env: Environment) -> Context {
    Context { env, created_at: "2024-05-06T07:08:09Z".to_string() }
}

fn answered(status: u16, body: &str) -> Reply {
    Reply::Answered(HttpResponse { status, body: Some(body.to_string()) })
}

/// What a whole run printed and how it ended.
struct Record {
    output: Vec<String>,
    requests: Vec<String>,
    failure: Option<String>,
    code: u8,
}

/// Plays a run to its end against a transport that answers each request by
/// its address.
fn play(mut turn: Turn, transport: &dyn Fn(&HttpRequest) -> Reply) -> Record {
    let mut output = Vec::new();
    let mut requests = Vec::new();
    loop {
        output.append(&mut turn.output);
        let code = turn.action.exit_code();
        match turn.action {
            Action::Exit { failure } => {
                return Record { output, requests, failure, code: code.expect("an exit has a code") };
            }
            Action::Send { request, posting } => {
                assert_eq!(code, None);
                requests.push(request.url.clone());
                turn = posting.replied(transport(&request));
            }
            Action::Compose(_) => panic!("the editor was asked for"),
        }
    }
}

fn composing(turn: Turn) -> Composing {
    assert!(turn.output.is_empty());
    match turn.action {
        Action::Compose(composing) => composing,
        other => panic!("expected the editor, got {:?}", other),
    }
}

fn all_succeed(request: &HttpRequest) -> Reply {
    if request.url.ends_with("createSession") {
        answered(200, r#"{"did":"did:plc:abc","accessJwt":"jwt"}"#)
    } else if request.url.ends_with("createRecord") {
        answered(200, r#"{"uri":"at://did:plc:abc/app.bsky.feed.post/3kkey","cid":"c"}"#)
    } else if request.url.ends_with("/2/tweets") {
        answered(201, r#"{"data":{"id":"1001"}}"#)
    } else if request.url.ends_with("/threads") {
        answered(200, r#"{"id":"2002"}"#)
    } else if request.url.ends_with("/threads_publish") {
        answered(200, r#"{"id":"3003"}"#)
    } else {
        panic!("unexpected request to {}", request.url)
    }
}

#[test]
fn all_platforms_with_one_failure_reports_each_and_exits_zero() {
    let transport = |request: &HttpRequest| {
        if request.url.ends_with("/2/tweets") {
            answered(401, "{\"title\":\"Unauthorized\"}")
        } else {
            all_succeed(request)
        }
    };
    let intent = Intent { platform: None, message: Some("hello".to_string()) };
    let record = play(start(intent, context(full_env())), &transport);
    assert_eq!(record.code, 0);
    assert_eq!(record.failure, None);
    assert_eq!(
        record.output,
        vec![
            "Posting to all platforms...",
            "",
            "\u{2713} Posted to Bluesky successfully!",
            "  https://bsky.app/profile/alice.bsky.social/post/3kkey",
            "\u{2717} Failed to post to X: X API returned error 401 Unauthorized: {\"title\":\"Unauthorized\"}",
            "\u{2713} Posted to Threads successfully!",
            "  https://www.threads.net/t/3003",
            "",
            "Posting complete!",
        ]
    );
    let successes = record.output.iter().filter(|line| line.starts_with('\u{2713}')).count();
    let failures = record.output.iter().filter(|line| line.starts_with('\u{2717}')).count();
    assert_eq!((successes, failures), (2, 1));
    assert_eq!(
        record.requests,
        vec![
            "https://bsky.social/xrpc/com.atproto.server.createSession",
            "https://bsky.social/xrpc/com.atproto.repo.createRecord",
            "https://api.twitter.com/2/tweets",
            "https://graph.threads.net/v1.0/4242/threads",
            "https://graph.threads.net/v1.0/4242/threads_publish",
        ]
    );
}

#[test]
fn single_platform_with_403_exits_nonzero_with_the_cause() {
    let intent = Intent { platform: Some(Platform::X), message: Some("hello".to_string()) };
    let record = play(start(intent, context(full_env())), &|_| answered(403, "forbidden"));
    assert_ne!(record.code, 0);
    assert_eq!(record.code, 1);
    assert_eq!(
        record.failure,
        Some("X API returned error 403 Forbidden: forbidden".to_string())
    );
    assert!(record.output.is_empty());
    assert_eq!(record.requests, vec!["https://api.twitter.com/2/tweets"]);
}

#[test]
fn single_platform_success_reports_the_address() {
    for (platform, requests, url) in [
        (Platform::Bluesky, 2, "https://bsky.app/profile/alice.bsky.social/post/3kkey"),
        (Platform::X, 1, "https://x.com/i/web/status/1001"),
        (Platform::Threads, 2, "https://www.threads.net/t/3003"),
    ] {
        let intent = Intent { platform: Some(platform), message: Some("hello".to_string()) };
        let record = play(start(intent, context(full_env())), &all_succeed);
        assert_eq!(record.code, 0);
        assert_eq!(record.failure, None);
        assert_eq!(record.requests.len(), requests);
        assert_eq!(
            record.output,
            vec![
                format!("\u{2713} Posted to {} successfully!", platform.name()),
                format!("View your post: {}", url),
            ]
        );
    }
}

#[test]
fn all_platforms_all_succeed() {
    let intent = Intent { platform: None, message: Some("hello".to_string()) };
    let record = play(start(intent, context(full_env())), &all_succeed);
    assert_eq!(record.code, 0);
    assert_eq!(record.requests.len(), 5);
    assert_eq!(record.output.len(), 10);
    assert_eq!(record.output[4], "\u{2713} Posted to X successfully!");
    assert_eq!(record.output[5], "  https://x.com/i/web/status/1001");
}

#[test]
fn all_platforms_without_any_credential_send_nothing_and_exit_zero() {
    let intent = Intent { platform: None, message: Some("hello".to_string()) };
    let record = play(start(intent, context(env_of(&[]))), &|request| {
        panic!("unexpected request to {}", request.url)
    });
    assert_eq!(record.code, 0);
    assert!(record.requests.is_empty());
    assert_eq!(
        record.output,
        vec![
            "Posting to all platforms...",
            "",
            "\u{2717} Failed to post to Bluesky: BLUESKY_HANDLE not set in .env file",
            "\u{2717} Failed to post to X: X_CONSUMER_KEY not set in .env file",
            "\u{2717} Failed to post to Threads: THREADS_ACCESS_TOKEN not set in .env file",
            "",
            "Posting complete!",
        ]
    );
}

#[test]
fn missing_credential_in_the_middle_does_not_stop_the_others() {
    let env = Environment::new(
        full_env().vars.into_iter().filter(|(k, _)| k != "X_ACCESS_TOKEN").collect(),
    );
    let intent = Intent { platform: None, message: Some("hello".to_string()) };
    let record = play(start(intent, context(env)), &all_succeed);
    assert_eq!(record.code, 0);
    assert_eq!(record.requests.len(), 4);
    assert!(record.requests.iter().all(|url| !url.contains("twitter")));
    assert_eq!(record.output[4], "\u{2717} Failed to post to X: X_ACCESS_TOKEN not set in .env file");
    assert_eq!(record.output[5], "\u{2713} Posted to Threads successfully!");
}

#[test]
fn single_platform_without_credential_sends_nothing_and_fails() {
    let intent = Intent { platform: Some(Platform::Bluesky), message: Some("hello".to_string()) };
    let env = env_of(&[("BLUESKY_HANDLE", "alice.bsky.social")]);
    let record = play(start(intent, context(env)), &|request| {
        panic!("unexpected request to {}", request.url)
    });
    assert_eq!(record.code, 1);
    assert_eq!(record.failure, Some("BLUESKY_APP_PASSWORD not set in .env file".to_string()));
    assert!(record.requests.is_empty());
    assert!(record.output.is_empty());
}

#[test]
fn unreachable_platform_is_reported_and_the_run_goes_on() {
    let transport = |request: &HttpRequest| {
        if request.url.contains("bsky") {
            Reply::Unreachable
        } else {
            all_succeed(request)
        }
    };
    let intent = Intent { platform: None, message: Some("hello".to_string()) };
    let record = play(start(intent, context(full_env())), &transport);
    assert_eq!(record.code, 0);
    assert_eq!(
        record.output[2],
        "\u{2717} Failed to post to Bluesky: Failed to send request to Bluesky API"
    );
    assert_eq!(record.requests.len(), 4);
}

#[test]
fn the_same_message_goes_to_every_platform() {
    let intent = Intent { platform: None, message: Some("one message".to_string()) };
    let mut turn = start(intent, context(full_env()));
    let mut seen = 0;
    loop {
        match turn.action {
            Action::Send { request, posting } => {
                assert_eq!(posting.message, "one message");
                assert!(matches!(posting.mode, Mode::All { .. }));
                seen += 1;
                turn = posting.replied(all_succeed(&request));
            }
            Action::Exit { failure } => {
                assert_eq!(failure, None);
                break;
            }
            Action::Compose(_) => panic!("the editor was asked for"),
        }
    }
    assert_eq!(seen, 5);
}

#[test]
fn without_a_message_the_editor_is_asked_for() {
    let env = env_of(&[("VISUAL", "code"), ("EDITOR", "nano")]);
    let c = composing(start(Intent { platform: None, message: None }, context(env)));
    assert_eq!(c.editor, "nano");
    assert_eq!(c.platform, None);
    let c = composing(start(
        Intent { platform: Some(Platform::X), message: None },
        context(env_of(&[("VISUAL", "code")])),
    ));
    assert_eq!(c.editor, "code");
    assert_eq!(c.platform, Some(Platform::X));
    let c = composing(start(
        Intent { platform: None, message: Some(String::new()) },
        context(env_of(&[])),
    ));
    assert_eq!(c.editor, "vim");
}

#[test]
fn composed_message_is_posted() {
    let c = composing(start(Intent { platform: Some(Platform::X), message: None }, context(full_env())));
    let turn = c.edited(EditorSession::Saved("from the editor\n# comment\n".to_string()));
    match &turn.action {
        Action::Send { request, posting } => {
            assert_eq!(posting.message, "from the editor");
            assert_eq!(posting.mode, Mode::Single);
            assert_eq!(posting.stage, Stage::Tweet);
            assert_eq!(platform_of(&posting.stage), Platform::X);
            assert_eq!(request.url, "https://api.twitter.com/2/tweets");
        }
        other => panic!("expected a request, got {:?}", other),
    }
    let record = play(turn, &all_succeed);
    assert_eq!(record.code, 0);
}

#[test]
fn failed_composing_ends_the_run_before_any_request() {
    let cases = [
        (EditorSession::Aborted, "Editor exited with non-zero status. Post aborted."),
        (EditorSession::Saved("# nothing\n".to_string()), "Empty message. Post aborted."),
        (EditorSession::Failed(EditorFault::Launch), "Failed to launch editor: vim"),
        (EditorSession::Failed(EditorFault::ReadBack), "Failed to read edited content"),
    ];
    for (session, text) in cases {
        for platform in [None, Some(Platform::Threads)] {
            let c = composing(start(Intent { platform, message: None }, context(full_env())));
            let turn = c.edited(session_copy(&session));
            assert!(turn.output.is_empty());
            assert_eq!(turn.action.exit_code(), Some(1));
            assert_eq!(turn.action, Action::Exit { failure: Some(text.to_string()) });
        }
    }
}

fn session_copy(session: &EditorSession) -> EditorSession {
    match session {
        EditorSession::Failed(fault) => EditorSession::Failed(*fault),
        EditorSession::Aborted => EditorSession::Aborted,
        EditorSession::Saved(text) => EditorSession::Saved(text.clone()),
    }
}

#[test]
fn stages_belong_to_their_platforms() {
    assert_eq!(platform_of(&Stage::Tweet), Platform::X);
    assert_eq!(
        platform_of(&Stage::Login { handle: String::new(), message: String::new(), created_at: String::new() }),
        Platform::Bluesky
    );
    assert_eq!(platform_of(&Stage::Record { handle: String::new() }), Platform::Bluesky);
    assert_eq!(
        platform_of(&Stage::Container { user_id: String::new(), access_token: String::new() }),
        Platform::Threads
    );
    assert_eq!(platform_of(&Stage::Publish), Platform::Threads);
}

#[test]
fn reply_in_a_run_for_all_goes_on_with_the_rest() {
    let posting = Posting {
        mode: Mode::All { rest: vec![Platform::Threads] },
        message: "m".to_string(),
        context: context(full_env()),
        stage: Stage::Tweet,
    };
    let turn = posting.replied(answered(500, "down"));
    assert_eq!(
        turn.output,
        vec!["\u{2717} Failed to post to X: X API returned error 500 Internal Server Error: down"]
    );
    match turn.action {
        Action::Send { request, posting } => {
            assert_eq!(request.url, "https://graph.threads.net/v1.0/4242/threads");
            assert_eq!(posting.mode, Mode::All { rest: vec![] });
        }
        other => panic!("expected a request, got {:?}", other),
    }
}
