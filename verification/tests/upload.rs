use i_uploader::upload::{
    classify_field, default_as_true, filename_with_extension, generate_random_filename,
    handle_upload, public_path, random_token, FieldKind, Options, Rename, UploadAction,
    UploadEvent, UploadPlan, UploadState,
};
use i_uploader::{Opt, WebError};

fn make_test_opt() -> Opt {
    Opt {
        port: 1337,
        base_dir: "/tmp".into(),
        server_url: "http://test.example.com".into(),
        auth_user: None,
        auth_pass: None,
        recents: 1,
        thumbnail_size: 150,
        max_upload_size: 30 * 1024 * 1024,
    }
}

fn is_token(text: &str) -> bool {
    text.len() == 8 && text.chars().all(|c| c.is_ascii_alphanumeric())
}

/// Feeds `events` to a fresh upload and returns every action with the state at the end.
fn run(events: Vec<UploadEvent>, opt: &Opt) -> (Vec<UploadAction>, UploadState) {
    let mut state = UploadState::new();
    let mut actions = Vec::new();
    for event in events {
        actions.push(handle_upload(&mut state, event, opt));
    }
    (actions, state)
}

fn file_part(name: &str) -> UploadEvent {
    UploadEvent::FilePart { original_filename: name.into() }
}

fn finished(actions: Vec<UploadAction>) -> UploadPlan {
    match actions.into_iter().last() {
        Some(UploadAction::Finish(plan)) => plan,
        other => panic!("the upload did not finish: {other:?}"),
    }
}

const SMALL_FILE: &str = "hellu this is a cute little file UwU\r\n";

#[test]
fn post_small_file() {
    let opt = make_test_opt();
    let (actions, _) = run(
        vec![file_part("original.txt"), UploadEvent::Chunk { len: SMALL_FILE.len() }, UploadEvent::End],
        &opt,
    );
    let reply = finished(actions).reply.unwrap();
    assert_eq!(reply.status, 303);
    assert!(reply.location.is_some());
    assert!(!reply.body.url.is_empty());
}

#[test]
fn post_small_file_original() {
    let opt = make_test_opt();
    let (actions, _) = run(
        vec![
            file_part("original.txt"),
            UploadEvent::Chunk { len: SMALL_FILE.len() },
            UploadEvent::OptionsPart {
                parsed: Some(Options { use_original_filename: true, redirect: true }),
            },
            UploadEvent::End,
        ],
        &opt,
    );
    let reply = finished(actions).reply.unwrap();
    assert_eq!(reply.status, 303);
    assert_eq!(reply.body.url, "http://test.example.com/original.txt");
}

#[test]
fn post_small_file_no_redirect() {
    let opt = make_test_opt();
    let (actions, _) = run(
        vec![
            file_part("original.txt"),
            UploadEvent::Chunk { len: SMALL_FILE.len() },
            UploadEvent::OptionsPart {
                parsed: Some(Options { use_original_filename: false, redirect: false }),
            },
            UploadEvent::End,
        ],
        &opt,
    );
    let reply = finished(actions).reply.unwrap();
    assert_eq!(reply.status, 200);
    assert!(reply.location.is_none());
    assert!(!reply.body.url.is_empty());
}

#[test]
fn post_big_file() {
    let opt = make_test_opt();
    let total = "1234567890abcdef\r\n".len() * 64 * 1024 * 20;
    let mut events = vec![file_part("original.txt")];
    let mut left = total;
    while left > 0 {
        let len = left.min(64 * 1024);
        events.push(UploadEvent::Chunk { len });
        left -= len;
    }
    events.push(UploadEvent::End);
    let (actions, state) = run(events, &opt);
    assert_eq!(state.written_bytes, total);
    let reply = finished(actions).reply.unwrap();
    assert_eq!(reply.status, 303);
    assert!(!reply.body.url.is_empty());
}

#[test]
fn default_options() {
    assert!(default_as_true());
    assert_eq!(Options::default(), Options { use_original_filename: false, redirect: true });
    let fresh = UploadState::new();
    assert_eq!(fresh.file_field, None);
    assert_eq!(fresh.written_bytes, 0);
    assert_eq!(fresh.options_field, Options::default());
}

#[test]
fn fields_are_told_apart_by_name() {
    assert_eq!(classify_field(Some("file")), FieldKind::File);
    assert_eq!(classify_field(Some("options")), FieldKind::Options);
    assert_eq!(classify_field(Some("File")), FieldKind::Other);
    assert_eq!(classify_field(Some("files")), FieldKind::Other);
    assert_eq!(classify_field(Some("")), FieldKind::Other);
    assert_eq!(classify_field(None), FieldKind::Other);
}

#[test]
fn random_token_is_eight_alphanumerics() {
    for _ in 0..200 {
        let token = random_token();
        assert!(is_token(&token), "{token:?}");
    }
}

#[test]
fn random_tokens_differ() {
    let first = random_token();
    let different = (0..20).any(|_| random_token() != first);
    assert!(different);
}

#[test]
fn random_filename_with_extension() {
    for _ in 0..50 {
        let name = generate_random_filename(Some("png"));
        assert_eq!(name.len(), 12);
        assert!(is_token(&name[..8]), "{name:?}");
        assert_eq!(&name[8..], ".png");
    }
}

#[test]
fn random_filename_without_extension() {
    for _ in 0..50 {
        let name = generate_random_filename(None);
        assert!(is_token(&name), "{name:?}");
    }
}

#[test]
fn extension_follows_a_dot() {
    assert_eq!(filename_with_extension("abcdEF12".into(), Some("tar")), "abcdEF12.tar");
    assert_eq!(filename_with_extension("abcdEF12".into(), Some("")), "abcdEF12.");
    assert_eq!(filename_with_extension("abcdEF12".into(), None), "abcdEF12");
}

#[test]
fn file_part_gets_a_random_name_with_the_extension() {
    let opt = make_test_opt();
    let mut state = UploadState::new();
    let action = handle_upload(&mut state, file_part("holiday.picture.JPEG"), &opt);
    let file = state.file_field.clone().unwrap();
    assert_eq!(file.original_filename, "holiday.picture.JPEG");
    assert_eq!(file.random_filename.len(), 8 + ".JPEG".len());
    assert!(is_token(&file.random_filename[..8]));
    assert!(file.random_filename.ends_with(".JPEG"));
    assert_eq!(file.random_filename_path, format!("/tmp/{}", file.random_filename));
    assert_eq!(action, UploadAction::CreateFile { path: file.random_filename_path });
    assert_eq!(state.written_bytes, 0);
}

#[test]
fn file_part_without_extension() {
    let opt = make_test_opt();
    for name in ["README", ".bashrc", "dir.d/README", "trailing."] {
        let mut state = UploadState::new();
        handle_upload(&mut state, file_part(name), &opt);
        let file = state.file_field.unwrap();
        if name == "trailing." {
            assert_eq!(file.random_filename.len(), 9, "{name:?}");
            assert!(file.random_filename.ends_with('.'));
        } else {
            assert!(is_token(&file.random_filename), "{name:?} gave {:?}", file.random_filename);
        }
    }
}

#[test]
fn chunks_are_tallied() {
    let opt = make_test_opt();
    let (actions, state) = run(
        vec![
            file_part("a.bin"),
            UploadEvent::Chunk { len: 10 },
            UploadEvent::Chunk { len: 0 },
            UploadEvent::Chunk { len: 32 },
        ],
        &opt,
    );
    assert_eq!(state.written_bytes, 42);
    assert_eq!(actions[1], UploadAction::Continue);
    assert_eq!(actions[2], UploadAction::Continue);
    assert_eq!(actions[3], UploadAction::Continue);
}

#[test]
fn tally_stops_at_the_largest_number() {
    let opt = make_test_opt();
    let (_, state) = run(
        vec![
            file_part("a.bin"),
            UploadEvent::Chunk { len: usize::MAX - 1 },
            UploadEvent::Chunk { len: 5 },
        ],
        &opt,
    );
    assert_eq!(state.written_bytes, usize::MAX);
}

#[test]
fn empty_upload_is_refused_and_removed() {
    let opt = make_test_opt();
    let (actions, state) = run(vec![file_part("empty.txt"), UploadEvent::End], &opt);
    let created = state.file_field.unwrap().random_filename_path;
    assert_eq!(actions[0], UploadAction::CreateFile { path: created.clone() });
    assert_eq!(
        actions[1],
        UploadAction::Fail { error: WebError::EmptyUpload, remove: Some(created) }
    );
}

#[test]
fn empty_chunks_do_not_make_a_file() {
    let opt = make_test_opt();
    let (actions, state) = run(
        vec![
            file_part("empty.txt"),
            UploadEvent::Chunk { len: 0 },
            UploadEvent::OptionsPart {
                parsed: Some(Options { use_original_filename: true, redirect: false }),
            },
            UploadEvent::OtherPart,
            UploadEvent::End,
        ],
        &opt,
    );
    let created = state.file_field.unwrap().random_filename_path;
    assert_eq!(
        actions.last(),
        Some(&UploadAction::Fail { error: WebError::EmptyUpload, remove: Some(created) })
    );
}

#[test]
fn request_without_file_is_bad() {
    let opt = make_test_opt();
    let (actions, _) = run(vec![UploadEvent::End], &opt);
    assert_eq!(actions, vec![UploadAction::Fail { error: WebError::BadRequest, remove: None }]);
    let (actions, _) = run(
        vec![
            UploadEvent::OptionsPart { parsed: Some(Options::default()) },
            UploadEvent::OtherPart,
            UploadEvent::End,
        ],
        &opt,
    );
    assert_eq!(
        actions.last(),
        Some(&UploadAction::Fail { error: WebError::BadRequest, remove: None })
    );
}

#[test]
fn unreadable_options_fall_back_to_the_defaults() {
    let opt = make_test_opt();
    let (actions, state) = run(
        vec![
            file_part("original.txt"),
            UploadEvent::Chunk { len: 3 },
            UploadEvent::OptionsPart { parsed: None },
            UploadEvent::End,
        ],
        &opt,
    );
    assert_eq!(state.options_field, Options::default());
    let plan = finished(actions);
    assert_eq!(plan.rename, None);
    assert_eq!(plan.reply.unwrap().status, 303);
}

#[test]
fn options_may_come_before_the_file() {
    let opt = make_test_opt();
    let (actions, _) = run(
        vec![
            UploadEvent::OptionsPart {
                parsed: Some(Options { use_original_filename: true, redirect: false }),
            },
            file_part("a.txt"),
            UploadEvent::Chunk { len: 1 },
            UploadEvent::End,
        ],
        &opt,
    );
    let reply = finished(actions).reply.unwrap();
    assert_eq!(reply.status, 200);
    assert_eq!(reply.location, None);
    assert_eq!(reply.body.url, "http://test.example.com/a.txt");
}

#[test]
fn upload_with_default_options_links_the_random_name() {
    let opt = make_test_opt();
    let (actions, state) =
        run(vec![file_part("a.txt"), UploadEvent::Chunk { len: 5 }, UploadEvent::End], &opt);
    let file = state.file_field.unwrap();
    let plan = finished(actions);
    assert_eq!(plan.rename, None);
    let reply = plan.reply.unwrap();
    assert_eq!(reply.status, 303);
    assert_eq!(reply.body.url, format!("http://test.example.com/{}", file.random_filename));
    assert_eq!(reply.location, Some(reply.body.url.clone()));
    let tail = &reply.body.url["http://test.example.com/".len()..];
    assert!(is_token(&tail[..8]));
    assert_eq!(&tail[8..], ".txt");
    assert_eq!(reply.thumbnail_source, file.random_filename_path);
    assert_eq!(reply.thumbnail_target, format!("/tmp/thumbnails/{}", file.random_filename));
}

#[test]
fn upload_under_the_original_name_is_moved_there() {
    let opt = make_test_opt();
    let (actions, state) = run(
        vec![
            file_part("a.txt"),
            UploadEvent::Chunk { len: 5 },
            UploadEvent::OptionsPart {
                parsed: Some(Options { use_original_filename: true, redirect: true }),
            },
            UploadEvent::End,
        ],
        &opt,
    );
    let file = state.file_field.unwrap();
    let plan = finished(actions);
    assert_eq!(
        plan.rename,
        Some(Rename { from: file.random_filename_path, to: "/tmp/a.txt".into() })
    );
    let reply = plan.reply.unwrap();
    assert!(reply.body.url.ends_with("a.txt"));
    assert_eq!(reply.body.url, "http://test.example.com/a.txt");
    assert_eq!(reply.location.as_deref(), Some("http://test.example.com/a.txt"));
    assert_eq!(reply.thumbnail_source, "/tmp/a.txt");
    assert_eq!(reply.thumbnail_target, "/tmp/thumbnails/a.txt");
}

#[test]
fn second_upload_of_a_name_takes_its_place() {
    let opt = make_test_opt();
    let events = || {
        vec![
            file_part("report.pdf"),
            UploadEvent::Chunk { len: 9 },
            UploadEvent::OptionsPart {
                parsed: Some(Options { use_original_filename: true, redirect: true }),
            },
            UploadEvent::End,
        ]
    };
    let first = finished(run(events(), &opt).0);
    let second = finished(run(events(), &opt).0);
    let first_move = first.rename.unwrap();
    let second_move = second.rename.unwrap();
    assert_eq!(first_move.to, "/tmp/report.pdf");
    assert_eq!(second_move.to, "/tmp/report.pdf");
    assert_ne!(first_move.from, second_move.from);
    assert_eq!(first.reply.unwrap().body.url, second.reply.unwrap().body.url);
}

#[test]
fn file_part_without_a_name_is_bad() {
    let opt = make_test_opt();
    let mut state = UploadState::new();
    let action = handle_upload(&mut state, UploadEvent::UnnamedFilePart, &opt);
    assert_eq!(action, UploadAction::Fail { error: WebError::BadRequest, remove: None });
    assert_eq!(state, UploadState::new());
}

#[test]
fn link_names_the_stored_file() {
    let opt = make_test_opt();
    let (actions, _) = run(
        vec![
            file_part("sub/a.txt"),
            UploadEvent::Chunk { len: 5 },
            UploadEvent::OptionsPart {
                parsed: Some(Options { use_original_filename: true, redirect: true }),
            },
            UploadEvent::End,
        ],
        &opt,
    );
    let plan = finished(actions);
    assert_eq!(plan.rename.unwrap().to, "/tmp/suba.txt");
    let reply = plan.reply.unwrap();
    assert_eq!(reply.body.url, "http://test.example.com/suba.txt");
    assert_eq!(reply.location.as_deref(), Some("http://test.example.com/suba.txt"));
    assert_eq!(reply.thumbnail_source, "/tmp/suba.txt");
}

#[test]
fn link_of_a_random_name_is_sanitized_too() {
    let opt = make_test_opt();
    let (actions, state) =
        run(vec![file_part("a.t:x?t"), UploadEvent::Chunk { len: 5 }, UploadEvent::End], &opt);
    let file = state.file_field.unwrap();
    assert!(file.random_filename.ends_with(".t:x?t"));
    let reply = finished(actions).reply.unwrap();
    let token = &file.random_filename[..8];
    assert_eq!(reply.body.url, format!("http://test.example.com/{token}.txt"));
    assert_eq!(reply.thumbnail_source, format!("/tmp/{token}.txt"));
}

#[test]
fn original_name_is_sanitized_for_the_move() {
    let opt = make_test_opt();
    let (actions, _) = run(
        vec![
            file_part("../../etc/cron.d/evil"),
            UploadEvent::Chunk { len: 5 },
            UploadEvent::OptionsPart {
                parsed: Some(Options { use_original_filename: true, redirect: true }),
            },
            UploadEvent::End,
        ],
        &opt,
    );
    let plan = finished(actions);
    assert_eq!(plan.rename.unwrap().to, "/tmp/....etccron.devil");
    let reply = plan.reply.unwrap();
    assert_eq!(reply.thumbnail_source, "/tmp/....etccron.devil");
    assert_eq!(reply.body.url, "http://test.example.com/....etccron.devil");
}

#[test]
fn link_is_escaped_as_needed() {
    let opt = make_test_opt();
    assert_eq!(
        public_path("my file.txt", &opt),
        Ok("http://test.example.com/my%20file.txt".to_string())
    );
    assert_eq!(public_path("a.txt", &opt), Ok("http://test.example.com/a.txt".to_string()));
}

#[test]
fn link_replaces_the_last_segment_of_the_server_url() {
    let mut opt = make_test_opt();
    opt.server_url = "https://example.net/files/".into();
    assert_eq!(public_path("c.png", &opt), Ok("https://example.net/files/c.png".to_string()));
    opt.server_url = "https://example.net/a/b.html".into();
    assert_eq!(public_path("c.png", &opt), Ok("https://example.net/a/c.png".to_string()));
}

#[test]
fn no_link_on_a_server_url_that_is_none() {
    let mut opt = make_test_opt();
    opt.server_url = "not a url".into();
    assert_eq!(public_path("a.txt", &opt), Err(WebError::InvalidUrl));
}

#[test]
fn upload_fails_late_without_a_server_url() {
    let mut opt = make_test_opt();
    opt.server_url = "".into();
    let (actions, state) = run(
        vec![
            file_part("a.txt"),
            UploadEvent::Chunk { len: 5 },
            UploadEvent::OptionsPart {
                parsed: Some(Options { use_original_filename: true, redirect: true }),
            },
            UploadEvent::End,
        ],
        &opt,
    );
    let plan = finished(actions);
    assert_eq!(
        plan.rename,
        Some(Rename { from: state.file_field.unwrap().random_filename_path, to: "/tmp/a.txt".into() })
    );
    assert_eq!(plan.reply, Err(WebError::InvalidUrl));
}
