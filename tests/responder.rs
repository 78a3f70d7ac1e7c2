use fc_server::config::{ServerConfig, DEFAULT_HOST, DEFAULT_PORT, DEFAULT_ROOT};
use fc_server::handler::{
    after_lookup, after_read, handle, into_response, outcome, EntryKind, Failure, ReadError, Step,
};
use fc_server::path::join_path;
use fc_server::responder::FileResponder;
use fc_server::response::{found, not_found, NOT_FOUND_TEXT, STATUS_NOT_FOUND, STATUS_OK};

fn default_responder() -> FileResponder {
    FileResponder::new(ServerConfig::default())
}

fn assert_not_found(status: u16, body: &[u8]) {
    assert_eq!(status, 404);
    assert_eq!(body, b"404 Not Found");
}

#[test]
fn existing_file_is_served_with_its_bytes() {
    let responder = default_responder();
    let path = responder.resolve("hello.txt");
    assert_eq!(path, "/mnt/oss/hello.txt");
    let r = handle(EntryKind::File, Ok(b"hi".to_vec()));
    assert_eq!(r.status, 200);
    assert_eq!(r.body, b"hi".to_vec());
}

#[test]
fn missing_file_is_not_found() {
    let responder = default_responder();
    assert_eq!(responder.resolve("missing.txt"), "/mnt/oss/missing.txt");
    let r = handle(EntryKind::Missing, Err(ReadError));
    assert_not_found(r.status, &r.body);
}

#[test]
fn directory_is_not_found() {
    let responder = default_responder();
    assert_eq!(responder.resolve("sub"), "/mnt/oss/sub");
    let r = handle(EntryKind::Directory, Ok(Vec::new()));
    assert_not_found(r.status, &r.body);
}

#[test]
fn dot_dot_segments_are_kept_and_escape_the_root() {
    let responder = default_responder();
    assert_eq!(responder.resolve("../etc/passwd"), "/mnt/oss/../etc/passwd");
}

#[test]
fn absolute_request_path_replaces_the_root() {
    let responder = default_responder();
    assert_eq!(responder.resolve("/etc/passwd"), "/etc/passwd");
}

#[test]
fn unreadable_file_is_not_found() {
    let r = handle(EntryKind::File, Err(ReadError));
    assert_not_found(r.status, &r.body);
}

#[test]
fn special_file_is_not_found() {
    let r = handle(EntryKind::Other, Ok(b"x".to_vec()));
    assert_not_found(r.status, &r.body);
}

#[test]
fn empty_file_is_served_empty() {
    let r = handle(EntryKind::File, Ok(Vec::new()));
    assert_eq!(r.status, 200);
    assert!(r.body.is_empty());
}

#[test]
fn binary_bytes_are_served_unchanged() {
    let bytes: Vec<u8> = (0u8..=255).collect();
    let r = handle(EntryKind::File, Ok(bytes.clone()));
    assert_eq!(r.status, STATUS_OK);
    assert_eq!(r.body, bytes);
}

#[test]
fn repeated_requests_get_identical_responses() {
    for kind in [EntryKind::Missing, EntryKind::Directory, EntryKind::File, EntryKind::Other] {
        let a = handle(kind, Ok(b"same".to_vec()));
        let b = handle(kind, Ok(b"same".to_vec()));
        assert_eq!(a.status, b.status);
        assert_eq!(a.body, b.body);
    }
    let responder = default_responder();
    assert_eq!(responder.resolve("a/b"), responder.resolve("a/b"));
}

#[test]
fn outcome_names_each_failure() {
    assert_eq!(outcome(EntryKind::Missing, Ok(b"x".to_vec())), Err(Failure::Missing));
    assert_eq!(outcome(EntryKind::Directory, Ok(b"x".to_vec())), Err(Failure::NotAFile));
    assert_eq!(outcome(EntryKind::Other, Ok(b"x".to_vec())), Err(Failure::NotAFile));
    assert_eq!(outcome(EntryKind::File, Err(ReadError)), Err(Failure::Unreadable));
    assert_eq!(outcome(EntryKind::File, Ok(b"x".to_vec())), Ok(b"x".to_vec()));
}

#[test]
fn every_failure_collapses_to_not_found() {
    for f in [Failure::Missing, Failure::NotAFile, Failure::Unreadable] {
        let r = into_response(Err(f));
        assert_not_found(r.status, &r.body);
    }
    let r = into_response(Ok(b"ok".to_vec()));
    assert_eq!(r.status, 200);
    assert_eq!(r.body, b"ok".to_vec());
}

#[test]
fn lookup_step_reads_only_regular_files() {
    assert!(matches!(after_lookup(EntryKind::File), Step::ReadFile));
    for kind in [EntryKind::Missing, EntryKind::Directory, EntryKind::Other] {
        match after_lookup(kind) {
            Step::Reply(r) => assert_not_found(r.status, &r.body),
            Step::ReadFile => panic!("no read expected for {:?}", kind),
        }
    }
}

#[test]
fn read_step_serves_bytes_or_not_found() {
    let r = after_read(Ok(b"hi".to_vec()));
    assert_eq!(r.status, 200);
    assert_eq!(r.body, b"hi".to_vec());
    let r = after_read(Err(ReadError));
    assert_not_found(r.status, &r.body);
}

#[test]
fn response_builders() {
    let r = not_found();
    assert_eq!(r.status, STATUS_NOT_FOUND);
    assert_eq!(r.body, NOT_FOUND_TEXT.as_bytes().to_vec());
    let r = found(vec![1, 2, 3]);
    assert_eq!(r.status, STATUS_OK);
    assert_eq!(r.body, vec![1, 2, 3]);
}

#[test]
fn join_edge_cases() {
    assert_eq!(join_path("/mnt/oss/", "a.txt"), "/mnt/oss/a.txt");
    assert_eq!(join_path("/mnt/oss", ""), "/mnt/oss/");
    assert_eq!(join_path("", "a.txt"), "a.txt");
    assert_eq!(join_path("/", "a.txt"), "/a.txt");
    assert_eq!(join_path("/mnt/oss", "./a/../b"), "/mnt/oss/./a/../b");
    assert_eq!(join_path("/mnt/oss", "dir/ü.txt"), "/mnt/oss/dir/ü.txt");
}

#[test]
fn default_config_matches_the_fixed_literals() {
    let c = ServerConfig::default();
    assert_eq!(c.root, "/mnt/oss");
    assert_eq!(c.host, "0.0.0.0");
    assert_eq!(c.port, 9000);
    assert_eq!(DEFAULT_ROOT, "/mnt/oss");
    assert_eq!(DEFAULT_HOST, "0.0.0.0");
    assert_eq!(DEFAULT_PORT, 9000);
}

#[test]
fn custom_root_is_used() {
    let c = ServerConfig::new("/srv/files".to_string(), "127.0.0.1".to_string(), 8080);
    let responder = FileResponder::new(c);
    assert_eq!(responder.config().port, 8080);
    assert_eq!(responder.config().host, "127.0.0.1");
    assert_eq!(responder.resolve("x/y.bin"), "/srv/files/x/y.bin");
}
