use std::time::{Duration, SystemTime, UNIX_EPOCH};

use gcp_auth::gcloud_authorized_user::{
    tool_output, trim_trailing_space, ACCESS_TOKEN_ARGS, GCLOUD, PROJECT_ID_ARGS,
};
use gcp_auth::{
    new_secret, Error, GCloudAuthorizedUser, Timestamp, Token, TokenStyle, ToolRun,
    DEFAULT_TOKEN_DURATION,
};

fn as_system_time(t: Timestamp) -> SystemTime {
    let n = t.as_nanos();
    UNIX_EPOCH + Duration::new((n / 1_000_000_000) as u64, (n % 1_000_000_000) as u32)
}

fn ok_run(stdout: &[u8]) -> ToolRun {
    ToolRun { success: true, stdout: stdout.to_vec() }
}

fn failed_run() -> ToolRun {
    ToolRun { success: false, stdout: Vec::new() }
}

const NOW: u128 = 1_700_000_000_000_000_000;

#[test]
fn test_token_from_string() {
    let s = new_secret(String::from("abc123"));
    let token = Token::from_string(s, DEFAULT_TOKEN_DURATION);
    let expires = SystemTime::now() + Duration::from_secs(DEFAULT_TOKEN_DURATION);

    assert_eq!(token.secret(), "abc123");
    assert!(!token.has_expired());
    assert!(as_system_time(token.expires_at()) < expires + Duration::from_secs(1));
    assert!(as_system_time(token.expires_at()) > expires - Duration::from_secs(1));
}

#[test]
fn tool_output_trims_trailing_newline() {
    let r = tool_output(ok_run(b"abc123\n"));
    assert_eq!(r, Ok(String::from("abc123")));
}

#[test]
fn tool_output_trims_spaces_and_carriage_returns() {
    let r = tool_output(ok_run(b"abc123 \r\n \n"));
    assert_eq!(r, Ok(String::from("abc123")));
}

#[test]
fn tool_output_keeps_inner_and_leading_space() {
    let r = tool_output(ok_run(b" a b\tc\t\n"));
    assert_eq!(r, Ok(String::from(" a b\tc\t")));
}

#[test]
fn tool_output_of_blank_output_is_empty() {
    assert_eq!(tool_output(ok_run(b" \r\n")), Ok(String::new()));
    assert_eq!(tool_output(ok_run(b"")), Ok(String::new()));
}

#[test]
fn tool_output_of_failed_run() {
    let r = tool_output(ToolRun { success: false, stdout: b"abc123\n".to_vec() });
    assert_eq!(r, Err(Error::ProcessInvocationFailed));
}

#[test]
fn tool_output_of_non_utf8() {
    let r = tool_output(ok_run(&[b'a', 0xff, b'\n']));
    assert_eq!(r, Err(Error::ProcessOutputUndecodable));
}

#[test]
fn trim_trailing_space_in_place() {
    let mut v = b"x y \r\n".to_vec();
    trim_trailing_space(&mut v);
    assert_eq!(v, b"x y".to_vec());
}

#[test]
fn tool_invocation_arguments() {
    assert_eq!(GCLOUD, "gcloud");
    assert_eq!(PROJECT_ID_ARGS, ["config", "get-value", "project"]);
    assert_eq!(ACCESS_TOKEN_ARGS, ["auth", "print-access-token", "--quiet"]);
}

#[test]
fn new_source_serves_first_token_for_any_scopes() {
    let now = Timestamp::from_nanos(NOW);
    let source = GCloudAuthorizedUser::new(
        String::from("gcloud"),
        ok_run(b"my-project\n"),
        ok_run(b"abc123\n"),
        now,
    )
    .unwrap();
    assert_eq!(source.project_id(), Ok(String::from("my-project")));
    assert_eq!(source.gcloud(), "gcloud");
    assert_eq!(source.get_style(), TokenStyle::Account);
    for scopes in [&[][..], &[""][..], &["a", "b"][..]] {
        let token = source.get_token(scopes).unwrap();
        assert_eq!(token.secret(), "abc123");
        assert_eq!(token.expires_at().as_nanos(), NOW + 3600 * 1_000_000_000);
        assert!(!token.has_expired_at(now));
    }
}

#[test]
fn new_source_without_project() {
    let now = Timestamp::from_nanos(NOW);
    let source =
        GCloudAuthorizedUser::new(String::from("gcloud"), failed_run(), ok_run(b"t\n"), now)
            .unwrap();
    assert_eq!(source.project_id(), Err(Error::NoProjectId));
}

#[test]
fn new_source_fails_without_first_token() {
    let now = Timestamp::from_nanos(NOW);
    let r = GCloudAuthorizedUser::new(String::from("gcloud"), ok_run(b"p\n"), failed_run(), now);
    assert_eq!(r.err(), Some(Error::ProcessInvocationFailed));
    let r = GCloudAuthorizedUser::new(String::from("gcloud"), ok_run(b"p\n"), ok_run(&[0xc3]), now);
    assert_eq!(r.err(), Some(Error::ProcessOutputUndecodable));
}

#[test]
fn refresh_failure_keeps_cached_token() {
    let now = Timestamp::from_nanos(NOW);
    let mut source =
        GCloudAuthorizedUser::new(String::from("gcloud"), failed_run(), ok_run(b"old\n"), now)
            .unwrap();
    let later = Timestamp::from_nanos(NOW + 5);
    let r = source.refresh_token(failed_run(), later);
    assert_eq!(r.err(), Some(Error::ProcessInvocationFailed));
    let cached = source.get_token(&[]).unwrap();
    assert_eq!(cached.secret(), "old");
    assert_eq!(cached.expires_at(), now.plus_secs(DEFAULT_TOKEN_DURATION));
}

#[test]
fn refresh_replaces_cached_token() {
    let now = Timestamp::from_nanos(NOW);
    let mut source =
        GCloudAuthorizedUser::new(String::from("gcloud"), failed_run(), ok_run(b"old\n"), now)
            .unwrap();
    let later = Timestamp::from_nanos(NOW + 7);
    let fresh = source.refresh_token(ok_run(b"new \n"), later).unwrap();
    assert_eq!(fresh.secret(), "new");
    assert_eq!(fresh.expires_at().as_nanos(), NOW + 7 + 3600 * 1_000_000_000);
    let cached = source.get_token(&["scope"]).unwrap();
    assert_eq!(cached.secret(), "new");
    assert_eq!(cached.expires_at(), fresh.expires_at());
}
