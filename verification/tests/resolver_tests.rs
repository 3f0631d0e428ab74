use rusgit::errors::ErrorCode;
use rusgit::resolver::{
    classify_status, extract_mirror_url, get_gitee_token, prepare_lookup, resolve_body,
    resolve_response, LookupOutcome,
};

#[test]
fn not_duplicate_fails_lookup() {
    // A non-duplicate answer fails whatever the message holds, even a
    // perfectly good anchor.
    let message = b"<a href=\"https://gitee.com/mirror/bar\">m</a>".to_vec();
    let remote = b"https://github.com/foo/bar".to_vec();
    let r = resolve_response(false, &message, &remote);
    let e = r.err().unwrap();
    assert_eq!(e.code, ErrorCode::CanNotFoundRepo);
    assert_eq!(
        e.msg,
        b"can't found repo in gitee, origin: https://github.com/foo/bar".to_vec()
    );
}

#[test]
fn anchor_extracted_exactly() {
    let message =
        b"<div>is duplicated from <a href=\"https://gitee.com/mirror/bar\">link</a></div>"
            .to_vec();
    let remote = b"https://github.com/foo/bar".to_vec();
    let r = resolve_response(true, &message, &remote);
    assert_eq!(r.ok().unwrap(), b"https://gitee.com/mirror/bar.git".to_vec());
}

#[test]
fn first_anchor_wins() {
    let message = b"<a href=\"https://gitee.com/one\">x</a><a href=\"https://gitee.com/two\">y</a>"
        .to_vec();
    let r = extract_mirror_url(&message);
    assert_eq!(r.ok().unwrap(), b"https://gitee.com/one.git".to_vec());
}

#[test]
fn empty_anchor_value_keeps_suffix_only() {
    let message = b"<a href=\"\">x</a>".to_vec();
    let r = extract_mirror_url(&message);
    assert_eq!(r.ok().unwrap(), b".git".to_vec());
}

#[test]
fn unterminated_anchor_fails() {
    // `href="` is present but no closing quote ever follows.
    let message = b"<a href=https://gitee.com/mirror and then href=\"no-end".to_vec();
    let r = extract_mirror_url(&message);
    let e = r.err().unwrap();
    assert_eq!(e.code, ErrorCode::ParseResponseError);
    let mut expected = b"can't parse gitee response, data: ".to_vec();
    expected.extend_from_slice(&message);
    assert_eq!(e.msg, expected);
}

#[test]
fn message_without_anchor_fails() {
    let message = b"no anchor here".to_vec();
    let r = extract_mirror_url(&message);
    let e = r.err().unwrap();
    assert_eq!(e.code, ErrorCode::ParseResponseError);
}

#[test]
fn resolve_body_decodes_and_extracts() {
    let body =
        b"{\"is_duplicate\":true,\"message\":\"<a href=\\\"https://gitee.com/mirror/bar\\\">m</a>\"}"
            .to_vec();
    let remote = b"https://github.com/foo/bar".to_vec();
    let r = resolve_body(&body, &remote);
    assert_eq!(r.ok().unwrap(), b"https://gitee.com/mirror/bar.git".to_vec());
}

#[test]
fn resolve_body_not_duplicate() {
    let body = b"{\"is_duplicate\":false}".to_vec();
    let remote = b"https://github.com/foo/bar".to_vec();
    let r = resolve_body(&body, &remote);
    let e = r.err().unwrap();
    assert_eq!(e.code, ErrorCode::CanNotFoundRepo);
}

#[test]
fn resolve_body_malformed_json_fails() {
    let body = b"this is not json".to_vec();
    let remote = b"https://github.com/foo/bar".to_vec();
    let r = resolve_body(&body, &remote);
    let e = r.err().unwrap();
    assert_eq!(e.code, ErrorCode::ParseResponseError);
    let mut expected = b"can't parse gitee response, data: ".to_vec();
    expected.extend_from_slice(&body);
    assert_eq!(e.msg, expected);
}

#[test]
fn resolve_body_missing_message_defaults_empty() {
    // The message field defaults to empty, which holds no anchor.
    let body = b"{\"is_duplicate\":true}".to_vec();
    let remote = b"https://github.com/foo/bar".to_vec();
    let r = resolve_body(&body, &remote);
    let e = r.err().unwrap();
    assert_eq!(e.code, ErrorCode::ParseResponseError);
    assert_eq!(e.msg, b"can't parse gitee response, data: ".to_vec());
}

#[test]
fn resolve_body_wrong_flag_type_fails() {
    let body = b"{\"is_duplicate\":\"yes\"}".to_vec();
    let remote = b"https://github.com/foo/bar".to_vec();
    let r = resolve_body(&body, &remote);
    assert_eq!(r.err().unwrap().code, ErrorCode::ParseResponseError);
}

#[test]
fn status_200_passes() {
    let diagnostic = b"response".to_vec();
    assert!(classify_status(200, &diagnostic).is_ok());
}

#[test]
fn status_401_is_denied() {
    let diagnostic = b"response".to_vec();
    let e = classify_status(401, &diagnostic).err().unwrap();
    assert_eq!(e.code, ErrorCode::InvalidLogin);
    assert_eq!(e.msg, b"Access Denied! Gitee Response: response".to_vec());
}

#[test]
fn other_status_is_unknown_error() {
    let diagnostic = b"response".to_vec();
    let e = classify_status(500, &diagnostic).err().unwrap();
    assert_eq!(e.code, ErrorCode::AccessGiteeUnknowError);
    assert_eq!(e.msg, b"Access UnknowError! Gitee Response: response".to_vec());
}

#[test]
fn token_present_builds_cookie() {
    let r = get_gitee_token(Some(b"SECRET-REDACTED".to_vec()));
    assert_eq!(r.ok().unwrap(), b"gitee-session-n=SECRET-REDACTED".to_vec());
}

#[test]
fn token_absent_is_an_error() {
    let e = get_gitee_token(None).err().unwrap();
    assert_eq!(e.code, ErrorCode::InvalidToken);
    assert_eq!(e.msg, b"cant find GITEE_SESSION in env".to_vec());
}

#[test]
fn prepare_lookup_builds_encoded_request() {
    let remote = b"https://github.com/foo/bar".to_vec();
    let r = prepare_lookup(&remote, Some(b"tok".to_vec()));
    match r {
        LookupOutcome::Ready(q) => {
            assert_eq!(
                q.url,
                b"https://gitee.com/projects/check_project_duplicate?import_url=https%3A%2F%2Fgithub.com%2Ffoo%2Fbar"
                    .to_vec()
            );
            assert_eq!(q.cookie, b"gitee-session-n=tok".to_vec());
            assert_eq!(q.user_agent, b"curl/7.79.1".to_vec());
        }
        _ => panic!("expected a prepared request"),
    }
}

#[test]
fn prepare_lookup_refuses_bad_remote() {
    let remote = b"not a uri".to_vec();
    let r = prepare_lookup(&remote, Some(b"tok".to_vec()));
    assert!(matches!(r, LookupOutcome::BadRemote));
    let non_utf8 = vec![0xffu8, 0xfe];
    let r2 = prepare_lookup(&non_utf8, Some(b"tok".to_vec()));
    assert!(matches!(r2, LookupOutcome::BadRemote));
}

#[test]
fn prepare_lookup_without_token() {
    let remote = b"https://github.com/foo/bar".to_vec();
    let r = prepare_lookup(&remote, None);
    match r {
        LookupOutcome::Refused(e) => assert_eq!(e.code, ErrorCode::InvalidToken),
        _ => panic!("expected a refusal"),
    }
}
