use std::convert::Infallible;
use std::str::FromStr;

use chat_api::capability::{
    UnauthenticatedKeyTransparencyApi, UnauthenticatedMessagesApi, UnauthenticatedProfilesApi,
    UnauthenticatedUsernamesApi,
};
use chat_api::{
    ChallengeOption, DisconnectedError, GroupSendFullToken, LogSafeDisplay, RateLimitChallenge,
    Registration, RequestError, RetryLater, Unauth, UnauthenticatedChatApi,
    UnknownChallengeOption, UserBasedAuthorization,
};

#[derive(Debug, PartialEq)]
struct Connection {
    id: u32,
    name: String,
}

impl Connection {
    fn describe(&self) -> String {
        format!("{}:{}", self.id, self.name)
    }
}

#[test]
fn unauth_borrowed_reads_the_same_connection() {
    let conn = Connection { id: 7, name: "chat".to_string() };
    let wrapped: Unauth<&Connection> = Unauth::from(&conn);
    assert_eq!(wrapped.describe(), conn.describe());
    assert!(std::ptr::eq(*wrapped, &conn));
    assert_eq!(wrapped.into_inner(), &conn);
}

#[test]
fn unauth_owned_round_trip() {
    let wrapped = Unauth::from(Connection { id: 3, name: "x".to_string() });
    assert_eq!(wrapped.id, 3);
    assert_eq!(wrapped.into_inner(), Connection { id: 3, name: "x".to_string() });
}

#[test]
fn registration_round_trip() {
    let wrapped: Registration<u64> = 99u64.into();
    assert_eq!(*wrapped, 99);
    assert_eq!(wrapped.into_inner(), 99);
}

#[test]
fn every_disconnection_lands_in_disconnected() {
    let all = vec![
        DisconnectedError::ConnectedElsewhere,
        DisconnectedError::ConnectionInvalidated,
        DisconnectedError::Transport { log_safe: "tls".to_string() },
        DisconnectedError::Closed,
    ];
    for d in all {
        let expected_text = d.to_log_string();
        let e: RequestError<DisconnectedError> = RequestError::from(clone_disconnected(&d));
        assert_eq!(e.to_log_string(), expected_text);
        assert_eq!(e, RequestError::Disconnected(d));
    }
}

fn clone_disconnected(d: &DisconnectedError) -> DisconnectedError {
    match d {
        DisconnectedError::ConnectedElsewhere => DisconnectedError::ConnectedElsewhere,
        DisconnectedError::ConnectionInvalidated => DisconnectedError::ConnectionInvalidated,
        DisconnectedError::Transport { log_safe } => {
            DisconnectedError::Transport { log_safe: log_safe.clone() }
        }
        DisconnectedError::Closed => DisconnectedError::Closed,
    }
}

#[test]
fn connected_elsewhere_scenario() {
    let e: RequestError<DisconnectedError> = DisconnectedError::ConnectedElsewhere.into();
    assert!(matches!(e, RequestError::Disconnected(DisconnectedError::ConnectedElsewhere)));
    assert_eq!(
        e.to_log_string(),
        "the server explicitly disconnected us because we connected elsewhere with the same credentials"
    );
}

#[test]
fn disconnected_texts() {
    assert_eq!(
        DisconnectedError::ConnectionInvalidated.to_log_string(),
        "the server explicitly disconnected us for some reason other than that we connected elsewhere"
    );
    assert_eq!(
        DisconnectedError::Transport { log_safe: "reset by peer".to_string() }.to_log_string(),
        "transport error: reset by peer"
    );
    assert_eq!(DisconnectedError::Closed.to_log_string(), "the connection was closed");
}

#[test]
fn challenge_option_wire_names() {
    assert_eq!(ChallengeOption::PushChallenge.as_str(), "pushChallenge");
    assert_eq!(ChallengeOption::Captcha.as_str(), "captcha");
    assert_eq!(ChallengeOption::parse("pushChallenge"), Some(ChallengeOption::PushChallenge));
    assert_eq!(ChallengeOption::parse("captcha"), Some(ChallengeOption::Captcha));
}

#[test]
fn challenge_option_round_trip() {
    for o in ChallengeOption::all() {
        assert_eq!(ChallengeOption::parse(o.as_str()), Some(o));
        assert_eq!(ChallengeOption::from_str(o.as_str()), Ok(o));
    }
}

#[test]
fn challenge_option_rejects_other_strings() {
    assert_eq!(ChallengeOption::parse("Captcha"), None);
    assert_eq!(ChallengeOption::parse("push_challenge"), None);
    assert_eq!(ChallengeOption::parse(""), None);
    assert_eq!(ChallengeOption::from_str("captcha "), Err(UnknownChallengeOption));
}

#[test]
fn challenge_option_all_in_order() {
    assert_eq!(
        ChallengeOption::all(),
        vec![ChallengeOption::PushChallenge, ChallengeOption::Captcha]
    );
}

#[test]
fn rate_limit_challenge_text_hides_token() {
    let c = RateLimitChallenge {
        token: "SECRET-REDACTED".to_string(),
        options: vec![ChallengeOption::PushChallenge, ChallengeOption::Captcha],
    };
    assert_eq!(
        c.to_log_string(),
        "retry after completing a rate limit challenge [PushChallenge, Captcha]"
    );
    let one = RateLimitChallenge { token: "t".to_string(), options: vec![ChallengeOption::Captcha] };
    assert_eq!(one.to_log_string(), "retry after completing a rate limit challenge [Captcha]");
    let none = RateLimitChallenge { token: "t".to_string(), options: vec![] };
    assert_eq!(none.to_log_string(), "retry after completing a rate limit challenge []");
}

#[test]
fn retry_later_text() {
    assert_eq!(RetryLater { retry_after_seconds: 0 }.to_log_string(), "retry after 0s");
    assert_eq!(RetryLater { retry_after_seconds: 42 }.to_log_string(), "retry after 42s");
    assert_eq!(
        RetryLater { retry_after_seconds: u32::MAX }.to_log_string(),
        "retry after 4294967295s"
    );
}

#[test]
fn unexpected_logs_payload_only() {
    let e: RequestError<DisconnectedError> =
        RequestError::Unexpected { log_safe: "X".to_string() };
    assert_eq!(e.to_log_string(), "X");
}

#[test]
fn request_error_texts() {
    let timeout: RequestError<DisconnectedError> = RequestError::Timeout;
    assert_eq!(timeout.to_log_string(), "the request timed out");
    let server: RequestError<DisconnectedError> = RequestError::ServerSideError;
    assert_eq!(server.to_log_string(), "server-side error, retryable with backoff");
    let other: RequestError<DisconnectedError> = RequestError::Other(DisconnectedError::Closed);
    assert_eq!(other.to_log_string(), "the connection was closed");
}

#[test]
fn request_error_from_retry_later_and_challenge() {
    let e: RequestError<DisconnectedError> = RetryLater { retry_after_seconds: 5 }.into();
    assert_eq!(e, RequestError::RetryLater(RetryLater { retry_after_seconds: 5 }));
    assert_eq!(e.to_log_string(), "retry after 5s");
    let c = RateLimitChallenge { token: "tok".to_string(), options: vec![ChallengeOption::PushChallenge] };
    let e: RequestError<DisconnectedError> = c.into();
    assert!(matches!(&e, RequestError::Challenge(c) if c.token == "tok"));
    assert_eq!(
        e.to_log_string(),
        "retry after completing a rate limit challenge [PushChallenge]"
    );
}

#[test]
fn infallible_converts_into_request_error() {
    let r: Result<u8, Infallible> = Ok(4);
    let mapped: Result<u8, RequestError<DisconnectedError>> = r.map_err(RequestError::from);
    assert_eq!(mapped, Ok(4));
}

struct FullConnection;
impl UnauthenticatedKeyTransparencyApi for FullConnection {}
impl UnauthenticatedMessagesApi for FullConnection {}
impl UnauthenticatedProfilesApi for FullConnection {}
impl UnauthenticatedUsernamesApi for FullConnection {}

fn takes_chat_api<T: UnauthenticatedChatApi>(_: &T) -> bool {
    true
}

#[test]
fn all_four_capabilities_give_the_union() {
    assert!(takes_chat_api(&FullConnection));
}

#[test]
fn user_based_authorization_holds_its_value() {
    let key = UserBasedAuthorization::AccessKey([9u8; 16]);
    assert!(matches!(key, UserBasedAuthorization::AccessKey(k) if k == [9u8; 16]));
    let group = UserBasedAuthorization::Group(GroupSendFullToken { serialized: vec![1, 2, 3] });
    assert_eq!(
        group.clone(),
        UserBasedAuthorization::Group(GroupSendFullToken { serialized: vec![1, 2, 3] })
    );
}
