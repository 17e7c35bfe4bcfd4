use auth_gateway::address::{has_https_marker, tls_server_name};
use auth_gateway::captcha::{
    begin_captcha, conclude_captcha, provider_request_form, CaptchaReply, CaptchaStep,
    ProviderOutcome,
};
use auth_gateway::channel::{backend_endpoint, ChannelError};
use auth_gateway::pages::index_links;
use auth_gateway::protected::{
    begin_protected, conclude_protected, BackendOutcome, ProtectedReply, ProtectedRouteResponse,
    ProtectedStep,
};

const RESOURCE: &str = "https://i.ibb.co/YP90j68/Light-Live-Bootcamp-Certificate.png";

fn pairs(form: &[(String, String)]) -> Vec<(&str, &str)> {
    form.iter().map(|(k, v)| (k.as_str(), v.as_str())).collect()
}

#[test]
fn https_marker_is_recognised() {
    assert!(has_https_marker("https://auth.example.com:443"));
    assert!(has_https_marker("https://"));
    assert!(!has_https_marker("http://auth.example.com"));
    assert!(!has_https_marker("https:/"));
    assert!(!has_https_marker(""));
    assert!(!has_https_marker("HTTPS://auth.example.com"));
}

#[test]
fn server_name_stops_at_port() {
    assert_eq!(
        tls_server_name("https://auth.example.com:443"),
        Some("auth.example.com".to_string())
    );
}

#[test]
fn server_name_without_port_is_whole_host() {
    assert_eq!(tls_server_name("https://auth.example.com"), Some("auth.example.com".to_string()));
    assert_eq!(tls_server_name("https://"), Some(String::new()));
}

#[test]
fn plaintext_address_has_no_server_name() {
    assert_eq!(tls_server_name("http://auth.example.com:50051"), None);
    assert_eq!(tls_server_name("auth.example.com"), None);
}

#[test]
fn empty_address_is_invalid() {
    assert!(matches!(backend_endpoint(""), Err(ChannelError::InvalidAddress)));
}

#[test]
fn malformed_address_is_invalid() {
    assert!(matches!(backend_endpoint("not a uri"), Err(ChannelError::InvalidAddress)));
}

#[test]
fn plaintext_address_gives_endpoint() {
    assert!(backend_endpoint("http://127.0.0.1:50051").is_ok());
}

#[test]
fn no_cookie_is_unauthorized_with_empty_body() {
    match begin_protected(None, "http://127.0.0.1:50051") {
        ProtectedStep::Reply(reply) => {
            assert_eq!(reply.status(), 401);
            assert!(matches!(reply, ProtectedReply::Unauthorized));
        }
        ProtectedStep::Verify { .. } => panic!("no backend call is owed without a cookie"),
    }
}

#[test]
fn no_cookie_and_no_backend_is_unauthorized() {
    match begin_protected(None, "") {
        ProtectedStep::Reply(reply) => assert_eq!(reply.status(), 401),
        ProtectedStep::Verify { .. } => panic!("no backend call is owed without a cookie"),
    }
}

#[test]
fn unset_backend_is_server_error() {
    match begin_protected(Some("abc123"), "") {
        ProtectedStep::Reply(reply) => {
            assert_eq!(reply.status(), 500);
            assert!(matches!(reply, ProtectedReply::InternalError));
        }
        ProtectedStep::Verify { .. } => panic!("an empty address cannot be dialled"),
    }
}

#[test]
fn cookie_with_plaintext_backend_asks_backend() {
    match begin_protected(Some("abc123"), "http://127.0.0.1:50051") {
        ProtectedStep::Verify { token, .. } => assert_eq!(token, "abc123"),
        ProtectedStep::Reply(_) => panic!("the backend must be asked"),
    }
}

#[test]
fn cookie_with_encrypted_backend_and_valid_token_is_granted() {
    let address = "https://auth.example.com:443";
    assert_eq!(tls_server_name(address), Some("auth.example.com".to_string()));
    match begin_protected(Some("abc123"), address) {
        ProtectedStep::Verify { token, .. } => assert_eq!(token, "abc123"),
        // Without platform roots on this machine the transport cannot be set up.
        ProtectedStep::Reply(reply) => assert_eq!(reply.status(), 500),
    }
    let reply = conclude_protected(BackendOutcome::Verdict(true));
    assert_eq!(reply.status(), 200);
    match reply {
        ProtectedReply::Granted(payload) => assert_eq!(payload.img_url, RESOURCE),
        _ => panic!("a valid token is granted"),
    }
}

#[test]
fn invalid_token_is_unauthorized() {
    let reply = conclude_protected(BackendOutcome::Verdict(false));
    assert_eq!(reply.status(), 401);
    assert!(matches!(reply, ProtectedReply::Unauthorized));
}

#[test]
fn backend_failures_are_server_errors() {
    assert_eq!(conclude_protected(BackendOutcome::Unreachable).status(), 500);
    assert_eq!(conclude_protected(BackendOutcome::CallFailed).status(), 500);
}

#[test]
fn repeated_valid_request_keeps_status() {
    let first = conclude_protected(BackendOutcome::Verdict(true)).status();
    let second = conclude_protected(BackendOutcome::Verdict(true)).status();
    assert_eq!(first, 200);
    assert_eq!(first, second);
}

#[test]
fn payload_points_at_resource() {
    assert_eq!(ProtectedRouteResponse::certificate().img_url, RESOURCE);
}

#[test]
fn captcha_denial_gives_failed_envelope() {
    match begin_captcha(Some("shh"), Some("tok"), None) {
        CaptchaStep::Send { form } => {
            assert_eq!(pairs(&form), vec![("secret", "shh"), ("response", "tok")]);
        }
        CaptchaStep::Reply(_) => panic!("the provider must be asked"),
    }
    let reply = conclude_captcha(ProviderOutcome::Answered(false));
    assert_eq!(reply.status(), 200);
    assert!(!reply.success);
    assert_eq!(reply.message, "Captcha verification failed");
}

#[test]
fn captcha_confirmation_gives_success() {
    let reply = conclude_captcha(ProviderOutcome::Answered(true));
    assert_eq!(reply.status(), 200);
    assert!(reply.success);
    assert_eq!(reply.message, "Captcha verified");
}

#[test]
fn captcha_transport_failure_gives_failed_envelope() {
    let reply = conclude_captcha(ProviderOutcome::Failed);
    assert_eq!(reply.status(), 200);
    assert!(!reply.success);
    assert_eq!(reply.message, "Captcha verification failed");
}

#[test]
fn captcha_without_secret_is_not_sent() {
    for secret in [None, Some("")] {
        match begin_captcha(secret, Some("tok"), Some("203.0.113.7")) {
            CaptchaStep::Reply(reply) => {
                assert_eq!(reply.status(), 200);
                assert!(!reply.success);
                assert_eq!(reply.message, "Captcha verification failed");
            }
            CaptchaStep::Send { .. } => panic!("no secret, no request"),
        }
    }
}

#[test]
fn captcha_unreadable_body_is_not_sent() {
    match begin_captcha(Some("shh"), None, None) {
        CaptchaStep::Reply(reply) => assert!(!reply.success),
        CaptchaStep::Send { .. } => panic!("no token, no request"),
    }
}

#[test]
fn captcha_form_binds_client_origin() {
    let form = provider_request_form("shh", "tok", Some("203.0.113.7"));
    assert_eq!(
        pairs(&form),
        vec![("secret", "shh"), ("response", "tok"), ("remoteip", "203.0.113.7")]
    );
}

#[test]
fn failed_envelope_is_constant() {
    let reply = CaptchaReply::failed();
    assert!(!reply.success);
    assert_eq!(reply.message, "Captcha verification failed");
}

#[test]
fn index_links_follow_address() {
    let links = index_links("https://auth.example.com").expect("links");
    assert_eq!(links.login_link, "https://auth.example.com");
    assert_eq!(links.logout_link, "https://auth.example.com/logout");
}

#[test]
fn index_links_need_address() {
    assert!(index_links("").is_none());
}
