use libzulip::config::{ApiKey, UserAgent, PKG_NAME, PKG_VERSION};
use libzulip::error::{ignored_parameters_warning, ResponseError, ZulipError};
use libzulip::narrow::{
    MessageSender, NameOrId, Narrow, NarrowKind, NarrowNegation, OneOrMany,
};
use libzulip::request::ApiBase;
use libzulip::text::{bool_string, concatenate, decimal_string};

#[test]
fn user_agent_names_client_then_library() {
    let mut ua = UserAgent::new("client_name", "version");
    assert_eq!(ua.get(), format!("client_name/version, {PKG_NAME}/{PKG_VERSION} (Rust)"));
    assert_eq!(ua.get(), "client_name/version, libzulip/0.1.0 (Rust)");
}

#[test]
fn api_key_can_be_rotated() {
    let mut k = ApiKey::new("old");
    assert_eq!(k.get(), "old");
    k.set("new");
    assert_eq!(k.get(), "new");
}

#[test]
fn api_base_joins_suffix_once() {
    let b = ApiBase::new("https://chat.example.com").unwrap();
    assert_eq!(b.url(), "https://chat.example.com/api/v1/");
    let deep = ApiBase::new("https://chat.example.com/some/where").unwrap();
    assert_eq!(deep.url(), "https://chat.example.com/api/v1/");
    assert_eq!(b.endpoint("messages").unwrap(), "https://chat.example.com/api/v1/messages");
}

#[test]
fn api_base_rejects_malformed_address() {
    assert!(matches!(ApiBase::new("not a url"), Err(ZulipError::UrlParseError(_))));
}

#[test]
fn response_error_text_and_warning() {
    let e = ResponseError::new(
        "BAD_REQUEST".to_string(),
        "x".to_string(),
        Some(vec!["foo".to_string(), "bar".to_string()]),
    );
    assert_eq!(e.to_text(), "err(BAD_REQUEST): x");
    assert_eq!(e.error_code(), "BAD_REQUEST");
    assert_eq!(e.message(), "x");
    assert_eq!(
        e.warn_ignored(),
        Some("some given parameters were ignored! these are: foo, bar".to_string())
    );
    let quiet = ResponseError::new("C".to_string(), "m".to_string(), None);
    assert_eq!(quiet.warn_ignored(), None);
    assert_eq!(ignored_parameters_warning(&Some(vec![])), Some("some given parameters were ignored! these are: ".to_string()));
}

#[test]
fn text_rendering() {
    assert_eq!(decimal_string(0), "0");
    assert_eq!(decimal_string(907), "907");
    assert_eq!(decimal_string(u64::MAX), u64::MAX.to_string());
    assert_eq!(bool_string(true), "true");
    assert_eq!(concatenate("ab", "cd"), "abcd");
}

#[test]
fn narrow_keeps_kind_and_negation() {
    let kind = NarrowKind::DirectMessage(OneOrMany::Many(vec![
        NameOrId::Id(4),
        NameOrId::Name("a@example.com".to_string()),
    ]));
    let n = Narrow::new(kind.clone(), NarrowNegation::Negated);
    assert_eq!(n.kind(), kind);
    assert_eq!(n.negation(), NarrowNegation::Negated);
    let s = Narrow::new(NarrowKind::Sender(MessageSender::Me), NarrowNegation::Normal);
    assert_eq!(s.kind(), NarrowKind::Sender(MessageSender::Me));
    assert_eq!(s.negation(), NarrowNegation::Normal);
}
