use libzulip::error::{FileError, MessageError, ResponseError, ZulipError};
use libzulip::messages::delete_message::{finish_delete_message, DeletedMessageResponse};
use libzulip::messages::edit_message::{finish_edit_message, EditedMessage, EditedMessageResponse};
use libzulip::messages::emoji_reaction::{
    finish_add_emoji_reaction, finish_remove_emoji_reaction, EmojiReactionResponse, EmojiSelector,
    ReactionType,
};
use libzulip::messages::fetch_single_message::{
    finish_fetch_single_message, Message as FetchedMessage, MessageType, SingleMessageResponse,
};
use libzulip::messages::render_message::{finish_render_message, RenderResponse};
use libzulip::messages::send_message::{
    finish_send_message, ChannelMessageTarget, DirectMessageTarget, Message, MessageResponse,
};
use libzulip::messages::upload_file::{finish_upload_file, UploadFileResponse};
use libzulip::request::{ApiBase, Method};

fn base() -> ApiBase {
    ApiBase::new("https://chat.example.com").unwrap()
}

fn keys(params: &[(String, String)]) -> Vec<&str> {
    params.iter().map(|(k, _)| k.as_str()).collect()
}

fn value<'a>(params: &'a [(String, String)], key: &str) -> Option<&'a str> {
    params.iter().find(|(k, _)| k == key).map(|(_, v)| v.as_str())
}

fn bad_request() -> ResponseError {
    ResponseError::new("BAD_REQUEST".to_string(), "x".to_string(), None)
}

#[test]
fn direct_message_fields_omit_topic() {
    let m = Message::Direct {
        to: DirectMessageTarget::Ids(vec![1, 2, 30]),
        content: "hi".to_string(),
        queue_id: "q".to_string(),
        local_id: "l".to_string(),
    };
    let p = m.make_parameters();
    assert_eq!(keys(&p), vec!["local_id", "queue_id", "content", "type", "to"]);
    assert_eq!(value(&p, "type"), Some("direct"));
    assert_eq!(value(&p, "to"), Some("[1,2,30]"));
    assert_eq!(value(&p, "topic"), None);
}

#[test]
fn direct_message_to_emails_is_a_json_list() {
    let m = Message::Direct {
        to: DirectMessageTarget::Emails(vec!["a@example.com".to_string(), "b@example.com".to_string()]),
        content: "hi".to_string(),
        queue_id: String::new(),
        local_id: String::new(),
    };
    let p = m.make_parameters();
    assert_eq!(value(&p, "to"), Some("[\"a@example.com\",\"b@example.com\"]"));
    assert_eq!(value(&p, "topic"), None);
}

#[test]
fn direct_message_emails_are_json_escaped() {
    let m = Message::Direct {
        to: DirectMessageTarget::Emails(vec!["q\"b\\\n\u{1}é".to_string()]),
        content: "hi".to_string(),
        queue_id: String::new(),
        local_id: String::new(),
    };
    assert_eq!(m.to(), Some("[\"q\\\"b\\\\\\n\\u0001é\"]".to_string()));
}

#[test]
fn stream_message_fields_omit_to() {
    let m = Message::Stream {
        content: "c".to_string(),
        topic: "t".to_string(),
        queue_id: "q".to_string(),
        local_id: "l".to_string(),
    };
    let p = m.make_parameters();
    assert_eq!(keys(&p), vec!["local_id", "queue_id", "content", "type", "topic"]);
    assert_eq!(value(&p, "type"), Some("stream"));
    assert_eq!(value(&p, "to"), None);
    assert_eq!(value(&p, "topic"), Some("t"));
}

#[test]
fn channel_message_fields_have_to_and_topic() {
    let m = Message::Channel {
        to: ChannelMessageTarget::Name("general".to_string()),
        content: "hello world!".to_string(),
        topic: "greetings".to_string(),
        queue_id: String::new(),
        local_id: String::new(),
    };
    let p = m.make_parameters();
    assert_eq!(keys(&p), vec!["local_id", "queue_id", "content", "type", "to", "topic"]);
    assert_eq!(value(&p, "type"), Some("channel"));
    assert_eq!(value(&p, "to"), Some("general"));
    assert_eq!(value(&p, "content"), Some("hello world!"));
}

#[test]
fn channel_message_to_number_is_decimal() {
    let m = Message::Channel {
        to: ChannelMessageTarget::Id(1024),
        content: "c".to_string(),
        topic: "t".to_string(),
        queue_id: String::new(),
        local_id: String::new(),
    };
    assert_eq!(m.to(), Some("1024".to_string()));
    assert_eq!(m.typ(), "channel");
}

#[test]
fn send_request_posts_to_messages() {
    let m = Message::Stream {
        content: "c".to_string(),
        topic: "t".to_string(),
        queue_id: String::new(),
        local_id: String::new(),
    };
    let r = base().send_message_request(&m).unwrap();
    assert_eq!(r.method, Method::Post);
    assert_eq!(r.url, "https://chat.example.com/api/v1/messages");
    assert!(r.authenticated);
    assert_eq!(r.form, m.make_parameters());
}

#[test]
fn embedded_error_wins_over_payload() {
    let m = Message::Stream {
        content: "body".to_string(),
        topic: "t".to_string(),
        queue_id: String::new(),
        local_id: String::new(),
    };
    let resp = MessageResponse {
        id: 42,
        automatic_new_visibility_policy: None,
        error: Some(bad_request()),
        stream: None,
    };
    match finish_send_message(&m, resp) {
        Err(ZulipError::MessageError(MessageError::SendFailed { content, error })) => {
            assert_eq!(content, "body");
            assert_eq!(error, "err(BAD_REQUEST): x");
        }
        other => panic!("expected a send failure, got {other:?}"),
    }
}

#[test]
fn send_without_error_returns_reply() {
    let m = Message::Stream {
        content: "body".to_string(),
        topic: "t".to_string(),
        queue_id: String::new(),
        local_id: String::new(),
    };
    let resp = MessageResponse { id: 42, automatic_new_visibility_policy: Some(1), error: None, stream: None };
    assert_eq!(finish_send_message(&m, resp).unwrap().id, 42);
}

#[test]
fn deleting_twice_fails_the_second_time() {
    let b = base();
    let r = b.delete_message_request(99).unwrap();
    assert_eq!(r.method, Method::Delete);
    assert_eq!(r.url, "https://chat.example.com/api/v1/messages/99");
    assert!(r.form.is_empty());
    assert!(finish_delete_message(99, DeletedMessageResponse { error: None }).is_ok());
    let gone = ResponseError::new("BAD_REQUEST".to_string(), "Invalid message(s)".to_string(), None);
    match finish_delete_message(99, DeletedMessageResponse { error: Some(gone) }) {
        Err(ZulipError::MessageError(MessageError::DeletionFailed { id, error })) => {
            assert_eq!(id, 99);
            assert_eq!(error, "err(BAD_REQUEST): Invalid message(s)");
        }
        other => panic!("expected a deletion failure, got {other:?}"),
    }
}

#[test]
fn emoji_name_is_percent_encoded_and_optionals_omitted() {
    let s = EmojiSelector { emoji_name: "grinning face".to_string(), emoji_code: None, reaction_type: None };
    let p = s.make_parameters();
    assert_eq!(keys(&p), vec!["emoji_name"]);
    assert_eq!(value(&p, "emoji_name"), Some("grinning%20face"));
}

#[test]
fn emoji_selector_with_code_and_type() {
    let s = EmojiSelector {
        emoji_name: "ok~ä".to_string(),
        emoji_code: Some("1f44d".to_string()),
        reaction_type: Some(ReactionType::UnicodeEmoji),
    };
    let p = s.make_parameters();
    assert_eq!(keys(&p), vec!["emoji_name", "emoji_code", "reaction_type"]);
    assert_eq!(value(&p, "emoji_name"), Some("ok~%C3%A4"));
    assert_eq!(value(&p, "reaction_type"), Some("unicode_emoji"));
    assert_eq!(ReactionType::RealmEmoji.as_text(), "realm_emoji");
    assert_eq!(ReactionType::ZulipExtraEmoji.as_text(), "zulip_extra_emoji");
}

#[test]
fn add_and_remove_reaction_differ_only_in_method() {
    let s = EmojiSelector::new_from_name("smile");
    assert_eq!(s.emoji_code, None);
    let add = base().add_emoji_reaction_request(5, &s).unwrap();
    let remove = base().remove_emoji_reaction_request(5, &s).unwrap();
    assert_eq!(add.method, Method::Post);
    assert_eq!(remove.method, Method::Delete);
    assert_eq!(add.url, "https://chat.example.com/api/v1/messages/5/reactions");
    assert_eq!(add.url, remove.url);
    assert_eq!(add.form, remove.form);
}

#[test]
fn reaction_failures_carry_message_and_emoji() {
    let s = EmojiSelector::new_from_name("smile");
    match finish_add_emoji_reaction(5, &s, EmojiReactionResponse { error: Some(bad_request()) }) {
        Err(ZulipError::MessageError(MessageError::AddEmojiFailed { msg_id, emoji_name, .. })) => {
            assert_eq!(msg_id, 5);
            assert_eq!(emoji_name, "smile");
        }
        other => panic!("expected an add failure, got {other:?}"),
    }
    match finish_remove_emoji_reaction(5, &s, EmojiReactionResponse { error: Some(bad_request()) }) {
        Err(ZulipError::MessageError(MessageError::RemoveEmojiFailed { msg_id, .. })) => assert_eq!(msg_id, 5),
        other => panic!("expected a remove failure, got {other:?}"),
    }
    assert!(finish_add_emoji_reaction(5, &s, EmojiReactionResponse { error: None }).is_ok());
}

#[test]
fn edit_sends_given_fields_and_one_message_scope() {
    let e = EditedMessage {
        message_id: 12,
        topic: None,
        send_notification_to_old_thread: Some(false),
        send_notification_to_new_thread: None,
        content: Some("new".to_string()),
        stream_id: Some(3),
    };
    let r = base().edit_message_request(&e).unwrap();
    assert_eq!(r.method, Method::Patch);
    assert_eq!(r.url, "https://chat.example.com/api/v1/messages/12");
    assert_eq!(
        keys(&r.form),
        vec!["propagate_mode", "send_notification_to_old_thread", "content", "stream_id"]
    );
    assert_eq!(value(&r.form, "propagate_mode"), Some("change_one"));
    assert_eq!(value(&r.form, "send_notification_to_old_thread"), Some("false"));
    assert_eq!(value(&r.form, "stream_id"), Some("3"));
}

#[test]
fn edit_failure_carries_the_number() {
    let resp = EditedMessageResponse { detached_uploads: vec![], error: Some(bad_request()) };
    match finish_edit_message(12, resp) {
        Err(ZulipError::MessageError(MessageError::EditFailed { id, .. })) => assert_eq!(id, 12),
        other => panic!("expected an edit failure, got {other:?}"),
    }
    let ok = EditedMessageResponse { detached_uploads: vec![], error: None };
    assert!(finish_edit_message(12, ok).unwrap().detached_uploads.is_empty());
}

#[test]
fn render_returns_html_or_failure_with_content() {
    let r = base().render_message_request("**hi**").unwrap();
    assert_eq!(r.url, "https://chat.example.com/api/v1/messages/render");
    assert_eq!(value(&r.form, "content"), Some("**hi**"));
    let ok = RenderResponse { error: None, rendered: "<p><strong>hi</strong></p>".to_string() };
    assert_eq!(finish_render_message("**hi**", ok).unwrap(), "<p><strong>hi</strong></p>");
    let bad = RenderResponse { error: Some(bad_request()), rendered: String::new() };
    match finish_render_message("**hi**", bad) {
        Err(ZulipError::MessageError(MessageError::RenderMessageFailed { content, .. })) => {
            assert_eq!(content, "**hi**")
        }
        other => panic!("expected a render failure, got {other:?}"),
    }
}

fn fetched(id: u64) -> FetchedMessage {
    FetchedMessage {
        avatar_url: None,
        client: "test".to_string(),
        content: "hi".to_string(),
        content_type: "text/x-markdown".to_string(),
        edit_history: None,
        id,
        is_me_message: false,
        last_edit_timestamp: None,
        reactions: None,
        recipient_id: 1,
        sender_email: "a@example.com".to_string(),
        sender_full_name: "A".to_string(),
        sender_id: 2,
        sender_realm_str: "example".to_string(),
        stream_id: Some(3),
        subject: "t".to_string(),
        timestamp: 0,
        topic_links: vec![],
        typ: MessageType::Stream,
        flags: vec![],
    }
}

#[test]
fn fetch_single_message_request_and_reply() {
    let r = base().fetch_single_message_request(8, false).unwrap();
    assert_eq!(r.method, Method::Get);
    assert_eq!(r.url, "https://chat.example.com/api/v1/messages/8");
    assert_eq!(value(&r.form, "apply_markdown"), Some("false"));
    let ok = SingleMessageResponse { error: None, message: fetched(8) };
    assert_eq!(finish_fetch_single_message(8, ok).unwrap().message.id, 8);
    let bad = SingleMessageResponse { error: Some(bad_request()), message: fetched(8) };
    match finish_fetch_single_message(8, bad) {
        Err(ZulipError::MessageError(MessageError::SingleMessageFetchFailed { msg_id, .. })) => {
            assert_eq!(msg_id, 8)
        }
        other => panic!("expected a fetch failure, got {other:?}"),
    }
}

#[test]
fn upload_names_the_file_by_its_last_component() {
    let u = base().upload_file_request("some/dir/report.txt", true).unwrap();
    assert_eq!(u.file_name, "report.txt");
    assert_eq!(u.path, "some/dir/report.txt");
    assert_eq!(u.url, "https://chat.example.com/api/v1/user_uploads");
}

#[test]
fn upload_of_missing_file_fails_before_any_call() {
    match base().upload_file_request("some/dir/report.txt", false) {
        Err(ZulipError::FileError(FileError::FileNotFound(p))) => assert_eq!(p, "some/dir/report.txt"),
        other => panic!("expected a missing file, got {other:?}"),
    }
}

#[test]
fn upload_checks_existence_before_the_name() {
    match base().upload_file_request("/missing/..", false) {
        Err(ZulipError::FileError(FileError::FileNotFound(p))) => assert_eq!(p, "/missing/.."),
        other => panic!("expected a missing file, got {other:?}"),
    }
}

#[test]
fn upload_of_path_without_name_fails() {
    match base().upload_file_request("some/dir/..", true) {
        Err(ZulipError::FileError(FileError::FileNameNotFound(p))) => assert_eq!(p, "some/dir/.."),
        other => panic!("expected no file name, got {other:?}"),
    }
}

#[test]
fn upload_failure_carries_the_path() {
    let path = "a.txt".to_string();
    let bad = UploadFileResponse { url: String::new(), filename: String::new(), error: Some(bad_request()) };
    match finish_upload_file(&path, bad) {
        Err(ZulipError::MessageError(MessageError::FileUploadFailed { path, .. })) => assert_eq!(path, "a.txt"),
        other => panic!("expected an upload failure, got {other:?}"),
    }
}

#[test]
fn download_resolves_the_uploaded_address() {
    let ok = UploadFileResponse {
        url: "/user_uploads/1/ab/file.txt".to_string(),
        filename: "file.txt".to_string(),
        error: None,
    };
    let up = finish_upload_file(&"file.txt".to_string(), ok).unwrap();
    let r = base().download_file_request(&up.url).unwrap();
    assert_eq!(r.method, Method::Get);
    assert_eq!(r.url, "https://chat.example.com/user_uploads/1/ab/file.txt");
    let rel = base().download_file_request("user_uploads/2/cd/x.png").unwrap();
    assert_eq!(rel.url, "https://chat.example.com/api/v1/user_uploads/2/cd/x.png");
}
