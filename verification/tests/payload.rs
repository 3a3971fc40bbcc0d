use telegrax::bot::message_payload;
use telegrax::bot::photo_payload;
use telegrax::bot::request_url;
use telegrax::bot::LinkPreviewOptions;
use telegrax::bot::ParseMode;
use telegrax::bot::SendMessageOptions;
use telegrax::bot::SendPhotoOptions;

#[test]
fn default_options_give_bare_payload() {
    let options = SendMessageOptions::default();
    let payload = message_payload("@chat", "hello", &options);
    assert_eq!(payload, "{\"chat_id\":\"@chat\",\"text\":\"hello\"}");
}

#[test]
fn request_url_scopes_method_under_token() {
    let url = request_url("T", "sendMessage");
    assert_eq!(url, "https://api.telegram.org/botT/sendMessage");
    let url = request_url("123:abc", "sendPhoto");
    assert_eq!(url, "https://api.telegram.org/bot123:abc/sendPhoto");
}

#[test]
fn unset_option_is_omitted_not_null() {
    let options = SendMessageOptions {
        disable_notification: None,
        ..Default::default()
    };
    let payload = message_payload("@chat", "hi", &options);
    assert!(!payload.contains("disable_notification"));
    assert!(!payload.contains("null"));
}

#[test]
fn explicit_false_survives() {
    let options = SendMessageOptions {
        disable_notification: Some(false),
        ..Default::default()
    };
    let payload = message_payload("@chat", "hi", &options);
    assert_eq!(
        payload,
        "{\"chat_id\":\"@chat\",\"text\":\"hi\",\"disable_notification\":false}"
    );
}

#[test]
fn explicit_true_survives() {
    let options = SendMessageOptions {
        disable_notification: Some(true),
        protect_content: Some(true),
        ..Default::default()
    };
    let payload = message_payload("@chat", "hi", &options);
    assert_eq!(
        payload,
        "{\"chat_id\":\"@chat\",\"text\":\"hi\",\"disable_notification\":true,\"protect_content\":true}"
    );
}

#[test]
fn parse_mode_uses_wire_spelling() {
    assert_eq!(ParseMode::MarkdownV2.wire_name(), "MarkdownV2");
    assert_eq!(ParseMode::Markdown.wire_name(), "Markdown");
    assert_eq!(ParseMode::Html.wire_name(), "HTML");
    let options = SendMessageOptions {
        parse_mode: Some(ParseMode::MarkdownV2),
        ..Default::default()
    };
    let payload = message_payload("@chat", "hi", &options);
    assert_eq!(
        payload,
        "{\"chat_id\":\"@chat\",\"text\":\"hi\",\"parse_mode\":\"MarkdownV2\"}"
    );
    assert!(!payload.contains("Html"));
}

#[test]
fn link_preview_nests_one_object() {
    let link_preview_options = LinkPreviewOptions {
        is_disabled: Some(true),
        ..Default::default()
    };
    let options = SendMessageOptions {
        link_preview_options: Some(link_preview_options),
        ..Default::default()
    };
    let payload = message_payload("@chat", "hi", &options);
    assert_eq!(
        payload,
        "{\"chat_id\":\"@chat\",\"text\":\"hi\",\"link_preview_options\":{\"is_disabled\":true}}"
    );
}

#[test]
fn link_preview_keeps_wire_order() {
    let link_preview_options = LinkPreviewOptions {
        is_disabled: Some(false),
        url: Some("https://example.com/a b".to_string()),
        prefer_small_media: None,
        prefer_large_media: Some(true),
        show_above_text: Some(false),
    };
    let options = SendMessageOptions {
        link_preview_options: Some(link_preview_options),
        ..Default::default()
    };
    let payload = message_payload("c", "t", &options);
    assert_eq!(
        payload,
        "{\"chat_id\":\"c\",\"text\":\"t\",\"link_preview_options\":{\"is_disabled\":false,\"url\":\"https://example.com/a b\",\"prefer_large_media\":true,\"show_above_text\":false}}"
    );
}

#[test]
fn message_thread_id_is_a_bare_number() {
    let options = SendMessageOptions {
        message_thread_id: Some(18446744073709551615),
        ..Default::default()
    };
    let payload = message_payload("c", "t", &options);
    assert_eq!(
        payload,
        "{\"chat_id\":\"c\",\"text\":\"t\",\"message_thread_id\":18446744073709551615}"
    );
}

#[test]
fn string_values_are_escaped() {
    let options = SendMessageOptions::default();
    let payload = message_payload("@chat", "a \"quote\" and \\ and\nline\ttab \u{1}", &options);
    assert_eq!(
        payload,
        "{\"chat_id\":\"@chat\",\"text\":\"a \\\"quote\\\" and \\\\ and\\nline\\ttab \\u0001\"}"
    );
}

#[test]
fn multibyte_text_passes_through() {
    let options = SendMessageOptions::default();
    let payload = message_payload("@chat", "héllo ☃", &options);
    assert_eq!(payload, "{\"chat_id\":\"@chat\",\"text\":\"héllo ☃\"}");
}

#[test]
fn photo_payload_with_caption() {
    let options = SendPhotoOptions {
        caption: Some("*Hulk is here*\n\nAhhhhh...".to_string()),
        parse_mode: Some(ParseMode::Markdown),
        ..Default::default()
    };
    let payload = photo_payload("@chat", "https://example.com/hulk.jpg", &options);
    assert_eq!(
        payload,
        "{\"chat_id\":\"@chat\",\"photo\":\"https://example.com/hulk.jpg\",\"caption\":\"*Hulk is here*\\n\\nAhhhhh...\",\"parse_mode\":\"Markdown\"}"
    );
}

#[test]
fn photo_payload_keeps_wire_order() {
    let options = SendPhotoOptions {
        caption: Some("c".to_string()),
        business_connection_id: Some("b".to_string()),
        message_thread_id: Some(7),
        parse_mode: Some(ParseMode::Html),
        show_caption_above_media: Some(true),
        has_spoiler: Some(false),
        disable_notification: Some(true),
        protect_content: Some(false),
        message_effect_id: Some("e".to_string()),
    };
    let payload = photo_payload("42", "id9", &options);
    assert_eq!(
        payload,
        "{\"chat_id\":\"42\",\"photo\":\"id9\",\"caption\":\"c\",\"business_connection_id\":\"b\",\"message_thread_id\":7,\"parse_mode\":\"HTML\",\"show_caption_above_media\":true,\"has_spoiler\":false,\"disable_notification\":true,\"protect_content\":false,\"message_effect_id\":\"e\"}"
    );
}

#[test]
fn advisory_limits_are_published() {
    assert_eq!(telegrax::limit::MESSAGE_PER_CHAT_PER_SECOND, 1);
    assert_eq!(telegrax::limit::MESSAGE_PER_CHAT_PER_MINUTE, 20);
    assert_eq!(telegrax::limit::MESSAGE_PER_SECOND, 30);
}
