//! Send message as a bot.
//!
//! The payloads of `sendMessage` and `sendPhoto` are JSON objects built from
//! a destination, the content, and a sparse options record. A member stands
//! in the payload exactly when the caller supplied a value for it: an unset
//! option is omitted entirely — not sent as `null` — so the service applies
//! its own default, while an explicitly supplied `false` is transmitted as
//! `false`.

use vstd::prelude::*;
use crate::http::HttpOutcomeView;
use crate::json::decimal_digits;
use crate::json::format_u64;
use crate::json::push_char;
use crate::json::quote_str;
use crate::json::quote_string;
use crate::result::Error;
use crate::result::result_view;
use crate::result::spec_translate;
use crate::result::translate_outcome;

verus! {

/// A sender that holds the bot's credential.
pub struct Bot {
    token: String,
}

/// What a [`Bot`] is built from.
pub struct Configuration {
    /// The token for bot authentication. The service's bot father hands
    /// one out when a bot is registered.
    pub token: String,
}

/// Mode for parsing entities in a message text or a caption.
pub enum ParseMode {
    /// The service's legacy markdown syntax.
    Markdown,
    /// The service's current markdown syntax.
    MarkdownV2,
    /// A subset of HTML.
    Html,
}

impl ParseMode {
    /// The exact token the wire format uses for this mode, independent of
    /// the variant's name here.
    pub open spec fn spec_wire_name(&self) -> Seq<char> {
        match self {
            ParseMode::Markdown => "Markdown"@,
            ParseMode::MarkdownV2 => "MarkdownV2"@,
            ParseMode::Html => "HTML"@,
        }
    }

    /// The exact token the wire format uses for this mode.
    pub fn wire_name(&self) -> (r: &'static str)
        ensures
            r@ == self.spec_wire_name(),
    {
        match self {
            ParseMode::Markdown => "Markdown",
            ParseMode::MarkdownV2 => "MarkdownV2",
            ParseMode::Html => "HTML",
        }
    }
}

/// Link preview generation options for a message. Every field is
/// independently optional; an unset field leaves the choice to the service.
pub struct LinkPreviewOptions {
    /// True, if the link preview is disabled.
    pub is_disabled: Option<bool>,
    /// URL to use for the link preview. If empty, then the first URL found
    /// in the message text will be used.
    pub url: Option<String>,
    /// True, if the media in the link preview is supposed to be shrunk.
    pub prefer_small_media: Option<bool>,
    /// True, if the media in the link preview is supposed to be enlarged.
    pub prefer_large_media: Option<bool>,
    /// True, if the link preview must be shown above the message text.
    pub show_above_text: Option<bool>,
}

/// The options of one text message. Every field is independently optional;
/// an unset field is omitted from the payload.
pub struct SendMessageOptions {
    /// Mode for parsing entities in the message text.
    pub parse_mode: Option<ParseMode>,
    /// Link preview generation options for the message.
    pub link_preview_options: Option<LinkPreviewOptions>,
    /// Sends the message silently. Users will receive a notification with
    /// no sound.
    pub disable_notification: Option<bool>,
    /// Unique identifier of the business connection on behalf of which the
    /// message will be sent.
    pub business_connection_id: Option<String>,
    /// Unique identifier for the target message thread (topic) of the
    /// forum; for forum supergroups only.
    pub message_thread_id: Option<u64>,
    /// Protects the contents of the sent message from forwarding and
    /// saving.
    pub protect_content: Option<bool>,
}

/// The options of one photo message. Every field is independently optional;
/// an unset field is omitted from the payload.
pub struct SendPhotoOptions {
    /// Photo caption (may also be used when resending photos by file_id),
    /// 0-1024 characters after entities parsing.
    pub caption: Option<String>,
    /// Unique identifier of the business connection on behalf of which the
    /// message will be sent.
    pub business_connection_id: Option<String>,
    /// Unique identifier for the target message thread (topic) of the
    /// forum; for forum supergroups only.
    pub message_thread_id: Option<u64>,
    /// Mode for parsing entities in the photo caption.
    pub parse_mode: Option<ParseMode>,
    /// Pass True, if the caption must be shown above the message media.
    pub show_caption_above_media: Option<bool>,
    /// Pass True if the photo needs to be covered with a spoiler animation.
    pub has_spoiler: Option<bool>,
    /// Sends the message silently. Users will receive a notification with
    /// no sound.
    pub disable_notification: Option<bool>,
    /// Protects the contents of the sent message from forwarding and
    /// saving.
    pub protect_content: Option<bool>,
    /// Unique identifier of the message effect to be added to the message;
    /// for private chats only.
    pub message_effect_id: Option<String>,
}

impl Default for LinkPreviewOptions {
    /// All options left unset.
    fn default() -> (r: Self)
        ensures
            r.is_disabled is None,
            r.url is None,
            r.prefer_small_media is None,
            r.prefer_large_media is None,
            r.show_above_text is None,
    {
        LinkPreviewOptions {
            is_disabled: None,
            url: None,
            prefer_small_media: None,
            prefer_large_media: None,
            show_above_text: None,
        }
    }
}

impl Default for SendMessageOptions {
    /// All options left unset.
    fn default() -> (r: Self)
        ensures
            r.parse_mode is None,
            r.link_preview_options is None,
            r.disable_notification is None,
            r.business_connection_id is None,
            r.message_thread_id is None,
            r.protect_content is None,
    {
        SendMessageOptions {
            parse_mode: None,
            link_preview_options: None,
            disable_notification: None,
            business_connection_id: None,
            message_thread_id: None,
            protect_content: None,
        }
    }
}

impl Default for SendPhotoOptions {
    /// All options left unset.
    fn default() -> (r: Self)
        ensures
            r.caption is None,
            r.business_connection_id is None,
            r.message_thread_id is None,
            r.parse_mode is None,
            r.show_caption_above_media is None,
            r.has_spoiler is None,
            r.disable_notification is None,
            r.protect_content is None,
            r.message_effect_id is None,
    {
        SendPhotoOptions {
            caption: None,
            business_connection_id: None,
            message_thread_id: None,
            parse_mode: None,
            show_caption_above_media: None,
            has_spoiler: None,
            disable_notification: None,
            protect_content: None,
            message_effect_id: None,
        }
    }
}

/// The wire name of one payload member.
pub enum FieldName {
    ChatId,
    Text,
    Photo,
    Caption,
    ParseMode,
    LinkPreviewOptions,
    DisableNotification,
    BusinessConnectionId,
    MessageThreadId,
    ProtectContent,
    ShowCaptionAboveMedia,
    HasSpoiler,
    MessageEffectId,
    IsDisabled,
    Url,
    PreferSmallMedia,
    PreferLargeMedia,
    ShowAboveText,
}

impl FieldName {
    /// The member's key, as the wire format spells it.
    pub open spec fn spec_text(&self) -> Seq<char> {
        match self {
            FieldName::ChatId => "chat_id"@,
            FieldName::Text => "text"@,
            FieldName::Photo => "photo"@,
            FieldName::Caption => "caption"@,
            FieldName::ParseMode => "parse_mode"@,
            FieldName::LinkPreviewOptions => "link_preview_options"@,
            FieldName::DisableNotification => "disable_notification"@,
            FieldName::BusinessConnectionId => "business_connection_id"@,
            FieldName::MessageThreadId => "message_thread_id"@,
            FieldName::ProtectContent => "protect_content"@,
            FieldName::ShowCaptionAboveMedia => "show_caption_above_media"@,
            FieldName::HasSpoiler => "has_spoiler"@,
            FieldName::MessageEffectId => "message_effect_id"@,
            FieldName::IsDisabled => "is_disabled"@,
            FieldName::Url => "url"@,
            FieldName::PreferSmallMedia => "prefer_small_media"@,
            FieldName::PreferLargeMedia => "prefer_large_media"@,
            FieldName::ShowAboveText => "show_above_text"@,
        }
    }

    /// The member's key, as the wire format spells it.
    pub fn text(&self) -> (r: &'static str)
        ensures
            r@ == self.spec_text(),
    {
        match self {
            FieldName::ChatId => "chat_id",
            FieldName::Text => "text",
            FieldName::Photo => "photo",
            FieldName::Caption => "caption",
            FieldName::ParseMode => "parse_mode",
            FieldName::LinkPreviewOptions => "link_preview_options",
            FieldName::DisableNotification => "disable_notification",
            FieldName::BusinessConnectionId => "business_connection_id",
            FieldName::MessageThreadId => "message_thread_id",
            FieldName::ProtectContent => "protect_content",
            FieldName::ShowCaptionAboveMedia => "show_caption_above_media",
            FieldName::HasSpoiler => "has_spoiler",
            FieldName::MessageEffectId => "message_effect_id",
            FieldName::IsDisabled => "is_disabled",
            FieldName::Url => "url",
            FieldName::PreferSmallMedia => "prefer_small_media",
            FieldName::PreferLargeMedia => "prefer_large_media",
            FieldName::ShowAboveText => "show_above_text",
        }
    }
}

/// The JSON text of a boolean.
pub open spec fn bool_text(b: bool) -> Seq<char> {
    if b {
        "true"@
    } else {
        "false"@
    }
}

/// The rendered member list, extended by one member when a value is
/// present and unchanged when it is not.
pub open spec fn opt_field(
    pairs: Seq<(FieldName, Seq<char>)>,
    k: FieldName,
    v: Option<Seq<char>>,
) -> Seq<(FieldName, Seq<char>)> {
    match v {
        None => pairs,
        Some(t) => pairs.push((k, t)),
    }
}

/// The rendered form of an optional boolean option.
pub open spec fn opt_bool_value(v: Option<bool>) -> Option<Seq<char>> {
    match v {
        None => None,
        Some(b) => Some(bool_text(b)),
    }
}

/// The rendered form of an optional string option.
pub open spec fn opt_string_value(v: Option<String>) -> Option<Seq<char>> {
    match v {
        None => None,
        Some(s) => Some(quote_string(s@)),
    }
}

/// The rendered form of an optional integer option.
pub open spec fn opt_u64_value(v: Option<u64>) -> Option<Seq<char>> {
    match v {
        None => None,
        Some(n) => Some(decimal_digits(n as nat)),
    }
}

/// The rendered form of an optional parse mode.
pub open spec fn opt_parse_mode_value(v: Option<ParseMode>) -> Option<Seq<char>> {
    match v {
        None => None,
        Some(m) => Some(quote_string(m.spec_wire_name())),
    }
}

/// The rendered form of optional link preview options: a nested object.
pub open spec fn opt_link_preview_value(v: Option<LinkPreviewOptions>) -> Option<Seq<char>> {
    match v {
        None => None,
        Some(o) => Some(render_object(link_preview_pairs(o))),
    }
}

/// The members of a link preview object, in wire order.
pub open spec fn link_preview_pairs(o: LinkPreviewOptions) -> Seq<(FieldName, Seq<char>)> {
    opt_field(
        opt_field(
            opt_field(
                opt_field(
                    opt_field(
                        Seq::empty(),
                        FieldName::IsDisabled,
                        opt_bool_value(o.is_disabled),
                    ),
                    FieldName::Url,
                    opt_string_value(o.url),
                ),
                FieldName::PreferSmallMedia,
                opt_bool_value(o.prefer_small_media),
            ),
            FieldName::PreferLargeMedia,
            opt_bool_value(o.prefer_large_media),
        ),
        FieldName::ShowAboveText,
        opt_bool_value(o.show_above_text),
    )
}

/// The members of a `sendMessage` payload, in wire order: the destination
/// and the text always, then exactly the options the caller supplied.
pub open spec fn message_pairs(chat: Seq<char>, text: Seq<char>, o: SendMessageOptions) -> Seq<
    (FieldName, Seq<char>),
> {
    opt_field(
        opt_field(
            opt_field(
                opt_field(
                    opt_field(
                        opt_field(
                            seq![
                                (FieldName::ChatId, quote_string(chat)),
                                (FieldName::Text, quote_string(text)),
                            ],
                            FieldName::ParseMode,
                            opt_parse_mode_value(o.parse_mode),
                        ),
                        FieldName::LinkPreviewOptions,
                        opt_link_preview_value(o.link_preview_options),
                    ),
                    FieldName::DisableNotification,
                    opt_bool_value(o.disable_notification),
                ),
                FieldName::BusinessConnectionId,
                opt_string_value(o.business_connection_id),
            ),
            FieldName::MessageThreadId,
            opt_u64_value(o.message_thread_id),
        ),
        FieldName::ProtectContent,
        opt_bool_value(o.protect_content),
    )
}

/// The members of a `sendPhoto` payload, in wire order: the destination
/// and the photo reference always, then exactly the options the caller
/// supplied.
pub open spec fn photo_pairs(chat: Seq<char>, photo: Seq<char>, o: SendPhotoOptions) -> Seq<
    (FieldName, Seq<char>),
> {
    opt_field(
        opt_field(
            opt_field(
                opt_field(
                    opt_field(
                        opt_field(
                            opt_field(
                                opt_field(
                                    opt_field(
                                        seq![
                                            (FieldName::ChatId, quote_string(chat)),
                                            (FieldName::Photo, quote_string(photo)),
                                        ],
                                        FieldName::Caption,
                                        opt_string_value(o.caption),
                                    ),
                                    FieldName::BusinessConnectionId,
                                    opt_string_value(o.business_connection_id),
                                ),
                                FieldName::MessageThreadId,
                                opt_u64_value(o.message_thread_id),
                            ),
                            FieldName::ParseMode,
                            opt_parse_mode_value(o.parse_mode),
                        ),
                        FieldName::ShowCaptionAboveMedia,
                        opt_bool_value(o.show_caption_above_media),
                    ),
                    FieldName::HasSpoiler,
                    opt_bool_value(o.has_spoiler),
                ),
                FieldName::DisableNotification,
                opt_bool_value(o.disable_notification),
            ),
            FieldName::ProtectContent,
            opt_bool_value(o.protect_content),
        ),
        FieldName::MessageEffectId,
        opt_string_value(o.message_effect_id),
    )
}

/// Whether a member list holds a member under key `k`.
pub open spec fn has_field(pairs: Seq<(FieldName, Seq<char>)>, k: FieldName) -> bool {
    exists|j: int| 0 <= j < pairs.len() && pairs[j].0 == k
}

/// Whether a member list holds the member `(k, v)`.
pub open spec fn has_member(pairs: Seq<(FieldName, Seq<char>)>, k: FieldName, v: Seq<char>) -> bool {
    exists|j: int| 0 <= j < pairs.len() && pairs[j] == (k, v)
}

/// Extending a member list with an optional member adds the key exactly
/// when a value is present, and touches no other key.
proof fn lemma_opt_field(
    pairs: Seq<(FieldName, Seq<char>)>,
    k: FieldName,
    v: Option<Seq<char>>,
    q: FieldName,
)
    ensures
        has_field(opt_field(pairs, k, v), q) <==> (has_field(pairs, q) || (q == k && v is Some)),
        forall|t: Seq<char>|
            has_member(opt_field(pairs, k, v), q, t) <==> (has_member(pairs, q, t) || (q == k && v
                == Some(t))),
{
    match v {
        None => {
        },
        Some(t0) => {
            let p2 = pairs.push((k, t0));
            assert(p2[pairs.len() as int] == (k, t0));
            if has_field(p2, q) {
                let j = choose|j: int| 0 <= j < p2.len() && p2[j].0 == q;
                if j < pairs.len() {
                    assert(pairs[j].0 == q);
                }
            }
            if has_field(pairs, q) {
                let j = choose|j: int| 0 <= j < pairs.len() && pairs[j].0 == q;
                assert(p2[j].0 == q);
            }
            if q == k {
                assert(p2[pairs.len() as int].0 == q);
            }
            assert forall|t: Seq<char>|
                has_member(p2, q, t) <==> (has_member(pairs, q, t) || (q == k && Some(t0) == Some::<
                    Seq<char>,
                >(t))) by {
                if has_member(p2, q, t) {
                    let j = choose|j: int| 0 <= j < p2.len() && p2[j] == (q, t);
                    if j < pairs.len() {
                        assert(pairs[j] == (q, t));
                    }
                }
                if has_member(pairs, q, t) {
                    let j = choose|j: int| 0 <= j < pairs.len() && pairs[j] == (q, t);
                    assert(p2[j] == (q, t));
                }
                if q == k && t == t0 {
                    assert(p2[pairs.len() as int] == (q, t));
                }
            }
        },
    }
}

/// The keys a message options record can supply.
pub open spec fn is_message_option_field(k: FieldName) -> bool {
    k == FieldName::ParseMode || k == FieldName::LinkPreviewOptions || k
        == FieldName::DisableNotification || k == FieldName::BusinessConnectionId || k
        == FieldName::MessageThreadId || k == FieldName::ProtectContent
}

/// The rendered value a message options record supplies under `k`.
pub open spec fn message_option_value(o: SendMessageOptions, k: FieldName) -> Option<Seq<char>> {
    if k == FieldName::ParseMode {
        opt_parse_mode_value(o.parse_mode)
    } else if k == FieldName::LinkPreviewOptions {
        opt_link_preview_value(o.link_preview_options)
    } else if k == FieldName::DisableNotification {
        opt_bool_value(o.disable_notification)
    } else if k == FieldName::BusinessConnectionId {
        opt_string_value(o.business_connection_id)
    } else if k == FieldName::MessageThreadId {
        opt_u64_value(o.message_thread_id)
    } else if k == FieldName::ProtectContent {
        opt_bool_value(o.protect_content)
    } else {
        None
    }
}

/// The keys a photo options record can supply.
pub open spec fn is_photo_option_field(k: FieldName) -> bool {
    k == FieldName::Caption || k == FieldName::BusinessConnectionId || k
        == FieldName::MessageThreadId || k == FieldName::ParseMode || k
        == FieldName::ShowCaptionAboveMedia || k == FieldName::HasSpoiler || k
        == FieldName::DisableNotification || k == FieldName::ProtectContent || k
        == FieldName::MessageEffectId
}

/// The rendered value a photo options record supplies under `k`.
pub open spec fn photo_option_value(o: SendPhotoOptions, k: FieldName) -> Option<Seq<char>> {
    if k == FieldName::Caption {
        opt_string_value(o.caption)
    } else if k == FieldName::BusinessConnectionId {
        opt_string_value(o.business_connection_id)
    } else if k == FieldName::MessageThreadId {
        opt_u64_value(o.message_thread_id)
    } else if k == FieldName::ParseMode {
        opt_parse_mode_value(o.parse_mode)
    } else if k == FieldName::ShowCaptionAboveMedia {
        opt_bool_value(o.show_caption_above_media)
    } else if k == FieldName::HasSpoiler {
        opt_bool_value(o.has_spoiler)
    } else if k == FieldName::DisableNotification {
        opt_bool_value(o.disable_notification)
    } else if k == FieldName::ProtectContent {
        opt_bool_value(o.protect_content)
    } else if k == FieldName::MessageEffectId {
        opt_string_value(o.message_effect_id)
    } else {
        None
    }
}

/// The keys a link preview record can supply.
pub open spec fn is_link_preview_field(k: FieldName) -> bool {
    k == FieldName::IsDisabled || k == FieldName::Url || k == FieldName::PreferSmallMedia || k
        == FieldName::PreferLargeMedia || k == FieldName::ShowAboveText
}

/// The rendered value a link preview record supplies under `k`.
pub open spec fn link_preview_option_value(o: LinkPreviewOptions, k: FieldName) -> Option<
    Seq<char>,
> {
    if k == FieldName::IsDisabled {
        opt_bool_value(o.is_disabled)
    } else if k == FieldName::Url {
        opt_string_value(o.url)
    } else if k == FieldName::PreferSmallMedia {
        opt_bool_value(o.prefer_small_media)
    } else if k == FieldName::PreferLargeMedia {
        opt_bool_value(o.prefer_large_media)
    } else if k == FieldName::ShowAboveText {
        opt_bool_value(o.show_above_text)
    } else {
        None
    }
}

/// An optional member stands in a `sendMessage` payload exactly when the
/// caller supplied it, and then under the supplied value: an unset option
/// is omitted from the payload — never sent as `null` — while an explicit
/// `false` is sent as `false`. The destination and the text always stand
/// in the payload.
pub proof fn lemma_message_payload_members(chat: Seq<char>, text: Seq<char>, o: SendMessageOptions)
    ensures
        forall|k: FieldName|
            is_message_option_field(k) ==> (has_field(message_pairs(chat, text, o), k)
                <==> message_option_value(o, k) is Some),
        forall|k: FieldName, t: Seq<char>|
            is_message_option_field(k) ==> (has_member(message_pairs(chat, text, o), k, t)
                <==> message_option_value(o, k) == Some(t)),
        has_member(message_pairs(chat, text, o), FieldName::ChatId, quote_string(chat)),
        has_member(message_pairs(chat, text, o), FieldName::Text, quote_string(text)),
{
    let base = seq![
        (FieldName::ChatId, quote_string(chat)),
        (FieldName::Text, quote_string(text)),
    ];
    let p1 = opt_field(base, FieldName::ParseMode, opt_parse_mode_value(o.parse_mode));
    let p2 = opt_field(
        p1,
        FieldName::LinkPreviewOptions,
        opt_link_preview_value(o.link_preview_options),
    );
    let p3 = opt_field(p2, FieldName::DisableNotification, opt_bool_value(o.disable_notification));
    let p4 = opt_field(
        p3,
        FieldName::BusinessConnectionId,
        opt_string_value(o.business_connection_id),
    );
    let p5 = opt_field(p4, FieldName::MessageThreadId, opt_u64_value(o.message_thread_id));
    let p6 = opt_field(p5, FieldName::ProtectContent, opt_bool_value(o.protect_content));
    assert(message_pairs(chat, text, o) == p6);
    assert(base[0] == (FieldName::ChatId, quote_string(chat)));
    assert(base[1] == (FieldName::Text, quote_string(text)));
    assert forall|k: FieldName|
        #![trigger is_message_option_field(k)]
        #![trigger has_field(message_pairs(chat, text, o), k)]
        true implies {
        &&& is_message_option_field(k) ==> (has_field(p6, k) <==> message_option_value(o, k)
            is Some)
        &&& forall|t: Seq<char>|
            is_message_option_field(k) ==> (has_member(p6, k, t) <==> message_option_value(o, k)
                == Some(t))
    } by {
        lemma_opt_field(base, FieldName::ParseMode, opt_parse_mode_value(o.parse_mode), k);
        lemma_opt_field(
            p1,
            FieldName::LinkPreviewOptions,
            opt_link_preview_value(o.link_preview_options),
            k,
        );
        lemma_opt_field(
            p2,
            FieldName::DisableNotification,
            opt_bool_value(o.disable_notification),
            k,
        );
        lemma_opt_field(
            p3,
            FieldName::BusinessConnectionId,
            opt_string_value(o.business_connection_id),
            k,
        );
        lemma_opt_field(p4, FieldName::MessageThreadId, opt_u64_value(o.message_thread_id), k);
        lemma_opt_field(p5, FieldName::ProtectContent, opt_bool_value(o.protect_content), k);
        if is_message_option_field(k) {
            assert(!has_field(base, k));
            assert(forall|t: Seq<char>| !has_member(base, k, t));
        }
    }
    lemma_opt_field(base, FieldName::ParseMode, opt_parse_mode_value(o.parse_mode), FieldName::ChatId);
    lemma_opt_field(
        p1,
        FieldName::LinkPreviewOptions,
        opt_link_preview_value(o.link_preview_options),
        FieldName::ChatId,
    );
    lemma_opt_field(
        p2,
        FieldName::DisableNotification,
        opt_bool_value(o.disable_notification),
        FieldName::ChatId,
    );
    lemma_opt_field(
        p3,
        FieldName::BusinessConnectionId,
        opt_string_value(o.business_connection_id),
        FieldName::ChatId,
    );
    lemma_opt_field(p4, FieldName::MessageThreadId, opt_u64_value(o.message_thread_id), FieldName::ChatId);
    lemma_opt_field(p5, FieldName::ProtectContent, opt_bool_value(o.protect_content), FieldName::ChatId);
    assert(has_member(base, FieldName::ChatId, quote_string(chat)));
    lemma_opt_field(base, FieldName::ParseMode, opt_parse_mode_value(o.parse_mode), FieldName::Text);
    lemma_opt_field(
        p1,
        FieldName::LinkPreviewOptions,
        opt_link_preview_value(o.link_preview_options),
        FieldName::Text,
    );
    lemma_opt_field(
        p2,
        FieldName::DisableNotification,
        opt_bool_value(o.disable_notification),
        FieldName::Text,
    );
    lemma_opt_field(
        p3,
        FieldName::BusinessConnectionId,
        opt_string_value(o.business_connection_id),
        FieldName::Text,
    );
    lemma_opt_field(p4, FieldName::MessageThreadId, opt_u64_value(o.message_thread_id), FieldName::Text);
    lemma_opt_field(p5, FieldName::ProtectContent, opt_bool_value(o.protect_content), FieldName::Text);
    assert(has_member(base, FieldName::Text, quote_string(text)));
}

/// An optional member stands in a `sendPhoto` payload exactly when the
/// caller supplied it, and then under the supplied value. The destination
/// and the photo reference always stand in the payload.
#[verifier::rlimit(50)]
pub proof fn lemma_photo_payload_members(chat: Seq<char>, photo: Seq<char>, o: SendPhotoOptions)
    ensures
        forall|k: FieldName|
            is_photo_option_field(k) ==> (has_field(photo_pairs(chat, photo, o), k)
                <==> photo_option_value(o, k) is Some),
        forall|k: FieldName, t: Seq<char>|
            is_photo_option_field(k) ==> (has_member(photo_pairs(chat, photo, o), k, t)
                <==> photo_option_value(o, k) == Some(t)),
        has_member(photo_pairs(chat, photo, o), FieldName::ChatId, quote_string(chat)),
        has_member(photo_pairs(chat, photo, o), FieldName::Photo, quote_string(photo)),
{
    let base = seq![
        (FieldName::ChatId, quote_string(chat)),
        (FieldName::Photo, quote_string(photo)),
    ];
    let p1 = opt_field(base, FieldName::Caption, opt_string_value(o.caption));
    let p2 = opt_field(
        p1,
        FieldName::BusinessConnectionId,
        opt_string_value(o.business_connection_id),
    );
    let p3 = opt_field(p2, FieldName::MessageThreadId, opt_u64_value(o.message_thread_id));
    let p4 = opt_field(p3, FieldName::ParseMode, opt_parse_mode_value(o.parse_mode));
    let p5 = opt_field(
        p4,
        FieldName::ShowCaptionAboveMedia,
        opt_bool_value(o.show_caption_above_media),
    );
    let p6 = opt_field(p5, FieldName::HasSpoiler, opt_bool_value(o.has_spoiler));
    let p7 = opt_field(p6, FieldName::DisableNotification, opt_bool_value(o.disable_notification));
    let p8 = opt_field(p7, FieldName::ProtectContent, opt_bool_value(o.protect_content));
    let p9 = opt_field(p8, FieldName::MessageEffectId, opt_string_value(o.message_effect_id));
    assert(photo_pairs(chat, photo, o) == p9);
    assert(base[0] == (FieldName::ChatId, quote_string(chat)));
    assert(base[1] == (FieldName::Photo, quote_string(photo)));
    assert forall|k: FieldName|
        #![trigger is_photo_option_field(k)]
        #![trigger has_field(photo_pairs(chat, photo, o), k)]
        true implies {
        &&& is_photo_option_field(k) ==> (has_field(p9, k) <==> photo_option_value(o, k) is Some)
        &&& forall|t: Seq<char>|
            is_photo_option_field(k) ==> (has_member(p9, k, t) <==> photo_option_value(o, k)
                == Some(t))
    } by {
        lemma_opt_field(base, FieldName::Caption, opt_string_value(o.caption), k);
        lemma_opt_field(
            p1,
            FieldName::BusinessConnectionId,
            opt_string_value(o.business_connection_id),
            k,
        );
        lemma_opt_field(p2, FieldName::MessageThreadId, opt_u64_value(o.message_thread_id), k);
        lemma_opt_field(p3, FieldName::ParseMode, opt_parse_mode_value(o.parse_mode), k);
        lemma_opt_field(
            p4,
            FieldName::ShowCaptionAboveMedia,
            opt_bool_value(o.show_caption_above_media),
            k,
        );
        lemma_opt_field(p5, FieldName::HasSpoiler, opt_bool_value(o.has_spoiler), k);
        lemma_opt_field(
            p6,
            FieldName::DisableNotification,
            opt_bool_value(o.disable_notification),
            k,
        );
        lemma_opt_field(p7, FieldName::ProtectContent, opt_bool_value(o.protect_content), k);
        lemma_opt_field(p8, FieldName::MessageEffectId, opt_string_value(o.message_effect_id), k);
        if is_photo_option_field(k) {
            assert(!has_field(base, k));
            assert(forall|t: Seq<char>| !has_member(base, k, t));
        }
    }
    lemma_photo_required_member(base, p1, p2, p3, p4, p5, p6, p7, p8, p9, o, FieldName::ChatId);
    lemma_photo_required_member(base, p1, p2, p3, p4, p5, p6, p7, p8, p9, o, FieldName::Photo);
    assert(has_member(base, FieldName::ChatId, quote_string(chat)));
    assert(has_member(base, FieldName::Photo, quote_string(photo)));
}

/// Carries a member of the two required fields through every optional
/// extension of a `sendPhoto` member list.
proof fn lemma_photo_required_member(
    base: Seq<(FieldName, Seq<char>)>,
    p1: Seq<(FieldName, Seq<char>)>,
    p2: Seq<(FieldName, Seq<char>)>,
    p3: Seq<(FieldName, Seq<char>)>,
    p4: Seq<(FieldName, Seq<char>)>,
    p5: Seq<(FieldName, Seq<char>)>,
    p6: Seq<(FieldName, Seq<char>)>,
    p7: Seq<(FieldName, Seq<char>)>,
    p8: Seq<(FieldName, Seq<char>)>,
    p9: Seq<(FieldName, Seq<char>)>,
    o: SendPhotoOptions,
    q: FieldName,
)
    requires
        p1 == opt_field(base, FieldName::Caption, opt_string_value(o.caption)),
        p2 == opt_field(
            p1,
            FieldName::BusinessConnectionId,
            opt_string_value(o.business_connection_id),
        ),
        p3 == opt_field(p2, FieldName::MessageThreadId, opt_u64_value(o.message_thread_id)),
        p4 == opt_field(p3, FieldName::ParseMode, opt_parse_mode_value(o.parse_mode)),
        p5 == opt_field(
            p4,
            FieldName::ShowCaptionAboveMedia,
            opt_bool_value(o.show_caption_above_media),
        ),
        p6 == opt_field(p5, FieldName::HasSpoiler, opt_bool_value(o.has_spoiler)),
        p7 == opt_field(p6, FieldName::DisableNotification, opt_bool_value(o.disable_notification)),
        p8 == opt_field(p7, FieldName::ProtectContent, opt_bool_value(o.protect_content)),
        p9 == opt_field(p8, FieldName::MessageEffectId, opt_string_value(o.message_effect_id)),
    ensures
        forall|t: Seq<char>| has_member(base, q, t) ==> has_member(p9, q, t),
{
    assert forall|t: Seq<char>| has_member(base, q, t) implies has_member(p9, q, t) by {
        lemma_opt_field(base, FieldName::Caption, opt_string_value(o.caption), q);
        lemma_opt_field(
            p1,
            FieldName::BusinessConnectionId,
            opt_string_value(o.business_connection_id),
            q,
        );
        lemma_opt_field(p2, FieldName::MessageThreadId, opt_u64_value(o.message_thread_id), q);
        lemma_opt_field(p3, FieldName::ParseMode, opt_parse_mode_value(o.parse_mode), q);
        lemma_opt_field(
            p4,
            FieldName::ShowCaptionAboveMedia,
            opt_bool_value(o.show_caption_above_media),
            q,
        );
        lemma_opt_field(p5, FieldName::HasSpoiler, opt_bool_value(o.has_spoiler), q);
        lemma_opt_field(
            p6,
            FieldName::DisableNotification,
            opt_bool_value(o.disable_notification),
            q,
        );
        lemma_opt_field(p7, FieldName::ProtectContent, opt_bool_value(o.protect_content), q);
        lemma_opt_field(p8, FieldName::MessageEffectId, opt_string_value(o.message_effect_id), q);
    }
}

/// An optional member stands in a link preview object exactly when the
/// caller supplied it, and then under the supplied value.
pub proof fn lemma_link_preview_members(o: LinkPreviewOptions)
    ensures
        forall|k: FieldName|
            is_link_preview_field(k) ==> (has_field(link_preview_pairs(o), k)
                <==> link_preview_option_value(o, k) is Some),
        forall|k: FieldName, t: Seq<char>|
            is_link_preview_field(k) ==> (has_member(link_preview_pairs(o), k, t)
                <==> link_preview_option_value(o, k) == Some(t)),
{
    let base = Seq::<(FieldName, Seq<char>)>::empty();
    let p1 = opt_field(base, FieldName::IsDisabled, opt_bool_value(o.is_disabled));
    let p2 = opt_field(p1, FieldName::Url, opt_string_value(o.url));
    let p3 = opt_field(p2, FieldName::PreferSmallMedia, opt_bool_value(o.prefer_small_media));
    let p4 = opt_field(p3, FieldName::PreferLargeMedia, opt_bool_value(o.prefer_large_media));
    let p5 = opt_field(p4, FieldName::ShowAboveText, opt_bool_value(o.show_above_text));
    assert(link_preview_pairs(o) == p5);
    assert forall|k: FieldName|
        #![trigger is_link_preview_field(k)]
        #![trigger has_field(link_preview_pairs(o), k)]
        true implies {
        &&& is_link_preview_field(k) ==> (has_field(p5, k) <==> link_preview_option_value(o, k)
            is Some)
        &&& forall|t: Seq<char>|
            is_link_preview_field(k) ==> (has_member(p5, k, t) <==> link_preview_option_value(o, k)
                == Some(t))
    } by {
        lemma_opt_field(base, FieldName::IsDisabled, opt_bool_value(o.is_disabled), k);
        lemma_opt_field(p1, FieldName::Url, opt_string_value(o.url), k);
        lemma_opt_field(p2, FieldName::PreferSmallMedia, opt_bool_value(o.prefer_small_media), k);
        lemma_opt_field(p3, FieldName::PreferLargeMedia, opt_bool_value(o.prefer_large_media), k);
        lemma_opt_field(p4, FieldName::ShowAboveText, opt_bool_value(o.show_above_text), k);
        assert(!has_field(base, k));
        assert(forall|t: Seq<char>| !has_member(base, k, t));
    }
}

/// One rendered member: the quoted key, a colon, and the value's JSON text.
pub open spec fn render_member(p: (FieldName, Seq<char>)) -> Seq<char> {
    seq!['"'] + p.0.spec_text() + seq!['"', ':'] + p.1
}

/// The rendered members from `i` on, separated by commas.
pub open spec fn render_members_from(pairs: Seq<(FieldName, Seq<char>)>, i: int) -> Seq<char>
    decreases pairs.len() - i
        when 0 <= i <= pairs.len()
{
    if i >= pairs.len() {
        Seq::empty()
    } else if i + 1 == pairs.len() {
        render_member(pairs[i])
    } else {
        render_member(pairs[i]) + seq![','] + render_members_from(pairs, i + 1)
    }
}

/// The rendered object: braces around the comma-separated members.
pub open spec fn render_object(pairs: Seq<(FieldName, Seq<char>)>) -> Seq<char> {
    seq!['{'] + render_members_from(pairs, 0) + seq!['}']
}

/// The views of built members.
pub open spec fn pairs_view(v: Seq<(FieldName, String)>) -> Seq<(FieldName, Seq<char>)> {
    v.map_values(|p: (FieldName, String)| (p.0, p.1@))
}

/// Appends a member when a rendered value is present.
fn push_opt_field(pairs: &mut Vec<(FieldName, String)>, k: FieldName, v: Option<String>)
    ensures
        pairs_view(final(pairs)@) == opt_field(
            pairs_view(old(pairs)@),
            k,
            crate::parse::opt_str_view(v),
        ),
{
    match v {
        None => {
        },
        Some(t) => {
            let ghost before = pairs@;
            pairs.push((k, t));
            proof {
                assert(pairs_view(pairs@) =~= pairs_view(before).push((k, t@)));
            }
        },
    }
}

/// The JSON text of a boolean.
fn bool_str(b: bool) -> (r: String)
    ensures
        r@ == bool_text(b),
{
    if b {
        String::from_str("true")
    } else {
        String::from_str("false")
    }
}

/// Renders a member list as a JSON object.
fn build_object(pairs: &Vec<(FieldName, String)>) -> (r: String)
    ensures
        r@ == render_object(pairs_view(pairs@)),
{
    let ghost pv = pairs_view(pairs@);
    let mut out = String::new();
    push_char(&mut out, '{');
    let m = pairs.len();
    proof {
        assert(pv.len() == m);
    }
    let mut i: usize = 0;
    while i < m
        invariant
            m == pairs@.len(),
            pv == pairs_view(pairs@),
            pv.len() == m,
            i <= m,
            out@ + render_members_from(pv, i as int) + seq!['}'] == render_object(pv),
        decreases m - i,
    {
        let ghost out0 = out@;
        push_char(&mut out, '"');
        out.append(pairs[i].0.text());
        push_char(&mut out, '"');
        push_char(&mut out, ':');
        out.append(pairs[i].1.as_str());
        proof {
            assert(pv[i as int] == (pairs@[i as int].0, pairs@[i as int].1@));
            assert(out@ =~= out0 + render_member(pv[i as int]));
        }
        if i + 1 < m {
            push_char(&mut out, ',');
            proof {
                assert(out@ + render_members_from(pv, i + 1 as int) + seq!['}'] =~= out0
                    + render_members_from(pv, i as int) + seq!['}']);
            }
        } else {
            proof {
                assert(out@ + render_members_from(pv, i + 1 as int) + seq!['}'] =~= out0
                    + render_members_from(pv, i as int) + seq!['}']);
            }
        }
        i = i + 1;
    }
    push_char(&mut out, '}');
    proof {
        assert(out@ =~= render_object(pv));
    }
    out
}

/// The rendered form of optional link preview options.
fn link_preview_value(v: &Option<LinkPreviewOptions>) -> (r: Option<String>)
    ensures
        crate::parse::opt_str_view(r) == opt_link_preview_value(match v {
            None => None,
            Some(o) => Some(*o),
        }),
{
    match v {
        None => None,
        Some(o) => {
            let mut pairs: Vec<(FieldName, String)> = Vec::new();
            push_opt_field(&mut pairs, FieldName::IsDisabled, match o.is_disabled {
                None => None,
                Some(b) => Some(bool_str(b)),
            });
            push_opt_field(&mut pairs, FieldName::Url, match &o.url {
                None => None,
                Some(u) => Some(quote_str(u.as_str())),
            });
            push_opt_field(&mut pairs, FieldName::PreferSmallMedia, match o.prefer_small_media {
                None => None,
                Some(b) => Some(bool_str(b)),
            });
            push_opt_field(&mut pairs, FieldName::PreferLargeMedia, match o.prefer_large_media {
                None => None,
                Some(b) => Some(bool_str(b)),
            });
            push_opt_field(&mut pairs, FieldName::ShowAboveText, match o.show_above_text {
                None => None,
                Some(b) => Some(bool_str(b)),
            });
            proof {
                assert(pairs_view(Seq::<(FieldName, String)>::empty()) =~= Seq::<
                    (FieldName, Seq<char>),
                >::empty());
                assert(pairs_view(pairs@) == link_preview_pairs(*o));
            }
            Some(build_object(&pairs))
        },
    }
}

/// The body of one `sendMessage` call: the destination, the text, and
/// exactly the options the caller supplied, as one JSON object.
pub open spec fn spec_message_payload(
    chat: Seq<char>,
    text: Seq<char>,
    o: SendMessageOptions,
) -> Seq<char> {
    render_object(message_pairs(chat, text, o))
}

/// The body of one `sendPhoto` call.
pub open spec fn spec_photo_payload(
    chat: Seq<char>,
    photo: Seq<char>,
    o: SendPhotoOptions,
) -> Seq<char> {
    render_object(photo_pairs(chat, photo, o))
}

/// Builds the body of one `sendMessage` call.
pub fn message_payload(chat_identity: &str, text: &str, options: &SendMessageOptions) -> (r:
    String)
    ensures
        r@ == spec_message_payload(chat_identity@, text@, *options),
{
    let mut pairs: Vec<(FieldName, String)> = Vec::new();
    pairs.push((FieldName::ChatId, quote_str(chat_identity)));
    pairs.push((FieldName::Text, quote_str(text)));
    proof {
        assert(pairs_view(pairs@) =~= seq![
            (FieldName::ChatId, quote_string(chat_identity@)),
            (FieldName::Text, quote_string(text@)),
        ]);
    }
    push_opt_field(&mut pairs, FieldName::ParseMode, match &options.parse_mode {
        None => None,
        Some(m) => Some(quote_str(m.wire_name())),
    });
    push_opt_field(
        &mut pairs,
        FieldName::LinkPreviewOptions,
        link_preview_value(&options.link_preview_options),
    );
    push_opt_field(&mut pairs, FieldName::DisableNotification, match options.disable_notification {
        None => None,
        Some(b) => Some(bool_str(b)),
    });
    push_opt_field(
        &mut pairs,
        FieldName::BusinessConnectionId,
        match &options.business_connection_id {
            None => None,
            Some(s) => Some(quote_str(s.as_str())),
        },
    );
    push_opt_field(&mut pairs, FieldName::MessageThreadId, match options.message_thread_id {
        None => None,
        Some(n) => Some(format_u64(n)),
    });
    push_opt_field(&mut pairs, FieldName::ProtectContent, match options.protect_content {
        None => None,
        Some(b) => Some(bool_str(b)),
    });
    proof {
        assert(pairs_view(pairs@) == message_pairs(chat_identity@, text@, *options));
    }
    build_object(&pairs)
}

/// Builds the body of one `sendPhoto` call.
pub fn photo_payload(chat_identity: &str, photo: &str, options: &SendPhotoOptions) -> (r: String)
    ensures
        r@ == spec_photo_payload(chat_identity@, photo@, *options),
{
    let mut pairs: Vec<(FieldName, String)> = Vec::new();
    pairs.push((FieldName::ChatId, quote_str(chat_identity)));
    pairs.push((FieldName::Photo, quote_str(photo)));
    proof {
        assert(pairs_view(pairs@) =~= seq![
            (FieldName::ChatId, quote_string(chat_identity@)),
            (FieldName::Photo, quote_string(photo@)),
        ]);
    }
    push_opt_field(&mut pairs, FieldName::Caption, match &options.caption {
        None => None,
        Some(s) => Some(quote_str(s.as_str())),
    });
    push_opt_field(
        &mut pairs,
        FieldName::BusinessConnectionId,
        match &options.business_connection_id {
            None => None,
            Some(s) => Some(quote_str(s.as_str())),
        },
    );
    push_opt_field(&mut pairs, FieldName::MessageThreadId, match options.message_thread_id {
        None => None,
        Some(n) => Some(format_u64(n)),
    });
    push_opt_field(&mut pairs, FieldName::ParseMode, match &options.parse_mode {
        None => None,
        Some(m) => Some(quote_str(m.wire_name())),
    });
    push_opt_field(
        &mut pairs,
        FieldName::ShowCaptionAboveMedia,
        match options.show_caption_above_media {
            None => None,
            Some(b) => Some(bool_str(b)),
        },
    );
    push_opt_field(&mut pairs, FieldName::HasSpoiler, match options.has_spoiler {
        None => None,
        Some(b) => Some(bool_str(b)),
    });
    push_opt_field(&mut pairs, FieldName::DisableNotification, match options.disable_notification {
        None => None,
        Some(b) => Some(bool_str(b)),
    });
    push_opt_field(&mut pairs, FieldName::ProtectContent, match options.protect_content {
        None => None,
        Some(b) => Some(bool_str(b)),
    });
    push_opt_field(&mut pairs, FieldName::MessageEffectId, match &options.message_effect_id {
        None => None,
        Some(s) => Some(quote_str(s.as_str())),
    });
    proof {
        assert(pairs_view(pairs@) == photo_pairs(chat_identity@, photo@, *options));
    }
    build_object(&pairs)
}

/// The URL of one method call: the endpoint root, the credential-scoped
/// path, and the method's name.
pub open spec fn spec_request_url(token: Seq<char>, method: Seq<char>) -> Seq<char> {
    "https://api.telegram.org/bot"@ + token + "/"@ + method
}

/// Builds the URL of one method call.
pub fn request_url(token: &str, method: &str) -> (r: String)
    ensures
        r@ == spec_request_url(token@, method@),
{
    let mut url = String::from_str("https://api.telegram.org/bot");
    url.append(token);
    url.append("/");
    url.append(method);
    url
}

impl Bot {
    /// The held credential.
    pub closed spec fn spec_token(&self) -> Seq<char> {
        self.token@
    }

    /// Builds a sender around the credential. No call leaves; the
    /// credential is held unchanged for the sender's lifetime.
    pub fn new(config: Configuration) -> (r: Self)
        ensures
            r.spec_token() == config.token@,
    {
        Self { token: config.token }
    }

    /// Sends a text message.
    ///
    /// # Arguments
    ///
    /// `chat_identity`. Unique identifier for the target chat or username
    /// of the target channel (in the format @channelusername).
    ///
    /// `text`. Content to be sent. It must be not empty and less than 4096
    /// characters after parsing; this is not checked here — the endpoint
    /// rejects violations itself, and that rejection comes back as an
    /// [`Error`].
    ///
    /// The call POSTs [`spec_message_payload`] to
    /// [`spec_request_url`] for `sendMessage`, and the result is the
    /// translation of whatever outcome the transport reached.
    pub fn send_message(
        &self,
        chat_identity: &str,
        text: &str,
        options: SendMessageOptions,
    ) -> (r: Result<(), Error>)
        ensures
            exists|o: HttpOutcomeView| result_view(r) == spec_translate(o),
    {
        let url = request_url(self.token.as_str(), "sendMessage");
        let payload = message_payload(chat_identity, text, &options);
        let outcome = crate::http::post_json(url.as_str(), payload.as_str());
        let ghost ov = outcome@;
        let r = translate_outcome(outcome);
        proof {
            assert(result_view(r) == spec_translate(ov));
        }
        r
    }

    /// Sends a photo.
    ///
    /// # Arguments
    ///
    /// `chat_identity`. Unique identifier for the target chat or username
    /// of the target channel (in the format @channelusername).
    ///
    /// `photo`. Pass a *file_id* to send a photo that exists on the
    /// service's servers (recommended). Pass an HTTP URL to get a photo
    /// from the Internet. The photo must be at most 10 MB in size. The
    /// photo's width and height must not exceed 10000 in total. Width and
    /// height ratio must be at most 20. None of this is checked here — the
    /// endpoint rejects violations itself.
    ///
    /// The call POSTs [`spec_photo_payload`] to [`spec_request_url`] for
    /// `sendPhoto`, and the result is the translation of whatever outcome
    /// the transport reached.
    pub fn send_photo(&self, chat_identity: &str, photo: &str, options: SendPhotoOptions) -> (r:
        Result<(), Error>)
        ensures
            exists|o: HttpOutcomeView| result_view(r) == spec_translate(o),
    {
        let url = request_url(self.token.as_str(), "sendPhoto");
        let payload = photo_payload(chat_identity, photo, &options);
        let outcome = crate::http::post_json(url.as_str(), payload.as_str());
        let ghost ov = outcome@;
        let r = translate_outcome(outcome);
        proof {
            assert(result_view(r) == spec_translate(ov));
        }
        r
    }
}

} // verus!
