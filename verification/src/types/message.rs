//! Conversation messages: roles, text or multipart content, and the
//! constructors for each kind of message.
use vstd::prelude::*;

use crate::text::{concat2, IntoText};
use crate::types::tools::ToolCall;

verus! {

/// The role of a participant in a conversation.
#[derive(Debug, Clone, Copy, PartialEq, Eq, Structural)]
pub enum Role {
    System,
    User,
    Assistant,
    Tool,
}

/// The lower-case wire name of a role.
pub open spec fn role_name(r: Role) -> Seq<char> {
    match r {
        Role::System => "system"@,
        Role::User => "user"@,
        Role::Assistant => "assistant"@,
        Role::Tool => "tool"@,
    }
}

impl Role {
    /// The lower-case name of the role, as it is written on the wire.
    pub fn to_string(&self) -> (r: String)
        ensures
            r@ == role_name(*self),
    {
        match self {
            Role::System => String::from_str("system"),
            Role::User => String::from_str("user"),
            Role::Assistant => String::from_str("assistant"),
            Role::Tool => String::from_str("tool"),
        }
    }
}

/// The content of a [`ChatMessage`]: either plain text or a list of content
/// parts (text, images, audio, and/or documents).
#[derive(Debug, Clone)]
pub enum MessageContent {
    /// Plain-text content.
    Text(String),
    /// Multipart content containing text, images, audio, and/or document parts.
    Parts(Vec<ContentPart>),
}

impl Default for MessageContent {
    fn default() -> (r: Self)
        ensures
            r matches MessageContent::Text(s) && s@.len() == 0,
    {
        MessageContent::Text(String::new())
    }
}

impl From<String> for MessageContent {
    fn from(s: String) -> (r: Self) {
        MessageContent::Text(s)
    }
}

impl vstd::std_specs::convert::FromSpecImpl<String> for MessageContent {
    open spec fn obeys_from_spec() -> bool {
        true
    }

    open spec fn from_spec(s: String) -> Self {
        MessageContent::Text(s)
    }
}

/// The text of the first text part, if there is one.
pub open spec fn first_text(parts: Seq<ContentPart>) -> Option<Seq<char>>
    decreases parts.len(),
{
    if parts.len() == 0 {
        None
    } else {
        match parts[0] {
            ContentPart::Text { text } => Some(text@),
            _ => first_text(parts.drop_first()),
        }
    }
}

/// The text of a part, or nothing for a non-text part.
pub open spec fn part_text(p: ContentPart) -> Seq<char> {
    match p {
        ContentPart::Text { text } => text@,
        _ => Seq::empty(),
    }
}

/// The text parts of `parts`, concatenated in order.
pub open spec fn parts_text(parts: Seq<ContentPart>) -> Seq<char>
    decreases parts.len(),
{
    if parts.len() == 0 {
        Seq::empty()
    } else {
        parts_text(parts.drop_last()) + part_text(parts.last())
    }
}

/// What [`MessageContent::as_str`] returns, as text.
pub open spec fn content_first_text(c: MessageContent) -> Option<Seq<char>> {
    match c {
        MessageContent::Text(s) => Some(s@),
        MessageContent::Parts(parts) => first_text(parts@),
    }
}

/// What [`MessageContent::to_text_lossy`] returns.
pub open spec fn content_text(c: MessageContent) -> Seq<char> {
    match c {
        MessageContent::Text(s) => s@,
        MessageContent::Parts(parts) => parts_text(parts@),
    }
}

/// The text of an optional string slice.
pub open spec fn opt_str_view(o: Option<&str>) -> Option<Seq<char>> {
    match o {
        Some(s) => Some(s@),
        None => None,
    }
}

/// The first text part of a list of parts is a prefix of the concatenation
/// of all text parts.
proof fn lemma_first_text_prefix(parts: Seq<ContentPart>)
    ensures
        first_text(parts) matches Some(t) ==> t.is_prefix_of(parts_text(parts)),
        first_text(parts) is None ==> parts_text(parts).len() == 0,
    decreases parts.len(),
{
    if parts.len() > 0 {
        let rest = parts.drop_first();
        lemma_first_text_prefix(rest);
        lemma_parts_text_cons(parts);
    }
}

/// Splitting off the first part: the text of a list is the text of its
/// first part followed by the text of the rest.
proof fn lemma_parts_text_cons(parts: Seq<ContentPart>)
    requires
        parts.len() > 0,
    ensures
        parts_text(parts) == part_text(parts[0]) + parts_text(parts.drop_first()),
    decreases parts.len(),
{
    if parts.len() == 1 {
        assert(parts.drop_last().len() == 0);
        assert(parts.drop_first().len() == 0);
        assert(parts.last() == parts[0]);
        assert(parts_text(parts.drop_last()) =~= Seq::<char>::empty());
        assert(parts_text(parts) =~= part_text(parts[0]));
    } else {
        let init = parts.drop_last();
        lemma_parts_text_cons(init);
        assert(init.drop_first() =~= parts.drop_first().drop_last());
        assert(parts.drop_first().last() == parts.last());
        assert(parts_text(parts.drop_first()) == parts_text(init.drop_first()) + part_text(
            parts.last(),
        ));
        assert(parts_text(parts) =~= part_text(parts[0]) + parts_text(parts.drop_first()));
    }
}

/// `as_str` and `to_text_lossy` agree: the first text of any content is
/// where its lossy text begins, and content without text has empty lossy
/// text.
pub proof fn law_first_text_begins_lossy_text(c: MessageContent)
    ensures
        content_first_text(c) matches Some(t) ==> t.is_prefix_of(content_text(c)),
        content_first_text(c) is None ==> content_text(c).len() == 0,
{
    match c {
        MessageContent::Parts(ps) => lemma_first_text_prefix(ps@),
        MessageContent::Text(s) => {
            assert(s@.subrange(0, s@.len() as int) =~= s@);
        },
    }
}

impl MessageContent {
    /// Returns a reference to the first text segment, if any.
    pub fn as_str(&self) -> (r: Option<&str>)
        ensures
            opt_str_view(r) == content_first_text(*self),
    {
        match self {
            MessageContent::Text(s) => Some(s.as_str()),
            MessageContent::Parts(parts) => {
                let mut i: usize = 0;
                assert(parts@.subrange(0, parts@.len() as int) =~= parts@);
                while i < parts.len()
                    invariant
                        0 <= i <= parts.len(),
                        content_first_text(*self) == first_text(parts@),
                        first_text(parts@) == first_text(parts@.subrange(i as int, parts@.len() as int)),
                    decreases parts.len() - i,
                {
                    let ghost rest = parts@.subrange(i as int, parts@.len() as int);
                    assert(rest.drop_first() =~= parts@.subrange(i + 1, parts@.len() as int));
                    assert(rest[0] == parts@[i as int]);
                    match &parts[i] {
                        ContentPart::Text { text } => {
                            assert(first_text(rest) == Some(text@));
                            return Some(text.as_str());
                        },
                        _ => {},
                    }
                    i = i + 1;
                }
                assert(parts@.subrange(i as int, parts@.len() as int).len() == 0);
                None
            },
        }
    }

    /// Concatenates all text parts into a single `String`, skipping non-text
    /// parts.
    pub fn to_text_lossy(&self) -> (r: String)
        ensures
            r@ == content_text(*self),
    {
        match self {
            MessageContent::Text(s) => s.clone(),
            MessageContent::Parts(parts) => {
                let mut out = String::new();
                let mut i: usize = 0;
                while i < parts.len()
                    invariant
                        0 <= i <= parts.len(),
                        out@ == parts_text(parts@.subrange(0, i as int)),
                    decreases parts.len() - i,
                {
                    proof {
                        assert(parts@.subrange(0, i + 1).drop_last() =~= parts@.subrange(
                            0,
                            i as int,
                        ));
                    }
                    match &parts[i] {
                        ContentPart::Text { text } => {
                            out.append(text.as_str());
                        },
                        _ => {},
                    }
                    assert(out@ =~= parts_text(parts@.subrange(0, i + 1)));
                    i = i + 1;
                }
                assert(parts@.subrange(0, parts@.len() as int) =~= parts@);
                out
            },
        }
    }
}

/// A single content part within a multipart [`ChatMessage`].
#[derive(Debug, Clone)]
pub enum ContentPart {
    /// A text segment.
    Text { text: String },
    /// An image referenced by URL or inline data URL (`data:image/jpeg;base64,...`).
    ImageUrl { image_url: ImageUrl },
    /// Audio input for speech-capable models.
    InputAudio { input_audio: AudioInput },
    /// A document (PDF or plain text) for document-capable models.
    Document { document: DocumentInput },
}

impl ContentPart {
    /// Create a text part.
    pub fn text<T: IntoText>(text: T) -> (r: Self)
        ensures
            r matches ContentPart::Text { text: t } && t@ == text.text_view(),
    {
        ContentPart::Text { text: text.into_text() }
    }

    /// Create an image part from a URL or data URL.
    pub fn image_url<T: IntoText>(url: T) -> (r: Self)
        ensures
            r matches ContentPart::ImageUrl { image_url: i } && i.url@ == url.text_view()
                && i.detail is None,
    {
        ContentPart::ImageUrl { image_url: ImageUrl { url: url.into_text(), detail: None } }
    }

    /// Create an audio input part from base64-encoded audio data.
    pub fn audio<D: IntoText, F: IntoText>(data: D, format: F) -> (r: Self)
        ensures
            r matches ContentPart::InputAudio { input_audio: a } && a.data@ == data.text_view()
                && a.format@ == format.text_view(),
    {
        ContentPart::InputAudio {
            input_audio: AudioInput { data: data.into_text(), format: format.into_text() },
        }
    }

    /// Create a document part from base64-encoded document data.
    pub fn document<D: IntoText, M: IntoText>(data: D, media_type: M) -> (r: Self)
        ensures
            r matches ContentPart::Document { document: d } && d.data@ == data.text_view()
                && d.media_type@ == media_type.text_view(),
    {
        ContentPart::Document {
            document: DocumentInput { data: data.into_text(), media_type: media_type.into_text() },
        }
    }
}

/// An image reference used inside a [`ContentPart::ImageUrl`].
#[derive(Debug, Clone)]
pub struct ImageUrl {
    /// HTTPS image URL or a `data:image/...;base64,...` data URL.
    pub url: String,
    /// Optional resolution hint (`"low"`, `"high"`, or `"auto"`).
    pub detail: Option<String>,
}

/// Base64-encoded audio for use as a [`ContentPart::InputAudio`].
#[derive(Debug, Clone)]
pub struct AudioInput {
    /// Base64-encoded audio bytes (no data-URL prefix needed).
    pub data: String,
    /// Audio codec / container: `"wav"`, `"mp3"`, `"flac"`, `"opus"`, `"aac"`, `"pcm16"`.
    pub format: String,
}

/// The MIME type of an audio format name; unknown formats are taken as WAV.
pub open spec fn audio_mime(format: Seq<char>) -> Seq<char> {
    if format == "mp3"@ {
        "audio/mpeg"@
    } else if format == "flac"@ {
        "audio/flac"@
    } else if format == "opus"@ {
        "audio/ogg; codecs=opus"@
    } else if format == "aac"@ {
        "audio/aac"@
    } else if format == "pcm16"@ {
        "audio/pcm"@
    } else {
        "audio/wav"@
    }
}

impl AudioInput {
    /// Returns the MIME type corresponding to this audio format, e.g. `"audio/wav"`.
    pub fn mime_type(&self) -> (r: String)
        ensures
            r@ == audio_mime(self.format@),
    {
        let f = self.format.as_str();
        if crate::text::str_eq(f, "mp3") {
            String::from_str("audio/mpeg")
        } else if crate::text::str_eq(f, "flac") {
            String::from_str("audio/flac")
        } else if crate::text::str_eq(f, "opus") {
            String::from_str("audio/ogg; codecs=opus")
        } else if crate::text::str_eq(f, "aac") {
            String::from_str("audio/aac")
        } else if crate::text::str_eq(f, "pcm16") {
            String::from_str("audio/pcm")
        } else {
            String::from_str("audio/wav")
        }
    }
}

/// Base64-encoded document for use as a [`ContentPart::Document`].
#[derive(Debug, Clone)]
pub struct DocumentInput {
    /// Base64-encoded document bytes.
    pub data: String,
    /// MIME type of the document, e.g. `"application/pdf"` or `"text/plain"`.
    pub media_type: String,
}

/// Audio data returned by a model.
#[derive(Debug, Clone)]
pub struct AudioOutput {
    /// Provider-assigned audio clip identifier.
    pub id: Option<String>,
    /// Base64-encoded audio bytes.
    pub data: String,
    /// Unix timestamp at which the audio data expires from the provider's servers.
    pub expires_at: Option<u64>,
    /// Text transcript of the audio, if included by the provider.
    pub transcript: Option<String>,
}

/// A single message in a conversation thread.
#[derive(Debug, Clone)]
pub struct ChatMessage {
    pub role: Role,
    /// Text or multipart content.
    pub content: MessageContent,
    /// Audio output, present only when a model produces audio.
    pub audio: Option<AudioOutput>,
    /// Tool calls requested by the model in an assistant message.
    pub tool_calls: Option<Vec<ToolCall>>,
    /// Tool call ID this message is responding to (used in `Role::Tool` messages).
    pub tool_call_id: Option<String>,
}

/// A message of the given role with plain-text content and nothing else.
pub open spec fn is_plain_message(m: ChatMessage, role: Role, text: Seq<char>) -> bool {
    &&& m.role == role
    &&& m.content matches MessageContent::Text(s) && s@ == text
    &&& m.audio is None
    &&& m.tool_calls is None
    &&& m.tool_call_id is None
}

impl ChatMessage {
    /// Create a system message.
    pub fn system<T: IntoText>(content: T) -> (r: Self)
        ensures
            is_plain_message(r, Role::System, content.text_view()),
    {
        ChatMessage {
            role: Role::System,
            content: MessageContent::Text(content.into_text()),
            audio: None,
            tool_calls: None,
            tool_call_id: None,
        }
    }

    /// Create a user text message.
    pub fn user<T: IntoText>(content: T) -> (r: Self)
        ensures
            is_plain_message(r, Role::User, content.text_view()),
    {
        ChatMessage {
            role: Role::User,
            content: MessageContent::Text(content.into_text()),
            audio: None,
            tool_calls: None,
            tool_call_id: None,
        }
    }

    /// Create an assistant text message.
    pub fn assistant<T: IntoText>(content: T) -> (r: Self)
        ensures
            is_plain_message(r, Role::Assistant, content.text_view()),
    {
        ChatMessage {
            role: Role::Assistant,
            content: MessageContent::Text(content.into_text()),
            audio: None,
            tool_calls: None,
            tool_call_id: None,
        }
    }

    /// Create a tool result message to send back after a model requested a tool call.
    pub fn tool_result<I: IntoText, T: IntoText>(tool_call_id: I, content: T) -> (r: Self)
        ensures
            r.role == Role::Tool,
            r.content matches MessageContent::Text(s) && s@ == content.text_view(),
            r.tool_call_id matches Some(id) && id@ == tool_call_id.text_view(),
            r.tool_calls is None,
            r.audio is None,
    {
        ChatMessage {
            role: Role::Tool,
            content: MessageContent::Text(content.into_text()),
            tool_call_id: Some(tool_call_id.into_text()),
            tool_calls: None,
            audio: None,
        }
    }

    /// Create a user message containing text followed by a single image.
    pub fn user_with_image<T: IntoText, U: IntoText>(text: T, image_url: U) -> (r: Self)
        ensures
            r.role == Role::User,
            r.content matches MessageContent::Parts(parts) && parts@.len() == 2 && (
            parts@[0] matches ContentPart::Text { text: t } && t@ == text.text_view()) && (
            parts@[1] matches ContentPart::ImageUrl { image_url: i } && i.url@
                == image_url.text_view() && i.detail is None),
            r.audio is None,
            r.tool_calls is None,
            r.tool_call_id is None,
    {
        let mut parts: Vec<ContentPart> = Vec::new();
        parts.push(ContentPart::text(text));
        parts.push(ContentPart::image_url(image_url));
        ChatMessage {
            role: Role::User,
            content: MessageContent::Parts(parts),
            audio: None,
            tool_calls: None,
            tool_call_id: None,
        }
    }

    /// Create a message with arbitrary content parts.
    pub fn with_parts(role: Role, parts: Vec<ContentPart>) -> (r: Self)
        ensures
            r.role == role,
            r.content == MessageContent::Parts(parts),
            r.audio is None,
            r.tool_calls is None,
            r.tool_call_id is None,
    {
        ChatMessage {
            role,
            content: MessageContent::Parts(parts),
            audio: None,
            tool_calls: None,
            tool_call_id: None,
        }
    }
}

} // verus!
