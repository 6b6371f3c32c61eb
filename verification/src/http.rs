//! The library's side of an HTTP exchange, as plain values.
//!
//! The library performs no I/O. A machine of the library hands out an
//! [`Action`]; the caller performs it and hands back the [`Event`] that
//! answers it, which advances the machine by one [`Step`].

use crate::commands::openai::{ImageAnalysis, ImageAnalysisView};
use crate::text::texts;
use vstd::prelude::*;

verus! {

/// The method of a request.
#[derive(Debug, Clone, Copy, PartialEq, Eq, Structural)]
pub enum Method {
    Get,
    Post,
    Delete,
}

/// How a request proves who sends it.
#[derive(Debug, PartialEq, Eq)]
pub enum Authorization {
    /// A bearer token.
    Bearer { token: String },
    /// HTTP Basic authentication.
    Basic { username: String, password: String },
}

/// Mathematical value of an [`Authorization`].
pub enum AuthorizationView {
    Bearer { token: Seq<char> },
    Basic { username: Seq<char>, password: Seq<char> },
}

impl View for Authorization {
    type V = AuthorizationView;

    open spec fn view(&self) -> AuthorizationView {
        match self {
            Authorization::Bearer { token } => AuthorizationView::Bearer { token: token@ },
            Authorization::Basic { username, password } => AuthorizationView::Basic {
                username: username@,
                password: password@,
            },
        }
    }
}

/// The media type of an uploaded image.
#[derive(Debug, Clone, Copy, PartialEq, Eq, Structural)]
pub enum Mime {
    Webp,
    Png,
    Jpeg,
}

impl Mime {
    /// The name of the media type.
    pub open spec fn name(self) -> Seq<char> {
        match self {
            Mime::Webp => "image/webp"@,
            Mime::Png => "image/png"@,
            Mime::Jpeg => "image/jpeg"@,
        }
    }

    /// The name of the media type.
    pub fn as_str(&self) -> (name: &'static str)
        ensures
            name@ == self.name(),
    {
        match self {
            Mime::Webp => "image/webp",
            Mime::Png => "image/png",
            Mime::Jpeg => "image/jpeg",
        }
    }
}

/// A file sent as one part of a multipart form.
#[derive(Debug, PartialEq, Eq)]
pub struct FilePart {
    /// The name of the form field.
    pub field: String,
    pub file_name: String,
    pub mime: Mime,
    pub bytes: Vec<u8>,
}

/// Mathematical value of a [`FilePart`].
pub struct FilePartView {
    pub field: Seq<char>,
    pub file_name: Seq<char>,
    pub mime: Mime,
    pub bytes: Seq<u8>,
}

impl View for FilePart {
    type V = FilePartView;

    open spec fn view(&self) -> FilePartView {
        FilePartView {
            field: self.field@,
            file_name: self.file_name@,
            mime: self.mime,
            bytes: self.bytes@,
        }
    }
}

/// The descriptive metadata of a media item.
#[derive(Debug, PartialEq, Eq)]
pub struct MediaDescription {
    pub title: String,
    pub alt_text: String,
    pub caption: String,
    pub description: String,
}

/// Mathematical value of a [`MediaDescription`].
pub struct MediaDescriptionView {
    pub title: Seq<char>,
    pub alt_text: Seq<char>,
    pub caption: Seq<char>,
    pub description: Seq<char>,
}

impl View for MediaDescription {
    type V = MediaDescriptionView;

    open spec fn view(&self) -> MediaDescriptionView {
        MediaDescriptionView {
            title: self.title@,
            alt_text: self.alt_text@,
            caption: self.caption@,
            description: self.description@,
        }
    }
}

/// Who speaks in a turn of a chat.
#[derive(Debug, Clone, Copy, PartialEq, Eq, Structural)]
pub enum Role {
    System,
    User,
}

impl Role {
    /// The name of the role on the wire.
    pub open spec fn name(self) -> Seq<char> {
        match self {
            Role::System => "system"@,
            Role::User => "user"@,
        }
    }

    /// The name of the role on the wire.
    pub fn as_str(&self) -> (name: &'static str)
        ensures
            name@ == self.name(),
    {
        match self {
            Role::System => "system",
            Role::User => "user",
        }
    }
}

/// One piece of a chat message.
#[derive(Debug, PartialEq, Eq)]
pub enum ChatContent {
    Text { text: String },
    ImageUrl { url: String },
}

/// Mathematical value of a [`ChatContent`].
pub enum ChatContentView {
    Text { text: Seq<char> },
    ImageUrl { url: Seq<char> },
}

impl View for ChatContent {
    type V = ChatContentView;

    open spec fn view(&self) -> ChatContentView {
        match self {
            ChatContent::Text { text } => ChatContentView::Text { text: text@ },
            ChatContent::ImageUrl { url } => ChatContentView::ImageUrl { url: url@ },
        }
    }
}

/// One turn of a chat.
#[derive(Debug, PartialEq, Eq)]
pub struct ChatMessage {
    pub role: Role,
    pub content: Vec<ChatContent>,
}

/// Mathematical value of a [`ChatMessage`].
pub struct ChatMessageView {
    pub role: Role,
    pub content: Seq<ChatContentView>,
}

impl View for ChatMessage {
    type V = ChatMessageView;

    open spec fn view(&self) -> ChatMessageView {
        ChatMessageView {
            role: self.role,
            content: self.content@.map_values(|c: ChatContent| c@),
        }
    }
}

/// A chat-completion request.
#[derive(Debug, PartialEq, Eq)]
pub struct ChatRequest {
    pub model: String,
    pub messages: Vec<ChatMessage>,
    pub max_tokens: u32,
}

/// Mathematical value of a [`ChatRequest`].
pub struct ChatRequestView {
    pub model: Seq<char>,
    pub messages: Seq<ChatMessageView>,
    pub max_tokens: u32,
}

impl View for ChatRequest {
    type V = ChatRequestView;

    open spec fn view(&self) -> ChatRequestView {
        ChatRequestView {
            model: self.model@,
            messages: self.messages@.map_values(|m: ChatMessage| m@),
            max_tokens: self.max_tokens,
        }
    }
}

/// What a request carries.
#[derive(Debug, PartialEq, Eq)]
pub enum Body {
    /// Nothing.
    Empty,
    /// A chat-completion request, as JSON.
    Chat(ChatRequest),
    /// A multipart form with one file.
    File(FilePart),
    /// The description of a media item, as JSON.
    Description(MediaDescription),
}

/// Mathematical value of a [`Body`].
pub enum BodyView {
    Empty,
    Chat(ChatRequestView),
    File(FilePartView),
    Description(MediaDescriptionView),
}

impl View for Body {
    type V = BodyView;

    open spec fn view(&self) -> BodyView {
        match self {
            Body::Empty => BodyView::Empty,
            Body::Chat(chat) => BodyView::Chat(chat@),
            Body::File(file) => BodyView::File(file@),
            Body::Description(description) => BodyView::Description(description@),
        }
    }
}

/// A request to send.
#[derive(Debug, PartialEq, Eq)]
pub struct HttpRequest {
    pub method: Method,
    pub url: String,
    pub authorization: Authorization,
    pub body: Body,
}

/// Mathematical value of an [`HttpRequest`].
pub struct HttpRequestView {
    pub method: Method,
    pub url: Seq<char>,
    pub authorization: AuthorizationView,
    pub body: BodyView,
}

impl View for HttpRequest {
    type V = HttpRequestView;

    open spec fn view(&self) -> HttpRequestView {
        HttpRequestView {
            method: self.method,
            url: self.url@,
            authorization: self.authorization@,
            body: self.body@,
        }
    }
}

/// What a machine asks its caller to do next.
#[derive(Debug, PartialEq, Eq)]
pub enum Action {
    /// Send the request. Answered by [`Event::Status`], or by
    /// [`Event::Failed`] where no response arrives.
    Send(HttpRequest),
    /// Read the body of the response as text. Answered by [`Event::Text`];
    /// an [`Event::Failed`] counts as an empty body.
    ReadText,
    /// Read the body of the response as a chat completion. Answered by
    /// [`Event::Completion`], or by [`Event::Failed`] where the body is
    /// none.
    ReadCompletion,
    /// Parse the text as an image analysis. Answered by
    /// [`Event::Analysis`], or by [`Event::Failed`] where the text is none.
    ParseAnalysis { json: String },
    /// Read the body of the response as a media record. Answered by
    /// [`Event::Media`], or by [`Event::Failed`] where the body is none.
    ReadMedia,
    /// Read the body of the response as JSON and take the unsigned
    /// integer under `id`. Answered by [`Event::MediaId`], or by
    /// [`Event::Failed`] where the body is no JSON.
    ReadMediaId,
}

/// Mathematical value of an [`Action`].
pub enum ActionView {
    Send(HttpRequestView),
    ReadText,
    ReadCompletion,
    ParseAnalysis { json: Seq<char> },
    ReadMedia,
    ReadMediaId,
}

impl View for Action {
    type V = ActionView;

    open spec fn view(&self) -> ActionView {
        match self {
            Action::Send(request) => ActionView::Send(request@),
            Action::ReadText => ActionView::ReadText,
            Action::ReadCompletion => ActionView::ReadCompletion,
            Action::ParseAnalysis { json } => ActionView::ParseAnalysis { json: json@ },
            Action::ReadMedia => ActionView::ReadMedia,
            Action::ReadMediaId => ActionView::ReadMediaId,
        }
    }
}

/// What the outside world answers to an [`Action`].
#[derive(Debug, PartialEq, Eq)]
pub enum Event {
    /// The action failed; `cause` says why, for people to read.
    Failed { cause: String },
    /// A response arrived, with this status code.
    Status { code: u16 },
    /// The body of the response, as text.
    Text { body: String },
    /// The message texts of the choices of a chat completion, in order.
    Completion { choices: Vec<String> },
    /// An image analysis.
    Analysis { analysis: ImageAnalysis },
    /// A media record: its id and the public URL of its file.
    Media { id: u64, source_url: String },
    /// The unsigned integer under `id` of a JSON body, where there is one.
    MediaId { found: Option<u64> },
}

/// Mathematical value of an [`Event`].
pub enum EventView {
    Failed { cause: Seq<char> },
    Status { code: u16 },
    Text { body: Seq<char> },
    Completion { choices: Seq<Seq<char>> },
    Analysis { analysis: ImageAnalysisView },
    Media { id: u64, source_url: Seq<char> },
    MediaId { found: Option<u64> },
}

impl View for Event {
    type V = EventView;

    open spec fn view(&self) -> EventView {
        match self {
            Event::Failed { cause } => EventView::Failed { cause: cause@ },
            Event::Status { code } => EventView::Status { code: *code },
            Event::Text { body } => EventView::Text { body: body@ },
            Event::Completion { choices } => EventView::Completion { choices: texts(choices@) },
            Event::Analysis { analysis } => EventView::Analysis { analysis: analysis@ },
            Event::Media { id, source_url } => EventView::Media {
                id: *id,
                source_url: source_url@,
            },
            Event::MediaId { found } => EventView::MediaId { found: *found },
        }
    }
}

/// One step of a machine `M` that, when done, gives a `T` or fails with an
/// `E`.
#[derive(Debug, PartialEq, Eq)]
pub enum Step<M, T, E> {
    /// The machine goes on and asks for `action`.
    Continue { machine: M, action: Action },
    /// The event does not answer the pending action. The machine is as it
    /// was and still waits for the answer.
    Ignored { machine: M },
    /// The machine is done.
    Done { result: Result<T, E> },
}

/// Mathematical value of a [`Step`].
pub enum StepView<M, T, E> {
    Continue { machine: M, action: ActionView },
    Ignored { machine: M },
    Done { result: Result<T, E> },
}

impl<M: View, T: View, E: View> View for Step<M, T, E> {
    type V = StepView<M::V, T::V, E::V>;

    open spec fn view(&self) -> StepView<M::V, T::V, E::V> {
        match self {
            Step::Continue { machine, action } => StepView::Continue {
                machine: machine@,
                action: action@,
            },
            Step::Ignored { machine } => StepView::Ignored { machine: machine@ },
            Step::Done { result } => StepView::Done {
                result: match result {
                    Ok(value) => Ok(value@),
                    Err(error) => Err(error@),
                },
            },
        }
    }
}

/// The longest that one request may wait for its response, in seconds. A
/// request that waits longer counts as not delivered.
pub const REQUEST_TIMEOUT_SECONDS: u64 = 30;

/// Whether a status code is in the success class.
pub open spec fn success(code: u16) -> bool {
    200 <= code < 300
}

/// Tells whether a status code is in the success class.
pub fn is_success(code: u16) -> (b: bool)
    ensures
        b == success(code),
{
    200 <= code && code < 300
}

} // verus!
