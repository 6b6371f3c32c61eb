//! The vision analysis client: asks a chat-completion API for the SEO
//! metadata of a picture and reads the answer.

use crate::error::{PipelineError, PipelineErrorView};
use crate::http::{
    is_success, success, Action, ActionView, Authorization, AuthorizationView, Body, BodyView,
    ChatContent, ChatContentView, ChatMessage, ChatMessageView, ChatRequest, ChatRequestView,
    Event, EventView, HttpRequest, HttpRequestView, Method, Role, Step, StepView,
};
use crate::models::config::{OpenAIConfig, OpenAIConfigView};
use crate::text::{
    after_first, before_first, chars_of, contains, find_in, is_trimmed, leftmost,
    lemma_before_first_lacks, lemma_ends_with_first, lemma_leftmost_unique, lemma_starts_with,
    lemma_trim, lemma_trim_fixed, lemma_trim_lacks, occurs_at, second_piece, strip_trailing,
    texts, trim, trim_bounds, without_trailing,
};
use vstd::prelude::*;
use vstd::string::*;

verus! {

/// The SEO metadata of a picture, as the vision model gave it.
#[derive(Debug, PartialEq, Eq)]
pub struct ImageAnalysis {
    pub filename: String,
    pub title: String,
    pub description: String,
    pub alt_text: String,
    pub tags: Vec<String>,
}

/// Mathematical value of an [`ImageAnalysis`].
pub struct ImageAnalysisView {
    pub filename: Seq<char>,
    pub title: Seq<char>,
    pub description: Seq<char>,
    pub alt_text: Seq<char>,
    pub tags: Seq<Seq<char>>,
}

impl View for ImageAnalysis {
    type V = ImageAnalysisView;

    open spec fn view(&self) -> ImageAnalysisView {
        ImageAnalysisView {
            filename: self.filename@,
            title: self.title@,
            description: self.description@,
            alt_text: self.alt_text@,
            tags: texts(self.tags@),
        }
    }
}

/// The marker that opens and closes a fenced block.
pub open spec fn fence() -> Seq<char> {
    seq!['`', '`', '`']
}

/// The marker that opens a fenced block tagged as JSON.
pub open spec fn json_fence() -> Seq<char> {
    seq!['`', '`', '`', 'j', 's', 'o', 'n']
}

/// The JSON text carried by a model's answer.
///
/// An answer may wrap its JSON in a fenced block. Where the answer holds a
/// fence tagged as JSON, the JSON is what stands between the first such tag
/// and the next fence. Else, where it holds a fence at all, the JSON is
/// what stands between the first two fences. Else the whole answer is the
/// JSON. White space around it is dropped in each case.
pub open spec fn json_text(content: Seq<char>) -> Seq<char> {
    if contains(content, json_fence()) {
        trim(before_first(second_piece(content, json_fence()), fence()))
    } else if contains(content, fence()) {
        trim(second_piece(content, fence()))
    } else {
        trim(content)
    }
}

/// Finds where the text in front of the first `pat` in `hay[lo..hi]` ends.
fn piece_end(hay: &Vec<char>, lo: usize, hi: usize, pat: &Vec<char>) -> (end: usize)
    requires
        lo <= hi <= hay.len(),
    ensures
        lo <= end <= hi,
        hay@.subrange(lo as int, end as int) == before_first(
            hay@.subrange(lo as int, hi as int),
            pat@,
        ),
{
    let ghost window = hay@.subrange(lo as int, hi as int);
    match find_in(hay, lo, hi, pat) {
        Some(i) => {
            proof {
                lemma_leftmost_unique(window, pat@, i - lo);
                assert(window.take(i - lo) =~= hay@.subrange(lo as int, i as int));
            }
            i
        },
        None => {
            assert(window.take(window.len() as int) =~= window);
            hi
        },
    }
}

/// Finds where the text behind the first `pat` in `hay[lo..hi]` starts.
fn rest_start(hay: &Vec<char>, lo: usize, hi: usize, pat: &Vec<char>) -> (start: Option<usize>)
    requires
        lo <= hi <= hay.len(),
    ensures
        start is Some <==> contains(hay@.subrange(lo as int, hi as int), pat@),
        start matches Some(s) ==> lo <= s <= hi && hay@.subrange(s as int, hi as int)
            == after_first(hay@.subrange(lo as int, hi as int), pat@),
{
    let ghost window = hay@.subrange(lo as int, hi as int);
    match find_in(hay, lo, hi, pat) {
        Some(i) => {
            proof {
                lemma_leftmost_unique(window, pat@, i - lo);
                assert(window.skip(i - lo + pat.len()) =~= hay@.subrange(
                    i + pat.len(),
                    hi as int,
                ));
            }
            Some(i + pat.len())
        },
        None => None,
    }
}

/// Extracts the JSON text from a model's answer.
pub fn extract_json(content: &str) -> (json: String)
    ensures
        json@ == json_text(content@),
{
    let chars = chars_of(content);
    let n = chars.len();
    let tag = chars_of("```json");
    let mark = chars_of("```");
    proof {
        reveal_strlit("```json");
        reveal_strlit("```");
        assert(tag@ =~= json_fence());
        assert(mark@ =~= fence());
        assert(chars@.subrange(0, n as int) =~= chars@);
    }
    let (lo, hi) = match rest_start(&chars, 0, n, &tag) {
        Some(start) => {
            let stop = piece_end(&chars, start, n, &tag);
            let cut = piece_end(&chars, start, stop, &mark);
            (start, cut)
        },
        None => match rest_start(&chars, 0, n, &mark) {
            Some(start) => (start, piece_end(&chars, start, n, &mark)),
            None => (0, n),
        },
    };
    let (a, b) = trim_bounds(&chars, lo, hi);
    content.substring_char(a, b).to_owned()
}

/// The model that analyzes the pictures.
pub const MODEL: &'static str = "gpt-4o";

/// The most tokens the model may answer with.
pub const MAX_TOKENS: u32 = 500;

/// The system instruction, up to where the site's context goes.
pub const PROMPT_HEAD: &'static str =
    "You are an SEO assistant. Generate metadata for images in ENGLISH ONLY. All fields (filename, alt, title, caption, description, tags) must be in English. Never use Chinese or other languages. Use lowercase slugs for filenames (e.g., 'sunset-beach-waves.webp'). ";

/// The system instruction, from behind the site's context.
pub const PROMPT_TAIL: &'static str =
    "Follow these guidelines:\n- filename: Use lowercase letters, hyphens, 3-5 words, descriptive, end with .webp (40-60 chars)\n- title: Concise, descriptive title (40-60 chars)\n- alt_text: Detailed description for accessibility (100-125 chars)\n- description: Longer description with context (150-200 chars)\n- tags: 5-8 relevant keywords (single words or short phrases)\nReturn ONLY valid JSON in this exact format: {\"filename\":\"...\",\"title\":\"...\",\"description\":\"...\",\"alt_text\":\"...\",\"tags\":[\"...\"]}";

/// What the user's turn asks for.
pub const USER_PROMPT: &'static str =
    "Analyze this image and generate SEO metadata in English. Include a descriptive filename slug.";

/// The text held by an optional string slice.
pub open spec fn option_str(o: Option<&str>) -> Option<Seq<char>> {
    match o {
        Some(s) => Some(s@),
        None => None,
    }
}

/// The sentence that tells the model about the site, where the site has a
/// context.
pub open spec fn context_clause(context: Option<Seq<char>>) -> Seq<char> {
    match context {
        Some(c) => "Website context: "@ + c + ". "@,
        None => Seq::empty(),
    }
}

/// The system instruction: the site's context, given as it is, stands in
/// front of the guidelines.
pub open spec fn system_prompt(context: Option<Seq<char>>) -> Seq<char> {
    PROMPT_HEAD@ + context_clause(context) + PROMPT_TAIL@
}

/// The picture as a data URL. The media type is JPEG whatever the picture
/// is: the model takes the data as it comes.
pub open spec fn image_data_url(image_base64: Seq<char>) -> Seq<char> {
    "data:image/jpeg;base64,"@ + image_base64
}

/// The two turns of the chat: the system instruction, then the user's
/// request with the picture.
pub open spec fn analysis_messages(
    image_base64: Seq<char>,
    context: Option<Seq<char>>,
) -> Seq<ChatMessageView> {
    seq![
        ChatMessageView {
            role: Role::System,
            content: seq![ChatContentView::Text { text: system_prompt(context) }],
        },
        ChatMessageView {
            role: Role::User,
            content: seq![
                ChatContentView::Text { text: USER_PROMPT@ },
                ChatContentView::ImageUrl { url: image_data_url(image_base64) },
            ],
        },
    ]
}

/// The request that asks the vision API for the analysis of a picture.
pub open spec fn analysis_request(
    config: OpenAIConfigView,
    image_base64: Seq<char>,
    context: Option<Seq<char>>,
) -> HttpRequestView {
    HttpRequestView {
        method: Method::Post,
        url: strip_trailing(config.api_url, '/') + "/chat/completions"@,
        authorization: AuthorizationView::Bearer { token: config.api_key },
        body: BodyView::Chat(
            ChatRequestView {
                model: MODEL@,
                messages: analysis_messages(image_base64, context),
                max_tokens: MAX_TOKENS,
            },
        ),
    }
}

/// Where an exchange with the vision API stands.
#[derive(Debug, Clone, Copy, PartialEq, Eq, Structural)]
pub enum Analysis {
    /// The request is out; the response is awaited.
    AwaitingResponse,
    /// The API has rejected the request; the text of its answer is awaited.
    AwaitingErrorBody,
    /// The API has accepted the request; its completion is awaited.
    AwaitingCompletion,
    /// The JSON text of the completion is out for parsing.
    AwaitingAnalysis,
}

impl View for Analysis {
    type V = Analysis;

    open spec fn view(&self) -> Analysis {
        *self
    }
}

/// One step of the exchange with the vision API.
///
/// A request that cannot be delivered, a status that is no success, a body
/// that is no completion, a completion without a choice and JSON text that
/// is no analysis each end the exchange with their error. Nothing is tried
/// twice. The analysis is parsed from the JSON text of the first choice.
pub open spec fn analysis_step(state: Analysis, event: EventView) -> StepView<
    Analysis,
    ImageAnalysisView,
    PipelineErrorView,
> {
    match (state, event) {
        (Analysis::AwaitingResponse, EventView::Failed { cause }) => StepView::Done {
            result: Err(PipelineErrorView::AnalysisUnreachable { cause }),
        },
        (Analysis::AwaitingResponse, EventView::Status { code }) => if success(code) {
            StepView::Continue {
                machine: Analysis::AwaitingCompletion,
                action: ActionView::ReadCompletion,
            }
        } else {
            StepView::Continue { machine: Analysis::AwaitingErrorBody, action: ActionView::ReadText }
        },
        (Analysis::AwaitingErrorBody, EventView::Text { body }) => StepView::Done {
            result: Err(PipelineErrorView::AnalysisRejected { body }),
        },
        (Analysis::AwaitingErrorBody, EventView::Failed { cause }) => StepView::Done {
            result: Err(PipelineErrorView::AnalysisRejected { body: Seq::empty() }),
        },
        (Analysis::AwaitingCompletion, EventView::Failed { cause }) => StepView::Done {
            result: Err(PipelineErrorView::CompletionUnreadable { detail: cause }),
        },
        (Analysis::AwaitingCompletion, EventView::Completion { choices }) => if choices.len()
            == 0 {
            StepView::Done { result: Err(PipelineErrorView::NoCompletion) }
        } else {
            StepView::Continue {
                machine: Analysis::AwaitingAnalysis,
                action: ActionView::ParseAnalysis { json: json_text(choices[0]) },
            }
        },
        (Analysis::AwaitingAnalysis, EventView::Failed { cause }) => StepView::Done {
            result: Err(PipelineErrorView::AnalysisUnreadable { detail: cause }),
        },
        (Analysis::AwaitingAnalysis, EventView::Analysis { analysis }) => StepView::Done {
            result: Ok(analysis),
        },
        _ => StepView::Ignored { machine: state },
    }
}

/// The system instruction for a site with this context.
pub fn build_system_prompt(context: Option<&str>) -> (prompt: String)
    ensures
        prompt@ == system_prompt(option_str(context)),
{
    let head = String::from_str(PROMPT_HEAD);
    let with_context = match context {
        Some(c) => {
            let r = head.concat("Website context: ").concat(c).concat(". ");
            assert(r@ =~= PROMPT_HEAD@ + context_clause(option_str(context)));
            r
        },
        None => {
            assert(head@ =~= PROMPT_HEAD@ + context_clause(option_str(context)));
            head
        },
    };
    with_context.concat(PROMPT_TAIL)
}

/// Starts the analysis of a picture: gives the machine of the exchange and
/// the request to send first.
pub fn analyze_image(config: &OpenAIConfig, image_base64: &str, context: Option<&str>) -> (started:
    (Analysis, Action))
    ensures
        started.0 == Analysis::AwaitingResponse,
        started.1@ == ActionView::Send(
            analysis_request(config@, image_base64@, option_str(context)),
        ),
{
    let system = ChatMessage {
        role: Role::System,
        content: vec![ChatContent::Text { text: build_system_prompt(context) }],
    };
    let user = ChatMessage {
        role: Role::User,
        content: vec![
            ChatContent::Text { text: String::from_str(USER_PROMPT) },
            ChatContent::ImageUrl {
                url: String::from_str("data:image/jpeg;base64,").concat(image_base64),
            },
        ],
    };
    proof {
        let expected = analysis_messages(image_base64@, option_str(context));
        assert(system@.content =~= expected[0].content);
        assert(user@.content =~= expected[1].content);
    }
    let chat = ChatRequest {
        model: String::from_str(MODEL),
        messages: vec![system, user],
        max_tokens: MAX_TOKENS,
    };
    assert(chat@.messages =~= analysis_messages(image_base64@, option_str(context)));
    let request = HttpRequest {
        method: Method::Post,
        url: without_trailing(config.api_url.as_str(), '/').concat("/chat/completions"),
        authorization: Authorization::Bearer { token: config.api_key.clone() },
        body: Body::Chat(chat),
    };
    (Analysis::AwaitingResponse, Action::Send(request))
}

impl Analysis {
    /// Advances the exchange by the event that answers its pending action.
    pub fn advance(self, event: Event) -> (step: Step<Analysis, ImageAnalysis, PipelineError>)
        ensures
            step@ == analysis_step(self, event@),
    {
        match (self, event) {
            (Analysis::AwaitingResponse, Event::Failed { cause }) => Step::Done {
                result: Err(PipelineError::AnalysisUnreachable { cause }),
            },
            (Analysis::AwaitingResponse, Event::Status { code }) => {
                if is_success(code) {
                    Step::Continue {
                        machine: Analysis::AwaitingCompletion,
                        action: Action::ReadCompletion,
                    }
                } else {
                    Step::Continue { machine: Analysis::AwaitingErrorBody, action: Action::ReadText }
                }
            },
            (Analysis::AwaitingErrorBody, Event::Text { body }) => Step::Done {
                result: Err(PipelineError::AnalysisRejected { body }),
            },
            (Analysis::AwaitingErrorBody, Event::Failed { cause }) => Step::Done {
                result: Err(PipelineError::AnalysisRejected { body: String::new() }),
            },
            (Analysis::AwaitingCompletion, Event::Failed { cause }) => Step::Done {
                result: Err(PipelineError::CompletionUnreadable { detail: cause }),
            },
            (Analysis::AwaitingCompletion, Event::Completion { choices }) => {
                if choices.len() == 0 {
                    Step::Done { result: Err(PipelineError::NoCompletion) }
                } else {
                    Step::Continue {
                        machine: Analysis::AwaitingAnalysis,
                        action: Action::ParseAnalysis { json: extract_json(choices[0].as_str()) },
                    }
                }
            },
            (Analysis::AwaitingAnalysis, Event::Failed { cause }) => Step::Done {
                result: Err(PipelineError::AnalysisUnreadable { detail: cause }),
            },
            (Analysis::AwaitingAnalysis, Event::Analysis { analysis }) => Step::Done {
                result: Ok(analysis),
            },
            (machine, _) => Step::Ignored { machine },
        }
    }
}

/// A fence tagged as JSON starts with a fence.
proof fn lemma_tag_is_fence(s: Seq<char>, i: int)
    requires
        occurs_at(s, json_fence(), i),
    ensures
        occurs_at(s, fence(), i),
{
    assert(s.subrange(i, i + 3) =~= s.subrange(i, i + 7).subrange(0, 3));
    assert(json_fence().subrange(0, 3) =~= fence());
}

/// Extracted JSON text holds no fence, and neither starts nor ends with
/// white space.
pub proof fn lemma_json_text_is_bare(content: Seq<char>)
    ensures
        !contains(json_text(content), fence()),
        is_trimmed(json_text(content)),
{
    if contains(content, json_fence()) {
        let piece = second_piece(content, json_fence());
        lemma_before_first_lacks(piece, fence());
        lemma_trim_lacks(before_first(piece, fence()), fence());
        lemma_trim(before_first(piece, fence()));
    } else if contains(content, fence()) {
        lemma_before_first_lacks(after_first(content, fence()), fence());
        lemma_trim_lacks(second_piece(content, fence()), fence());
        lemma_trim(second_piece(content, fence()));
    } else {
        lemma_trim_lacks(content, fence());
        lemma_trim(content);
    }
}

/// Extraction leaves a text as it is exactly when the text is bare: it
/// holds no fence, and neither starts nor ends with white space.
pub proof fn lemma_bare_text_unchanged(content: Seq<char>)
    ensures
        json_text(content) == content <==> !contains(content, fence()) && is_trimmed(content),
{
    lemma_json_text_is_bare(content);
    if !contains(content, fence()) {
        if contains(content, json_fence()) {
            let i = choose|i: int| occurs_at(content, json_fence(), i);
            lemma_tag_is_fence(content, i);
        }
        lemma_trim_fixed(content);
    }
}

/// Extraction is idempotent: extracting from extracted text changes
/// nothing.
pub proof fn lemma_extraction_idempotent(content: Seq<char>)
    ensures
        json_text(json_text(content)) == json_text(content),
{
    lemma_json_text_is_bare(content);
    lemma_bare_text_unchanged(json_text(content));
}

/// Whether `inner` can stand between two fences without forming a fence
/// earlier than the closing one: it holds no fence and does not end with a
/// backtick.
pub open spec fn fits_in_fences(inner: Seq<char>) -> bool {
    !contains(inner, fence()) && (inner.len() > 0 ==> inner.last() != '`')
}

/// A fence that ends inside `inner` is a fence of `inner`.
proof fn lemma_fence_inside(inner: Seq<char>, p: int)
    requires
        occurs_at(inner + fence(), fence(), p),
        p + 3 <= inner.len(),
    ensures
        occurs_at(inner, fence(), p),
{
    assert(inner.subrange(p, p + 3) =~= (inner + fence()).subrange(p, p + 3));
}

/// A fence that starts inside `inner` and runs into the fence behind it
/// takes the last character of `inner`, which is then a backtick.
proof fn lemma_fence_across(inner: Seq<char>, p: int)
    requires
        occurs_at(inner + fence(), fence(), p),
        p < inner.len() < p + 3,
    ensures
        inner.last() == '`',
{
    let rest = inner + fence();
    let n = inner.len() as int;
    assert(rest.subrange(p, p + 3)[n - 1 - p] == rest[n - 1]);
    assert(fence()[n - 1 - p] == '`');
}

/// In `inner` followed by a fence, the first fence is the one that follows.
proof fn lemma_closing_fence(inner: Seq<char>)
    requires
        fits_in_fences(inner),
    ensures
        leftmost(inner + fence(), fence(), inner.len() as int),
{
    let rest = inner + fence();
    let n = inner.len() as int;
    assert(rest.subrange(n, n + 3) =~= fence());
    assert forall|p: int| 0 <= p < n implies !occurs_at(rest, fence(), p) by {
        if occurs_at(rest, fence(), p) {
            if p + 3 <= n {
                lemma_fence_inside(inner, p);
            } else {
                lemma_fence_across(inner, p);
            }
        }
    }
}

/// In `inner` followed by a fence, a fence tagged as JSON starts no earlier
/// than the first fence, which leaves no room for it.
proof fn lemma_no_tag_at(inner: Seq<char>, p: int)
    requires
        forall|j: int| 0 <= j < inner.len() ==> !occurs_at(inner + fence(), fence(), j),
        occurs_at(inner + fence(), json_fence(), p),
    ensures
        inner.len() <= p,
        p + 7 <= inner.len() + 3,
{
    lemma_tag_is_fence(inner + fence(), p);
}

/// `inner` followed by a fence holds no fence tagged as JSON.
proof fn lemma_no_tag_behind(inner: Seq<char>)
    requires
        leftmost(inner + fence(), fence(), inner.len() as int),
    ensures
        !contains(inner + fence(), json_fence()),
{
    if contains(inner + fence(), json_fence()) {
        let p = choose|p: int| occurs_at(inner + fence(), json_fence(), p);
        lemma_no_tag_at(inner, p);
    }
}

/// The JSON text of an answer that starts with a fence tagged as JSON.
proof fn lemma_tagged(inner: Seq<char>)
    requires
        leftmost(inner + fence(), fence(), inner.len() as int),
        !contains(inner + fence(), json_fence()),
    ensures
        json_text(json_fence() + inner + fence()) == trim(inner),
{
    let rest = inner + fence();
    assert(json_fence() + inner + fence() =~= json_fence() + rest);
    lemma_starts_with(json_fence(), rest);
    assert(rest.take(rest.len() as int) =~= rest);
    lemma_ends_with_first(inner, fence());
}

/// What stands between the fences of an answer that starts with a fence.
proof fn lemma_between_fences(inner: Seq<char>)
    requires
        leftmost(inner + fence(), fence(), inner.len() as int),
    ensures
        contains(fence() + inner + fence(), fence()),
        second_piece(fence() + inner + fence(), fence()) == inner,
{
    assert(fence() + inner + fence() =~= fence() + (inner + fence()));
    lemma_starts_with(fence(), inner + fence());
    lemma_ends_with_first(inner, fence());
}

/// The JSON text of an answer that starts with a fence and holds no tag.
proof fn lemma_untagged(inner: Seq<char>)
    requires
        leftmost(inner + fence(), fence(), inner.len() as int),
        !contains(fence() + inner + fence(), json_fence()),
    ensures
        json_text(fence() + inner + fence()) == trim(inner),
{
    lemma_between_fences(inner);
}

/// The JSON text of an answer without fences.
proof fn lemma_unfenced(inner: Seq<char>)
    requires
        !contains(inner, fence()),
    ensures
        json_text(inner) == trim(inner),
{
    if contains(inner, json_fence()) {
        let i = choose|i: int| occurs_at(inner, json_fence(), i);
        lemma_tag_is_fence(inner, i);
    }
}

/// An answer that wraps text in a fence tagged as JSON carries the same
/// JSON text as the text alone. The same holds of a fence without a tag,
/// where the wrapped answer does not read as one with a tag.
pub proof fn lemma_fenced_text(inner: Seq<char>)
    requires
        fits_in_fences(inner),
    ensures
        json_text(inner) == trim(inner),
        json_text(json_fence() + inner + fence()) == json_text(inner),
        !contains(fence() + inner + fence(), json_fence()) ==> json_text(
            fence() + inner + fence(),
        ) == json_text(inner),
{
    lemma_closing_fence(inner);
    lemma_no_tag_behind(inner);
    lemma_unfenced(inner);
    lemma_tagged(inner);
    if !contains(fence() + inner + fence(), json_fence()) {
        lemma_untagged(inner);
    }
}

} // verus!
