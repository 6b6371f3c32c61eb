//! The media publisher: uploads a picture to a WordPress site and then
//! describes the uploaded media item.

use crate::codec::{decode_standard, standard_decoding, DecodeFailure};
use crate::commands::openai::{ImageAnalysis, ImageAnalysisView};
use crate::error::{PipelineError, PipelineErrorView};
use crate::http::{
    is_success, success, Action, ActionView, Authorization, AuthorizationView, Body, BodyView,
    Event, EventView, FilePart, FilePartView, HttpRequest, HttpRequestView, MediaDescription,
    MediaDescriptionView, Method, Mime, Step, StepView,
};
use crate::models::config::{WordPressSite, WordPressSiteView};
use crate::text::{decimal, decimal_text, ends_with, has_suffix, strip_trailing, without_trailing};
use vstd::prelude::*;
use vstd::string::*;

verus! {

/// The media type that a file name stands for: WebP for `.webp`, PNG for
/// `.png`, JPEG for every other name.
pub open spec fn mime_for(file_name: Seq<char>) -> Mime {
    if ends_with(file_name, ".webp"@) {
        Mime::Webp
    } else if ends_with(file_name, ".png"@) {
        Mime::Png
    } else {
        Mime::Jpeg
    }
}

/// The URL of a site's media collection.
pub open spec fn media_collection_url(site_url: Seq<char>) -> Seq<char> {
    strip_trailing(site_url, '/') + "/wp-json/wp/v2/media"@
}

/// The URL of one media item of a site.
pub open spec fn media_item_url(site_url: Seq<char>, id: u64) -> Seq<char> {
    media_collection_url(site_url) + "/"@ + decimal(id as nat)
}

/// The account that publishes to a site.
#[derive(Debug, PartialEq, Eq)]
pub struct Target {
    pub site_url: String,
    pub username: String,
    pub app_password: String,
}

/// Mathematical value of a [`Target`].
pub struct TargetView {
    pub site_url: Seq<char>,
    pub username: Seq<char>,
    pub app_password: Seq<char>,
}

impl View for Target {
    type V = TargetView;

    open spec fn view(&self) -> TargetView {
        TargetView {
            site_url: self.site_url@,
            username: self.username@,
            app_password: self.app_password@,
        }
    }
}

/// The account of a site.
pub open spec fn target_of(site: WordPressSiteView) -> TargetView {
    TargetView {
        site_url: site.site_url,
        username: site.username,
        app_password: site.app_password,
    }
}

/// How an analysis describes a media item: its description is the caption
/// too.
pub open spec fn description_of(analysis: ImageAnalysisView) -> MediaDescriptionView {
    MediaDescriptionView {
        title: analysis.title,
        alt_text: analysis.alt_text,
        caption: analysis.description,
        description: analysis.description,
    }
}

/// The request that creates the media item: the file goes in the form
/// field `file`, under the name that the analysis gave it and with the
/// media type that this name stands for.
pub open spec fn upload_request(
    target: TargetView,
    bytes: Seq<u8>,
    file_name: Seq<char>,
) -> HttpRequestView {
    HttpRequestView {
        method: Method::Post,
        url: media_collection_url(target.site_url),
        authorization: AuthorizationView::Basic {
            username: target.username,
            password: target.app_password,
        },
        body: BodyView::File(
            FilePartView { field: "file"@, file_name, mime: mime_for(file_name), bytes },
        ),
    }
}

/// The request that describes the media item `id`.
pub open spec fn description_request(
    target: TargetView,
    id: u64,
    description: MediaDescriptionView,
) -> HttpRequestView {
    HttpRequestView {
        method: Method::Post,
        url: media_item_url(target.site_url, id),
        authorization: AuthorizationView::Basic {
            username: target.username,
            password: target.app_password,
        },
        body: BodyView::Description(description),
    }
}

/// Where an exchange with a WordPress site stands.
#[derive(Debug, PartialEq, Eq)]
pub enum Upload {
    /// The file is out; the response is awaited.
    AwaitingResponse { target: Target, description: MediaDescription },
    /// The site has rejected the file; the text of its answer is awaited.
    AwaitingErrorBody,
    /// The site has taken the file; the media record is awaited.
    AwaitingMedia { target: Target, description: MediaDescription },
    /// The description is out; the response is awaited.
    AwaitingDescription { source_url: String },
}

/// Mathematical value of an [`Upload`].
pub enum UploadView {
    AwaitingResponse { target: TargetView, description: MediaDescriptionView },
    AwaitingErrorBody,
    AwaitingMedia { target: TargetView, description: MediaDescriptionView },
    AwaitingDescription { source_url: Seq<char> },
}

impl View for Upload {
    type V = UploadView;

    open spec fn view(&self) -> UploadView {
        match self {
            Upload::AwaitingResponse { target, description } => UploadView::AwaitingResponse {
                target: target@,
                description: description@,
            },
            Upload::AwaitingErrorBody => UploadView::AwaitingErrorBody,
            Upload::AwaitingMedia { target, description } => UploadView::AwaitingMedia {
                target: target@,
                description: description@,
            },
            Upload::AwaitingDescription { source_url } => UploadView::AwaitingDescription {
                source_url: source_url@,
            },
        }
    }
}

/// How a publication starts, given what decoding the image data gave.
///
/// Data that does not decode ends the publication before anything is
/// sent. The name of the file as the user picked it plays no part: the
/// name that the analysis gave is the one that counts.
pub open spec fn upload_start(
    site: WordPressSiteView,
    decoded: Result<Seq<u8>, DecodeFailure>,
    analysis: ImageAnalysisView,
) -> Result<(UploadView, ActionView), PipelineErrorView> {
    match decoded {
        Ok(bytes) => Ok(
            (
                UploadView::AwaitingResponse {
                    target: target_of(site),
                    description: description_of(analysis),
                },
                ActionView::Send(upload_request(target_of(site), bytes, analysis.filename)),
            ),
        ),
        Err(failure) => Err(PipelineErrorView::ImageUndecodable { failure }),
    }
}

/// One step of the exchange with the site.
///
/// A file that cannot be delivered or is rejected, and an answer that is
/// no media record, end the exchange with their error. Once the media
/// item exists it is described; the exchange then ends well with the
/// public URL of the item's file, whatever status answers the description.
/// Only a description that cannot be delivered is an error.
pub open spec fn upload_step(state: UploadView, event: EventView) -> StepView<
    UploadView,
    Seq<char>,
    PipelineErrorView,
> {
    match (state, event) {
        (UploadView::AwaitingResponse { .. }, EventView::Failed { cause }) => StepView::Done {
            result: Err(PipelineErrorView::UploadUnreachable { cause }),
        },
        (UploadView::AwaitingResponse { target, description }, EventView::Status { code }) => {
            if success(code) {
                StepView::Continue {
                    machine: UploadView::AwaitingMedia { target, description },
                    action: ActionView::ReadMedia,
                }
            } else {
                StepView::Continue {
                    machine: UploadView::AwaitingErrorBody,
                    action: ActionView::ReadText,
                }
            }
        },
        (UploadView::AwaitingErrorBody, EventView::Text { body }) => StepView::Done {
            result: Err(PipelineErrorView::UploadRejected { body }),
        },
        (UploadView::AwaitingErrorBody, EventView::Failed { cause }) => StepView::Done {
            result: Err(PipelineErrorView::UploadRejected { body: Seq::empty() }),
        },
        (UploadView::AwaitingMedia { .. }, EventView::Failed { cause }) => StepView::Done {
            result: Err(PipelineErrorView::MediaUnreadable { detail: cause }),
        },
        (UploadView::AwaitingMedia { target, description }, EventView::Media { id, source_url }) => {
            StepView::Continue {
                machine: UploadView::AwaitingDescription { source_url },
                action: ActionView::Send(description_request(target, id, description)),
            }
        },
        (UploadView::AwaitingDescription { .. }, EventView::Failed { cause }) => StepView::Done {
            result: Err(PipelineErrorView::DescriptionUnreachable { cause }),
        },
        (UploadView::AwaitingDescription { source_url }, EventView::Status { code }) => {
            StepView::Done { result: Ok(source_url) }
        },
        _ => StepView::Ignored { machine: state },
    }
}

/// The media type that a file name stands for.
pub fn mime_of(file_name: &str) -> (mime: Mime)
    ensures
        mime == mime_for(file_name@),
{
    if has_suffix(file_name, ".webp") {
        Mime::Webp
    } else if has_suffix(file_name, ".png") {
        Mime::Png
    } else {
        Mime::Jpeg
    }
}

/// The HTTP Basic authorization of a target.
pub(crate) fn basic_authorization(target: &Target) -> (authorization: Authorization)
    ensures
        authorization@ == (AuthorizationView::Basic {
            username: target@.username,
            password: target@.app_password,
        }),
{
    Authorization::Basic {
        username: target.username.clone(),
        password: target.app_password.clone(),
    }
}

/// Starts a publication with the outcome of decoding the image data.
pub fn begin_upload(
    site: &WordPressSite,
    decoded: Result<Vec<u8>, DecodeFailure>,
    analysis: &ImageAnalysis,
) -> (started: Result<(Upload, Action), PipelineError>)
    ensures
        match started {
            Ok((upload, action)) => decoded is Ok && upload_start(
                site@,
                Ok(decoded->Ok_0@),
                analysis@,
            ) == Ok::<(UploadView, ActionView), PipelineErrorView>((upload@, action@)),
            Err(error) => decoded is Err && upload_start(site@, Err(decoded->Err_0), analysis@)
                == Err::<(UploadView, ActionView), PipelineErrorView>(error@),
        },
{
    let bytes = match decoded {
        Ok(bytes) => bytes,
        Err(failure) => {
            return Err(PipelineError::ImageUndecodable { failure });
        },
    };
    let target = Target {
        site_url: site.site_url.clone(),
        username: site.username.clone(),
        app_password: site.app_password.clone(),
    };
    let description = MediaDescription {
        title: analysis.title.clone(),
        alt_text: analysis.alt_text.clone(),
        caption: analysis.description.clone(),
        description: analysis.description.clone(),
    };
    let request = HttpRequest {
        method: Method::Post,
        url: without_trailing(target.site_url.as_str(), '/').concat("/wp-json/wp/v2/media"),
        authorization: basic_authorization(&target),
        body: Body::File(
            FilePart {
                field: String::from_str("file"),
                file_name: analysis.filename.clone(),
                mime: mime_of(analysis.filename.as_str()),
                bytes,
            },
        ),
    };
    Ok((Upload::AwaitingResponse { target, description }, Action::Send(request)))
}

/// Starts the publication of a picture: gives the machine of the exchange
/// and the request to send first, or the error where the image data is not
/// standard base64.
pub fn upload_to_wordpress(
    site: &WordPressSite,
    image_base64: &str,
    _original_filename: &str,
    analysis: &ImageAnalysis,
) -> (started: Result<(Upload, Action), PipelineError>)
    ensures
        match started {
            Ok((upload, action)) => upload_start(
                site@,
                standard_decoding(image_base64@),
                analysis@,
            ) == Ok::<(UploadView, ActionView), PipelineErrorView>((upload@, action@)),
            Err(error) => upload_start(site@, standard_decoding(image_base64@), analysis@)
                == Err::<(UploadView, ActionView), PipelineErrorView>(error@),
        },
{
    begin_upload(site, decode_standard(image_base64), analysis)
}

impl Upload {
    /// Advances the exchange by the event that answers its pending action.
    pub fn advance(self, event: Event) -> (step: Step<Upload, String, PipelineError>)
        ensures
            step@ == upload_step(self@, event@),
    {
        match (self, event) {
            (Upload::AwaitingResponse { .. }, Event::Failed { cause }) => Step::Done {
                result: Err(PipelineError::UploadUnreachable { cause }),
            },
            (Upload::AwaitingResponse { target, description }, Event::Status { code }) => {
                if is_success(code) {
                    Step::Continue {
                        machine: Upload::AwaitingMedia { target, description },
                        action: Action::ReadMedia,
                    }
                } else {
                    Step::Continue { machine: Upload::AwaitingErrorBody, action: Action::ReadText }
                }
            },
            (Upload::AwaitingErrorBody, Event::Text { body }) => Step::Done {
                result: Err(PipelineError::UploadRejected { body }),
            },
            (Upload::AwaitingErrorBody, Event::Failed { cause }) => Step::Done {
                result: Err(PipelineError::UploadRejected { body: String::new() }),
            },
            (Upload::AwaitingMedia { .. }, Event::Failed { cause }) => Step::Done {
                result: Err(PipelineError::MediaUnreadable { detail: cause }),
            },
            (Upload::AwaitingMedia { target, description }, Event::Media { id, source_url }) => {
                let request = HttpRequest {
                    method: Method::Post,
                    url: without_trailing(target.site_url.as_str(), '/').concat(
                        "/wp-json/wp/v2/media",
                    ).concat("/").concat(decimal_text(id).as_str()),
                    authorization: basic_authorization(&target),
                    body: Body::Description(description),
                };
                Step::Continue {
                    machine: Upload::AwaitingDescription { source_url },
                    action: Action::Send(request),
                }
            },
            (Upload::AwaitingDescription { .. }, Event::Failed { cause }) => Step::Done {
                result: Err(PipelineError::DescriptionUnreachable { cause }),
            },
            (Upload::AwaitingDescription { source_url }, Event::Status { code }) => Step::Done {
                result: Ok(source_url),
            },
            (machine, _) => Step::Ignored { machine },
        }
    }
}

} // verus!
