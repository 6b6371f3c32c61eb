//! What can go wrong in a pipeline run, by kind, and how it reads.

use crate::codec::DecodeFailure;
use vstd::prelude::*;
use vstd::string::*;

verus! {

/// The four kinds of failure.
#[derive(Debug, Clone, Copy, PartialEq, Eq, Structural)]
pub enum ErrorKind {
    /// Credentials or the target site are missing. Found before any request.
    Configuration,
    /// A request could not be delivered, or no response came back.
    Transport,
    /// A remote API answered with a status that is no success.
    Protocol,
    /// Data could not be decoded or parsed.
    Decode,
}

/// The stage of a run.
#[derive(Debug, Clone, Copy, PartialEq, Eq, Structural)]
pub enum Stage {
    /// Before the first request.
    Setup,
    /// The exchange with the vision API.
    Analysis,
    /// The exchange with the WordPress site.
    Publish,
}

/// A failed pipeline run.
#[derive(Debug, PartialEq, Eq)]
pub enum PipelineError {
    /// The configuration holds no credentials for the vision API.
    MissingCredentials,
    /// The configuration holds no site with the requested id.
    SiteNotFound,
    /// The analysis request could not be delivered.
    AnalysisUnreachable { cause: String },
    /// The vision API answered with a status that is no success.
    AnalysisRejected { body: String },
    /// The answer of the vision API is no chat completion.
    CompletionUnreadable { detail: String },
    /// The chat completion holds no choice.
    NoCompletion,
    /// The text of the completion is no image analysis.
    AnalysisUnreadable { detail: String },
    /// The image data is not standard base64.
    ImageUndecodable { failure: DecodeFailure },
    /// The upload request could not be delivered.
    UploadUnreachable { cause: String },
    /// The site answered the upload with a status that is no success.
    UploadRejected { body: String },
    /// The site's answer to the upload is no media record.
    MediaUnreadable { detail: String },
    /// The request that describes the uploaded media could not be delivered.
    DescriptionUnreachable { cause: String },
}

/// Mathematical value of a [`PipelineError`].
pub enum PipelineErrorView {
    MissingCredentials,
    SiteNotFound,
    AnalysisUnreachable { cause: Seq<char> },
    AnalysisRejected { body: Seq<char> },
    CompletionUnreadable { detail: Seq<char> },
    NoCompletion,
    AnalysisUnreadable { detail: Seq<char> },
    ImageUndecodable { failure: DecodeFailure },
    UploadUnreachable { cause: Seq<char> },
    UploadRejected { body: Seq<char> },
    MediaUnreadable { detail: Seq<char> },
    DescriptionUnreachable { cause: Seq<char> },
}

impl View for PipelineError {
    type V = PipelineErrorView;

    open spec fn view(&self) -> PipelineErrorView {
        match self {
            PipelineError::MissingCredentials => PipelineErrorView::MissingCredentials,
            PipelineError::SiteNotFound => PipelineErrorView::SiteNotFound,
            PipelineError::AnalysisUnreachable { cause } => PipelineErrorView::AnalysisUnreachable {
                cause: cause@,
            },
            PipelineError::AnalysisRejected { body } => PipelineErrorView::AnalysisRejected {
                body: body@,
            },
            PipelineError::CompletionUnreadable { detail } => {
                PipelineErrorView::CompletionUnreadable { detail: detail@ }
            },
            PipelineError::NoCompletion => PipelineErrorView::NoCompletion,
            PipelineError::AnalysisUnreadable { detail } => PipelineErrorView::AnalysisUnreadable {
                detail: detail@,
            },
            PipelineError::ImageUndecodable { failure } => PipelineErrorView::ImageUndecodable {
                failure: *failure,
            },
            PipelineError::UploadUnreachable { cause } => PipelineErrorView::UploadUnreachable {
                cause: cause@,
            },
            PipelineError::UploadRejected { body } => PipelineErrorView::UploadRejected {
                body: body@,
            },
            PipelineError::MediaUnreadable { detail } => PipelineErrorView::MediaUnreadable {
                detail: detail@,
            },
            PipelineError::DescriptionUnreachable { cause } => {
                PipelineErrorView::DescriptionUnreachable { cause: cause@ }
            },
        }
    }
}

impl PipelineErrorView {
    /// The kind of the failure.
    pub open spec fn kind(self) -> ErrorKind {
        match self {
            PipelineErrorView::MissingCredentials | PipelineErrorView::SiteNotFound => {
                ErrorKind::Configuration
            },
            PipelineErrorView::AnalysisUnreachable { .. }
            | PipelineErrorView::UploadUnreachable { .. }
            | PipelineErrorView::DescriptionUnreachable { .. } => ErrorKind::Transport,
            PipelineErrorView::AnalysisRejected { .. } | PipelineErrorView::UploadRejected { .. } => {
                ErrorKind::Protocol
            },
            PipelineErrorView::CompletionUnreadable { .. }
            | PipelineErrorView::NoCompletion
            | PipelineErrorView::AnalysisUnreadable { .. }
            | PipelineErrorView::ImageUndecodable { .. }
            | PipelineErrorView::MediaUnreadable { .. } => ErrorKind::Decode,
        }
    }

    /// The stage in which the failure arises.
    pub open spec fn stage(self) -> Stage {
        match self {
            PipelineErrorView::MissingCredentials | PipelineErrorView::SiteNotFound => Stage::Setup,
            PipelineErrorView::AnalysisUnreachable { .. }
            | PipelineErrorView::AnalysisRejected { .. }
            | PipelineErrorView::CompletionUnreadable { .. }
            | PipelineErrorView::NoCompletion
            | PipelineErrorView::AnalysisUnreadable { .. } => Stage::Analysis,
            PipelineErrorView::ImageUndecodable { .. }
            | PipelineErrorView::UploadUnreachable { .. }
            | PipelineErrorView::UploadRejected { .. }
            | PipelineErrorView::MediaUnreadable { .. }
            | PipelineErrorView::DescriptionUnreachable { .. } => Stage::Publish,
        }
    }

    /// The failure as a sentence for people to read.
    pub open spec fn message(self) -> Seq<char> {
        match self {
            PipelineErrorView::MissingCredentials => "OpenAI configuration not found"@,
            PipelineErrorView::SiteNotFound => "WordPress site not found"@,
            PipelineErrorView::AnalysisUnreachable { cause } => "OpenAI request failed: "@ + cause,
            PipelineErrorView::AnalysisRejected { body } => "OpenAI API error: "@ + body,
            PipelineErrorView::CompletionUnreadable { detail } => "Failed to parse OpenAI response: "@
                + detail,
            PipelineErrorView::NoCompletion => "No response from OpenAI"@,
            PipelineErrorView::AnalysisUnreadable { detail } => "Failed to parse analysis result: "@
                + detail,
            PipelineErrorView::ImageUndecodable { failure } => "Failed to decode image: "@
                + failure.text(),
            PipelineErrorView::UploadUnreachable { cause } => "Upload request failed: "@ + cause,
            PipelineErrorView::UploadRejected { body } => "WordPress upload failed: "@ + body,
            PipelineErrorView::MediaUnreadable { detail } => "Failed to parse upload response: "@
                + detail,
            PipelineErrorView::DescriptionUnreachable { cause } => "Metadata update failed: "@
                + cause,
        }
    }
}

impl PipelineError {
    /// The kind of the failure.
    pub fn kind(&self) -> (kind: ErrorKind)
        ensures
            kind == self@.kind(),
    {
        match self {
            PipelineError::MissingCredentials | PipelineError::SiteNotFound => {
                ErrorKind::Configuration
            },
            PipelineError::AnalysisUnreachable { .. }
            | PipelineError::UploadUnreachable { .. }
            | PipelineError::DescriptionUnreachable { .. } => ErrorKind::Transport,
            PipelineError::AnalysisRejected { .. } | PipelineError::UploadRejected { .. } => {
                ErrorKind::Protocol
            },
            PipelineError::CompletionUnreadable { .. }
            | PipelineError::NoCompletion
            | PipelineError::AnalysisUnreadable { .. }
            | PipelineError::ImageUndecodable { .. }
            | PipelineError::MediaUnreadable { .. } => ErrorKind::Decode,
        }
    }

    /// The stage in which the failure arises.
    pub fn stage(&self) -> (stage: Stage)
        ensures
            stage == self@.stage(),
    {
        match self {
            PipelineError::MissingCredentials | PipelineError::SiteNotFound => Stage::Setup,
            PipelineError::AnalysisUnreachable { .. }
            | PipelineError::AnalysisRejected { .. }
            | PipelineError::CompletionUnreadable { .. }
            | PipelineError::NoCompletion
            | PipelineError::AnalysisUnreadable { .. } => Stage::Analysis,
            PipelineError::ImageUndecodable { .. }
            | PipelineError::UploadUnreachable { .. }
            | PipelineError::UploadRejected { .. }
            | PipelineError::MediaUnreadable { .. }
            | PipelineError::DescriptionUnreachable { .. } => Stage::Publish,
        }
    }

    /// The failure as a sentence for people to read.
    pub fn message(&self) -> (text: String)
        ensures
            text@ == self@.message(),
    {
        match self {
            PipelineError::MissingCredentials => String::from_str("OpenAI configuration not found"),
            PipelineError::SiteNotFound => String::from_str("WordPress site not found"),
            PipelineError::AnalysisUnreachable { cause } => String::from_str(
                "OpenAI request failed: ",
            ).concat(cause.as_str()),
            PipelineError::AnalysisRejected { body } => String::from_str(
                "OpenAI API error: ",
            ).concat(body.as_str()),
            PipelineError::CompletionUnreadable { detail } => String::from_str(
                "Failed to parse OpenAI response: ",
            ).concat(detail.as_str()),
            PipelineError::NoCompletion => String::from_str("No response from OpenAI"),
            PipelineError::AnalysisUnreadable { detail } => String::from_str(
                "Failed to parse analysis result: ",
            ).concat(detail.as_str()),
            PipelineError::ImageUndecodable { failure } => String::from_str(
                "Failed to decode image: ",
            ).concat(failure.describe().as_str()),
            PipelineError::UploadUnreachable { cause } => String::from_str(
                "Upload request failed: ",
            ).concat(cause.as_str()),
            PipelineError::UploadRejected { body } => String::from_str(
                "WordPress upload failed: ",
            ).concat(body.as_str()),
            PipelineError::MediaUnreadable { detail } => String::from_str(
                "Failed to parse upload response: ",
            ).concat(detail.as_str()),
            PipelineError::DescriptionUnreachable { cause } => String::from_str(
                "Metadata update failed: ",
            ).concat(cause.as_str()),
        }
    }
}

} // verus!
