//! Probes that tell whether credentials work: one for the vision API, one
//! for a WordPress site. Neither is part of a pipeline run.

use crate::codec::{decode_standard, standard_decoding, DecodeFailure};
use crate::commands::wordpress::{
    basic_authorization, media_collection_url, media_item_url, Target, TargetView,
};
use crate::error::ErrorKind;
use crate::http::{
    is_success, success, Action, ActionView, Authorization, AuthorizationView, Body, BodyView,
    Event, EventView, FilePart, FilePartView, HttpRequest, HttpRequestView, Method, Mime, Step,
    StepView,
};
use crate::text::{decimal_text, strip_trailing, without_trailing};
use vstd::prelude::*;
use vstd::string::*;

verus! {

/// A transparent PNG of one pixel, in standard base64: the file that the
/// site probe uploads and deletes.
pub const TEST_IMAGE: &'static str =
    "iVBORw0KGgoAAAANSUhEUgAAAAEAAAABCAYAAAAfFcSJAAAADUlEQVR42mNk+M9QDwADhgGAWjR9awAAAABJRU5ErkJggg==";

/// The name under which the site probe uploads its file.
pub const TEST_FILE_NAME: &'static str = "test-validation.png";

/// A failed probe.
#[derive(Debug, PartialEq, Eq)]
pub enum ProbeError {
    /// The vision API could not be reached.
    ApiUnreachable { cause: String },
    /// The site could not be reached to check the account.
    AccountUnreachable { cause: String },
    /// The test file is not standard base64.
    TestImageUndecodable { failure: DecodeFailure },
    /// The test file could not be delivered.
    UploadUnreachable { cause: String },
    /// The site answered the test upload with a status that is no success.
    UploadRejected { body: String },
    /// The site's answer to the test upload is no JSON.
    MediaUnreadable { detail: String },
    /// The site's answer to the test upload names no media id.
    MissingMediaId,
    /// The request that deletes the test file could not be delivered.
    DeletionUnreachable { cause: String },
}

/// Mathematical value of a [`ProbeError`].
pub enum ProbeErrorView {
    ApiUnreachable { cause: Seq<char> },
    AccountUnreachable { cause: Seq<char> },
    TestImageUndecodable { failure: DecodeFailure },
    UploadUnreachable { cause: Seq<char> },
    UploadRejected { body: Seq<char> },
    MediaUnreadable { detail: Seq<char> },
    MissingMediaId,
    DeletionUnreachable { cause: Seq<char> },
}

impl View for ProbeError {
    type V = ProbeErrorView;

    open spec fn view(&self) -> ProbeErrorView {
        match self {
            ProbeError::ApiUnreachable { cause } => ProbeErrorView::ApiUnreachable { cause: cause@ },
            ProbeError::AccountUnreachable { cause } => ProbeErrorView::AccountUnreachable {
                cause: cause@,
            },
            ProbeError::TestImageUndecodable { failure } => ProbeErrorView::TestImageUndecodable {
                failure: *failure,
            },
            ProbeError::UploadUnreachable { cause } => ProbeErrorView::UploadUnreachable {
                cause: cause@,
            },
            ProbeError::UploadRejected { body } => ProbeErrorView::UploadRejected { body: body@ },
            ProbeError::MediaUnreadable { detail } => ProbeErrorView::MediaUnreadable {
                detail: detail@,
            },
            ProbeError::MissingMediaId => ProbeErrorView::MissingMediaId,
            ProbeError::DeletionUnreachable { cause } => ProbeErrorView::DeletionUnreachable {
                cause: cause@,
            },
        }
    }
}

impl ProbeErrorView {
    /// The kind of the failure.
    pub open spec fn kind(self) -> ErrorKind {
        match self {
            ProbeErrorView::ApiUnreachable { .. }
            | ProbeErrorView::AccountUnreachable { .. }
            | ProbeErrorView::UploadUnreachable { .. }
            | ProbeErrorView::DeletionUnreachable { .. } => ErrorKind::Transport,
            ProbeErrorView::UploadRejected { .. } => ErrorKind::Protocol,
            ProbeErrorView::TestImageUndecodable { .. }
            | ProbeErrorView::MediaUnreadable { .. }
            | ProbeErrorView::MissingMediaId => ErrorKind::Decode,
        }
    }

    /// The failure as a sentence for people to read.
    pub open spec fn message(self) -> Seq<char> {
        match self {
            ProbeErrorView::ApiUnreachable { cause } => "Request failed: "@ + cause,
            ProbeErrorView::AccountUnreachable { cause } => "Authentication failed: "@ + cause,
            ProbeErrorView::TestImageUndecodable { failure } => "Failed to decode test image: "@
                + failure.text(),
            ProbeErrorView::UploadUnreachable { cause } => "Upload test failed: "@ + cause,
            ProbeErrorView::UploadRejected { body } => "Upload permission denied: "@ + body,
            ProbeErrorView::MediaUnreadable { detail } => "Failed to parse response: "@ + detail,
            ProbeErrorView::MissingMediaId => "Failed to get media ID"@,
            ProbeErrorView::DeletionUnreachable { cause } => "Failed to delete test image: "@
                + cause,
        }
    }
}

impl ProbeError {
    /// The kind of the failure.
    pub fn kind(&self) -> (kind: ErrorKind)
        ensures
            kind == self@.kind(),
    {
        match self {
            ProbeError::ApiUnreachable { .. }
            | ProbeError::AccountUnreachable { .. }
            | ProbeError::UploadUnreachable { .. }
            | ProbeError::DeletionUnreachable { .. } => ErrorKind::Transport,
            ProbeError::UploadRejected { .. } => ErrorKind::Protocol,
            ProbeError::TestImageUndecodable { .. }
            | ProbeError::MediaUnreadable { .. }
            | ProbeError::MissingMediaId => ErrorKind::Decode,
        }
    }

    /// The failure as a sentence for people to read.
    pub fn message(&self) -> (text: String)
        ensures
            text@ == self@.message(),
    {
        match self {
            ProbeError::ApiUnreachable { cause } => String::from_str("Request failed: ").concat(
                cause.as_str(),
            ),
            ProbeError::AccountUnreachable { cause } => String::from_str(
                "Authentication failed: ",
            ).concat(cause.as_str()),
            ProbeError::TestImageUndecodable { failure } => String::from_str(
                "Failed to decode test image: ",
            ).concat(failure.describe().as_str()),
            ProbeError::UploadUnreachable { cause } => String::from_str(
                "Upload test failed: ",
            ).concat(cause.as_str()),
            ProbeError::UploadRejected { body } => String::from_str(
                "Upload permission denied: ",
            ).concat(body.as_str()),
            ProbeError::MediaUnreadable { detail } => String::from_str(
                "Failed to parse response: ",
            ).concat(detail.as_str()),
            ProbeError::MissingMediaId => String::from_str("Failed to get media ID"),
            ProbeError::DeletionUnreachable { cause } => String::from_str(
                "Failed to delete test image: ",
            ).concat(cause.as_str()),
        }
    }
}

/// The request that lists the models of the vision API.
pub open spec fn models_request(api_url: Seq<char>, api_key: Seq<char>) -> HttpRequestView {
    HttpRequestView {
        method: Method::Get,
        url: strip_trailing(api_url, '/') + "/models"@,
        authorization: AuthorizationView::Bearer { token: api_key },
        body: BodyView::Empty,
    }
}

/// The probe of the vision API's credentials, waiting for the response.
#[derive(Debug, Clone, Copy, PartialEq, Eq, Structural)]
pub struct CredentialProbe {}

impl View for CredentialProbe {
    type V = CredentialProbe;

    open spec fn view(&self) -> CredentialProbe {
        *self
    }
}

/// The one step of the credential probe: the credentials work exactly
/// when the API answers with a status of the success class.
pub open spec fn credential_probe_step(event: EventView) -> StepView<
    CredentialProbe,
    bool,
    ProbeErrorView,
> {
    match event {
        EventView::Failed { cause } => StepView::Done {
            result: Err(ProbeErrorView::ApiUnreachable { cause }),
        },
        EventView::Status { code } => StepView::Done { result: Ok(success(code)) },
        _ => StepView::Ignored { machine: CredentialProbe {  } },
    }
}

/// Starts the probe of the vision API's credentials.
pub fn validate_openai_config(api_url: &str, api_key: &str) -> (started: (CredentialProbe, Action))
    ensures
        started.1@ == ActionView::Send(models_request(api_url@, api_key@)),
{
    let request = HttpRequest {
        method: Method::Get,
        url: without_trailing(api_url, '/').concat("/models"),
        authorization: Authorization::Bearer { token: api_key.to_owned() },
        body: Body::Empty,
    };
    (CredentialProbe {  }, Action::Send(request))
}

impl CredentialProbe {
    /// Ends the probe with the event that answers its request.
    pub fn advance(self, event: Event) -> (step: Step<CredentialProbe, bool, ProbeError>)
        ensures
            step@ == credential_probe_step(event@),
    {
        match event {
            Event::Failed { cause } => Step::Done {
                result: Err(ProbeError::ApiUnreachable { cause }),
            },
            Event::Status { code } => Step::Done { result: Ok(is_success(code)) },
            _ => Step::Ignored { machine: self },
        }
    }
}

/// The request that asks a site who the account is.
pub open spec fn account_request(target: TargetView) -> HttpRequestView {
    HttpRequestView {
        method: Method::Get,
        url: strip_trailing(target.site_url, '/') + "/wp-json/wp/v2/users/me"@,
        authorization: AuthorizationView::Basic {
            username: target.username,
            password: target.app_password,
        },
        body: BodyView::Empty,
    }
}

/// The request that uploads the test file.
pub open spec fn test_upload_request(target: TargetView, bytes: Seq<u8>) -> HttpRequestView {
    HttpRequestView {
        method: Method::Post,
        url: media_collection_url(target.site_url),
        authorization: AuthorizationView::Basic {
            username: target.username,
            password: target.app_password,
        },
        body: BodyView::File(
            FilePartView { field: "file"@, file_name: TEST_FILE_NAME@, mime: Mime::Png, bytes },
        ),
    }
}

/// The request that deletes the media item `id` for good.
pub open spec fn deletion_request(target: TargetView, id: u64) -> HttpRequestView {
    HttpRequestView {
        method: Method::Delete,
        url: media_item_url(target.site_url, id) + "?force=true"@,
        authorization: AuthorizationView::Basic {
            username: target.username,
            password: target.app_password,
        },
        body: BodyView::Empty,
    }
}

/// Where the probe of a site stands.
#[derive(Debug, PartialEq, Eq)]
pub enum SiteProbe {
    /// The account is being checked.
    AwaitingAccount { target: Target },
    /// The test file is out; the response is awaited.
    AwaitingUpload { target: Target },
    /// The site has rejected the test file; the text of its answer is
    /// awaited.
    AwaitingErrorBody,
    /// The site has taken the test file; the id of the media item is
    /// awaited.
    AwaitingMediaId { target: Target },
    /// The deletion of the test file is out; the response is awaited.
    AwaitingDeletion,
}

/// Mathematical value of a [`SiteProbe`].
pub enum SiteProbeView {
    AwaitingAccount { target: TargetView },
    AwaitingUpload { target: TargetView },
    AwaitingErrorBody,
    AwaitingMediaId { target: TargetView },
    AwaitingDeletion,
}

impl View for SiteProbe {
    type V = SiteProbeView;

    open spec fn view(&self) -> SiteProbeView {
        match self {
            SiteProbe::AwaitingAccount { target } => SiteProbeView::AwaitingAccount {
                target: target@,
            },
            SiteProbe::AwaitingUpload { target } => SiteProbeView::AwaitingUpload {
                target: target@,
            },
            SiteProbe::AwaitingErrorBody => SiteProbeView::AwaitingErrorBody,
            SiteProbe::AwaitingMediaId { target } => SiteProbeView::AwaitingMediaId {
                target: target@,
            },
            SiteProbe::AwaitingDeletion => SiteProbeView::AwaitingDeletion,
        }
    }
}

/// How the probe goes on once the account is known to work, given what
/// decoding the test file gave.
pub open spec fn test_upload_start(
    target: TargetView,
    decoded: Result<Seq<u8>, DecodeFailure>,
) -> StepView<SiteProbeView, bool, ProbeErrorView> {
    match decoded {
        Ok(bytes) => StepView::Continue {
            machine: SiteProbeView::AwaitingUpload { target },
            action: ActionView::Send(test_upload_request(target, bytes)),
        },
        Err(failure) => StepView::Done {
            result: Err(ProbeErrorView::TestImageUndecodable { failure }),
        },
    }
}

/// One step of the probe of a site.
///
/// An account that the site does not accept ends the probe with `false`.
/// Else the probe uploads the test file and deletes it again; it ends
/// with `true` once the deletion is answered, whatever the status. Each
/// request that cannot be delivered, a rejected upload and an answer
/// without a media id end the probe with their error.
pub open spec fn site_probe_step(state: SiteProbeView, event: EventView) -> StepView<
    SiteProbeView,
    bool,
    ProbeErrorView,
> {
    match (state, event) {
        (SiteProbeView::AwaitingAccount { .. }, EventView::Failed { cause }) => StepView::Done {
            result: Err(ProbeErrorView::AccountUnreachable { cause }),
        },
        (SiteProbeView::AwaitingAccount { target }, EventView::Status { code }) => {
            if success(code) {
                test_upload_start(target, standard_decoding(TEST_IMAGE@))
            } else {
                StepView::Done { result: Ok(false) }
            }
        },
        (SiteProbeView::AwaitingUpload { .. }, EventView::Failed { cause }) => StepView::Done {
            result: Err(ProbeErrorView::UploadUnreachable { cause }),
        },
        (SiteProbeView::AwaitingUpload { target }, EventView::Status { code }) => {
            if success(code) {
                StepView::Continue {
                    machine: SiteProbeView::AwaitingMediaId { target },
                    action: ActionView::ReadMediaId,
                }
            } else {
                StepView::Continue {
                    machine: SiteProbeView::AwaitingErrorBody,
                    action: ActionView::ReadText,
                }
            }
        },
        (SiteProbeView::AwaitingErrorBody, EventView::Text { body }) => StepView::Done {
            result: Err(ProbeErrorView::UploadRejected { body }),
        },
        (SiteProbeView::AwaitingErrorBody, EventView::Failed { cause }) => StepView::Done {
            result: Err(ProbeErrorView::UploadRejected { body: Seq::empty() }),
        },
        (SiteProbeView::AwaitingMediaId { .. }, EventView::Failed { cause }) => StepView::Done {
            result: Err(ProbeErrorView::MediaUnreadable { detail: cause }),
        },
        (SiteProbeView::AwaitingMediaId { .. }, EventView::MediaId { found: None }) => {
            StepView::Done { result: Err(ProbeErrorView::MissingMediaId) }
        },
        (SiteProbeView::AwaitingMediaId { target }, EventView::MediaId { found: Some(id) }) => {
            StepView::Continue {
                machine: SiteProbeView::AwaitingDeletion,
                action: ActionView::Send(deletion_request(target, id)),
            }
        },
        (SiteProbeView::AwaitingDeletion, EventView::Failed { cause }) => StepView::Done {
            result: Err(ProbeErrorView::DeletionUnreachable { cause }),
        },
        (SiteProbeView::AwaitingDeletion, EventView::Status { code }) => StepView::Done {
            result: Ok(true),
        },
        _ => StepView::Ignored { machine: state },
    }
}

/// Starts the probe of a site: asks the site who the account is.
pub fn validate_wordpress_config(site_url: &str, username: &str, app_password: &str) -> (started: (
    SiteProbe,
    Action,
))
    ensures
        started.0@ == (SiteProbeView::AwaitingAccount {
            target: TargetView {
                site_url: site_url@,
                username: username@,
                app_password: app_password@,
            },
        }),
        started.1@ == ActionView::Send(
            account_request(
                TargetView { site_url: site_url@, username: username@, app_password: app_password@ },
            ),
        ),
{
    let target = Target {
        site_url: site_url.to_owned(),
        username: username.to_owned(),
        app_password: app_password.to_owned(),
    };
    let request = HttpRequest {
        method: Method::Get,
        url: without_trailing(site_url, '/').concat("/wp-json/wp/v2/users/me"),
        authorization: basic_authorization(&target),
        body: Body::Empty,
    };
    (SiteProbe::AwaitingAccount { target }, Action::Send(request))
}

/// Goes on with a probe whose account works, with the outcome of decoding
/// the test file.
pub fn begin_test_upload(target: Target, decoded: Result<Vec<u8>, DecodeFailure>) -> (step: Step<
    SiteProbe,
    bool,
    ProbeError,
>)
    ensures
        decoded matches Ok(bytes) ==> step@ == test_upload_start(target@, Ok(bytes@)),
        decoded matches Err(failure) ==> step@ == test_upload_start(target@, Err(failure)),
{
    match decoded {
        Ok(bytes) => {
            let request = HttpRequest {
                method: Method::Post,
                url: without_trailing(target.site_url.as_str(), '/').concat(
                    "/wp-json/wp/v2/media",
                ),
                authorization: basic_authorization(&target),
                body: Body::File(
                    FilePart {
                        field: String::from_str("file"),
                        file_name: String::from_str(TEST_FILE_NAME),
                        mime: Mime::Png,
                        bytes,
                    },
                ),
            };
            Step::Continue {
                machine: SiteProbe::AwaitingUpload { target },
                action: Action::Send(request),
            }
        },
        Err(failure) => Step::Done { result: Err(ProbeError::TestImageUndecodable { failure }) },
    }
}

impl SiteProbe {
    /// Advances the probe by the event that answers its pending action.
    pub fn advance(self, event: Event) -> (step: Step<SiteProbe, bool, ProbeError>)
        ensures
            step@ == site_probe_step(self@, event@),
    {
        match (self, event) {
            (SiteProbe::AwaitingAccount { .. }, Event::Failed { cause }) => Step::Done {
                result: Err(ProbeError::AccountUnreachable { cause }),
            },
            (SiteProbe::AwaitingAccount { target }, Event::Status { code }) => {
                if is_success(code) {
                    begin_test_upload(target, decode_standard(TEST_IMAGE))
                } else {
                    Step::Done { result: Ok(false) }
                }
            },
            (SiteProbe::AwaitingUpload { .. }, Event::Failed { cause }) => Step::Done {
                result: Err(ProbeError::UploadUnreachable { cause }),
            },
            (SiteProbe::AwaitingUpload { target }, Event::Status { code }) => {
                if is_success(code) {
                    Step::Continue {
                        machine: SiteProbe::AwaitingMediaId { target },
                        action: Action::ReadMediaId,
                    }
                } else {
                    Step::Continue {
                        machine: SiteProbe::AwaitingErrorBody,
                        action: Action::ReadText,
                    }
                }
            },
            (SiteProbe::AwaitingErrorBody, Event::Text { body }) => Step::Done {
                result: Err(ProbeError::UploadRejected { body }),
            },
            (SiteProbe::AwaitingErrorBody, Event::Failed { cause }) => Step::Done {
                result: Err(ProbeError::UploadRejected { body: String::new() }),
            },
            (SiteProbe::AwaitingMediaId { .. }, Event::Failed { cause }) => Step::Done {
                result: Err(ProbeError::MediaUnreadable { detail: cause }),
            },
            (SiteProbe::AwaitingMediaId { .. }, Event::MediaId { found: None }) => Step::Done {
                result: Err(ProbeError::MissingMediaId),
            },
            (SiteProbe::AwaitingMediaId { target }, Event::MediaId { found: Some(id) }) => {
                let request = HttpRequest {
                    method: Method::Delete,
                    url: without_trailing(target.site_url.as_str(), '/').concat(
                        "/wp-json/wp/v2/media",
                    ).concat("/").concat(decimal_text(id).as_str()).concat("?force=true"),
                    authorization: basic_authorization(&target),
                    body: Body::Empty,
                };
                Step::Continue {
                    machine: SiteProbe::AwaitingDeletion,
                    action: Action::Send(request),
                }
            },
            (SiteProbe::AwaitingDeletion, Event::Failed { cause }) => Step::Done {
                result: Err(ProbeError::DeletionUnreachable { cause }),
            },
            (SiteProbe::AwaitingDeletion, Event::Status { code }) => Step::Done {
                result: Ok(true),
            },
            (machine, _) => Step::Ignored { machine },
        }
    }
}

} // verus!
