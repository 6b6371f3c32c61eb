use base64::engine::general_purpose::STANDARD;
use base64::Engine;
use image_publisher::codec::DecodeFailure;
use image_publisher::commands::config::{
    begin_test_upload, validate_openai_config, validate_wordpress_config, CredentialProbe,
    ProbeError, SiteProbe, TEST_FILE_NAME, TEST_IMAGE,
};
use image_publisher::commands::wordpress::Target;
use image_publisher::error::ErrorKind;
use image_publisher::http::{
    is_success, Action, Authorization, Body, Event, FilePart, HttpRequest, Method, Mime, Step,
};

fn target() -> Target {
    Target {
        site_url: "https://site.example/".to_string(),
        username: "editor".to_string(),
        app_password: "abcd efgh".to_string(),
    }
}

fn basic() -> Authorization {
    Authorization::Basic { username: "editor".to_string(), password: "abcd efgh".to_string() }
}

#[test]
fn success_class_is_two_hundred_to_two_ninety_nine() {
    for code in 0..=u16::MAX {
        assert_eq!(is_success(code), (200..300).contains(&code), "code {}", code);
    }
}

#[test]
fn credential_probe_lists_the_models() {
    let (_, action) = validate_openai_config("https://api.example/v1/", "sk-test");
    assert_eq!(
        action,
        Action::Send(HttpRequest {
            method: Method::Get,
            url: "https://api.example/v1/models".to_string(),
            authorization: Authorization::Bearer { token: "sk-test".to_string() },
            body: Body::Empty,
        })
    );
}

#[test]
fn credentials_work_exactly_on_a_success_status() {
    let probe = CredentialProbe {};
    assert_eq!(probe.advance(Event::Status { code: 200 }), Step::Done { result: Ok(true) });
    assert_eq!(probe.advance(Event::Status { code: 204 }), Step::Done { result: Ok(true) });
    assert_eq!(probe.advance(Event::Status { code: 401 }), Step::Done { result: Ok(false) });
    assert_eq!(probe.advance(Event::Status { code: 302 }), Step::Done { result: Ok(false) });
}

#[test]
fn unreachable_api_fails_the_credential_probe() {
    let error = ProbeError::ApiUnreachable { cause: "dns".to_string() };
    assert_eq!(error.kind(), ErrorKind::Transport);
    assert_eq!(error.message(), "Request failed: dns");
    assert_eq!(
        CredentialProbe {}.advance(Event::Failed { cause: "dns".to_string() }),
        Step::Done { result: Err(error) }
    );
    assert_eq!(
        CredentialProbe {}.advance(Event::Text { body: "x".to_string() }),
        Step::Ignored { machine: CredentialProbe {} }
    );
}

#[test]
fn site_probe_asks_who_the_account_is() {
    let (machine, action) = validate_wordpress_config("https://site.example/", "editor", "abcd efgh");
    assert_eq!(machine, SiteProbe::AwaitingAccount { target: target() });
    assert_eq!(
        action,
        Action::Send(HttpRequest {
            method: Method::Get,
            url: "https://site.example/wp-json/wp/v2/users/me".to_string(),
            authorization: basic(),
            body: Body::Empty,
        })
    );
}

#[test]
fn refused_account_ends_the_probe_with_false() {
    let machine = SiteProbe::AwaitingAccount { target: target() };
    assert_eq!(machine.advance(Event::Status { code: 401 }), Step::Done { result: Ok(false) });
}

#[test]
fn unreachable_site_fails_the_probe() {
    let machine = SiteProbe::AwaitingAccount { target: target() };
    let error = ProbeError::AccountUnreachable { cause: "refused".to_string() };
    assert_eq!(error.kind(), ErrorKind::Transport);
    assert_eq!(error.message(), "Authentication failed: refused");
    assert_eq!(
        machine.advance(Event::Failed { cause: "refused".to_string() }),
        Step::Done { result: Err(error) }
    );
}

#[test]
fn accepted_account_uploads_the_test_file() {
    let machine = SiteProbe::AwaitingAccount { target: target() };
    let png = STANDARD.decode(TEST_IMAGE).expect("the test file is base64");
    assert_eq!(&png[..8], b"\x89PNG\r\n\x1a\n");
    assert_eq!(TEST_FILE_NAME, "test-validation.png");
    assert_eq!(
        machine.advance(Event::Status { code: 200 }),
        Step::Continue {
            machine: SiteProbe::AwaitingUpload { target: target() },
            action: Action::Send(HttpRequest {
                method: Method::Post,
                url: "https://site.example/wp-json/wp/v2/media".to_string(),
                authorization: basic(),
                body: Body::File(FilePart {
                    field: "file".to_string(),
                    file_name: "test-validation.png".to_string(),
                    mime: Mime::Png,
                    bytes: png,
                }),
            }),
        }
    );
}

#[test]
fn test_upload_goes_on_with_the_decoded_file_as_given() {
    match begin_test_upload(target(), Ok(vec![1, 2, 3])) {
        Step::Continue { machine, action: Action::Send(request) } => {
            assert_eq!(machine, SiteProbe::AwaitingUpload { target: target() });
            match request.body {
                Body::File(file) => assert_eq!(file.bytes, vec![1, 2, 3]),
                other => panic!("unexpected body {:?}", other),
            }
        },
        other => panic!("unexpected step {:?}", other),
    }
    let error = ProbeError::TestImageUndecodable { failure: DecodeFailure::InvalidLength { length: 5 } };
    assert_eq!(error.kind(), ErrorKind::Decode);
    assert_eq!(error.message(), "Failed to decode test image: Invalid input length: 5");
    assert_eq!(
        begin_test_upload(target(), Err(DecodeFailure::InvalidLength { length: 5 })),
        Step::Done { result: Err(error) }
    );
}

#[test]
fn undelivered_test_upload_fails_the_probe() {
    let machine = SiteProbe::AwaitingUpload { target: target() };
    let error = ProbeError::UploadUnreachable { cause: "timed out".to_string() };
    assert_eq!(error.kind(), ErrorKind::Transport);
    assert_eq!(error.message(), "Upload test failed: timed out");
    assert_eq!(
        machine.advance(Event::Failed { cause: "timed out".to_string() }),
        Step::Done { result: Err(error) }
    );
}

#[test]
fn rejected_test_upload_fails_the_probe_with_the_body() {
    let machine = SiteProbe::AwaitingUpload { target: target() };
    assert_eq!(
        machine.advance(Event::Status { code: 403 }),
        Step::Continue { machine: SiteProbe::AwaitingErrorBody, action: Action::ReadText }
    );
    let error = ProbeError::UploadRejected { body: "rest_cannot_create".to_string() };
    assert_eq!(error.kind(), ErrorKind::Protocol);
    assert_eq!(error.message(), "Upload permission denied: rest_cannot_create");
    assert_eq!(
        SiteProbe::AwaitingErrorBody.advance(Event::Text { body: "rest_cannot_create".to_string() }),
        Step::Done { result: Err(error) }
    );
    assert_eq!(
        SiteProbe::AwaitingErrorBody.advance(Event::Failed { cause: "reset".to_string() }),
        Step::Done { result: Err(ProbeError::UploadRejected { body: String::new() }) }
    );
}

#[test]
fn accepted_test_upload_asks_for_the_media_id() {
    let machine = SiteProbe::AwaitingUpload { target: target() };
    assert_eq!(
        machine.advance(Event::Status { code: 201 }),
        Step::Continue {
            machine: SiteProbe::AwaitingMediaId { target: target() },
            action: Action::ReadMediaId,
        }
    );
}

#[test]
fn answer_that_is_no_json_fails_the_probe() {
    let machine = SiteProbe::AwaitingMediaId { target: target() };
    let error = ProbeError::MediaUnreadable { detail: "expected value".to_string() };
    assert_eq!(error.kind(), ErrorKind::Decode);
    assert_eq!(error.message(), "Failed to parse response: expected value");
    assert_eq!(
        machine.advance(Event::Failed { cause: "expected value".to_string() }),
        Step::Done { result: Err(error) }
    );
}

#[test]
fn answer_without_media_id_fails_the_probe() {
    let machine = SiteProbe::AwaitingMediaId { target: target() };
    assert_eq!(ProbeError::MissingMediaId.kind(), ErrorKind::Decode);
    assert_eq!(ProbeError::MissingMediaId.message(), "Failed to get media ID");
    assert_eq!(
        machine.advance(Event::MediaId { found: None }),
        Step::Done { result: Err(ProbeError::MissingMediaId) }
    );
}

#[test]
fn media_id_is_followed_by_the_deletion() {
    let machine = SiteProbe::AwaitingMediaId { target: target() };
    assert_eq!(
        machine.advance(Event::MediaId { found: Some(1234) }),
        Step::Continue {
            machine: SiteProbe::AwaitingDeletion,
            action: Action::Send(HttpRequest {
                method: Method::Delete,
                url: "https://site.example/wp-json/wp/v2/media/1234?force=true".to_string(),
                authorization: basic(),
                body: Body::Empty,
            }),
        }
    );
}

#[test]
fn answered_deletion_ends_the_probe_with_true() {
    for code in [200u16, 404, 500] {
        assert_eq!(
            SiteProbe::AwaitingDeletion.advance(Event::Status { code }),
            Step::Done { result: Ok(true) }
        );
    }
}

#[test]
fn undelivered_deletion_fails_the_probe() {
    let error = ProbeError::DeletionUnreachable { cause: "reset".to_string() };
    assert_eq!(error.kind(), ErrorKind::Transport);
    assert_eq!(error.message(), "Failed to delete test image: reset");
    assert_eq!(
        SiteProbe::AwaitingDeletion.advance(Event::Failed { cause: "reset".to_string() }),
        Step::Done { result: Err(error) }
    );
}

#[test]
fn events_that_answer_nothing_are_ignored_by_the_probe() {
    assert_eq!(
        SiteProbe::AwaitingAccount { target: target() }.advance(Event::MediaId { found: Some(1) }),
        Step::Ignored { machine: SiteProbe::AwaitingAccount { target: target() } }
    );
    assert_eq!(
        SiteProbe::AwaitingMediaId { target: target() }.advance(Event::Status { code: 200 }),
        Step::Ignored { machine: SiteProbe::AwaitingMediaId { target: target() } }
    );
    assert_eq!(
        SiteProbe::AwaitingDeletion.advance(Event::Text { body: "x".to_string() }),
        Step::Ignored { machine: SiteProbe::AwaitingDeletion }
    );
}
