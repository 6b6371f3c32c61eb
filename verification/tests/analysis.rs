use image_publisher::commands::openai::{
    analyze_image, build_system_prompt, extract_json, Analysis, ImageAnalysis, MAX_TOKENS, MODEL,
    PROMPT_HEAD, PROMPT_TAIL, USER_PROMPT,
};
use image_publisher::error::{ErrorKind, PipelineError, Stage};
use image_publisher::http::{
    Action, Authorization, Body, ChatContent, Event, Method, Role, Step,
};
use image_publisher::models::config::OpenAIConfig;

fn credentials(api_url: &str) -> OpenAIConfig {
    OpenAIConfig { api_url: api_url.to_string(), api_key: "sk-test".to_string() }
}

fn sunset() -> ImageAnalysis {
    ImageAnalysis {
        filename: "sunset-beach-waves.webp".to_string(),
        title: "Sunset over the beach".to_string(),
        description: "Waves roll in under an orange sky.".to_string(),
        alt_text: "Orange sunset above breaking waves".to_string(),
        tags: vec!["sunset".to_string(), "beach".to_string()],
    }
}

/// What the text between fences is, written with the standard library.
fn reference_extraction(content: &str) -> String {
    let json = if content.contains("```json") {
        content.split("```json").nth(1).and_then(|s| s.split("```").next()).unwrap_or(content).trim()
    } else if content.contains("```") {
        content.split("```").nth(1).unwrap_or(content).trim()
    } else {
        content.trim()
    };
    json.to_string()
}

#[test]
fn bare_json_is_left_unchanged() {
    let bare = "{\"filename\":\"a.webp\",\"tags\":[\"x\"]}";
    assert_eq!(extract_json(bare), bare);
}

#[test]
fn bare_json_is_only_trimmed() {
    assert_eq!(extract_json("  \n{\"a\": 1}\n"), "{\"a\": 1}");
}

#[test]
fn extraction_is_idempotent() {
    for content in [
        "{\"a\": 1}",
        "  {\"a\": 1}  ",
        "```json\n{\"a\": 1}\n```",
        "```\n{\"a\": 1}\n```",
        "Here you go:\n```json\n{\"a\": 1}\n```\nAnything else?",
        "a````json",
        "```",
        "",
    ] {
        let once = extract_json(content);
        assert_eq!(extract_json(&once), once, "content {:?}", content);
    }
}

#[test]
fn fence_with_a_tag_gives_the_inner_text() {
    assert_eq!(extract_json("```json\n{\"a\": 1}\n```"), "{\"a\": 1}");
    assert_eq!(extract_json("```json{\"a\": 1}```"), "{\"a\": 1}");
}

#[test]
fn fence_without_a_tag_gives_the_inner_text() {
    assert_eq!(extract_json("```\n{\"a\": 1}\n```"), "{\"a\": 1}");
    assert_eq!(extract_json("```{\"a\": 1}```"), "{\"a\": 1}");
}

#[test]
fn fenced_text_is_the_same_as_the_text_alone() {
    for inner in ["{\"a\": 1}", "\n{\"title\": \"use `x` here\"}\n", " [1, 2] ", ""] {
        let alone = extract_json(inner);
        assert_eq!(extract_json(&format!("```json{}```", inner)), alone);
        assert_eq!(extract_json(&format!("```{}```", inner)), alone);
    }
}

#[test]
fn text_around_the_fences_is_dropped() {
    assert_eq!(extract_json("Sure!\n```json\n{\"a\": 1}\n```\nDone."), "{\"a\": 1}");
    assert_eq!(extract_json("Sure!\n```\n{\"a\": 1}\n```\nDone."), "{\"a\": 1}");
}

#[test]
fn only_the_first_fenced_block_counts() {
    assert_eq!(extract_json("```json\n1\n```\n```json\n2\n```"), "1");
    assert_eq!(extract_json("```\n1\n```\n```\n2\n```"), "1");
}

#[test]
fn a_tag_beats_an_earlier_plain_fence() {
    assert_eq!(extract_json("```\nplain\n```\n```json\n{\"a\": 1}\n```"), "{\"a\": 1}");
}

#[test]
fn an_open_fence_runs_to_the_end() {
    assert_eq!(extract_json("```json\n{\"a\": 1}"), "{\"a\": 1}");
    assert_eq!(extract_json("```\n{\"a\": 1}"), "{\"a\": 1}");
}

#[test]
fn extraction_agrees_with_the_standard_library() {
    for content in [
        "",
        "x",
        " x ",
        "```",
        "``````",
        "```json",
        "```json```",
        "a````json",
        "a````jsonb```c",
        "```json a ```json b ``` c",
        "x```y```z```w",
        "```json\n{\"a\": \"é\u{3000}\"}\n```",
        "`` `json {} ```",
        "\u{a0}{}\u{a0}",
    ] {
        assert_eq!(extract_json(content), reference_extraction(content), "content {:?}", content);
    }
}

#[test]
fn system_prompt_without_context_is_head_and_tail() {
    assert_eq!(build_system_prompt(None), format!("{}{}", PROMPT_HEAD, PROMPT_TAIL));
}

#[test]
fn system_prompt_holds_the_context_as_given() {
    let prompt = build_system_prompt(Some("A blog about {hiking}"));
    assert_eq!(
        prompt,
        format!("{}Website context: A blog about {{hiking}}. {}", PROMPT_HEAD, PROMPT_TAIL)
    );
}

#[test]
fn system_prompt_reads_as_written() {
    let prompt = build_system_prompt(Some("Travel"));
    assert!(prompt.starts_with("You are an SEO assistant. Generate metadata for images in ENGLISH ONLY."));
    assert!(prompt.contains("(e.g., 'sunset-beach-waves.webp'). Website context: Travel. Follow these guidelines:\n- filename: "));
    assert!(prompt.contains("end with .webp (40-60 chars)\n- title: Concise, descriptive title (40-60 chars)\n- alt_text: "));
    assert!(prompt.contains("(100-125 chars)\n- description: Longer description with context (150-200 chars)\n- tags: 5-8 relevant keywords"));
    assert!(prompt.ends_with("Return ONLY valid JSON in this exact format: {\"filename\":\"...\",\"title\":\"...\",\"description\":\"...\",\"alt_text\":\"...\",\"tags\":[\"...\"]}"));
}

#[test]
fn analysis_request_is_an_authorized_post() {
    let (machine, action) = analyze_image(&credentials("https://api.example/v1"), "QUJD", None);
    assert_eq!(machine, Analysis::AwaitingResponse);
    let request = match action {
        Action::Send(request) => request,
        other => panic!("unexpected action {:?}", other),
    };
    assert_eq!(request.method, Method::Post);
    assert_eq!(request.url, "https://api.example/v1/chat/completions");
    assert_eq!(request.authorization, Authorization::Bearer { token: "sk-test".to_string() });
}

#[test]
fn analysis_url_drops_trailing_slashes() {
    let (_, action) = analyze_image(&credentials("https://api.example/v1//"), "QUJD", None);
    match action {
        Action::Send(request) => assert_eq!(request.url, "https://api.example/v1/chat/completions"),
        other => panic!("unexpected action {:?}", other),
    }
}

#[test]
fn analysis_request_has_two_turns_and_a_jpeg_data_url() {
    let (_, action) = analyze_image(&credentials("https://api.example/v1"), "QUJD", Some("Travel"));
    let chat = match action {
        Action::Send(request) => match request.body {
            Body::Chat(chat) => chat,
            other => panic!("unexpected body {:?}", other),
        },
        other => panic!("unexpected action {:?}", other),
    };
    assert_eq!(chat.model, "gpt-4o");
    assert_eq!(chat.model, MODEL);
    assert_eq!(chat.max_tokens, 500);
    assert_eq!(chat.max_tokens, MAX_TOKENS);
    assert_eq!(chat.messages.len(), 2);
    assert_eq!(chat.messages[0].role, Role::System);
    assert_eq!(
        chat.messages[0].content,
        vec![ChatContent::Text { text: build_system_prompt(Some("Travel")) }]
    );
    assert_eq!(chat.messages[1].role, Role::User);
    assert_eq!(
        chat.messages[1].content,
        vec![
            ChatContent::Text { text: USER_PROMPT.to_string() },
            ChatContent::ImageUrl { url: "data:image/jpeg;base64,QUJD".to_string() },
        ]
    );
    assert_eq!(
        USER_PROMPT,
        "Analyze this image and generate SEO metadata in English. Include a descriptive filename slug."
    );
}

#[test]
fn roles_have_their_wire_names() {
    assert_eq!(Role::System.as_str(), "system");
    assert_eq!(Role::User.as_str(), "user");
}

#[test]
fn undelivered_analysis_request_is_a_transport_error() {
    let step = Analysis::AwaitingResponse.advance(Event::Failed { cause: "connection refused".to_string() });
    let error = PipelineError::AnalysisUnreachable { cause: "connection refused".to_string() };
    assert_eq!(error.kind(), ErrorKind::Transport);
    assert_eq!(error.stage(), Stage::Analysis);
    assert_eq!(error.message(), "OpenAI request failed: connection refused");
    assert_eq!(step, Step::Done { result: Err(error) });
}

#[test]
fn success_status_asks_for_the_completion() {
    for code in [200u16, 201, 299] {
        assert_eq!(
            Analysis::AwaitingResponse.advance(Event::Status { code }),
            Step::Continue { machine: Analysis::AwaitingCompletion, action: Action::ReadCompletion }
        );
    }
}

#[test]
fn other_status_asks_for_the_text_of_the_answer() {
    for code in [100u16, 199, 300, 401, 404, 500] {
        assert_eq!(
            Analysis::AwaitingResponse.advance(Event::Status { code }),
            Step::Continue { machine: Analysis::AwaitingErrorBody, action: Action::ReadText }
        );
    }
}

#[test]
fn rejected_analysis_carries_the_body() {
    let step = Analysis::AwaitingErrorBody.advance(Event::Text { body: "{\"error\":\"invalid key\"}".to_string() });
    let error = PipelineError::AnalysisRejected { body: "{\"error\":\"invalid key\"}".to_string() };
    assert_eq!(error.kind(), ErrorKind::Protocol);
    assert_eq!(error.message(), "OpenAI API error: {\"error\":\"invalid key\"}");
    assert_eq!(step, Step::Done { result: Err(error) });
}

#[test]
fn unreadable_error_body_counts_as_empty() {
    let step = Analysis::AwaitingErrorBody.advance(Event::Failed { cause: "reset".to_string() });
    let error = PipelineError::AnalysisRejected { body: String::new() };
    assert_eq!(error.message(), "OpenAI API error: ");
    assert_eq!(step, Step::Done { result: Err(error) });
}

#[test]
fn unreadable_completion_is_a_decode_error() {
    let step = Analysis::AwaitingCompletion.advance(Event::Failed { cause: "missing field `choices`".to_string() });
    let error = PipelineError::CompletionUnreadable { detail: "missing field `choices`".to_string() };
    assert_eq!(error.kind(), ErrorKind::Decode);
    assert_eq!(error.message(), "Failed to parse OpenAI response: missing field `choices`");
    assert_eq!(step, Step::Done { result: Err(error) });
}

#[test]
fn completion_without_choices_is_a_decode_error() {
    let step = Analysis::AwaitingCompletion.advance(Event::Completion { choices: vec![] });
    assert_eq!(PipelineError::NoCompletion.kind(), ErrorKind::Decode);
    assert_eq!(PipelineError::NoCompletion.stage(), Stage::Analysis);
    assert_eq!(PipelineError::NoCompletion.message(), "No response from OpenAI");
    assert_eq!(step, Step::Done { result: Err(PipelineError::NoCompletion) });
}

#[test]
fn first_choice_is_stripped_and_sent_for_parsing() {
    let step = Analysis::AwaitingCompletion.advance(Event::Completion {
        choices: vec!["```json\n{\"a\": 1}\n```".to_string(), "{\"b\": 2}".to_string()],
    });
    assert_eq!(
        step,
        Step::Continue {
            machine: Analysis::AwaitingAnalysis,
            action: Action::ParseAnalysis { json: "{\"a\": 1}".to_string() },
        }
    );
}

#[test]
fn unparsable_analysis_is_a_decode_error() {
    let step = Analysis::AwaitingAnalysis.advance(Event::Failed { cause: "expected value at line 1 column 1".to_string() });
    let error = PipelineError::AnalysisUnreadable { detail: "expected value at line 1 column 1".to_string() };
    assert_eq!(error.kind(), ErrorKind::Decode);
    assert_eq!(error.stage(), Stage::Analysis);
    assert_eq!(error.message(), "Failed to parse analysis result: expected value at line 1 column 1");
    assert_eq!(step, Step::Done { result: Err(error) });
}

#[test]
fn parsed_analysis_ends_the_exchange() {
    let step = Analysis::AwaitingAnalysis.advance(Event::Analysis { analysis: sunset() });
    assert_eq!(step, Step::Done { result: Ok(sunset()) });
}

#[test]
fn events_that_answer_nothing_are_ignored_by_the_analysis() {
    assert_eq!(
        Analysis::AwaitingResponse.advance(Event::Text { body: "x".to_string() }),
        Step::Ignored { machine: Analysis::AwaitingResponse }
    );
    assert_eq!(
        Analysis::AwaitingErrorBody.advance(Event::Status { code: 200 }),
        Step::Ignored { machine: Analysis::AwaitingErrorBody }
    );
    assert_eq!(
        Analysis::AwaitingCompletion.advance(Event::Analysis { analysis: sunset() }),
        Step::Ignored { machine: Analysis::AwaitingCompletion }
    );
    assert_eq!(
        Analysis::AwaitingAnalysis.advance(Event::Completion { choices: vec!["{}".to_string()] }),
        Step::Ignored { machine: Analysis::AwaitingAnalysis }
    );
    assert_eq!(
        Analysis::AwaitingAnalysis.advance(Event::Media { id: 1, source_url: "u".to_string() }),
        Step::Ignored { machine: Analysis::AwaitingAnalysis }
    );
    assert_eq!(
        Analysis::AwaitingAnalysis.advance(Event::MediaId { found: Some(1) }),
        Step::Ignored { machine: Analysis::AwaitingAnalysis }
    );
}
