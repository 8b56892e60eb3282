use translate_client::{
    Google, GoogleRequestBody, GoogleResponseBody, GoogleResponseTranslation, Invocation,
    InvocationError, Lang, ProviderOutcome, TranslateError,
};

fn args(items: &[&str]) -> Vec<String> {
    items.iter().map(|s| s.to_string()).collect()
}

fn reply(texts: &[&str]) -> GoogleResponseBody {
    GoogleResponseBody {
        translations: texts
            .iter()
            .map(|t| GoogleResponseTranslation { translated_text: t.to_string() })
            .collect(),
    }
}

#[test]
fn parse_then_wire_code() {
    assert_eq!(Lang::parse("jp").unwrap(), Lang::JP);
    assert_eq!(Lang::parse("en").unwrap(), Lang::EN);
    assert_eq!(Lang::parse("jp").unwrap().wire_code(), "ja");
    assert_eq!(Lang::parse("en").unwrap().wire_code(), "en");
}

#[test]
fn parse_rejects_unknown_tokens() {
    for token in ["ja", "JP", "En", "", "fr", "jp ", "english"] {
        let err = Lang::parse(token).unwrap_err();
        assert_eq!(err.token(), token);
    }
}

#[test]
fn other_language_swaps() {
    assert_eq!(Lang::EN.other(), Lang::JP);
    assert_eq!(Lang::JP.other(), Lang::EN);
}

#[test]
fn language_text_matches_wire_code() {
    assert_eq!(GoogleRequestBody::language_text(&Lang::JP), "ja");
    assert_eq!(GoogleRequestBody::language_text(&Lang::EN), "en");
}

#[test]
fn two_operands_infer_source() {
    let inv = Invocation::parse(&args(&["text", "en"])).unwrap();
    assert_eq!(inv.from, Lang::JP);
    assert_eq!(inv.to, Lang::EN);
    let inv = Invocation::parse(&args(&["text", "jp"])).unwrap();
    assert_eq!(inv.from, Lang::EN);
    assert_eq!(inv.to, Lang::JP);
    assert_eq!(inv.text, "text");
}

#[test]
fn wrong_operand_counts() {
    for n in [0usize, 1, 4, 5] {
        let operands: Vec<String> = (0..n).map(|_| "en".to_string()).collect();
        assert_eq!(Invocation::parse(&operands), Err(InvocationError::WrongArgumentCount(n)));
    }
}

#[test]
fn unsupported_target_reported_before_source() {
    match Invocation::parse(&args(&["x", "de", "fr"])) {
        Err(InvocationError::UnsupportedLanguage(e)) => assert_eq!(e.token(), "de"),
        other => panic!("unexpected {:?}", other),
    }
    match Invocation::parse(&args(&["x", "en", "fr"])) {
        Err(InvocationError::UnsupportedLanguage(e)) => assert_eq!(e.token(), "fr"),
        other => panic!("unexpected {:?}", other),
    }
    match Invocation::parse(&args(&["x", "ja"])) {
        Err(InvocationError::UnsupportedLanguage(e)) => assert_eq!(e.token(), "ja"),
        other => panic!("unexpected {:?}", other),
    }
}

#[test]
fn request_body_carries_text_and_codes() {
    let body = GoogleRequestBody::new("  spaced  ", &Lang::EN, &Lang::JP);
    assert_eq!(body.contents, vec!["  spaced  ".to_string()]);
    assert_eq!(body.source_language_code, "en");
    assert_eq!(body.target_language_code, "ja");
}

#[test]
fn degenerate_requests_pass_through() {
    let body = GoogleRequestBody::new("", &Lang::JP, &Lang::JP);
    assert_eq!(body.contents, vec![String::new()]);
    assert_eq!(body.source_language_code, "ja");
    assert_eq!(body.target_language_code, "ja");
}

#[test]
fn url_and_authorization() {
    let google = Google::new("my-proj".to_string(), "tok123".to_string());
    assert_eq!(
        google.translate_text_url(),
        "https://translate.googleapis.com/v3beta1/projects/my-proj:translateText"
    );
    assert_eq!(google.authorization(), "Bearer tok123");
    let request = google.translate_request("hi", &Lang::EN, &Lang::JP);
    assert_eq!(request.url, google.translate_text_url());
    assert_eq!(request.authorization, "Bearer tok123");
    assert_eq!(request.body, GoogleRequestBody::new("hi", &Lang::EN, &Lang::JP));
}

#[test]
fn first_translation_is_returned() {
    assert_eq!(reply(&["first", "second", "third"]).text(), Ok("first".to_string()));
    assert_eq!(reply(&["only"]).text(), Ok("only".to_string()));
    let result = Google::translation_result(ProviderOutcome::Decoded(reply(&["a", "b"])));
    assert_eq!(result, Ok("a".to_string()));
}

#[test]
fn empty_reply_is_an_error() {
    let err = reply(&[]).text().unwrap_err();
    assert_eq!(err.message(), "empty translation result");
    let result = Google::translation_result(ProviderOutcome::Decoded(reply(&[])));
    assert_eq!(result, Err(TranslateError::new("empty translation result".to_string())));
}

#[test]
fn transport_failure_is_an_error() {
    let result =
        Google::translation_result(ProviderOutcome::TransportFailed("connection refused".to_string()));
    let err = result.unwrap_err();
    assert_eq!(err.message(), "transport error: connection refused");
    let result = Google::translation_result(ProviderOutcome::TransportFailed(String::new()));
    assert!(!result.unwrap_err().message().is_empty());
}

#[test]
fn rejected_and_malformed_are_errors() {
    let err = Google::translation_result(ProviderOutcome::Rejected("403 Forbidden".to_string()))
        .unwrap_err();
    assert_eq!(err.message(), "provider rejected the request: 403 Forbidden");
    let err = Google::translation_result(ProviderOutcome::Malformed("missing field".to_string()))
        .unwrap_err();
    assert_eq!(err.message(), "malformed response: missing field");
}

#[test]
fn error_carries_message() {
    assert_eq!(TranslateError::new("boom".to_string()).message(), "boom");
    assert_eq!(TranslateError::with_detail("a: ", "b").message(), "a: b");
}

#[test]
fn inferred_japanese_source_end_to_end() {
    let inv = Invocation::parse(&args(&["こんにちは", "en"])).unwrap();
    let google = Google::new("p".to_string(), "t".to_string());
    let request = google.translate_request(inv.text.as_str(), &inv.from, &inv.to);
    assert_eq!(request.body.contents, vec!["こんにちは".to_string()]);
    assert_eq!(request.body.source_language_code, "ja");
    assert_eq!(request.body.target_language_code, "en");
    let result = Google::translation_result(ProviderOutcome::Decoded(reply(&["Hello"])));
    assert_eq!(result, Ok("Hello".to_string()));
}

#[test]
fn explicit_source_end_to_end() {
    let inv = Invocation::parse(&args(&["Hello", "jp", "en"])).unwrap();
    assert_eq!(inv.text, "Hello");
    let google = Google::new("p".to_string(), "t".to_string());
    let request = google.translate_request(inv.text.as_str(), &inv.from, &inv.to);
    assert_eq!(request.body.source_language_code, "en");
    assert_eq!(request.body.target_language_code, "ja");
}
