use exchange_rate_bot::json::parse;
use exchange_rate_bot::llm::generate::{chat_request, chat_url, GenerationResult};

fn failed(content: &str) -> GenerationResult {
    GenerationResult {
        content: content.to_string(),
        search_duration: 0,
        total_duration: 0,
        load_duration: 0,
        prompt_eval_duration: 0,
        eval_duration: 0,
    }
}

#[test]
fn an_error_takes_no_time() {
    assert_eq!(GenerationResult::error("it broke".to_string()), failed("it broke"));
    assert_eq!(GenerationResult::error(String::new()), failed(""));
}

#[test]
fn a_failure_names_its_step_and_its_reason() {
    assert_eq!(
        GenerationResult::failure("Failed to send request", "connection refused"),
        failed("Error generating response: Failed to send request (connection refused)")
    );
    assert_eq!(
        GenerationResult::failure("Failed to create a client", "tls"),
        failed("Error generating response: Failed to create a client (tls)")
    );
    assert_eq!(
        GenerationResult::failure("Failed to retrieve response text", "eof"),
        failed("Error generating response: Failed to retrieve response text (eof)")
    );
}

#[test]
fn the_chat_endpoint_hangs_off_the_base_address() {
    assert_eq!(chat_url("http://localhost:11434"), "http://localhost:11434/api/chat");
    assert_eq!(chat_url(""), "/api/chat");
}

#[test]
fn writes_a_request_with_all_four_messages() {
    let body = chat_request("llama3.1", "news", "dates", "system", "user");
    assert_eq!(
        body,
        "{\"messages\":[{\"content\":\"news\",\"role\":\"system\"},{\"content\":\"dates\",\"role\":\"system\"},{\"content\":\"system\",\"role\":\"system\"},{\"content\":\"user\",\"role\":\"user\"}],\"model\":\"llama3.1\",\"stream\":false}"
    );
}

#[test]
fn leaves_out_a_prompt_that_says_nothing() {
    assert_eq!(
        chat_request("m", "", "", "s", "u"),
        "{\"messages\":[{\"content\":\"s\",\"role\":\"system\"},{\"content\":\"u\",\"role\":\"user\"}],\"model\":\"m\",\"stream\":false}"
    );
    assert_eq!(
        chat_request("m", "", "d", "", ""),
        "{\"messages\":[{\"content\":\"d\",\"role\":\"system\"},{\"content\":\"\",\"role\":\"system\"},{\"content\":\"\",\"role\":\"user\"}],\"model\":\"m\",\"stream\":false}"
    );
}

#[test]
fn escapes_what_json_cannot_hold_as_it_is() {
    let body = chat_request("a\"b", "", "", "line\nbreak\ttab", "back\\slash \u{1} é \u{1F600}");
    assert_eq!(
        body,
        "{\"messages\":[{\"content\":\"line\\nbreak\\ttab\",\"role\":\"system\"},{\"content\":\"back\\\\slash \\u0001 é \u{1F600}\",\"role\":\"user\"}],\"model\":\"a\\\"b\",\"stream\":false}"
    );
}

#[test]
fn a_request_reads_back_as_what_was_put_in() {
    let user = "Today is 2024-01-03.\n- \"quoted\" {braces} \\ / \u{7f}";
    let body = chat_request("llama3.1", "\n", "", "sys", user);
    let document = parse(&body).unwrap();
    assert_eq!(document.get("model").and_then(|v| v.as_str()), Some("llama3.1"));
    assert_eq!(document.get("stream").and_then(|v| v.as_bool()), Some(false));
    let messages = document.get("messages").and_then(|v| v.as_array()).unwrap();
    assert_eq!(messages.len(), 3);
    assert_eq!(messages[0].get("role").and_then(|v| v.as_str()), Some("system"));
    assert_eq!(messages[0].get("content").and_then(|v| v.as_str()), Some("\n"));
    assert_eq!(messages[1].get("content").and_then(|v| v.as_str()), Some("sys"));
    assert_eq!(messages[2].get("role").and_then(|v| v.as_str()), Some("user"));
    assert_eq!(messages[2].get("content").and_then(|v| v.as_str()), Some(user));
}

#[test]
fn reads_the_answer_and_its_times() {
    let payload = "{\"model\":\"llama3.1\",\"message\":{\"role\":\"assistant\",\"content\":\"The rate rose.\"},\"done\":true,\"total_duration\":5191566416,\"load_duration\":2154458,\"prompt_eval_count\":26,\"prompt_eval_duration\":383809000,\"eval_count\":298,\"eval_duration\":4799921000}";
    assert_eq!(
        GenerationResult::from_response(payload, 1500000000),
        GenerationResult {
            content: "The rate rose.".to_string(),
            search_duration: 1500000000,
            total_duration: 5191566416,
            load_duration: 2154458,
            prompt_eval_duration: 383809000,
            eval_duration: 4799921000,
        }
    );
}

#[test]
fn times_that_are_missing_or_misshapen_count_as_zero() {
    let payload = "{\"message\":{\"content\":\"ok\"},\"total_duration\":-5,\"load_duration\":1.5,\"eval_duration\":\"7\"}";
    assert_eq!(
        GenerationResult::from_response(payload, 9),
        GenerationResult {
            content: "ok".to_string(),
            search_duration: 9,
            total_duration: 0,
            load_duration: 0,
            prompt_eval_duration: 0,
            eval_duration: 0,
        }
    );
}

#[test]
fn an_answer_without_content_is_reported_with_the_payload() {
    for payload in ["{}", "{\"message\":{}}", "{\"message\":\"text\"}", "{\"message\":{\"content\":5}}", "[1]", "{\"error\":\"model not found\"}"] {
        let result = GenerationResult::from_response(payload, 3);
        assert_eq!(
            result.content,
            format!("Error generating response: fail to find [message][content]\nRaw JSON:\n```{payload}```")
        );
        assert_eq!(result.search_duration, 3);
    }
}

#[test]
fn an_answer_without_content_keeps_its_times() {
    let result = GenerationResult::from_response("{\"total_duration\":12,\"eval_duration\":7}", 3);
    assert_eq!(result.total_duration, 12);
    assert_eq!(result.eval_duration, 7);
    assert_eq!(result.load_duration, 0);
}

#[test]
fn a_payload_that_is_no_json_is_reported() {
    assert_eq!(
        GenerationResult::from_response("<html>", 77),
        failed("Error generating response: Failed to parse JSON (expected value at line 1 column 1)")
    );
    assert_eq!(
        GenerationResult::from_response("", 77),
        failed("Error generating response: Failed to parse JSON (EOF while parsing a value at line 1 column 0)")
    );
}

#[test]
fn reads_a_document_that_is_already_parsed() {
    let document = parse("{\"message\":{\"content\":\"hi\"},\"load_duration\":4}").unwrap();
    let result = GenerationResult::from_document("ignored", &document, 1);
    assert_eq!(result.content, "hi");
    assert_eq!(result.load_duration, 4);
    assert_eq!(result.search_duration, 1);
    let empty = GenerationResult::from_document("the payload", &parse("null").unwrap(), 1);
    assert_eq!(empty.content, "Error generating response: fail to find [message][content]\nRaw JSON:\n```the payload```");
}
