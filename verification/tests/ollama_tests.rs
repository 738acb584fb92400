//! Tests for the Ollama transcoder, the non-streaming transform and the
//! catalog mapping.

use passenger_rs::copilot::{
    CopilotChatRequest, CopilotChatResponse, CopilotChoice, CopilotMessage, CopilotUsage,
};
use passenger_rs::ollama::{
    to_ollama_tags, transform_to_ollama_response, translate_sse_line, SseLineOutput,
};
use passenger_rs::copilot::{CopilotModel, CopilotModelLimit, CopilotModelModalities};
use passenger_rs::openai::{FunctionCall, FunctionDefinition, Tool, ToolCall};

fn parse_line_value(line: &str) -> serde_json::Value {
    serde_json::from_str(line.trim_end_matches('\n')).expect("valid JSON")
}

fn parse_line(model: &str, line: &str) -> serde_json::Value {
    match translate_sse_line(model, line) {
        SseLineOutput::Line(s) => parse_line_value(&s),
        other => panic!("expected SseLineOutput::Line, got {:?}", other),
    }
}

#[test]
fn test_sse_done_emits_terminal_object() {
    let result = translate_sse_line("my-model", "data: [DONE]");
    let SseLineOutput::Line(json) = result else {
        panic!("expected Line");
    };
    assert!(json.ends_with('\n'), "output must be newline-terminated");

    let obj = parse_line_value(&json);
    assert_eq!(obj["model"], "my-model");
    assert_eq!(obj["done"], true, "done must be true for [DONE]");
    assert_eq!(obj["done_reason"], "stop");
    assert_eq!(obj["message"]["content"], "");
    assert_eq!(obj["message"]["role"], "assistant");
}

#[test]
fn test_sse_content_chunk_emits_intermediate_object() {
    let payload = r#"{"id":"x","object":"chat.completion.chunk","created":1,"model":"m","choices":[{"index":0,"delta":{"role":"assistant","content":"Hello"},"finish_reason":null}]}"#;
    let line = format!("data: {}", payload);

    let obj = parse_line("llama3", &line);
    assert_eq!(obj["model"], "llama3");
    assert_eq!(obj["done"], false, "done must be false for a content chunk");
    assert!(obj.get("done_reason").is_none());
    assert_eq!(obj["message"]["content"], "Hello");
    assert_eq!(obj["message"]["role"], "assistant");
}

#[test]
fn test_sse_chunk_with_null_content_defaults_to_empty_string() {
    // First chunk from the upstream often only carries `role`, with content null
    let payload = r#"{"id":"x","object":"chat.completion.chunk","created":1,"model":"m","choices":[{"index":0,"delta":{"role":"assistant"},"finish_reason":null}]}"#;
    let line = format!("data: {}", payload);

    let obj = parse_line("m", &line);
    assert_eq!(obj["done"], false);
    assert_eq!(
        obj["message"]["content"], "",
        "null content should default to empty string"
    );
}

#[test]
fn test_sse_chunk_with_empty_choices_defaults_to_empty_string() {
    let payload = r#"{"id":"x","object":"chat.completion.chunk","created":1,"model":"m","choices":[]}"#;
    let line = format!("data: {}", payload);

    let obj = parse_line("m", &line);
    assert_eq!(obj["done"], false);
    assert_eq!(obj["message"]["content"], "");
}

#[test]
fn test_sse_output_is_newline_terminated() {
    let payload = r#"{"id":"x","object":"chat.completion.chunk","created":1,"model":"m","choices":[{"index":0,"delta":{"content":"Hi"},"finish_reason":null}]}"#;
    let line = format!("data: {}", payload);

    let SseLineOutput::Line(s) = translate_sse_line("model", &line) else {
        panic!("expected Line");
    };
    assert!(s.ends_with('\n'));
}

#[test]
fn server_ollama_chat_test_sse_empty_line_is_skipped() {
    assert_eq!(translate_sse_line("m", ""), SseLineOutput::Skip);
    assert_eq!(translate_sse_line("m", "   "), SseLineOutput::Skip);
    assert_eq!(translate_sse_line("m", "\t"), SseLineOutput::Skip);
}

#[test]
fn server_ollama_chat_test_sse_non_data_line_is_unexpected() {
    match translate_sse_line("m", "event: ping") {
        SseLineOutput::Unexpected(_) => {}
        other => panic!("expected Unexpected, got {:?}", other),
    }
}

#[test]
fn test_sse_malformed_json_is_unexpected() {
    match translate_sse_line("m", "data: {not valid json}") {
        SseLineOutput::Unexpected(_) => {}
        other => panic!("expected Unexpected, got {:?}", other),
    }
}

#[test]
fn test_sse_model_name_is_propagated() {
    let payload = r#"{"id":"x","object":"chat.completion.chunk","created":1,"model":"ignored","choices":[{"index":0,"delta":{"content":"x"},"finish_reason":null}]}"#;
    let line = format!("data: {}", payload);
    let obj = parse_line("llama3", &line);
    // model comes from the argument, not from the upstream payload
    assert_eq!(obj["model"], "llama3");
}

#[test]
fn ollama_two_deltas_then_done_make_three_ndjson_lines() {
    // The full scenario: deltas "Hello" and " world", then the sentinel,
    // produce exactly 3 NDJSON lines: two intermediate and one terminal.
    let chunk1 = r#"{"id":"x","model":"m","choices":[{"delta":{"content":"Hello"},"finish_reason":null}]}"#;
    let chunk2 = r#"{"id":"x","model":"m","choices":[{"delta":{"content":" world"},"finish_reason":null}]}"#;
    let lines = [
        format!("data: {}", chunk1),
        format!("data: {}", chunk2),
        "data: [DONE]".to_string(),
    ];

    let mut out = Vec::new();
    for line in lines.iter() {
        match translate_sse_line("llama3", line) {
            SseLineOutput::Line(s) => out.push(s),
            other => panic!("expected Line, got {:?}", other),
        }
    }
    assert_eq!(out.len(), 3, "exactly one NDJSON line per input line");

    let first = parse_line_value(&out[0]);
    assert_eq!(first["done"], false);
    assert_eq!(first["message"]["content"], "Hello");

    let second = parse_line_value(&out[1]);
    assert_eq!(second["done"], false);
    assert_eq!(second["message"]["content"], " world");

    let last = parse_line_value(&out[2]);
    assert_eq!(last["done"], true);
    assert_eq!(last["done_reason"], "stop");
}

#[test]
fn ollama_content_is_json_escaped() {
    let payload = r#"{"id":"x","model":"m","choices":[{"delta":{"content":"a\"b\\c\nd"},"finish_reason":null}]}"#;
    let line = format!("data: {}", payload);
    let obj = parse_line("m", &line);
    assert_eq!(obj["message"]["content"], "a\"b\\c\nd");
}

fn sample_request(tools: Option<Vec<Tool>>) -> CopilotChatRequest {
    CopilotChatRequest {
        messages: vec![CopilotMessage {
            role: "tool".to_string(),
            content: None,
            padding: None,
            tool_calls: None,
            tool_call_id: None,
            name: None,
        }],
        model: "gpt-4".to_string(),
        temperature: None,
        max_tokens: None,
        stream: None,
        tools,
        tool_choice: None,
    }
}

#[test]
fn test_transform_to_ollama_response() {
    let copilot_request = sample_request(Some(vec![Tool {
        tool_type: "function".to_string(),
        function: FunctionDefinition {
            name: "function_name".to_string(),
            description: Some("Description".to_string()),
            parameters: "{}".to_string(),
        },
    }]));

    let copilot_response = CopilotChatResponse {
        id: "test-id".to_string(),
        created: Some(1699334516),
        model: "gpt-4".to_string(),
        choices: vec![CopilotChoice {
            index: Some(0),
            message: CopilotMessage {
                role: "assistant".to_string(),
                content: Some("Hello, World!".to_string()),
                padding: None,
                tool_calls: None,
                tool_call_id: None,
                name: None,
            },
            finish_reason: "stop".to_string(),
        }],
        usage: Some(CopilotUsage {
            prompt_tokens: 10,
            completion_tokens: 5,
            total_tokens: 15,
        }),
    };

    let result = transform_to_ollama_response(&copilot_request, copilot_response);
    assert!(result.is_ok(), "Failed to transform: {:?}", result.err());

    let ollama = result.unwrap();
    assert_eq!(ollama.model, "gpt-4");
    assert_eq!(ollama.message.role, "assistant");
    assert_eq!(ollama.message.content, "Hello, World!");
    assert!(ollama.done);
    assert_eq!(ollama.done_reason, Some("stop".to_string()));
    assert_eq!(ollama.prompt_eval_count, Some(10));
    assert_eq!(ollama.eval_count, Some(5));
    // the explicit timestamp renders as RFC 3339 in UTC
    assert_eq!(ollama.created_at, "2023-11-07T05:21:56+00:00");
}

#[test]
fn test_transform_without_usage() {
    let copilot_request = sample_request(Some(vec![Tool {
        tool_type: "function".to_string(),
        function: FunctionDefinition {
            name: "function_name".to_string(),
            description: Some("Description".to_string()),
            parameters: "{}".to_string(),
        },
    }]));

    let copilot_response = CopilotChatResponse {
        id: "test-id".to_string(),
        created: None,
        model: "gpt-4".to_string(),
        choices: vec![CopilotChoice {
            index: Some(0),
            message: CopilotMessage {
                role: "assistant".to_string(),
                content: Some("Test".to_string()),
                padding: None,
                tool_calls: None,
                tool_call_id: None,
                name: None,
            },
            finish_reason: "length".to_string(),
        }],
        usage: None,
    };

    let result = transform_to_ollama_response(&copilot_request, copilot_response);
    assert!(result.is_ok());

    let ollama = result.unwrap();
    assert_eq!(ollama.done_reason, Some("length".to_string()));
    assert_eq!(ollama.prompt_eval_count, None);
    assert_eq!(ollama.eval_count, None);
}

#[test]
fn transform_without_choices_is_an_error() {
    let copilot_request = sample_request(None);
    let copilot_response = CopilotChatResponse {
        id: "x".to_string(),
        created: None,
        model: "m".to_string(),
        choices: vec![],
        usage: None,
    };
    let result = transform_to_ollama_response(&copilot_request, copilot_response);
    match result {
        Err(passenger_rs::server::AppError::InternalServerError(m)) => {
            assert_eq!(m, "No choices in Copilot response")
        }
        other => panic!("expected InternalServerError, got {:?}", other),
    }
}

#[test]
fn transform_looks_up_tool_descriptions_by_name() {
    let copilot_request = sample_request(Some(vec![
        Tool {
            tool_type: "function".to_string(),
            function: FunctionDefinition {
                name: "other".to_string(),
                description: Some("not this one".to_string()),
                parameters: "{}".to_string(),
            },
        },
        Tool {
            tool_type: "function".to_string(),
            function: FunctionDefinition {
                name: "get_weather".to_string(),
                description: Some("Reads the weather".to_string()),
                parameters: "{}".to_string(),
            },
        },
    ]));

    let copilot_response = CopilotChatResponse {
        id: "x".to_string(),
        created: Some(0),
        model: "m".to_string(),
        choices: vec![CopilotChoice {
            index: None,
            message: CopilotMessage {
                role: "assistant".to_string(),
                content: None,
                padding: None,
                tool_calls: Some(vec![ToolCall {
                    id: None,
                    tool_type: "function".to_string(),
                    function: FunctionCall {
                        name: "get_weather".to_string(),
                        arguments: "{}".to_string(),
                    },
                }]),
                tool_call_id: None,
                name: None,
            },
            finish_reason: "tool_calls".to_string(),
        }],
        usage: None,
    };

    let ollama = transform_to_ollama_response(&copilot_request, copilot_response).unwrap();
    let calls = ollama.message.tool_calls.expect("tool calls mapped");
    assert_eq!(calls.len(), 1);
    // missing id is backfilled positionally
    assert_eq!(calls[0].id, "0");
    assert_eq!(calls[0].function.name, "get_weather");
    assert_eq!(
        calls[0].function.description,
        Some("Reads the weather".to_string())
    );
}

#[test]
fn ollama_tags_map_catalog_entries() {
    let models = vec![CopilotModel {
        id: "gpt-4".to_string(),
        name: "GPT 4".to_string(),
        family: "gpt-4".to_string(),
        tool_call: true,
        reasoning: false,
        attachment: false,
        open_weights: false,
        modalities: CopilotModelModalities {
            input: vec!["text".to_string()],
            output: vec!["text".to_string()],
        },
        limit: CopilotModelLimit {
            context: 128000,
            output: 16384,
        },
    }];
    let tags = to_ollama_tags(models);
    assert_eq!(tags.models.len(), 1);
    let m = &tags.models[0];
    assert_eq!(m.name, "gpt-4");
    assert_eq!(m.model, "gpt-4");
    assert_eq!(m.modified_at, "1970-01-01T00:00:00Z");
    assert_eq!(m.size, 0);
    assert_eq!(m.details.format, "api");
    assert_eq!(m.details.family, "gpt-4");
    assert_eq!(m.details.families, vec!["gpt-4".to_string()]);
}
