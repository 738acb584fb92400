//! Tests for the Responses-dialect conversions.

use passenger_rs::copilot::{
    CopilotChatRequest, CopilotChatResponse, CopilotChoice, CopilotMessage, CopilotUsage,
};
use passenger_rs::openai::{FunctionCall, ToolCall};
use passenger_rs::responses::{
    AssistantContent, Content, Message, Output, OutputRole, PromptRequest, ResponseStatus, Tool,
    ToolParameters,
};

fn user_item(texts: &[&str]) -> Message {
    Message {
        role: Some("user".to_string()),
        message_type: "message".to_string(),
        content: Some(
            texts
                .iter()
                .map(|t| Content::InputText {
                    text: t.to_string(),
                })
                .collect(),
        ),
        name: None,
        arguments: None,
        output: None,
    }
}

fn call_item(name: &str, arguments: &str) -> Message {
    Message {
        role: None,
        message_type: "function_call".to_string(),
        content: None,
        name: Some(name.to_string()),
        arguments: Some(arguments.to_string()),
        output: None,
    }
}

fn output_item(output: &str) -> Message {
    Message {
        role: None,
        message_type: "function_call_output".to_string(),
        content: None,
        name: None,
        arguments: None,
        output: Some(output.to_string()),
    }
}

fn schema_tool(name: &str, description: &str) -> Tool {
    Tool {
        name: name.to_string(),
        parameters: ToolParameters {
            properties: "{}".to_string(),
            param_type: "object".to_string(),
            additional_properties: false,
            required: vec![],
        },
        strict: true,
        tool_type: "function".to_string(),
        description: description.to_string(),
    }
}

#[test]
fn test_prompt_request_to_copilot_chat_request() {
    let instructions = "Return a comma-separated list of ticker symbols for the given companies.";
    let request = PromptRequest {
        input: vec![user_item(&[
            "Extract the ticker symbols from my portfolio.",
        ])],
        model: "sonnet-4-5".to_string(),
        instructions: Some(instructions.to_string()),
        max_output_tokens: Some(2000),
        tools: vec![
            schema_tool("get_portfolio_tickers", "Lists the portfolio's tickers"),
            schema_tool("get_portfolio", "Reads the portfolio"),
        ],
        stream: false,
    };

    let copilot_request: CopilotChatRequest = request.to_copilot_request();

    // Check model field
    assert_eq!(copilot_request.model, "sonnet-4-5");

    // Check system instructions message
    assert_eq!(copilot_request.messages[0].role, "system");
    assert!(copilot_request.messages[0]
        .content
        .as_ref()
        .unwrap()
        .contains("Return a comma-separated list of ticker symbols"));

    // Check user message
    assert_eq!(copilot_request.messages[1].role, "user");
    assert!(copilot_request.messages[1]
        .content
        .as_ref()
        .unwrap()
        .starts_with("Extract the ticker symbols"));

    // Check max_tokens
    assert_eq!(copilot_request.max_tokens, Some(2000));

    // Check tools conversion
    assert!(copilot_request.tools.is_some());
    assert_eq!(copilot_request.tools.as_ref().unwrap().len(), 2);
    assert_eq!(
        copilot_request.tools.as_ref().unwrap()[0].function.name,
        "get_portfolio_tickers"
    );
    assert_eq!(
        copilot_request.tools.as_ref().unwrap()[1].function.name,
        "get_portfolio"
    );
}

#[test]
fn prompt_request_blocks_flatten_to_newline_joined_text() {
    let request = PromptRequest {
        input: vec![user_item(&["first", "second"])],
        model: "m".to_string(),
        instructions: None,
        max_output_tokens: None,
        tools: vec![],
        stream: false,
    };
    let copilot = request.to_copilot_request();
    assert_eq!(copilot.messages.len(), 2);
    assert_eq!(copilot.messages[0].role, "system");
    assert_eq!(copilot.messages[0].content, None);
    assert_eq!(
        copilot.messages[1].content,
        Some("first\nsecond".to_string())
    );
    assert!(copilot.tools.is_none());
    assert_eq!(copilot.stream, Some(false));
}

#[test]
fn prompt_request_folds_calls_and_outputs_positionally() {
    let request = PromptRequest {
        input: vec![
            user_item(&["hi"]),
            call_item("get_weather", "{\"city\":\"SF\"}"),
            call_item("get_stock", "{}"),
            output_item("sunny"),
            output_item("up"),
        ],
        model: "m".to_string(),
        instructions: Some("sys".to_string()),
        max_output_tokens: None,
        tools: vec![],
        stream: false,
    };
    let copilot = request.to_copilot_request();

    // system, user, assistant with two calls, two tool results
    assert_eq!(copilot.messages.len(), 5);
    let assistant = &copilot.messages[2];
    assert_eq!(assistant.role, "assistant");
    let calls = assistant.tool_calls.as_ref().unwrap();
    assert_eq!(calls.len(), 2);
    assert_eq!(calls[0].id, Some("0".to_string()));
    assert_eq!(calls[0].function.name, "get_weather");
    assert_eq!(calls[1].id, Some("1".to_string()));
    assert_eq!(calls[1].function.name, "get_stock");

    let first_result = &copilot.messages[3];
    assert_eq!(first_result.role, "tool");
    assert_eq!(first_result.content, Some("sunny".to_string()));
    assert_eq!(first_result.tool_call_id, Some("0".to_string()));
    assert_eq!(first_result.name, Some("get_weather".to_string()));

    let second_result = &copilot.messages[4];
    assert_eq!(second_result.tool_call_id, Some("1".to_string()));
    assert_eq!(second_result.name, Some("get_stock".to_string()));
}

#[test]
fn prompt_request_schema_renders_as_canonical_json() {
    let request = PromptRequest {
        input: vec![],
        model: "m".to_string(),
        instructions: None,
        max_output_tokens: None,
        tools: vec![Tool {
            name: "t".to_string(),
            parameters: ToolParameters {
                properties: "{\"city\":{\"type\":\"string\"}}".to_string(),
                param_type: "object".to_string(),
                additional_properties: false,
                required: vec!["city".to_string()],
            },
            strict: true,
            tool_type: "function".to_string(),
            description: "d".to_string(),
        }],
        stream: false,
    };
    let copilot = request.to_copilot_request();
    let tools = copilot.tools.unwrap();
    let rendered = &tools[0].function.parameters;
    let value: serde_json::Value = serde_json::from_str(rendered).expect("valid JSON schema");
    assert_eq!(value["type"], "object");
    assert_eq!(value["properties"]["city"]["type"], "string");
    assert_eq!(value["required"][0], "city");
    assert_eq!(value["additionalProperties"], false);
    assert_eq!(tools[0].function.description, Some("d".to_string()));
}

#[test]
fn completion_response_maps_text_choice_to_message_item() {
    let copilot_response = CopilotChatResponse {
        id: "copilot-id-1".to_string(),
        created: Some(1700000000),
        model: "gpt-4o".to_string(),
        choices: vec![CopilotChoice {
            index: Some(0),
            message: CopilotMessage {
                role: "assistant".to_string(),
                content: Some("Hi there!".to_string()),
                padding: None,
                tool_calls: None,
                tool_call_id: None,
                name: None,
            },
            finish_reason: "stop".to_string(),
        }],
        usage: Some(CopilotUsage {
            prompt_tokens: 5,
            completion_tokens: 3,
            total_tokens: 8,
        }),
    };

    let parsed = copilot_response.to_completion_response();

    assert_eq!(parsed.status, ResponseStatus::Completed);
    assert_eq!(parsed.model, "gpt-4o");
    assert_eq!(parsed.created_at, 1700000000);
    assert!(!parsed.output.is_empty(), "output must contain a message");

    if let Output::Message(msg) = &parsed.output[0] {
        assert_eq!(msg.status, ResponseStatus::Completed);
        assert_eq!(msg.role, OutputRole::Assistant);
        assert_eq!(msg.id, "copilot-id-1-0");
        assert!(!msg.content.is_empty(), "message content must not be empty");
        if let AssistantContent::OutputText(text) = &msg.content[0] {
            assert_eq!(text.text, "Hi there!");
        } else {
            panic!("expected OutputText content");
        }
    } else {
        panic!("expected Output::Message");
    }

    let usage = parsed.usage.unwrap();
    assert_eq!(usage.input_tokens, 5);
    assert_eq!(usage.output_tokens, 3);
    assert_eq!(usage.total_tokens, 8);
}

#[test]
fn completion_response_without_content_is_a_refusal() {
    let copilot_response = CopilotChatResponse {
        id: "x".to_string(),
        created: None,
        model: "m".to_string(),
        choices: vec![CopilotChoice {
            index: None,
            message: CopilotMessage {
                role: "assistant".to_string(),
                content: None,
                padding: None,
                tool_calls: None,
                tool_call_id: None,
                name: None,
            },
            finish_reason: "stop".to_string(),
        }],
        usage: None,
    };
    let parsed = copilot_response.to_completion_response();
    assert_eq!(parsed.created_at, 0, "a missing timestamp becomes zero here");
    if let Output::Message(msg) = &parsed.output[0] {
        match &msg.content[0] {
            AssistantContent::Refusal { refusal } => assert_eq!(refusal, "No content"),
            other => panic!("expected a refusal placeholder, got {:?}", other),
        }
    } else {
        panic!("expected Output::Message");
    }
}

#[test]
fn completion_response_maps_first_tool_call_only() {
    let copilot_response = CopilotChatResponse {
        id: "x".to_string(),
        created: Some(1),
        model: "m".to_string(),
        choices: vec![CopilotChoice {
            index: None,
            message: CopilotMessage {
                role: "assistant".to_string(),
                content: None,
                padding: None,
                tool_calls: Some(vec![
                    ToolCall {
                        id: Some("call_1".to_string()),
                        tool_type: "function".to_string(),
                        function: FunctionCall {
                            name: "get_weather".to_string(),
                            arguments: "{\"city\":\"SF\"}".to_string(),
                        },
                    },
                    ToolCall {
                        id: Some("call_2".to_string()),
                        tool_type: "function".to_string(),
                        function: FunctionCall {
                            name: "get_stock".to_string(),
                            arguments: "{}".to_string(),
                        },
                    },
                ]),
                tool_call_id: Some("call_1".to_string()),
                name: None,
            },
            finish_reason: "tool_calls".to_string(),
        }],
        usage: None,
    };
    let parsed = copilot_response.to_completion_response();
    assert_eq!(parsed.output.len(), 1);
    match &parsed.output[0] {
        Output::FunctionCall(f) => {
            assert_eq!(f.id, "call_1");
            assert_eq!(f.name, "get_weather");
            assert_eq!(f.arguments, "{\"city\":\"SF\"}");
            assert_eq!(f.call_id, "call_1");
        }
        other => panic!("expected a function-call item, got {:?}", other),
    }
    // every tool call of every choice is echoed as a tool definition
    assert_eq!(parsed.tools.len(), 2);
    assert_eq!(parsed.tools[0].name, "get_weather");
    assert_eq!(parsed.tools[1].name, "get_stock");
    assert!(parsed.tools[0].strict);
}
