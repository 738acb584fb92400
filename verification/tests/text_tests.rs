//! Tests for the text utilities and the catalog and error surfaces.

use passenger_rs::copilot::{
    to_openai_models_response, CopilotModel, CopilotModelLimit, CopilotModelModalities,
    CopilotModelsResponse,
};
use passenger_rs::ollama::ollama_chunk_line;
use passenger_rs::server::AppError;
use passenger_rs::text::usize_to_string;

#[test]
fn decimal_rendering_matches_the_usual_spelling() {
    assert_eq!(usize_to_string(0), "0");
    assert_eq!(usize_to_string(7), "7");
    assert_eq!(usize_to_string(42), "42");
    assert_eq!(usize_to_string(1234567890), "1234567890");
}

#[test]
fn ndjson_emitter_escapes_like_a_json_encoder() {
    let line = ollama_chunk_line("m\"x", "2024-01-01T00:00:00+00:00", "a\"b\\c\nd\te\u{1}");
    let value: serde_json::Value =
        serde_json::from_str(line.trim_end_matches('\n')).expect("emitted line must be JSON");
    assert_eq!(value["model"], "m\"x");
    assert_eq!(value["created_at"], "2024-01-01T00:00:00+00:00");
    assert_eq!(value["message"]["content"], "a\"b\\c\nd\te\u{1}");
    assert_eq!(value["done"], false);
}

#[test]
fn app_error_kinds_map_to_their_status_codes() {
    let unauthorized = AppError::Unauthorized("no auth".to_string());
    assert_eq!(unauthorized.status_code(), 401);
    assert_eq!(unauthorized.message(), "no auth");

    let server = AppError::InternalServerError("boom".to_string());
    assert_eq!(server.status_code(), 500);
    assert_eq!(server.message(), "boom");

    let bad = AppError::BadRequest("bad json".to_string());
    assert_eq!(bad.status_code(), 400);
    assert_eq!(bad.message(), "bad json");
}

#[test]
fn catalog_entries_map_to_openai_models() {
    let response = CopilotModelsResponse {
        models: vec![CopilotModel {
            id: "gpt-4".to_string(),
            name: "GPT 4".to_string(),
            family: "gpt-4".to_string(),
            tool_call: true,
            reasoning: false,
            attachment: false,
            open_weights: false,
            modalities: CopilotModelModalities {
                input: vec!["text".to_string()],
                output: vec!["text".to_string()],
            },
            limit: CopilotModelLimit {
                context: 128000,
                output: 16384,
            },
        }],
    };
    let openai = to_openai_models_response(response);
    assert_eq!(openai.data.len(), 1);
    assert_eq!(openai.data[0].id, "gpt-4");
    assert_eq!(openai.data[0].object, "model");
    assert_eq!(openai.data[0].created, 1687882411);
    assert_eq!(openai.data[0].owned_by, "gpt-4");
}
