//! Tests for the Responses-dialect streaming transcoder.

use passenger_rs::responses_stream::{
    event_type, translate_sse_line, ResponseStreamEvent, StreamAccumulator,
};

fn fresh_acc() -> StreamAccumulator {
    StreamAccumulator::new()
}

fn seeded_acc(id: &str, model: &str, text: &str) -> StreamAccumulator {
    let mut acc = StreamAccumulator::new();
    acc.response_id = id.to_string();
    acc.model = model.to_string();
    acc.accumulated_text = text.to_string();
    acc
}

#[test]
fn test_translate_empty_line_returns_no_events() {
    let mut acc = fresh_acc();
    let result = translate_sse_line("", 0, &mut acc);
    assert!(result.is_empty(), "empty line should produce no events");
}

#[test]
fn test_translate_whitespace_only_line_returns_no_events() {
    let mut acc = fresh_acc();
    let result = translate_sse_line("   ", 0, &mut acc);
    assert!(result.is_empty());
}

#[test]
fn test_translate_non_data_line_returns_no_events() {
    let mut acc = fresh_acc();
    // Lines that don't start with "data: " are silently skipped.
    let result = translate_sse_line("event: ping", 0, &mut acc);
    assert!(result.is_empty());
}

#[test]
fn test_translate_malformed_json_returns_no_events() {
    let mut acc = fresh_acc();
    let result = translate_sse_line("data: {bad json}", 0, &mut acc);
    assert!(result.is_empty());
}

#[test]
fn test_translate_first_chunk_emits_lifecycle_and_delta() {
    let payload = r#"{"id":"resp-1","model":"gpt-4o","choices":[{"delta":{"content":"Hello"},"finish_reason":null}]}"#;
    let line = format!("data: {}", payload);

    let mut acc = fresh_acc();
    let events = translate_sse_line(&line, 100, &mut acc);

    // First chunk: response.created, output_item.added, content_part.added, output_text.delta
    assert_eq!(events.len(), 4, "first chunk must emit 4 events");
    assert_eq!(acc.response_id, "resp-1");
    assert_eq!(acc.model, "gpt-4o");
    assert_eq!(acc.accumulated_text, "Hello");

    let expected_names: &[&str] = &[
        "response.created",
        "response.output_item.added",
        "response.content_part.added",
        "response.output_text.delta",
    ];
    for (i, expected) in expected_names.iter().enumerate() {
        assert_eq!(
            event_type(&events[i]),
            *expected,
            "event[{}] should be {}",
            i,
            expected
        );
    }
}

#[test]
fn test_translate_subsequent_chunk_emits_only_delta() {
    let payload = r#"{"id":"resp-1","model":"gpt-4o","choices":[{"delta":{"content":" world"},"finish_reason":null}]}"#;
    let line = format!("data: {}", payload);

    // Pre-seed state as if the first chunk already ran.
    let mut acc = seeded_acc("resp-1", "gpt-4o", "Hello");
    let events = translate_sse_line(&line, 100, &mut acc);

    assert_eq!(events.len(), 1, "subsequent chunk must emit only a delta event");
    assert_eq!(event_type(&events[0]), "response.output_text.delta", "must be a delta event");
    assert_eq!(acc.accumulated_text, "Hello world");
}

#[test]
fn test_translate_chunk_with_empty_content_emits_no_delta() {
    let payload = r#"{"id":"resp-1","model":"gpt-4o","choices":[{"delta":{"content":""},"finish_reason":null}]}"#;
    let line = format!("data: {}", payload);

    // Pre-seed as if the first chunk ran.
    let mut acc = seeded_acc("resp-1", "gpt-4o", "");
    let events = translate_sse_line(&line, 100, &mut acc);
    assert!(events.is_empty(), "empty delta must not emit any event");
}

#[test]
fn test_translate_done_emits_four_terminal_events() {
    let mut acc = seeded_acc("resp-1", "gpt-4o", "Hello world");
    let events = translate_sse_line("data: [DONE]", 100, &mut acc);

    assert_eq!(events.len(), 4, "[DONE] must emit 4 terminal events");

    let expected_names = [
        "response.output_text.done",
        "response.content_part.done",
        "response.output_item.done",
        "response.completed",
    ];
    for (i, name) in expected_names.iter().enumerate() {
        assert_eq!(event_type(&events[i]), *name, "event[{}] should be {}", i, name);
    }
}

#[test]
fn responses_two_deltas_then_done_emit_nine_events() {
    // The full scenario: deltas "Hello" and " world", then the sentinel,
    // produce exactly 9 events in lifecycle order, with the terminal events
    // all carrying the accumulated text.
    let chunk1 = r#"{"id":"r1","model":"gpt-4o","choices":[{"delta":{"content":"Hello"},"finish_reason":null}]}"#;
    let chunk2 = r#"{"id":"r1","model":"gpt-4o","choices":[{"delta":{"content":" world"},"finish_reason":null}]}"#;

    let mut acc = fresh_acc();
    let mut events = Vec::new();
    events.extend(translate_sse_line(&format!("data: {}", chunk1), 100, &mut acc));
    events.extend(translate_sse_line(&format!("data: {}", chunk2), 100, &mut acc));
    events.extend(translate_sse_line("data: [DONE]", 100, &mut acc));

    let expected = [
        "response.created",
        "response.output_item.added",
        "response.content_part.added",
        "response.output_text.delta",
        "response.output_text.delta",
        "response.output_text.done",
        "response.content_part.done",
        "response.output_item.done",
        "response.completed",
    ];
    assert_eq!(events.len(), 9, "two deltas and the sentinel must emit 9 events");
    for (i, name) in expected.iter().enumerate() {
        assert_eq!(event_type(&events[i]), *name, "event[{}] should be {}", i, name);
    }

    match &events[3] {
        ResponseStreamEvent::ResponseOutputTextDelta { delta, item_id, .. } => {
            assert_eq!(delta, "Hello");
            assert_eq!(item_id, "r1");
        }
        other => panic!("expected delta event, got {:?}", other),
    }
    match &events[4] {
        ResponseStreamEvent::ResponseOutputTextDelta { delta, .. } => {
            assert_eq!(delta, " world");
        }
        other => panic!("expected delta event, got {:?}", other),
    }
    match &events[5] {
        ResponseStreamEvent::ResponseOutputTextDone { text, .. } => {
            assert_eq!(text, "Hello world");
        }
        other => panic!("expected text-done event, got {:?}", other),
    }
    match &events[7] {
        ResponseStreamEvent::ResponseOutputItemDone { item, .. } => {
            assert_eq!(item.content.len(), 1);
            match &item.content[0] {
                passenger_rs::responses::AssistantContent::OutputText(t) => {
                    assert_eq!(t.text, "Hello world")
                }
                other => panic!("expected output text, got {:?}", other),
            }
        }
        other => panic!("expected item-done event, got {:?}", other),
    }
    match &events[8] {
        ResponseStreamEvent::ResponseCompleted { response } => {
            assert_eq!(response.model, "gpt-4o");
            assert_eq!(response.id, "r1");
            assert_eq!(response.created_at, 100);
            assert_eq!(response.output.len(), 1);
        }
        other => panic!("expected completed event, got {:?}", other),
    }
}

#[test]
fn responses_non_data_line_leaves_state_untouched() {
    let mut acc = seeded_acc("r9", "m", "abc");
    let events = translate_sse_line("not an sse line", 5, &mut acc);
    assert!(events.is_empty());
    assert_eq!(acc.response_id, "r9");
    assert_eq!(acc.model, "m");
    assert_eq!(acc.accumulated_text, "abc");
}
