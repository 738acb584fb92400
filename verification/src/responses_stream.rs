//! Streaming transcoder for the Responses dialect: a per-stream state
//! machine that turns the upstream's raw delta lines into the dialect's
//! lifecycle events.
//!
//! The first parsed chunk with a non-empty id opens the lifecycle (created,
//! output-item added, content-part added), every non-empty delta becomes one
//! delta event and extends the accumulated text, and the `[DONE]` sentinel
//! closes the lifecycle with four terminal events that all carry the full
//! accumulated text.  Blank lines, unframed lines and malformed chunks emit
//! nothing and leave the state untouched.

use vstd::prelude::*;
use vstd::string::StringExecFns;
use crate::chat_stream::data_payload;
use crate::responses::{
    AdditionalParameters, AssistantContent, CompletionResponse, Output, OutputMessage,
    OutputRole, ResponseObject, ResponseStatus, Text,
};
use crate::text::str_eq;
use crate::text::str_strip_prefix;

verus! {

/// A text content part inside streaming lifecycle events.
#[derive(Debug)]
pub struct ContentPartText {
    pub kind: String,
    pub text: String,
}

/// One server-sent event of the Responses streaming surface.
#[derive(Debug)]
pub enum ResponseStreamEvent {
    ResponseCreated { response: CompletionResponse },
    ResponseOutputItemAdded { output_index: u32, item: OutputMessage },
    ResponseContentPartAdded {
        item_id: String,
        output_index: u32,
        content_index: u32,
        part: ContentPartText,
    },
    ResponseOutputTextDelta {
        item_id: String,
        output_index: u32,
        content_index: u32,
        delta: String,
    },
    ResponseOutputTextDone {
        item_id: String,
        output_index: u32,
        content_index: u32,
        text: String,
    },
    ResponseContentPartDone {
        item_id: String,
        output_index: u32,
        content_index: u32,
        part: ContentPartText,
    },
    ResponseOutputItemDone { output_index: u32, item: OutputMessage },
    ResponseCompleted { response: CompletionResponse },
}

/// The wire name of each event kind.
pub fn event_type(event: &ResponseStreamEvent) -> (r: String)
    ensures
        r@ == (match event {
            ResponseStreamEvent::ResponseCreated { .. } => "response.created"@,
            ResponseStreamEvent::ResponseOutputItemAdded { .. } => "response.output_item.added"@,
            ResponseStreamEvent::ResponseContentPartAdded { .. } => "response.content_part.added"@,
            ResponseStreamEvent::ResponseOutputTextDelta { .. } => "response.output_text.delta"@,
            ResponseStreamEvent::ResponseOutputTextDone { .. } => "response.output_text.done"@,
            ResponseStreamEvent::ResponseContentPartDone { .. } => "response.content_part.done"@,
            ResponseStreamEvent::ResponseOutputItemDone { .. } => "response.output_item.done"@,
            ResponseStreamEvent::ResponseCompleted { .. } => "response.completed"@,
        }),
{
    match event {
        ResponseStreamEvent::ResponseCreated { .. } => String::from_str("response.created"),
        ResponseStreamEvent::ResponseOutputItemAdded { .. } => String::from_str(
            "response.output_item.added",
        ),
        ResponseStreamEvent::ResponseContentPartAdded { .. } => String::from_str(
            "response.content_part.added",
        ),
        ResponseStreamEvent::ResponseOutputTextDelta { .. } => String::from_str(
            "response.output_text.delta",
        ),
        ResponseStreamEvent::ResponseOutputTextDone { .. } => String::from_str(
            "response.output_text.done",
        ),
        ResponseStreamEvent::ResponseContentPartDone { .. } => String::from_str(
            "response.content_part.done",
        ),
        ResponseStreamEvent::ResponseOutputItemDone { .. } => String::from_str(
            "response.output_item.done",
        ),
        ResponseStreamEvent::ResponseCompleted { .. } => String::from_str("response.completed"),
    }
}

/// Transient per-stream state: the stream's id and model as captured from
/// the first chunk, and the text accumulated so far.  Owned by the task
/// driving that one stream, never shared.
#[derive(Debug)]
pub struct StreamAccumulator {
    pub response_id: String,
    pub model: String,
    pub accumulated_text: String,
}

impl StreamAccumulator {
    /// Fresh state for a new stream.
    pub fn new() -> (r: StreamAccumulator)
        ensures
            r.response_id@.len() == 0,
            r.model@.len() == 0,
            r.accumulated_text@.len() == 0,
    {
        StreamAccumulator {
            response_id: String::new(),
            model: String::new(),
            accumulated_text: String::new(),
        }
    }
}

/// A parsed upstream delta chunk: its id, its model, and each choice's
/// optional delta content in order.
#[derive(Debug)]
pub struct DeltaChunk {
    pub id: String,
    pub model: String,
    pub deltas: Vec<Option<String>>,
}

/// What `serde_json` extracts from a delta-chunk payload:
/// `(id, model, per-choice delta contents)`, or nothing when the payload is
/// not such a chunk.
pub uninterp spec fn chunk_of(payload: Seq<char>) -> Option<
    (Seq<char>, Seq<char>, Seq<Option<Seq<char>>>),
>;

/// Relies on `serde_json::from_str` and the `Value` accessors: a delta
/// chunk is an object with string `id` and `model` and an array `choices`,
/// each choice carrying a `delta` object whose optional `content` is a
/// string or null.
#[verifier::external_body]
fn parse_chunk(payload: &str) -> (r: Option<DeltaChunk>)
    ensures
        r is Some <==> chunk_of(payload@) is Some,
        r matches Some(c) ==> (chunk_of(payload@) matches Some(t) && c.id@ == t.0 && c.model@
            == t.1 && c.deltas.deep_view() == t.2),
{
    let v: serde_json::Value = serde_json::from_str(payload).ok()?;
    let id = v.get("id")?.as_str()?.to_string();
    let model = v.get("model")?.as_str()?.to_string();
    let mut deltas = Vec::new();
    for choice in v.get("choices")?.as_array()? {
        match choice.get("delta")?.get("content") {
            None => deltas.push(None),
            Some(c) if c.is_null() => deltas.push(None),
            Some(c) => deltas.push(Some(c.as_str()?.to_string())),
        }
    }
    Some(DeltaChunk { id, model, deltas })
}

/// The non-empty delta contents of a chunk, in order.
pub open spec fn nonempty_deltas(ds: Seq<Option<Seq<char>>>) -> Seq<Seq<char>>
    decreases ds.len(),
{
    if ds.len() == 0 {
        Seq::empty()
    } else {
        nonempty_deltas(ds.drop_last()) + (match ds.last() {
            Some(d) => if d.len() > 0 {
                seq![d]
            } else {
                Seq::empty()
            },
            None => Seq::empty(),
        })
    }
}

/// The texts concatenated in order.
pub open spec fn concat_texts(ts: Seq<Seq<char>>) -> Seq<char>
    decreases ts.len(),
{
    if ts.len() == 0 {
        Seq::empty()
    } else {
        concat_texts(ts.drop_last()) + ts.last()
    }
}

proof fn lemma_nonempty_deltas_step(ds: Seq<Option<Seq<char>>>, i: int)
    requires
        0 <= i < ds.len(),
    ensures
        nonempty_deltas(ds.take(i + 1)) == nonempty_deltas(ds.take(i)) + (match ds[i] {
            Some(d) => if d.len() > 0 {
                seq![d]
            } else {
                Seq::empty()
            },
            None => Seq::empty(),
        }),
{
    assert(ds.take(i + 1).drop_last() =~= ds.take(i));
    assert(ds.take(i + 1).last() == ds[i]);
}

proof fn lemma_concat_texts_push(ts: Seq<Seq<char>>, x: Seq<char>)
    ensures
        concat_texts(ts.push(x)) == concat_texts(ts) + x,
{
    assert(ts.push(x).drop_last() =~= ts);
    assert(ts.push(x).last() == x);
}

// ---------------------------------------------------------------------------
// Event recognizers
// ---------------------------------------------------------------------------
/// The opening `response.created` event: an in-progress completion shell.
pub open spec fn is_created_event(
    e: ResponseStreamEvent,
    id: Seq<char>,
    model: Seq<char>,
    created_at: u64,
) -> bool {
    e matches ResponseStreamEvent::ResponseCreated { response } && response.id@ == id
        && response.object is Response && response.created_at == created_at
        && response.status is InProgress && response.error is None && response.usage is None
        && response.model@ == model && response.output@.len() == 0 && response.tools@.len() == 0
}

/// The `response.output_item.added` event: an empty assistant message.
pub open spec fn is_item_added_event(e: ResponseStreamEvent, id: Seq<char>) -> bool {
    e matches ResponseStreamEvent::ResponseOutputItemAdded { output_index, item } && output_index
        == 0 && item.id@ == id && item.role is Assistant && item.status is InProgress
        && item.content@.len() == 0
}

/// The `response.content_part.added` event: an empty text part.
pub open spec fn is_part_added_event(e: ResponseStreamEvent, id: Seq<char>) -> bool {
    e matches ResponseStreamEvent::ResponseContentPartAdded {
        item_id,
        output_index,
        content_index,
        part,
    } && item_id@ == id && output_index == 0 && content_index == 0 && part.kind@ == "output_text"@
        && part.text@.len() == 0
}

/// One `response.output_text.delta` event carrying delta `d`.
pub open spec fn is_delta_event(e: ResponseStreamEvent, id: Seq<char>, d: Seq<char>) -> bool {
    e matches ResponseStreamEvent::ResponseOutputTextDelta {
        item_id,
        output_index,
        content_index,
        delta,
    } && item_id@ == id && output_index == 0 && content_index == 0 && delta@ == d
}

/// The `response.output_text.done` event carrying the full text.
pub open spec fn is_text_done_event(e: ResponseStreamEvent, id: Seq<char>, text: Seq<char>) -> bool {
    e matches ResponseStreamEvent::ResponseOutputTextDone {
        item_id,
        output_index,
        content_index,
        text: t,
    } && item_id@ == id && output_index == 0 && content_index == 0 && t@ == text
}

/// The `response.content_part.done` event carrying the full text.
pub open spec fn is_part_done_event(e: ResponseStreamEvent, id: Seq<char>, text: Seq<char>) -> bool {
    e matches ResponseStreamEvent::ResponseContentPartDone {
        item_id,
        output_index,
        content_index,
        part,
    } && item_id@ == id && output_index == 0 && content_index == 0 && part.kind@ == "output_text"@
        && part.text@ == text
}

/// A completed assistant message carrying the full text.
pub open spec fn is_finished_message(m: OutputMessage, id: Seq<char>, text: Seq<char>) -> bool {
    m.id@ == id && m.role is Assistant && m.status is Completed && m.content@.len() == 1
        && (m.content@[0] matches AssistantContent::OutputText(t) && t.text@ == text)
}

/// The `response.output_item.done` event: the completed assistant message.
pub open spec fn is_item_done_event(e: ResponseStreamEvent, id: Seq<char>, text: Seq<char>) -> bool {
    e matches ResponseStreamEvent::ResponseOutputItemDone { output_index, item } && output_index
        == 0 && is_finished_message(item, id, text)
}

/// The `response.completed` event: the completed response carrying the same
/// message as its sole output item.
pub open spec fn is_completed_event(
    e: ResponseStreamEvent,
    id: Seq<char>,
    model: Seq<char>,
    created_at: u64,
    text: Seq<char>,
) -> bool {
    e matches ResponseStreamEvent::ResponseCompleted { response } && response.id@ == id
        && response.object is Response && response.created_at == created_at
        && response.status is Completed && response.error is None && response.usage is None
        && response.model@ == model && response.tools@.len() == 0 && response.output@.len() == 1
        && (response.output@[0] matches Output::Message(om) && is_finished_message(om, id, text))
}

// ---------------------------------------------------------------------------
// Event constructors
// ---------------------------------------------------------------------------
/// The in-progress completion shell the opening event carries.
pub fn make_in_progress_response(id: String, model: String, created_at: u64) -> (r:
    CompletionResponse)
    ensures
        r.id == id,
        r.object is Response,
        r.created_at == created_at,
        r.status is InProgress,
        r.error is None,
        r.usage is None,
        r.model == model,
        r.output@.len() == 0,
        r.tools@.len() == 0,
{
    CompletionResponse {
        id,
        object: ResponseObject::Response,
        created_at,
        status: ResponseStatus::InProgress,
        error: None,
        incomplete_details: None,
        instructions: None,
        max_output_tokens: None,
        model,
        usage: None,
        output: Vec::new(),
        tools: Vec::new(),
        additional_parameters: AdditionalParameters::default(),
    }
}

/// The empty in-progress assistant message the item-added event carries.
pub fn make_empty_output_message(id: String) -> (r: OutputMessage)
    ensures
        r.id == id,
        r.role is Assistant,
        r.status is InProgress,
        r.content@.len() == 0,
{
    OutputMessage {
        id,
        role: OutputRole::Assistant,
        status: ResponseStatus::InProgress,
        content: Vec::new(),
    }
}

fn make_finished_message(id: String, text: String) -> (r: OutputMessage)
    ensures
        is_finished_message(r, id@, text@),
{
    let mut content: Vec<AssistantContent> = Vec::new();
    content.push(AssistantContent::OutputText(Text { text }));
    OutputMessage { id, role: OutputRole::Assistant, status: ResponseStatus::Completed, content }
}

/// The four terminal lifecycle events for the `[DONE]` sentinel.
fn emit_completed_events(
    created_at: u64,
    response_id: &str,
    response_model: &str,
    accumulated_text: &str,
) -> (events: Vec<ResponseStreamEvent>)
    ensures
        events@.len() == 4,
        is_text_done_event(events@[0], response_id@, accumulated_text@),
        is_part_done_event(events@[1], response_id@, accumulated_text@),
        is_item_done_event(events@[2], response_id@, accumulated_text@),
        is_completed_event(
            events@[3],
            response_id@,
            response_model@,
            created_at,
            accumulated_text@,
        ),
{
    let mut events: Vec<ResponseStreamEvent> = Vec::new();
    events.push(
        ResponseStreamEvent::ResponseOutputTextDone {
            item_id: response_id.to_owned(),
            output_index: 0,
            content_index: 0,
            text: accumulated_text.to_owned(),
        },
    );
    events.push(
        ResponseStreamEvent::ResponseContentPartDone {
            item_id: response_id.to_owned(),
            output_index: 0,
            content_index: 0,
            part: ContentPartText {
                kind: String::from_str("output_text"),
                text: accumulated_text.to_owned(),
            },
        },
    );
    let finished = make_finished_message(response_id.to_owned(), accumulated_text.to_owned());
    events.push(
        ResponseStreamEvent::ResponseOutputItemDone { output_index: 0, item: finished },
    );
    let finished_again = make_finished_message(
        response_id.to_owned(),
        accumulated_text.to_owned(),
    );
    let mut output: Vec<Output> = Vec::new();
    output.push(Output::Message(finished_again));
    let completed_response = CompletionResponse {
        id: response_id.to_owned(),
        object: ResponseObject::Response,
        created_at,
        status: ResponseStatus::Completed,
        error: None,
        incomplete_details: None,
        instructions: None,
        max_output_tokens: None,
        model: response_model.to_owned(),
        usage: None,
        output,
        tools: Vec::new(),
        additional_parameters: AdditionalParameters::default(),
    };
    events.push(ResponseStreamEvent::ResponseCompleted { response: completed_response });
    events
}

/// Translate one raw upstream line into zero or more Responses events,
/// updating the per-stream state.
///
/// A line without the `data: ` framing (blank or not) yields no events and
/// leaves the state untouched; so does a data line whose payload is not a
/// well-formed chunk.  The `[DONE]` payload yields the four terminal events
/// carrying the accumulated text.  A parsed chunk opens the lifecycle when
/// it is the first to carry an id, then yields one delta event per
/// non-empty delta content, each appended to the accumulated text.
pub fn translate_sse_line(line: &str, created_at: u64, acc: &mut StreamAccumulator) -> (events: Vec<
    ResponseStreamEvent,
>)
    ensures
        match data_payload(line@) {
            None => events@.len() == 0 && *final(acc) == *old(acc),
            Some(p) => if p == "[DONE]"@ {
                &&& events@.len() == 4
                &&& is_text_done_event(
                    events@[0],
                    old(acc).response_id@,
                    old(acc).accumulated_text@,
                )
                &&& is_part_done_event(
                    events@[1],
                    old(acc).response_id@,
                    old(acc).accumulated_text@,
                )
                &&& is_item_done_event(
                    events@[2],
                    old(acc).response_id@,
                    old(acc).accumulated_text@,
                )
                &&& is_completed_event(
                    events@[3],
                    old(acc).response_id@,
                    old(acc).model@,
                    created_at,
                    old(acc).accumulated_text@,
                )
                &&& *final(acc) == *old(acc)
            } else {
                match chunk_of(p) {
                    None => events@.len() == 0 && *final(acc) == *old(acc),
                    Some(c) => {
                        let opening = old(acc).response_id@.len() == 0 && c.0.len() > 0;
                        let id_after = if opening {
                            c.0
                        } else {
                            old(acc).response_id@
                        };
                        let ds = nonempty_deltas(c.2);
                        let base: int = if opening {
                            3
                        } else {
                            0
                        };
                        &&& final(acc).response_id@ == id_after
                        &&& final(acc).model@ == (if opening {
                            c.1
                        } else {
                            old(acc).model@
                        })
                        &&& final(acc).accumulated_text@ == old(acc).accumulated_text@
                            + concat_texts(ds)
                        &&& events@.len() == base + ds.len()
                        &&& (opening ==> is_created_event(events@[0], c.0, c.1, created_at)
                            && is_item_added_event(events@[1], c.0) && is_part_added_event(
                            events@[2],
                            c.0,
                        ))
                        &&& (forall|t: int|
                            0 <= t < ds.len() ==> is_delta_event(
                                #[trigger] events@[base + t],
                                id_after,
                                ds[t],
                            ))
                    },
                }
            },
        },
{
    let payload = match str_strip_prefix(line, "data: ") {
        Some(p) => p,
        None => {
            return Vec::new();
        },
    };
    if str_eq(payload, "[DONE]") {
        return emit_completed_events(
            created_at,
            acc.response_id.as_str(),
            acc.model.as_str(),
            acc.accumulated_text.as_str(),
        );
    }
    let chunk = match parse_chunk(payload) {
        Some(c) => c,
        None => {
            return Vec::new();
        },
    };
    let mut events: Vec<ResponseStreamEvent> = Vec::new();
    let opening = acc.response_id.as_str().is_empty() && !chunk.id.as_str().is_empty();
    if opening {
        acc.response_id = chunk.id.clone();
        acc.model = chunk.model.clone();
        events.push(
            ResponseStreamEvent::ResponseCreated {
                response: make_in_progress_response(
                    acc.response_id.clone(),
                    acc.model.clone(),
                    created_at,
                ),
            },
        );
        events.push(
            ResponseStreamEvent::ResponseOutputItemAdded {
                output_index: 0,
                item: make_empty_output_message(acc.response_id.clone()),
            },
        );
        events.push(
            ResponseStreamEvent::ResponseContentPartAdded {
                item_id: acc.response_id.clone(),
                output_index: 0,
                content_index: 0,
                part: ContentPartText { kind: String::from_str("output_text"), text: String::new() },
            },
        );
    }
    let ghost base: int = if opening {
        3int
    } else {
        0int
    };
    let ghost ds_full = chunk.deltas.deep_view();
    let ghost id_view = acc.response_id@;
    let ghost model_after = acc.model;
    let ghost id_after_s = acc.response_id;
    let ghost start_text = acc.accumulated_text@;
    let ghost opened_events = events@;
    let dn = chunk.deltas.len();
    let mut j: usize = 0;
    proof {
        assert(ds_full.take(0) =~= Seq::<Option<Seq<char>>>::empty());
        assert(start_text + concat_texts(nonempty_deltas(ds_full.take(0))) =~= start_text);
    }
    while j < dn
        invariant
            j <= dn,
            dn == ds_full.len(),
            chunk.deltas.deep_view() == ds_full,
            acc.response_id == id_after_s,
            acc.response_id@ == id_view,
            acc.model == model_after,
            events@.len() == base + nonempty_deltas(ds_full.take(j as int)).len(),
            base == opened_events.len(),
            forall|t: int| 0 <= t < base ==> events@[t] == opened_events[t],
            forall|t: int|
                0 <= t < nonempty_deltas(ds_full.take(j as int)).len() ==> is_delta_event(
                    #[trigger] events@[base + t],
                    id_view,
                    nonempty_deltas(ds_full.take(j as int))[t],
                ),
            acc.accumulated_text@ == start_text + concat_texts(
                nonempty_deltas(ds_full.take(j as int)),
            ),
        decreases dn - j,
    {
        proof {
            lemma_nonempty_deltas_step(ds_full, j as int);
            assert(chunk.deltas@[j as int].deep_view() == ds_full[j as int]);
        }
        match &chunk.deltas[j] {
            Some(d) => {
                if !d.as_str().is_empty() {
                    acc.accumulated_text.append(d.as_str());
                    events.push(
                        ResponseStreamEvent::ResponseOutputTextDelta {
                            item_id: acc.response_id.clone(),
                            output_index: 0,
                            content_index: 0,
                            delta: d.clone(),
                        },
                    );
                    proof {
                        let pre = nonempty_deltas(ds_full.take(j as int));
                        lemma_concat_texts_push(pre, d@);
                        assert(nonempty_deltas(ds_full.take(j + 1)) =~= pre.push(d@));
                        assert(concat_texts(nonempty_deltas(ds_full.take(j + 1))) == concat_texts(
                            pre,
                        ) + d@);
                        assert(acc.accumulated_text@ =~= start_text + concat_texts(
                            nonempty_deltas(ds_full.take(j + 1)),
                        ));
                    }
                } else {
                    proof {
                        assert(nonempty_deltas(ds_full.take(j + 1)) =~= nonempty_deltas(
                            ds_full.take(j as int),
                        ));
                    }
                }
            },
            None => {
                proof {
                    assert(nonempty_deltas(ds_full.take(j + 1)) =~= nonempty_deltas(
                        ds_full.take(j as int),
                    ));
                }
            },
        }
        j += 1;
    }
    proof {
        assert(ds_full.take(dn as int) =~= ds_full);
        assert(data_payload(line@) == Some(payload@));
        assert(chunk_of(payload@) matches Some(cc) && chunk.id@ == cc.0 && chunk.model@ == cc.1
            && chunk.deltas.deep_view() == cc.2);
        assert(opening == (old(acc).response_id@.len() == 0 && chunk.id@.len() > 0));
        if opening {
            assert(events@[0] == opened_events[0]);
            assert(events@[1] == opened_events[1]);
            assert(events@[2] == opened_events[2]);
            assert(is_created_event(events@[0], chunk.id@, chunk.model@, created_at));
            assert(is_item_added_event(events@[1], chunk.id@));
            assert(is_part_added_event(events@[2], chunk.id@));
        }
    }
    events
}

} // verus!
