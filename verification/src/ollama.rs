//! The Ollama chat dialect: response shapes, the NDJSON streaming
//! transcoder, the non-streaming transform, and the model-catalog mapping.
//!
//! The streaming transcoder emits one NDJSON object per upstream chunk
//! (`done: false` carrying the first choice's delta text) and one terminal
//! object for the `[DONE]` sentinel (`done: true`, `done_reason: "stop"`).
//! The NDJSON framing is built by a verified emitter whose output is pinned
//! character for character.

use vstd::prelude::*;
use vstd::string::StringExecFns;
use crate::chat_stream::data_payload;
use crate::clock::{now_rfc3339, rfc3339_of_timestamp};
use crate::copilot::{CopilotChatRequest, CopilotChatResponse, CopilotModel};
use crate::openai::{Tool, ToolCall, clone_opt_string};
use crate::server::AppError;
use crate::text::{
    append_json_string, blank, dec_digits, is_blank, json_string, str_eq, str_strip_prefix,
    usize_to_string,
};

verus! {

/// An Ollama chat response, streaming or not.
#[derive(Debug)]
pub struct OllamaChatResponse {
    pub model: String,
    pub created_at: String,
    pub message: OllamaMessage,
    pub done: bool,
    pub done_reason: Option<String>,
    pub total_duration: Option<u64>,
    pub load_duration: Option<u64>,
    pub prompt_eval_count: Option<u32>,
    pub prompt_eval_duration: Option<u64>,
    pub eval_count: Option<u32>,
    pub eval_duration: Option<u64>,
}

/// One Ollama chat message.
#[derive(Debug)]
pub struct OllamaMessage {
    pub role: String,
    pub content: String,
    pub thinking: Option<String>,
    pub tool_calls: Option<Vec<OllamaToolCall>>,
    pub images: Option<Vec<String>>,
}

/// One tool call in an Ollama message.
#[derive(Debug)]
pub struct OllamaToolCall {
    pub id: String,
    pub function: OllamaFunction,
}

/// The function of an Ollama tool call.
#[derive(Debug)]
pub struct OllamaFunction {
    pub name: String,
    pub description: Option<String>,
    pub arguments: String,
}

/// The Ollama tags (catalog) answer.
#[derive(Debug)]
pub struct OllamaTagsResponse {
    pub models: Vec<OllamaModel>,
}

/// One catalog entry in the Ollama shape.
#[derive(Debug)]
pub struct OllamaModel {
    pub name: String,
    pub model: String,
    pub modified_at: String,
    pub size: u64,
    pub digest: String,
    pub details: OllamaModelDetails,
}

/// Details of one catalog entry.
#[derive(Debug)]
pub struct OllamaModelDetails {
    pub parent_model: String,
    pub format: String,
    pub family: String,
    pub families: Vec<String>,
    pub parameter_size: String,
    pub quantization_level: String,
}

/// The Ollama version answer.
#[derive(Debug)]
pub struct OllamaVersionResponse {
    pub version: String,
}

// ---------------------------------------------------------------------------
// NDJSON framing
// ---------------------------------------------------------------------------
/// The opening of every streamed NDJSON object, up to the content literal.
pub open spec fn ollama_obj_prefix(model: Seq<char>, created_at: Seq<char>) -> Seq<char> {
    "{\"model\":"@ + json_string(model) + ",\"created_at\":"@ + json_string(created_at)
        + ",\"message\":{\"role\":\"assistant\",\"content\":"@
}

/// One intermediate NDJSON line: the delta text, `done: false`, newline
/// terminated.
pub open spec fn ollama_chunk_json(
    model: Seq<char>,
    created_at: Seq<char>,
    content: Seq<char>,
) -> Seq<char> {
    ollama_obj_prefix(model, created_at) + json_string(content) + "},\"done\":false}\n"@
}

/// The terminal NDJSON line: empty content, `done: true`,
/// `done_reason: "stop"`, newline terminated.
pub open spec fn ollama_done_json(model: Seq<char>, created_at: Seq<char>) -> Seq<char> {
    ollama_obj_prefix(model, created_at) + json_string(Seq::empty())
        + "},\"done\":true,\"done_reason\":\"stop\"}\n"@
}

fn append_obj_prefix(out: &mut String, model: &str, created_at: &str)
    ensures
        final(out)@ == old(out)@ + ollama_obj_prefix(model@, created_at@),
{
    out.append("{\"model\":");
    append_json_string(out, model);
    out.append(",\"created_at\":");
    append_json_string(out, created_at);
    out.append(",\"message\":{\"role\":\"assistant\",\"content\":");
    proof {
        assert(out@ =~= old(out)@ + ollama_obj_prefix(model@, created_at@));
    }
}

/// Render one intermediate NDJSON line.
pub fn ollama_chunk_line(model: &str, created_at: &str, content: &str) -> (r: String)
    ensures
        r@ == ollama_chunk_json(model@, created_at@, content@),
{
    let mut out = String::new();
    append_obj_prefix(&mut out, model, created_at);
    append_json_string(&mut out, content);
    out.append("},\"done\":false}\n");
    proof {
        assert(out@ =~= ollama_chunk_json(model@, created_at@, content@));
    }
    out
}

/// Render the terminal NDJSON line.
pub fn ollama_done_line(model: &str, created_at: &str) -> (r: String)
    ensures
        r@ == ollama_done_json(model@, created_at@),
{
    let mut out = String::new();
    append_obj_prefix(&mut out, model, created_at);
    append_json_string(&mut out, "");
    out.append("},\"done\":true,\"done_reason\":\"stop\"}\n");
    proof {
        reveal_strlit("");
        assert(""@ =~= Seq::<char>::empty());
        assert(out@ =~= ollama_done_json(model@, created_at@));
    }
    out
}

// ---------------------------------------------------------------------------
// Streaming transcoder
// ---------------------------------------------------------------------------
/// What `serde_json` extracts from an upstream delta chunk for this
/// dialect: each choice's optional delta content, in order.
pub uninterp spec fn stream_deltas_of(payload: Seq<char>) -> Option<Seq<Option<Seq<char>>>>;

/// Relies on `serde_json::from_str` and the `Value` accessors: a delta
/// chunk is an object with an array `choices`, each choice carrying a
/// `delta` object whose optional `content` is a string or null.
#[verifier::external_body]
fn parse_stream_chunk(payload: &str) -> (r: Option<Vec<Option<String>>>)
    ensures
        r is Some <==> stream_deltas_of(payload@) is Some,
        r matches Some(v) ==> (stream_deltas_of(payload@) matches Some(t) && v.deep_view() == t),
{
    let v: serde_json::Value = serde_json::from_str(payload).ok()?;
    let mut deltas = Vec::new();
    for choice in v.get("choices")?.as_array()? {
        match choice.get("delta")?.get("content") {
            None => deltas.push(None),
            Some(c) if c.is_null() => deltas.push(None),
            Some(c) => deltas.push(Some(c.as_str()?.to_string())),
        }
    }
    Some(deltas)
}

/// The first choice's delta content, or empty when absent.
pub open spec fn first_content(ds: Seq<Option<Seq<char>>>) -> Seq<char> {
    if ds.len() > 0 && ds[0] is Some {
        ds[0]->0
    } else {
        Seq::empty()
    }
}

/// Result of translating one upstream SSE line into Ollama NDJSON output.
#[derive(Debug, PartialEq)]
pub enum SseLineOutput {
    /// A serialized, newline-terminated NDJSON line ready to write.
    Line(String),
    /// The line was blank: nothing to emit.
    Skip,
    /// The line was not a well-formed `data: ` line; nothing is emitted.
    Unexpected(String),
}

/// Translate one upstream SSE line with an explicit timestamp text, so the
/// output is pinned exactly: the `[DONE]` sentinel becomes the terminal
/// line, a parsed chunk becomes one intermediate line carrying the first
/// choice's delta, a malformed payload or an unframed non-blank line is
/// surfaced as unexpected (emitting nothing), and a blank line is skipped.
pub fn translate_sse_line_at(model: &str, line: &str, created_at: &str) -> (r: SseLineOutput)
    ensures
        match data_payload(line@) {
            Some(p) => if p == "[DONE]"@ {
                r matches SseLineOutput::Line(s) && s@ == ollama_done_json(model@, created_at@)
            } else {
                match stream_deltas_of(p) {
                    Some(ds) => r matches SseLineOutput::Line(s) && s@ == ollama_chunk_json(
                        model@,
                        created_at@,
                        first_content(ds),
                    ),
                    None => r matches SseLineOutput::Unexpected(u) && u@ == p,
                }
            },
            None => if blank(line@) {
                r is Skip
            } else {
                r matches SseLineOutput::Unexpected(u) && u@ == line@
            },
        },
{
    match str_strip_prefix(line, "data: ") {
        Some(payload) => {
            if str_eq(payload, "[DONE]") {
                SseLineOutput::Line(ollama_done_line(model, created_at))
            } else {
                match parse_stream_chunk(payload) {
                    Some(deltas) => {
                        let content: &str = if deltas.len() > 0 {
                            match &deltas[0] {
                                Some(s) => s.as_str(),
                                None => "",
                            }
                        } else {
                            ""
                        };
                        proof {
                            reveal_strlit("");
                            assert(""@ =~= Seq::<char>::empty());
                            assert(deltas.deep_view().len() == deltas@.len());
                            if deltas@.len() > 0 {
                                assert(deltas.deep_view()[0] == deltas@[0].deep_view());
                            }
                            assert(content@ == first_content(deltas.deep_view()));
                        }
                        SseLineOutput::Line(ollama_chunk_line(model, created_at, content))
                    },
                    None => SseLineOutput::Unexpected(payload.to_owned()),
                }
            }
        },
        None => {
            if is_blank(line) {
                SseLineOutput::Skip
            } else {
                SseLineOutput::Unexpected(line.to_owned())
            }
        },
    }
}

/// Translate one upstream SSE line, stamping the current time.  The
/// timestamp depends on the clock, so the emitted line is pinned only up to
/// it; `translate_sse_line_at` carries the exact contract.
pub fn translate_sse_line(model: &str, line: &str) -> (r: SseLineOutput)
    ensures
        match data_payload(line@) {
            Some(p) => if p == "[DONE]"@ {
                r matches SseLineOutput::Line(s) && (exists|t: Seq<char>|
                    s@ == ollama_done_json(model@, t))
            } else {
                match stream_deltas_of(p) {
                    Some(ds) => r matches SseLineOutput::Line(s) && (exists|t: Seq<char>|
                        s@ == ollama_chunk_json(model@, t, first_content(ds))),
                    None => r matches SseLineOutput::Unexpected(u) && u@ == p,
                }
            },
            None => if blank(line@) {
                r is Skip
            } else {
                r matches SseLineOutput::Unexpected(u) && u@ == line@
            },
        },
{
    let now = now_rfc3339();
    let r = translate_sse_line_at(model, line, now.as_str());
    proof {
        match data_payload(line@) {
            Some(p) => {
                if p == "[DONE]"@ {
                    assert(r matches SseLineOutput::Line(s) && s@ == ollama_done_json(
                        model@,
                        now@,
                    ));
                } else {
                    match stream_deltas_of(p) {
                        Some(ds) => {
                            assert(r matches SseLineOutput::Line(s) && s@ == ollama_chunk_json(
                                model@,
                                now@,
                                first_content(ds),
                            ));
                        },
                        None => {},
                    }
                }
            },
            None => {},
        }
    }
    r
}

// ---------------------------------------------------------------------------
// Non-streaming transform
// ---------------------------------------------------------------------------
/// The first description among the request's tools for a function of this
/// name: the first tool whose function name matches decides, and its
/// description (present or not) is the answer.
pub open spec fn lookup_description(ts: Seq<Tool>, name: Seq<char>) -> Option<String>
    decreases ts.len(),
{
    if ts.len() == 0 {
        None
    } else if ts[0].function.name@ == name {
        ts[0].function.description
    } else {
        lookup_description(ts.skip(1), name)
    }
}

proof fn lemma_lookup_prefix(ts: Seq<Tool>, name: Seq<char>, i: int)
    requires
        0 <= i <= ts.len(),
        forall|t: int| 0 <= t < i ==> (#[trigger] ts[t]).function.name@ != name,
    ensures
        lookup_description(ts, name) == lookup_description(ts.skip(i), name),
    decreases i,
{
    if i > 0 {
        lemma_lookup_prefix(ts, name, i - 1);
        assert(ts.skip(i - 1).len() == ts.len() - (i - 1));
        assert(ts.skip(i - 1)[0] == ts[i - 1]);
        assert(ts[i - 1].function.name@ != name);
        assert(lookup_description(ts.skip(i - 1), name) == lookup_description(
            ts.skip(i - 1).skip(1),
            name,
        ));
        assert(ts.skip(i - 1).skip(1) =~= ts.skip(i));
    } else {
        assert(ts.skip(0) =~= ts);
    }
}

fn lookup_description_exec(tools: &Option<Vec<Tool>>, name: &str) -> (r: Option<String>)
    ensures
        r == (match tools {
            Some(ts) => lookup_description(ts@, name@),
            None => None::<String>,
        }),
{
    match tools {
        Some(ts) => {
            let n = ts.len();
            let mut i: usize = 0;
            while i < n
                invariant
                    i <= n,
                    n == ts@.len(),
                    tools matches Some(v) && v@ == ts@,
                    forall|t: int| 0 <= t < i ==> (#[trigger] ts@[t]).function.name@ != name@,
                decreases n - i,
            {
                if str_eq(ts[i].function.name.as_str(), name) {
                    proof {
                        let ii = i as int;
                        lemma_lookup_prefix(ts@, name@, ii);
                        assert(ts@.skip(ii).len() > 0);
                        assert(ts@.skip(ii)[0] == ts@[ii]);
                        assert(lookup_description(ts@.skip(ii), name@) == ts@[
                            ii].function.description);
                    }
                    return clone_opt_string(&ts[i].function.description);
                }
                i += 1;
            }
            proof {
                lemma_lookup_prefix(ts@, name@, n as int);
                assert(ts@.skip(n as int) =~= Seq::<Tool>::empty());
            }
            None
        },
        None => None,
    }
}

/// One reshaped tool call: the identifier kept or backfilled positionally,
/// the name and arguments carried over, and the description looked up from
/// the original request's tools by function name.
pub open spec fn ollama_call_ok(
    oc: OllamaToolCall,
    tc: ToolCall,
    j: int,
    tools: Option<Vec<Tool>>,
) -> bool {
    &&& (match tc.id {
        Some(s) => oc.id == s,
        None => oc.id@ == dec_digits(j as nat),
    })
    &&& oc.function.name == tc.function.name
    &&& oc.function.arguments == tc.function.arguments
    &&& oc.function.description == (match tools {
        Some(ts) => lookup_description(ts@, tc.function.name@),
        None => None::<String>,
    })
}

/// Everything the transform pins down apart from the timestamp text.
pub open spec fn ollama_transform_ok(
    req: CopilotChatRequest,
    resp: CopilotChatResponse,
    o: OllamaChatResponse,
) -> bool {
    let choice = resp.choices@[0];
    &&& o.model == req.model
    &&& o.message.role == choice.message.role
    &&& (match choice.message.content {
        Some(s) => o.message.content == s,
        None => o.message.content@.len() == 0,
    })
    &&& o.message.thinking is None
    &&& o.message.images is None
    &&& (match choice.message.tool_calls {
        None => o.message.tool_calls is None,
        Some(tc) => o.message.tool_calls matches Some(otc) && otc@.len() == tc@.len() && (forall|
            j: int,
        |
            0 <= j < tc@.len() ==> ollama_call_ok(#[trigger] otc@[j], tc@[j], j, req.tools)),
    })
    &&& o.done == true
    &&& (o.done_reason matches Some(s) && s == choice.finish_reason)
    &&& o.total_duration is None
    &&& o.load_duration is None
    &&& o.prompt_eval_duration is None
    &&& o.eval_duration is None
    &&& o.prompt_eval_count == (match resp.usage {
        Some(u) => Some(u.prompt_tokens),
        None => None::<u32>,
    })
    &&& o.eval_count == (match resp.usage {
        Some(u) => Some(u.completion_tokens),
        None => None::<u32>,
    })
}

/// Reshape a canonical response into the Ollama response with an explicit
/// timestamp text.  A response without choices is an error; otherwise only
/// the first choice is mapped, the finish reason passes through as the done
/// reason, and usage maps to the two eval counts.
pub fn transform_with_created_at(
    copilot_request: &CopilotChatRequest,
    copilot: CopilotChatResponse,
    created_at: String,
) -> (r: Result<OllamaChatResponse, AppError>)
    ensures
        (copilot.choices@.len() == 0) <==> r is Err,
        r matches Err(e) ==> (e matches AppError::InternalServerError(m) && m@
            == "No choices in Copilot response"@),
        r matches Ok(o) ==> ollama_transform_ok(*copilot_request, copilot, o) && o.created_at
            == created_at,
{
    if copilot.choices.len() == 0 {
        return Err(
            AppError::InternalServerError(String::from_str("No choices in Copilot response")),
        );
    }
    let choice = &copilot.choices[0];
    let content = match &choice.message.content {
        Some(s) => s.clone(),
        None => String::new(),
    };
    let tool_calls: Option<Vec<OllamaToolCall>> = match &choice.message.tool_calls {
        None => None,
        Some(tc) => {
            let cn = tc.len();
            let mut out: Vec<OllamaToolCall> = Vec::new();
            let mut j: usize = 0;
            while j < cn
                invariant
                    j <= cn,
                    cn == tc@.len(),
                    tc@ == copilot.choices@[0].message.tool_calls->0@,
                    copilot.choices@.len() > 0,
                    copilot.choices@[0].message.tool_calls is Some,
                    out@.len() == j,
                    forall|t: int|
                        0 <= t < j ==> ollama_call_ok(
                            #[trigger] out@[t],
                            tc@[t],
                            t,
                            copilot_request.tools,
                        ),
            decreases cn - j,
            {
                let t = &tc[j];
                let id = match &t.id {
                    Some(s) => s.clone(),
                    None => usize_to_string(j),
                };
                let description = lookup_description_exec(
                    &copilot_request.tools,
                    t.function.name.as_str(),
                );
                out.push(
                    OllamaToolCall {
                        id,
                        function: OllamaFunction {
                            name: t.function.name.clone(),
                            description,
                            arguments: t.function.arguments.clone(),
                        },
                    },
                );
                j += 1;
            }
            Some(out)
        },
    };
    let (prompt_eval_count, eval_count) = match &copilot.usage {
        Some(u) => (Some(u.prompt_tokens), Some(u.completion_tokens)),
        None => (None, None),
    };
    Ok(
        OllamaChatResponse {
            model: copilot_request.model.clone(),
            created_at,
            message: OllamaMessage {
                role: choice.message.role.clone(),
                content,
                thinking: None,
                tool_calls,
                images: None,
            },
            done: true,
            done_reason: Some(choice.finish_reason.clone()),
            total_duration: None,
            load_duration: None,
            prompt_eval_count,
            prompt_eval_duration: None,
            eval_count,
            eval_duration: None,
        },
    )
}

/// Reshape a canonical response into the Ollama response, rendering the
/// `created` timestamp as RFC 3339 (or stamping the current time when it is
/// absent or out of range).  The timestamp text depends on the clock only
/// in those fallback cases; everything else is pinned by
/// `ollama_transform_ok`.
pub fn transform_to_ollama_response(
    copilot_request: &CopilotChatRequest,
    copilot: CopilotChatResponse,
) -> (r: Result<OllamaChatResponse, AppError>)
    ensures
        (copilot.choices@.len() == 0) <==> r is Err,
        r matches Err(e) ==> (e matches AppError::InternalServerError(m) && m@
            == "No choices in Copilot response"@),
        r matches Ok(o) ==> ollama_transform_ok(*copilot_request, copilot, o),
{
    let created_at: String = match copilot.created {
        Some(c) => match rfc3339_of_timestamp(c) {
            Some(s) => s,
            None => now_rfc3339(),
        },
        None => now_rfc3339(),
    };
    transform_with_created_at(copilot_request, copilot, created_at)
}

// ---------------------------------------------------------------------------
// Catalog mapping
// ---------------------------------------------------------------------------
/// Reshape the upstream catalog into the Ollama tags answer, entry by
/// entry: the identifier doubles as name and model, the family doubles as
/// family and sole member of `families`, and the remaining fields carry the
/// fixed placeholders of an API-backed catalog.
pub fn to_ollama_tags(models: Vec<CopilotModel>) -> (r: OllamaTagsResponse)
    ensures
        r.models@.len() == models@.len(),
        forall|i: int|
            0 <= i < models@.len() ==> {
                let om = #[trigger] r.models@[i];
                let m = models@[i];
                om.name == m.id && om.model == m.id && om.modified_at@ == "1970-01-01T00:00:00Z"@
                    && om.size == 0 && om.digest@.len() == 0 && om.details.parent_model@.len() == 0
                    && om.details.format@ == "api"@ && om.details.family == m.family
                    && om.details.families@.len() == 1 && om.details.families@[0] == m.family
                    && om.details.parameter_size@.len() == 0
                    && om.details.quantization_level@.len() == 0
            },
{
    let ghost orig = models@;
    let mut rest = models;
    let mut out: Vec<OllamaModel> = Vec::new();
    let n = rest.len();
    let mut i: usize = 0;
    while i < n
        invariant
            i <= n,
            n == orig.len(),
            rest@ == orig.skip(i as int),
            out@.len() == i,
            forall|t: int|
                0 <= t < i ==> {
                    let om = #[trigger] out@[t];
                    let m = orig[t];
                    om.name == m.id && om.model == m.id && om.modified_at@
                        == "1970-01-01T00:00:00Z"@ && om.size == 0 && om.digest@.len() == 0
                        && om.details.parent_model@.len() == 0 && om.details.format@ == "api"@
                        && om.details.family == m.family && om.details.families@.len() == 1
                        && om.details.families@[0] == m.family && om.details.parameter_size@.len()
                        == 0 && om.details.quantization_level@.len() == 0
                },
        decreases n - i,
    {
        proof {
            assert(orig.skip(i as int).len() > 0);
        }
        let m = rest.remove(0);
        proof {
            assert(m == orig.skip(i as int)[0]);
            assert(m == orig[i as int]);
            assert(rest@ =~= orig.skip(i + 1));
        }
        let mut families: Vec<String> = Vec::new();
        families.push(m.family.clone());
        out.push(
            OllamaModel {
                name: m.id.clone(),
                model: m.id,
                modified_at: String::from_str("1970-01-01T00:00:00Z"),
                size: 0,
                digest: String::new(),
                details: OllamaModelDetails {
                    parent_model: String::new(),
                    format: String::from_str("api"),
                    family: m.family.clone(),
                    families,
                    parameter_size: String::new(),
                    quantization_level: String::new(),
                },
            },
        );
        i += 1;
    }
    OllamaTagsResponse { models: out }
}

} // verus!
