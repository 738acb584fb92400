//! The canonical (upstream) dialect: the request the gateway forwards, the
//! response it receives, and the conversions between it and the OpenAI
//! chat-completions dialect.
//!
//! The response conversion backfills a missing `created` timestamp with the
//! conversion-time clock reading (passed in by the caller) and a missing
//! choice index with the choice's position, while an explicit index is kept
//! verbatim even out of order.

use vstd::prelude::*;
use crate::openai::{
    OpenAIChatRequest, OpenAIChatResponse, OpenAIChoice, OpenAIMessage, OpenAIModel,
    OpenAIModelsResponse, OpenAIUsage, Tool, ToolCall, ToolChoice, clone_opt_string,
    clone_tool_calls,
};

verus! {

/// One message in the canonical request.
#[derive(Debug)]
pub struct CopilotMessage {
    pub role: String,
    pub content: Option<String>,
    pub padding: Option<String>,
    pub tool_calls: Option<Vec<ToolCall>>,
    pub tool_call_id: Option<String>,
    pub name: Option<String>,
}

/// The canonical chat request.  `temperature` carries the IEEE-754 bit
/// pattern of the client's 32-bit value; the gateway only passes it through.
#[derive(Debug)]
pub struct CopilotChatRequest {
    pub messages: Vec<CopilotMessage>,
    pub model: String,
    pub temperature: Option<u32>,
    pub max_tokens: Option<u32>,
    pub stream: Option<bool>,
    pub tools: Option<Vec<Tool>>,
    pub tool_choice: Option<ToolChoice>,
}

/// The canonical chat response.
#[derive(Debug)]
pub struct CopilotChatResponse {
    pub id: String,
    pub created: Option<u64>,
    pub model: String,
    pub choices: Vec<CopilotChoice>,
    pub usage: Option<CopilotUsage>,
}

/// One canonical choice; the index is optional and defaults to the
/// position in the array.
#[derive(Debug)]
pub struct CopilotChoice {
    pub index: Option<u32>,
    pub message: CopilotMessage,
    pub finish_reason: String,
}

/// Canonical token accounting.
#[derive(Debug)]
pub struct CopilotUsage {
    pub prompt_tokens: u32,
    pub completion_tokens: u32,
    pub total_tokens: u32,
}

/// One model of the upstream catalog.
#[derive(Debug)]
pub struct CopilotModel {
    pub id: String,
    pub name: String,
    pub family: String,
    pub tool_call: bool,
    pub reasoning: bool,
    pub attachment: bool,
    pub open_weights: bool,
    pub modalities: CopilotModelModalities,
    pub limit: CopilotModelLimit,
}

/// Input and output modalities of a catalog model.
#[derive(Debug)]
pub struct CopilotModelModalities {
    pub input: Vec<String>,
    pub output: Vec<String>,
}

/// Context and output limits of a catalog model.
#[derive(Debug)]
pub struct CopilotModelLimit {
    pub context: u64,
    pub output: u64,
}

/// The upstream catalog answer.
#[derive(Debug)]
pub struct CopilotModelsResponse {
    pub models: Vec<CopilotModel>,
}

impl Clone for CopilotMessage {
    fn clone(&self) -> (r: Self)
        ensures
            r.role == self.role,
            r.content == self.content,
            r.padding == self.padding,
            r.tool_calls is Some <==> self.tool_calls is Some,
            r.tool_calls matches Some(c) ==> (self.tool_calls matches Some(o) && c@ == o@),
            r.tool_call_id == self.tool_call_id,
            r.name == self.name,
    {
        CopilotMessage {
            role: self.role.clone(),
            content: clone_opt_string(&self.content),
            padding: clone_opt_string(&self.padding),
            tool_calls: match &self.tool_calls {
                Some(c) => Some(clone_tool_calls(c)),
                None => None,
            },
            tool_call_id: clone_opt_string(&self.tool_call_id),
            name: clone_opt_string(&self.name),
        }
    }
}

impl CopilotChatRequest {
    /// Reshape an OpenAI chat request into the canonical request: messages
    /// are copied field for field (`padding` stays empty) and the remaining
    /// fields carry over unchanged, with the stream flag made explicit.
    pub fn from_chat_request(req: OpenAIChatRequest) -> (r: CopilotChatRequest)
        ensures
            r.messages@.len() == req.messages@.len(),
            forall|i: int|
                0 <= i < req.messages@.len() ==> {
                    let rm = #[trigger] r.messages@[i];
                    let m = req.messages@[i];
                    rm.role == m.role && rm.content == m.content && rm.padding is None && (
                    rm.tool_calls is Some <==> m.tool_calls is Some) && (
                    rm.tool_calls matches Some(c) ==> (m.tool_calls matches Some(o) && c@ == o@))
                        && rm.tool_call_id == m.tool_call_id && rm.name == m.name
                },
            r.model == req.model,
            r.temperature == req.temperature,
            r.max_tokens == req.max_tokens,
            r.stream == Some(req.stream),
            r.tools == req.tools,
            r.tool_choice == req.tool_choice,
    {
        let mut messages: Vec<CopilotMessage> = Vec::new();
        let n = req.messages.len();
        let mut i: usize = 0;
        while i < n
            invariant
                i <= n,
                n == req.messages@.len(),
                messages@.len() == i,
                forall|t: int|
                    0 <= t < i ==> {
                        let rm = #[trigger] messages@[t];
                        let m = req.messages@[t];
                        rm.role == m.role && rm.content == m.content && rm.padding is None && (
                        rm.tool_calls is Some <==> m.tool_calls is Some) && (
                        rm.tool_calls matches Some(c) ==> (m.tool_calls matches Some(o) && c@
                            == o@)) && rm.tool_call_id == m.tool_call_id && rm.name == m.name
                    },
            decreases n - i,
        {
            let m = &req.messages[i];
            messages.push(
                CopilotMessage {
                    role: m.role.clone(),
                    content: clone_opt_string(&m.content),
                    padding: None,
                    tool_calls: match &m.tool_calls {
                        Some(c) => Some(clone_tool_calls(c)),
                        None => None,
                    },
                    tool_call_id: clone_opt_string(&m.tool_call_id),
                    name: clone_opt_string(&m.name),
                },
            );
            i += 1;
        }
        CopilotChatRequest {
            messages,
            model: req.model,
            temperature: req.temperature,
            max_tokens: req.max_tokens,
            stream: Some(req.stream),
            tools: req.tools,
            tool_choice: req.tool_choice,
        }
    }
}

/// Reshape a canonical response into the OpenAI chat-completions response.
/// A missing `created` is backfilled with `now`, the caller's clock reading
/// at conversion time; a missing choice index falls back to the choice's
/// position, while an explicit index is preserved verbatim; missing usage
/// becomes all zeros.
pub fn to_openai_chat_response(resp: CopilotChatResponse, now: u64) -> (r: OpenAIChatResponse)
    ensures
        r.id == resp.id,
        r.object@ == "chat.completion"@,
        r.created == (match resp.created {
            Some(c) => c,
            None => now,
        }),
        r.model == resp.model,
        r.choices@.len() == resp.choices@.len(),
        forall|i: int|
            0 <= i < resp.choices@.len() ==> {
                let rc = #[trigger] r.choices@[i];
                let c = resp.choices@[i];
                rc.index == (match c.index {
                    Some(x) => x,
                    None => i as u32,
                }) && rc.message.role == c.message.role && rc.message.content == c.message.content
                    && (rc.message.tool_calls is Some <==> c.message.tool_calls is Some) && (
                rc.message.tool_calls matches Some(tc) ==> (c.message.tool_calls matches Some(o)
                    && tc@ == o@)) && rc.message.tool_call_id == c.message.tool_call_id
                    && rc.message.name == c.message.name && rc.finish_reason == c.finish_reason
            },
        r.usage.prompt_tokens == (match resp.usage {
            Some(u) => u.prompt_tokens,
            None => 0,
        }),
        r.usage.completion_tokens == (match resp.usage {
            Some(u) => u.completion_tokens,
            None => 0,
        }),
        r.usage.total_tokens == (match resp.usage {
            Some(u) => u.total_tokens,
            None => 0,
        }),
{
    let created: u64 = match resp.created {
        Some(c) => c,
        None => now,
    };
    let mut choices: Vec<OpenAIChoice> = Vec::new();
    let n = resp.choices.len();
    let mut i: usize = 0;
    while i < n
        invariant
            i <= n,
            n == resp.choices@.len(),
            choices@.len() == i,
            forall|t: int|
                0 <= t < i ==> {
                    let rc = #[trigger] choices@[t];
                    let c = resp.choices@[t];
                    rc.index == (match c.index {
                        Some(x) => x,
                        None => t as u32,
                    }) && rc.message.role == c.message.role && rc.message.content
                        == c.message.content && (rc.message.tool_calls is Some
                        <==> c.message.tool_calls is Some) && (
                    rc.message.tool_calls matches Some(tc) ==> (c.message.tool_calls matches Some(
                        o,
                    ) && tc@ == o@)) && rc.message.tool_call_id == c.message.tool_call_id
                        && rc.message.name == c.message.name && rc.finish_reason == c.finish_reason
                },
        decreases n - i,
    {
        let c = &resp.choices[i];
        let index: u32 = match &c.index {
            Some(x) => *x,
            None => #[verifier::truncate] (i as u32),
        };
        let cm = c.message.clone();
        choices.push(
            OpenAIChoice {
                index,
                message: OpenAIMessage {
                    role: cm.role,
                    content: cm.content,
                    tool_calls: cm.tool_calls,
                    tool_call_id: cm.tool_call_id,
                    name: cm.name,
                },
                finish_reason: c.finish_reason.clone(),
            },
        );
        i += 1;
    }
    let usage = match &resp.usage {
        Some(u) => OpenAIUsage {
            prompt_tokens: u.prompt_tokens,
            completion_tokens: u.completion_tokens,
            total_tokens: u.total_tokens,
        },
        None => OpenAIUsage { prompt_tokens: 0, completion_tokens: 0, total_tokens: 0 },
    };
    OpenAIChatResponse {
        id: resp.id,
        object: String::from_str("chat.completion"),
        created,
        model: resp.model,
        choices,
        usage,
    }
}

impl CopilotModel {
    /// One catalog entry, reshaped for the OpenAI catalog: the identifier
    /// carries over, the family becomes the owner, and the timestamp is the
    /// fixed value the catalog passthrough has always reported.
    pub fn to_openai_model(self) -> (r: OpenAIModel)
        ensures
            r.id == self.id,
            r.object@ == "model"@,
            r.created == 1687882411,
            r.owned_by == self.family,
    {
        OpenAIModel {
            id: self.id,
            object: String::from_str("model"),
            created: 1687882411,
            owned_by: self.family,
        }
    }
}

/// Reshape the upstream catalog answer into the OpenAI catalog answer,
/// entry by entry and in order.
pub fn to_openai_models_response(resp: CopilotModelsResponse) -> (r: OpenAIModelsResponse)
    ensures
        r.data@.len() == resp.models@.len(),
        forall|i: int|
            0 <= i < resp.models@.len() ==> {
                let rm = #[trigger] r.data@[i];
                let m = resp.models@[i];
                rm.id == m.id && rm.object@ == "model"@ && rm.created == 1687882411 && rm.owned_by
                    == m.family
            },
{
    let ghost orig = resp.models@;
    let mut models = resp.models;
    let mut out: Vec<OpenAIModel> = Vec::new();
    let mut i: usize = 0;
    let n = models.len();
    while i < n
        invariant
            i <= n,
            n == orig.len(),
            models@ == orig.skip(i as int),
            out@.len() == i,
            forall|t: int|
                0 <= t < i ==> {
                    let rm = #[trigger] out@[t];
                    let m = orig[t];
                    rm.id == m.id && rm.object@ == "model"@ && rm.created == 1687882411
                        && rm.owned_by == m.family
                },
        decreases n - i,
    {
        proof {
            assert(orig.skip(i as int).len() > 0);
        }
        let m = models.remove(0);
        proof {
            assert(m == orig.skip(i as int)[0]);
            assert(m == orig[i as int]);
            assert(models@ =~= orig.skip(i + 1));
        }
        out.push(m.to_openai_model());
        i += 1;
    }
    proof {
        assert(out@.len() == orig.len());
    }
    OpenAIModelsResponse { data: out }
}

} // verus!
