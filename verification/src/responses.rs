//! The OpenAI Responses dialect: the single-prompt request, the structured
//! completion response, and the conversions to and from the canonical
//! dialect.
//!
//! The request conversion synthesizes a leading system message from the
//! instructions, flattens structured input blocks to newline-joined text,
//! folds `function_call` / `function_call_output` items into a synthesized
//! assistant tool-call message followed by positionally-paired tool-result
//! messages, and maps schema tool definitions into canonical tool
//! definitions.  The response conversion maps each canonical choice to
//! exactly one output item: a message (with a refusal placeholder when there
//! is no content) or the choice's first function call.

use vstd::prelude::*;
use vstd::string::StringExecFns;
use crate::copilot::{CopilotChatRequest, CopilotChatResponse, CopilotChoice, CopilotMessage};
use crate::openai::{FunctionCall, FunctionDefinition, ToolCall, clone_opt_string};
use crate::text::{
    append_json_bool, append_json_string, append_json_string_array, dec_digits, json_bool,
    json_string, json_string_array, str_eq, usize_to_string,
};

verus! {

/// A Responses-dialect request.
#[derive(Debug)]
pub struct PromptRequest {
    pub input: Vec<Message>,
    pub model: String,
    pub instructions: Option<String>,
    pub max_output_tokens: Option<u32>,
    pub tools: Vec<Tool>,
    pub stream: bool,
}

/// One input item: a user message, a prior function call, or a function
/// call's output, told apart by `message_type`.
#[derive(Debug)]
pub struct Message {
    pub role: Option<String>,
    pub message_type: String,
    pub content: Option<Vec<Content>>,
    pub name: Option<String>,
    pub arguments: Option<String>,
    pub output: Option<String>,
}

/// One structured content block of an input item.
#[derive(Debug)]
pub enum Content {
    InputText { text: String },
}

/// A Responses-dialect tool definition.
#[derive(Debug)]
pub struct Tool {
    pub name: String,
    pub parameters: ToolParameters,
    pub strict: bool,
    pub tool_type: String,
    pub description: String,
}

/// The schema of a Responses-dialect tool.  `properties` carries the
/// property map as raw JSON text; the gateway never interprets it.
#[derive(Debug)]
pub struct ToolParameters {
    pub properties: String,
    pub param_type: String,
    pub additional_properties: bool,
    pub required: Vec<String>,
}

/// A Responses-dialect completion.
#[derive(Debug)]
pub struct CompletionResponse {
    pub id: String,
    pub object: ResponseObject,
    pub created_at: u64,
    pub status: ResponseStatus,
    pub error: Option<ResponseError>,
    pub incomplete_details: Option<IncompleteDetailsReason>,
    pub instructions: Option<String>,
    pub max_output_tokens: Option<u64>,
    pub model: String,
    pub usage: Option<ResponsesUsage>,
    pub output: Vec<Output>,
    pub tools: Vec<ResponsesToolDefinition>,
    pub additional_parameters: AdditionalParameters,
}

/// The object tag of a completion.
#[derive(Debug, PartialEq)]
pub enum ResponseObject {
    Response,
}

/// The lifecycle status of a completion or an output item.
#[derive(Debug, PartialEq)]
pub enum ResponseStatus {
    InProgress,
    Completed,
    Failed,
    Cancelled,
    Queued,
    Incomplete,
}

/// An error reported inside a completion.
#[derive(Debug)]
pub struct ResponseError {
    pub code: String,
    pub message: String,
}

/// Why a completion came back incomplete.
#[derive(Debug)]
pub struct IncompleteDetailsReason {
    pub reason: String,
}

/// Token accounting in the Responses shape.
#[derive(Debug)]
pub struct ResponsesUsage {
    pub input_tokens: u64,
    pub input_tokens_details: Option<InputTokensDetails>,
    pub output_tokens: u64,
    pub output_tokens_details: OutputTokensDetails,
    pub total_tokens: u64,
}

/// Detail on input tokens.
#[derive(Debug)]
pub struct InputTokensDetails {
    pub cached_tokens: u64,
}

/// Detail on output tokens.
#[derive(Debug)]
pub struct OutputTokensDetails {
    pub reasoning_tokens: u64,
}

/// A tool definition echoed back in a completion.  `parameters` carries raw
/// JSON text.
#[derive(Debug)]
pub struct ResponsesToolDefinition {
    pub name: String,
    pub parameters: String,
    pub strict: bool,
    pub kind: String,
    pub description: String,
}

/// One output item of a completion.
#[derive(Debug)]
pub enum Output {
    Message(OutputMessage),
    FunctionCall(OutputFunctionCall),
    Reasoning { id: String, summary: Vec<ReasoningSummary> },
}

/// An output message item.
#[derive(Debug)]
pub struct OutputMessage {
    pub id: String,
    pub role: OutputRole,
    pub status: ResponseStatus,
    pub content: Vec<AssistantContent>,
}

/// The role of an output message.
#[derive(Debug, PartialEq)]
pub enum OutputRole {
    Assistant,
}

impl OutputRole {
    /// The wire spelling of the role.
    pub fn as_text(&self) -> (r: String)
        ensures
            r@ == "assistant"@,
    {
        String::from_str("assistant")
    }
}

/// Assistant content inside an output message.
#[derive(Debug)]
pub enum AssistantContent {
    OutputText(Text),
    Refusal { refusal: String },
}

/// Plain text content.
#[derive(Debug)]
pub struct Text {
    pub text: String,
}

/// A function-call output item.
#[derive(Debug)]
pub struct OutputFunctionCall {
    pub id: String,
    pub arguments: String,
    pub call_id: String,
    pub name: String,
    pub status: ToolStatus,
}

/// The status of a tool invocation.
#[derive(Debug, PartialEq)]
pub enum ToolStatus {
    InProgress,
    Completed,
    Incomplete,
}

/// One element of a reasoning summary.
#[derive(Debug)]
pub enum ReasoningSummary {
    SummaryText { text: String },
}

/// Reasoning configuration.
#[derive(Debug)]
pub struct Reasoning {
    pub effort: Option<ReasoningEffort>,
    pub summary: Option<ReasoningSummaryLevel>,
}

/// How hard the model should think.
#[derive(Debug)]
pub enum ReasoningEffort {
    NoEffort,
    Minimal,
    Low,
    Medium,
    High,
}

/// How detailed the reasoning summary should be.
#[derive(Debug)]
pub enum ReasoningSummaryLevel {
    Auto,
    Concise,
    Detailed,
}

/// Extra result kinds a client may ask for.
#[derive(Debug)]
pub enum Include {
    FileSearchCallResults,
    MessageInputImageImageUrl,
    ComputerCallOutputOutputImageUrl,
    ReasoningEncryptedContent,
    CodeInterpreterCallOutputs,
}

/// The truncation strategy of a request.
#[derive(Debug)]
pub enum TruncationStrategy {
    Auto,
    Disabled,
}

/// The billing service tier.
#[derive(Debug)]
pub enum OpenAIServiceTier {
    Auto,
    Default,
    Flex,
}

/// Optional request parameters echoed in a completion.  `top_p` carries the
/// IEEE-754 bit pattern of the client's 64-bit value; the gateway never
/// interprets it.
#[derive(Debug)]
pub struct AdditionalParameters {
    pub background: Option<bool>,
    pub included: Option<Vec<Include>>,
    pub top_p: Option<u64>,
    pub truncation: Option<TruncationStrategy>,
    pub user: Option<String>,
    pub parallel_tool_calls: Option<bool>,
    pub previous_response_id: Option<String>,
    pub reasoning: Option<Reasoning>,
    pub service_tier: Option<OpenAIServiceTier>,
    pub store: Option<bool>,
}

/// Every optional parameter is absent.
pub open spec fn additional_defaults(a: AdditionalParameters) -> bool {
    &&& a.background is None
    &&& a.included is None
    &&& a.top_p is None
    &&& a.truncation is None
    &&& a.user is None
    &&& a.parallel_tool_calls is None
    &&& a.previous_response_id is None
    &&& a.reasoning is None
    &&& a.service_tier is None
    &&& a.store is None
}

impl Default for AdditionalParameters {
    /// The empty parameter set.
    fn default() -> (r: Self)
        ensures
            additional_defaults(r),
    {
        AdditionalParameters {
            background: None,
            included: None,
            top_p: None,
            truncation: None,
            user: None,
            parallel_tool_calls: None,
            previous_response_id: None,
            reasoning: None,
            service_tier: None,
            store: None,
        }
    }
}

// ---------------------------------------------------------------------------
// Canonical response -> Responses completion
// ---------------------------------------------------------------------------
/// Whether a choice carries at least one tool call.
pub open spec fn choice_has_calls(c: CopilotChoice) -> bool {
    c.message.tool_calls matches Some(tc) && tc@.len() > 0
}

/// The `(name, arguments, type)` views of a choice's tool calls.
pub open spec fn choice_call_views(c: CopilotChoice) -> Seq<(Seq<char>, Seq<char>, Seq<char>)> {
    match c.message.tool_calls {
        Some(tc) => tc@.map_values(
            |t: ToolCall| (t.function.name@, t.function.arguments@, t.tool_type@),
        ),
        None => Seq::empty(),
    }
}

/// The `(name, arguments, type)` views of every tool call of every choice,
/// in order.
pub open spec fn tool_defs_view(choices: Seq<CopilotChoice>) -> Seq<
    (Seq<char>, Seq<char>, Seq<char>),
>
    decreases choices.len(),
{
    if choices.len() == 0 {
        Seq::empty()
    } else {
        tool_defs_view(choices.drop_last()) + choice_call_views(choices.last())
    }
}

/// Appending one choice extends the flattened tool definitions by its calls.
proof fn lemma_tool_defs_step(choices: Seq<CopilotChoice>, i: int)
    requires
        0 <= i < choices.len(),
    ensures
        tool_defs_view(choices.take(i + 1)) == tool_defs_view(choices.take(i))
            + choice_call_views(choices[i]),
{
    assert(choices.take(i + 1).drop_last() =~= choices.take(i));
    assert(choices.take(i + 1).last() == choices[i]);
}

impl CopilotChatResponse {
    /// Reshape a canonical response into a Responses completion.  Each
    /// choice becomes exactly one output item: its first tool call when it
    /// carries any, otherwise a completed assistant message holding the
    /// choice's text (or a refusal placeholder reading `No content`).  Every
    /// tool call of every choice is echoed as a tool definition.  A missing
    /// `created` timestamp becomes zero.
    pub fn to_completion_response(self) -> (r: CompletionResponse)
        ensures
            r.id == self.id,
            r.object is Response,
            r.created_at == (match self.created {
                Some(c) => c,
                None => 0,
            }),
            r.status is Completed,
            r.error is None,
            r.incomplete_details is None,
            r.instructions is None,
            r.max_output_tokens is None,
            r.model == self.model,
            match self.usage {
                Some(u) => r.usage matches Some(ru) && ru.input_tokens == u.prompt_tokens
                    && ru.input_tokens_details is None && ru.output_tokens == u.completion_tokens
                    && ru.output_tokens_details.reasoning_tokens == 0 && ru.total_tokens
                    == u.total_tokens,
                None => r.usage is None,
            },
            r.output@.len() == self.choices@.len(),
            forall|i: int|
                0 <= i < self.choices@.len() ==> {
                    let c = self.choices@[i];
                    if choice_has_calls(c) {
                        &&& #[trigger] r.output@[i] matches Output::FunctionCall(f)
                        &&& (match c.message.tool_calls->0[0].id {
                            Some(s) => f.id == s,
                            None => f.id@ == Seq::<char>::empty(),
                        })
                        &&& f.arguments == c.message.tool_calls->0[0].function.arguments
                        &&& (match c.message.tool_call_id {
                            Some(s) => f.call_id == s,
                            None => f.call_id@ == Seq::<char>::empty(),
                        })
                        &&& f.name == c.message.tool_calls->0[0].function.name
                        &&& f.status is Completed
                    } else {
                        &&& #[trigger] r.output@[i] matches Output::Message(om)
                        &&& om.id@ == self.id@ + "-"@ + dec_digits(i as nat)
                        &&& om.role is Assistant
                        &&& om.status is Completed
                        &&& om.content@.len() == 1
                        &&& (match c.message.content {
                            Some(s) => om.content@[0] matches AssistantContent::OutputText(t)
                                && t.text == s,
                            None => om.content@[0] matches AssistantContent::Refusal { refusal }
                                && refusal@ == "No content"@,
                        })
                    }
                },
            r.tools@.len() == tool_defs_view(self.choices@).len(),
            forall|i: int|
                0 <= i < r.tools@.len() ==> {
                    let d = #[trigger] r.tools@[i];
                    let v = tool_defs_view(self.choices@)[i];
                    d.name@ == v.0 && d.parameters@ == v.1 && d.strict == true && d.kind@ == v.2
                        && d.description@.len() == 0
                },
            additional_defaults(r.additional_parameters),
    {
        let n = self.choices.len();
        let mut output: Vec<Output> = Vec::new();
        let mut i: usize = 0;
        while i < n
            invariant
                i <= n,
                n == self.choices@.len(),
                output@.len() == i,
                forall|t: int|
                    0 <= t < i ==> {
                        let c = self.choices@[t];
                        if choice_has_calls(c) {
                            &&& #[trigger] output@[t] matches Output::FunctionCall(f)
                            &&& (match c.message.tool_calls->0[0].id {
                                Some(s) => f.id == s,
                                None => f.id@ == Seq::<char>::empty(),
                            })
                            &&& f.arguments == c.message.tool_calls->0[0].function.arguments
                            &&& (match c.message.tool_call_id {
                                Some(s) => f.call_id == s,
                                None => f.call_id@ == Seq::<char>::empty(),
                            })
                            &&& f.name == c.message.tool_calls->0[0].function.name
                            &&& f.status is Completed
                        } else {
                            &&& #[trigger] output@[t] matches Output::Message(om)
                            &&& om.id@ == self.id@ + "-"@ + dec_digits(t as nat)
                            &&& om.role is Assistant
                            &&& om.status is Completed
                            &&& om.content@.len() == 1
                            &&& (match c.message.content {
                                Some(s) => om.content@[0] matches AssistantContent::OutputText(tx)
                                    && tx.text == s,
                                None => om.content@[0] matches AssistantContent::Refusal { refusal }
                                    && refusal@ == "No content"@,
                            })
                        }
                    },
            decreases n - i,
        {
            let c = &self.choices[i];
            let has_calls = match &c.message.tool_calls {
                Some(tc) => tc.len() > 0,
                None => false,
            };
            if has_calls {
                let tc = match &c.message.tool_calls {
                    Some(tc) => tc,
                    None => {
                        proof {
                            assert(false);
                        }
                        return CompletionResponse {
                            id: self.id,
                            object: ResponseObject::Response,
                            created_at: 0,
                            status: ResponseStatus::Completed,
                            error: None,
                            incomplete_details: None,
                            instructions: None,
                            max_output_tokens: None,
                            model: self.model,
                            usage: None,
                            output: Vec::new(),
                            tools: Vec::new(),
                            additional_parameters: AdditionalParameters::default(),
                        };
                    },
                };
                let t0 = &tc[0];
                output.push(
                    Output::FunctionCall(
                        OutputFunctionCall {
                            id: match &t0.id {
                                Some(s) => s.clone(),
                                None => String::new(),
                            },
                            arguments: t0.function.arguments.clone(),
                            call_id: match &c.message.tool_call_id {
                                Some(s) => s.clone(),
                                None => String::new(),
                            },
                            name: t0.function.name.clone(),
                            status: ToolStatus::Completed,
                        },
                    ),
                );
            } else {
                let mut om_id = self.id.clone();
                om_id.append("-");
                let digits = usize_to_string(i);
                om_id.append(digits.as_str());
                let piece = match &c.message.content {
                    Some(s) => AssistantContent::OutputText(Text { text: s.clone() }),
                    None => AssistantContent::Refusal {
                        refusal: String::from_str("No content"),
                    },
                };
                let mut content: Vec<AssistantContent> = Vec::new();
                content.push(piece);
                output.push(
                    Output::Message(
                        OutputMessage {
                            id: om_id,
                            role: OutputRole::Assistant,
                            status: ResponseStatus::Completed,
                            content,
                        },
                    ),
                );
            }
            i += 1;
        }
        // Echo every tool call of every choice as a tool definition.
        let mut tools: Vec<ResponsesToolDefinition> = Vec::new();
        let mut i2: usize = 0;
        proof {
            assert(self.choices@.take(0) =~= Seq::<CopilotChoice>::empty());
        }
        while i2 < n
            invariant
                i2 <= n,
                n == self.choices@.len(),
                tools@.len() == tool_defs_view(self.choices@.take(i2 as int)).len(),
                forall|t: int|
                    0 <= t < tools@.len() ==> {
                        let d = #[trigger] tools@[t];
                        let v = tool_defs_view(self.choices@.take(i2 as int))[t];
                        d.name@ == v.0 && d.parameters@ == v.1 && d.strict == true && d.kind@ == v.2
                            && d.description@.len() == 0
                    },
            decreases n - i2,
        {
            let c = &self.choices[i2];
            match &c.message.tool_calls {
                Some(tc) => {
                    let cn = tc.len();
                    let mut j: usize = 0;
                    while j < cn
                        invariant
                            j <= cn,
                            i2 < n,
                            n == self.choices@.len(),
                            cn == tc@.len(),
                            tc@ == self.choices@[i2 as int].message.tool_calls->0@,
                            self.choices@[i2 as int].message.tool_calls is Some,
                            tools@.len() == tool_defs_view(self.choices@.take(i2 as int)).len()
                                + j,
                            forall|t: int|
                                0 <= t < tool_defs_view(self.choices@.take(i2 as int)).len()
                                    ==> {
                                    let d = #[trigger] tools@[t];
                                    let v = tool_defs_view(self.choices@.take(i2 as int))[t];
                                    d.name@ == v.0 && d.parameters@ == v.1 && d.strict == true
                                        && d.kind@ == v.2 && d.description@.len() == 0
                                },
                            forall|t: int|
                                0 <= t < j ==> {
                                    let d = #[trigger] tools@[tool_defs_view(
                                        self.choices@.take(i2 as int),
                                    ).len() + t];
                                    let v = choice_call_views(self.choices@[i2 as int])[t];
                                    d.name@ == v.0 && d.parameters@ == v.1 && d.strict == true
                                        && d.kind@ == v.2 && d.description@.len() == 0
                                },
                        decreases cn - j,
                    {
                        let t = &tc[j];
                        tools.push(
                            ResponsesToolDefinition {
                                name: t.function.name.clone(),
                                parameters: t.function.arguments.clone(),
                                strict: true,
                                kind: t.tool_type.clone(),
                                description: String::new(),
                            },
                        );
                        proof {
                            let jj = j as int;
                            assert(choice_call_views(self.choices@[i2 as int])[jj] == (
                            tc@[jj].function.name@,
                            tc@[jj].function.arguments@,
                            tc@[jj].tool_type@,
                            ));
                        }
                        j += 1;
                    }
                    proof {
                        lemma_tool_defs_step(self.choices@, i2 as int);
                        let base = tool_defs_view(self.choices@.take(i2 as int));
                        let cvs = choice_call_views(self.choices@[i2 as int]);
                        let whole = tool_defs_view(self.choices@.take(i2 + 1));
                        assert(cvs.len() == cn);
                        assert(whole == base + cvs);
                        assert forall|t: int| 0 <= t < tools@.len() implies {
                            let d = #[trigger] tools@[t];
                            let v = whole[t];
                            d.name@ == v.0 && d.parameters@ == v.1 && d.strict == true && d.kind@
                                == v.2 && d.description@.len() == 0
                        } by {
                            if t < base.len() {
                                assert(whole[t] == base[t]);
                            } else {
                                let u = t - base.len();
                                assert(tools@[base.len() + u] == tools@[t]);
                                assert(whole[t] == cvs[u]);
                            }
                        }
                    }
                },
                None => {
                    proof {
                        lemma_tool_defs_step(self.choices@, i2 as int);
                        assert(choice_call_views(self.choices@[i2 as int]) =~= Seq::<
                            (Seq<char>, Seq<char>, Seq<char>),
                        >::empty());
                        assert(tool_defs_view(self.choices@.take(i2 + 1)) =~= tool_defs_view(
                            self.choices@.take(i2 as int),
                        ));
                    }
                },
            }
            i2 += 1;
        }
        proof {
            assert(self.choices@.take(n as int) =~= self.choices@);
        }
        let usage = match &self.usage {
            Some(u) => Some(
                ResponsesUsage {
                    input_tokens: u.prompt_tokens as u64,
                    input_tokens_details: None,
                    output_tokens: u.completion_tokens as u64,
                    output_tokens_details: OutputTokensDetails { reasoning_tokens: 0 },
                    total_tokens: u.total_tokens as u64,
                },
            ),
            None => None,
        };
        let created_at: u64 = match self.created {
            Some(c) => c,
            None => 0,
        };
        CompletionResponse {
            id: self.id,
            object: ResponseObject::Response,
            created_at,
            status: ResponseStatus::Completed,
            error: None,
            incomplete_details: None,
            instructions: None,
            max_output_tokens: None,
            model: self.model,
            usage,
            output,
            tools,
            additional_parameters: AdditionalParameters::default(),
        }
    }
}

// ---------------------------------------------------------------------------
// Responses request -> canonical request
// ---------------------------------------------------------------------------
/// The text of one content block.
pub open spec fn block_text(c: Content) -> Seq<char> {
    match c {
        Content::InputText { text } => text@,
    }
}

/// The blocks' texts joined with newlines.
pub open spec fn joined_blocks(blocks: Seq<Content>) -> Seq<char>
    decreases blocks.len(),
{
    if blocks.len() == 0 {
        Seq::empty()
    } else if blocks.len() == 1 {
        block_text(blocks[0])
    } else {
        joined_blocks(blocks.drop_last()) + "\n"@ + block_text(blocks.last())
    }
}

/// The flattened text of an input item: its blocks joined, or empty.
pub open spec fn item_text(m: Message) -> Seq<char> {
    match m.content {
        Some(blocks) => joined_blocks(blocks@),
        None => Seq::empty(),
    }
}

/// An input item carrying a user message.
pub open spec fn is_user_item(m: Message) -> bool {
    m.role matches Some(r) && r@ == "user"@
}

/// An input item replaying a prior function call.
pub open spec fn is_call_item(m: Message) -> bool {
    m.message_type@ == "function_call"@
}

/// An input item carrying a function call's output.
pub open spec fn is_output_item(m: Message) -> bool {
    m.message_type@ == "function_call_output"@
}

/// The function name a call item references, with the placeholder the
/// gateway substitutes when the item left it unset.
pub open spec fn call_name(m: Message) -> Seq<char> {
    match m.name {
        Some(s) => s@,
        None => "SHOULD HAVE BEEN SET"@,
    }
}

/// The arguments a call item carries, with the same placeholder rule.
pub open spec fn call_args(m: Message) -> Seq<char> {
    match m.arguments {
        Some(s) => s@,
        None => "SHOULD HAVE BEEN SET"@,
    }
}

/// The user items of the input, in order.
pub open spec fn user_items(input: Seq<Message>) -> Seq<Message>
    decreases input.len(),
{
    if input.len() == 0 {
        Seq::empty()
    } else {
        user_items(input.drop_last()) + (if is_user_item(input.last()) {
            seq![input.last()]
        } else {
            Seq::empty()
        })
    }
}

/// The function-call items of the input, in order.
pub open spec fn call_items(input: Seq<Message>) -> Seq<Message>
    decreases input.len(),
{
    if input.len() == 0 {
        Seq::empty()
    } else {
        call_items(input.drop_last()) + (if is_call_item(input.last()) {
            seq![input.last()]
        } else {
            Seq::empty()
        })
    }
}

/// The function-call-output items of the input, in order.
pub open spec fn output_items(input: Seq<Message>) -> Seq<Message>
    decreases input.len(),
{
    if input.len() == 0 {
        Seq::empty()
    } else {
        output_items(input.drop_last()) + (if is_output_item(input.last()) {
            seq![input.last()]
        } else {
            Seq::empty()
        })
    }
}

proof fn lemma_user_items_step(input: Seq<Message>, i: int)
    requires
        0 <= i < input.len(),
    ensures
        user_items(input.take(i + 1)) == user_items(input.take(i)) + (if is_user_item(input[i]) {
            seq![input[i]]
        } else {
            Seq::empty()
        }),
{
    assert(input.take(i + 1).drop_last() =~= input.take(i));
    assert(input.take(i + 1).last() == input[i]);
}

proof fn lemma_call_items_step(input: Seq<Message>, i: int)
    requires
        0 <= i < input.len(),
    ensures
        call_items(input.take(i + 1)) == call_items(input.take(i)) + (if is_call_item(input[i]) {
            seq![input[i]]
        } else {
            Seq::empty()
        }),
{
    assert(input.take(i + 1).drop_last() =~= input.take(i));
    assert(input.take(i + 1).last() == input[i]);
}

proof fn lemma_output_items_step(input: Seq<Message>, i: int)
    requires
        0 <= i < input.len(),
    ensures
        output_items(input.take(i + 1)) == output_items(input.take(i)) + (if is_output_item(
            input[i],
        ) {
            seq![input[i]]
        } else {
            Seq::empty()
        }),
{
    assert(input.take(i + 1).drop_last() =~= input.take(i));
    assert(input.take(i + 1).last() == input[i]);
}

/// How many output items find a partner: outputs are paired positionally
/// with call items, and the shorter list decides.
pub open spec fn paired_count(outs: int, calls: int) -> int {
    if outs < calls {
        outs
    } else {
        calls
    }
}

/// How many canonical messages the conversion produces: the system message,
/// one message per user item, and — when any call item exists — one
/// assistant message plus the paired tool-result messages.
pub open spec fn prompt_message_count(input: Seq<Message>) -> int {
    1 + user_items(input).len() + (if call_items(input).len() > 0 {
        1 + paired_count(output_items(input).len() as int, call_items(input).len() as int)
    } else {
        0
    })
}

/// The canonical JSON text of a tool schema, as the gateway frames it.
pub open spec fn schema_json(p: ToolParameters) -> Seq<char> {
    "{\"type\":"@ + json_string(p.param_type@) + ",\"properties\":"@ + p.properties@
        + ",\"required\":"@ + json_string_array(p.required.deep_view())
        + ",\"additionalProperties\":"@ + json_bool(p.additional_properties) + "}"@
}

/// The synthesized leading system message.
pub open spec fn is_system_msg(m: CopilotMessage, instructions: Option<String>) -> bool {
    &&& m.role@ == "system"@
    &&& m.content == instructions
    &&& m.padding is None
    &&& m.tool_calls is None
    &&& m.tool_call_id is None
    &&& m.name is None
}

/// The canonical message carrying one user item's flattened text.
pub open spec fn is_user_msg(m: CopilotMessage, item: Message) -> bool {
    &&& m.role@ == "user"@
    &&& (m.content matches Some(s) && s@ == item_text(item))
    &&& m.padding is None
    &&& m.tool_calls is None
    &&& m.tool_call_id is None
    &&& m.name is None
}

/// The tool call synthesized from the `j`-th call item.
pub open spec fn is_call_entry(c: ToolCall, item: Message, j: int) -> bool {
    &&& (c.id matches Some(s) && s@ == dec_digits(j as nat))
    &&& c.tool_type@ == "function"@
    &&& c.function.name@ == call_name(item)
    &&& c.function.arguments@ == call_args(item)
}

/// The synthesized assistant message holding every call item as a tool call.
pub open spec fn is_assistant_calls_msg(m: CopilotMessage, calls: Seq<Message>) -> bool {
    &&& m.role@ == "assistant"@
    &&& m.content is None
    &&& m.padding is None
    &&& (m.tool_calls matches Some(cs) && cs@.len() == calls.len() && (forall|j: int|
        0 <= j < calls.len() ==> is_call_entry(#[trigger] cs@[j], calls[j], j)))
    &&& m.tool_call_id is None
    &&& m.name is None
}

/// The tool-result message pairing the `k`-th output item with the `k`-th
/// call item.
pub open spec fn is_tool_result_msg(m: CopilotMessage, item: Message, callee: Message, k: int) -> bool {
    &&& m.role@ == "tool"@
    &&& m.content == item.output
    &&& m.padding is None
    &&& m.tool_calls is None
    &&& (m.tool_call_id matches Some(s) && s@ == dec_digits(k as nat))
    &&& (m.name matches Some(s) && s@ == call_name(callee))
}

/// One canonical tool definition built from a Responses tool definition.
pub open spec fn is_canonical_tool(t: crate::openai::Tool, src: Tool) -> bool {
    &&& t.tool_type == src.tool_type
    &&& t.function.name == src.name
    &&& t.function.description == Some(src.description)
    &&& t.function.parameters@ == schema_json(src.parameters)
}

/// Render a tool schema as canonical JSON text.
fn render_schema(p: &ToolParameters) -> (r: String)
    ensures
        r@ == schema_json(*p),
{
    let mut out = String::new();
    out.append("{\"type\":");
    append_json_string(&mut out, p.param_type.as_str());
    out.append(",\"properties\":");
    out.append(p.properties.as_str());
    out.append(",\"required\":");
    append_json_string_array(&mut out, &p.required);
    out.append(",\"additionalProperties\":");
    append_json_bool(&mut out, p.additional_properties);
    out.append("}");
    proof {
        assert(out@ =~= schema_json(*p));
    }
    out
}

/// Flatten an item's content blocks to newline-joined text.
fn flatten_blocks(content: &Option<Vec<Content>>) -> (r: String)
    ensures
        r@ == (match content {
            Some(blocks) => joined_blocks(blocks@),
            None => Seq::<char>::empty(),
        }),
{
    match content {
        Some(blocks) => {
            let mut out = String::new();
            let n = blocks.len();
            let mut i: usize = 0;
            proof {
                assert(blocks@.take(0) =~= Seq::<Content>::empty());
            }
            while i < n
                invariant
                    i <= n,
                    n == blocks@.len(),
                    out@ == joined_blocks(blocks@.take(i as int)),
                decreases n - i,
            {
                if i > 0 {
                    out.append("\n");
                }
                match &blocks[i] {
                    Content::InputText { text } => out.append(text.as_str()),
                }
                proof {
                    assert(blocks@.take(i + 1).drop_last() =~= blocks@.take(i as int));
                    assert(blocks@.take(i + 1).last() == blocks@[i as int]);
                    if i == 0 {
                        assert(out@ =~= joined_blocks(blocks@.take(1)));
                    } else {
                        assert(out@ =~= joined_blocks(blocks@.take(i as int)) + "\n"@ + block_text(
                            blocks@[i as int],
                        ));
                        assert(out@ =~= joined_blocks(blocks@.take(i + 1)));
                    }
                }
                i += 1;
            }
            proof {
                assert(blocks@.take(n as int) =~= blocks@);
            }
            out
        },
        None => String::new(),
    }
}

impl PromptRequest {
    /// Reshape a Responses request into the canonical request: a leading
    /// system message carries the instructions, each user item becomes one
    /// user message with its blocks flattened to newline-joined text, the
    /// call items (if any) fold into one synthesized assistant tool-call
    /// message followed by the positionally-paired tool-result messages, and
    /// the tool definitions map to canonical tool definitions with their
    /// schema framed as JSON text.
    pub fn to_copilot_request(self) -> (r: CopilotChatRequest)
        ensures
            r.model == self.model,
            r.temperature is None,
            r.max_tokens == self.max_output_tokens,
            r.stream == Some(false),
            r.tool_choice is None,
            r.messages@.len() == prompt_message_count(self.input@),
            is_system_msg(r.messages@[0], self.instructions),
            forall|t: int|
                0 <= t < user_items(self.input@).len() ==> is_user_msg(
                    #[trigger] r.messages@[1 + t],
                    user_items(self.input@)[t],
                ),
            call_items(self.input@).len() > 0 ==> is_assistant_calls_msg(
                r.messages@[1 + user_items(self.input@).len() as int],
                call_items(self.input@),
            ),
            call_items(self.input@).len() > 0 ==> (forall|t: int|
                0 <= t < paired_count(
                    output_items(self.input@).len() as int,
                    call_items(self.input@).len() as int,
                ) ==> is_tool_result_msg(
                    #[trigger] r.messages@[2 + user_items(self.input@).len() + t],
                    output_items(self.input@)[t],
                    call_items(self.input@)[t],
                    t,
                )),
            self.tools@.len() == 0 ==> r.tools is None,
            self.tools@.len() > 0 ==> (r.tools matches Some(ts) && ts@.len() == self.tools@.len()
                && (forall|t: int|
                0 <= t < self.tools@.len() ==> is_canonical_tool(
                    #[trigger] ts@[t],
                    self.tools@[t],
                ))),
    {
        let ghost input_v = self.input@;
        let mut messages: Vec<CopilotMessage> = Vec::new();
        messages.push(
            CopilotMessage {
                role: String::from_str("system"),
                content: self.instructions,
                padding: None,
                tool_calls: None,
                tool_call_id: None,
                name: None,
            },
        );
        let ghost system_msg = messages@[0];
        let n = self.input.len();
        // One user message per user item, in order.
        let mut i: usize = 0;
        proof {
            assert(input_v.take(0) =~= Seq::<Message>::empty());
        }
        while i < n
            invariant
                i <= n,
                n == input_v.len(),
                self.input@ == input_v,
                messages@.len() == 1 + user_items(input_v.take(i as int)).len(),
                messages@[0] == system_msg,
                forall|t: int|
                    0 <= t < user_items(input_v.take(i as int)).len() ==> is_user_msg(
                        #[trigger] messages@[1 + t],
                        user_items(input_v.take(i as int))[t],
                    ),
            decreases n - i,
        {
            let m = &self.input[i];
            proof {
                lemma_user_items_step(input_v, i as int);
            }
            let is_user = match &m.role {
                Some(rr) => str_eq(rr.as_str(), "user"),
                None => false,
            };
            if is_user {
                let txt = flatten_blocks(&m.content);
                let ghost before = messages@;
                messages.push(
                    CopilotMessage {
                        role: String::from_str("user"),
                        content: Some(txt),
                        padding: None,
                        tool_calls: None,
                        tool_call_id: None,
                        name: None,
                    },
                );
                proof {
                    assert(forall|t: int| 0 <= t < before.len() ==> messages@[t] == before[t]);
                    assert(user_items(input_v.take(i + 1)) =~= user_items(
                        input_v.take(i as int),
                    ).push(input_v[i as int]));
                    assert(is_user_msg(messages@[messages@.len() - 1], input_v[i as int]));
                }
            } else {
                proof {
                    assert(user_items(input_v.take(i + 1)) =~= user_items(input_v.take(i as int)));
                }
            }
            i += 1;
        }
        proof {
            assert(input_v.take(n as int) =~= input_v);
        }
        let ghost users = user_items(input_v);
        // Collect every call item into one synthesized assistant message.
        let mut calls_vec: Vec<ToolCall> = Vec::new();
        let mut i2: usize = 0;
        proof {
            assert(input_v.take(0) =~= Seq::<Message>::empty());
        }
        while i2 < n
            invariant
                i2 <= n,
                n == input_v.len(),
                self.input@ == input_v,
                calls_vec@.len() == call_items(input_v.take(i2 as int)).len(),
                forall|j: int|
                    0 <= j < calls_vec@.len() ==> is_call_entry(
                        #[trigger] calls_vec@[j],
                        call_items(input_v.take(i2 as int))[j],
                        j,
                    ),
            decreases n - i2,
        {
            let m = &self.input[i2];
            proof {
                lemma_call_items_step(input_v, i2 as int);
            }
            if str_eq(m.message_type.as_str(), "function_call") {
                let idx = calls_vec.len();
                let ghost before = calls_vec@;
                calls_vec.push(
                    ToolCall {
                        id: Some(usize_to_string(idx)),
                        tool_type: String::from_str("function"),
                        function: FunctionCall {
                            name: match &m.name {
                                Some(s) => s.clone(),
                                None => String::from_str("SHOULD HAVE BEEN SET"),
                            },
                            arguments: match &m.arguments {
                                Some(s) => s.clone(),
                                None => String::from_str("SHOULD HAVE BEEN SET"),
                            },
                        },
                    },
                );
                proof {
                    assert(forall|t: int| 0 <= t < before.len() ==> calls_vec@[t] == before[t]);
                    assert(call_items(input_v.take(i2 + 1)) =~= call_items(
                        input_v.take(i2 as int),
                    ).push(input_v[i2 as int]));
                    assert(is_call_entry(
                        calls_vec@[calls_vec@.len() - 1],
                        input_v[i2 as int],
                        idx as int,
                    ));
                }
            } else {
                proof {
                    assert(call_items(input_v.take(i2 + 1)) =~= call_items(
                        input_v.take(i2 as int),
                    ));
                }
            }
            i2 += 1;
        }
        proof {
            assert(input_v.take(n as int) =~= input_v);
        }
        let ghost calls = call_items(input_v);
        if calls_vec.len() > 0 {
            // Pair each output item with the call item at the same position;
            // outputs beyond the calls are dropped.
            let mut tool_msgs: Vec<CopilotMessage> = Vec::new();
            let mut k: usize = 0;
            let calls_len = calls_vec.len();
            let mut i3: usize = 0;
            proof {
                assert(input_v.take(0) =~= Seq::<Message>::empty());
            }
            while i3 < n
                invariant
                    i3 <= n,
                    n == input_v.len(),
                    self.input@ == input_v,
                    calls_len == calls_vec@.len(),
                    calls_vec@.len() == calls.len(),
                    calls == call_items(input_v),
                    forall|j: int|
                        0 <= j < calls_vec@.len() ==> is_call_entry(
                            #[trigger] calls_vec@[j],
                            calls[j],
                            j,
                        ),
                    k as int == paired_count(
                        output_items(input_v.take(i3 as int)).len() as int,
                        calls_len as int,
                    ),
                    tool_msgs@.len() == k,
                    forall|t: int|
                        0 <= t < k ==> is_tool_result_msg(
                            #[trigger] tool_msgs@[t],
                            output_items(input_v.take(i3 as int))[t],
                            calls[t],
                            t,
                        ),
                decreases n - i3,
            {
                let m = &self.input[i3];
                proof {
                    lemma_output_items_step(input_v, i3 as int);
                }
                if str_eq(m.message_type.as_str(), "function_call_output") {
                    proof {
                        assert(output_items(input_v.take(i3 + 1)) =~= output_items(
                            input_v.take(i3 as int),
                        ).push(input_v[i3 as int]));
                    }
                    if k < calls_len {
                        let ghost before = tool_msgs@;
                        tool_msgs.push(
                            CopilotMessage {
                                role: String::from_str("tool"),
                                content: clone_opt_string(&m.output),
                                padding: None,
                                tool_calls: None,
                                tool_call_id: Some(usize_to_string(k)),
                                name: Some(calls_vec[k].function.name.clone()),
                            },
                        );
                        proof {
                            assert(forall|t: int|
                                0 <= t < before.len() ==> tool_msgs@[t] == before[t]);
                            assert(output_items(input_v.take(i3 as int)).len() == k);
                            assert(output_items(input_v.take(i3 + 1))[k as int] == input_v[i3 as int]);
                            assert(calls_vec@[k as int].function.name@ == call_name(
                                calls[k as int],
                            ));
                            assert(is_tool_result_msg(
                                tool_msgs@[k as int],
                                input_v[i3 as int],
                                calls[k as int],
                                k as int,
                            ));
                        }
                        k += 1;
                    }
                } else {
                    proof {
                        assert(output_items(input_v.take(i3 + 1)) =~= output_items(
                            input_v.take(i3 as int),
                        ));
                    }
                }
                i3 += 1;
            }
            proof {
                assert(input_v.take(n as int) =~= input_v);
            }
            let ghost before_assistant = messages@;
            messages.push(
                CopilotMessage {
                    role: String::from_str("assistant"),
                    content: None,
                    padding: None,
                    tool_calls: Some(calls_vec),
                    tool_call_id: None,
                    name: None,
                },
            );
            let ghost tool_msgs_v = tool_msgs@;
            messages.append(&mut tool_msgs);
            proof {
                assert(forall|t: int|
                    0 <= t < before_assistant.len() ==> messages@[t] == before_assistant[t]);
                assert(messages@[before_assistant.len() as int] is CopilotMessage);
                assert(forall|t: int|
                    0 <= t < tool_msgs_v.len() ==> messages@[before_assistant.len() + 1 + t]
                        == tool_msgs_v[t]);
            }
        }
        // Map the tool definitions.
        let tools_out: Option<Vec<crate::openai::Tool>> = if self.tools.len() == 0 {
            None
        } else {
            let mut ts: Vec<crate::openai::Tool> = Vec::new();
            let tn = self.tools.len();
            let mut i4: usize = 0;
            while i4 < tn
                invariant
                    i4 <= tn,
                    tn == self.tools@.len(),
                    ts@.len() == i4,
                    forall|t: int|
                        0 <= t < i4 ==> is_canonical_tool(#[trigger] ts@[t], self.tools@[t]),
                decreases tn - i4,
            {
                let t = &self.tools[i4];
                ts.push(
                    crate::openai::Tool {
                        tool_type: t.tool_type.clone(),
                        function: FunctionDefinition {
                            name: t.name.clone(),
                            description: Some(t.description.clone()),
                            parameters: render_schema(&t.parameters),
                        },
                    },
                );
                i4 += 1;
            }
            Some(ts)
        };
        CopilotChatRequest {
            messages,
            model: self.model,
            temperature: None,
            max_tokens: self.max_output_tokens,
            stream: Some(false),
            tools: tools_out,
            tool_choice: None,
        }
    }
}

} // verus!
