//! The OpenAI chat-completions dialect: request and response shapes, and the
//! request normalizer that repairs missing tool-call identifiers.
//!
//! Normalization is all-or-nothing per request: when every tool-related
//! identifier is already present the request is left untouched, and when any
//! is missing, every tool-result message and every assistant tool call is
//! renumbered positionally.  The whole transformation is specified over
//! sequence views and proved, including its idempotence.

use vstd::prelude::*;
use crate::text::{dec_digits, lemma_dec_digits_nonempty, str_eq, usize_to_string};

verus! {

/// A function invocation requested by the assistant.
#[derive(Debug, PartialEq)]
pub struct FunctionCall {
    pub name: String,
    pub arguments: String,
}

/// One tool call inside an assistant message.
#[derive(Debug, PartialEq)]
pub struct ToolCall {
    pub id: Option<String>,
    pub tool_type: String,
    pub function: FunctionCall,
}

/// A function a client offers to the model.  `parameters` carries the JSON
/// schema as raw JSON text; the gateway never interprets it.
#[derive(Debug)]
pub struct FunctionDefinition {
    pub name: String,
    pub description: Option<String>,
    pub parameters: String,
}

/// A tool definition in a request.
#[derive(Debug)]
pub struct Tool {
    pub tool_type: String,
    pub function: FunctionDefinition,
}

/// The function selected by a specific tool choice.
#[derive(Debug)]
pub struct ToolChoiceFunction {
    pub name: String,
}

/// How the client constrains tool use: a mode word (`auto`, `none`,
/// `required`) or one specific function.
#[derive(Debug)]
pub enum ToolChoice {
    Mode(String),
    Specific { tool_type: String, function: ToolChoiceFunction },
}

/// One chat message.
#[derive(Debug, PartialEq)]
pub struct OpenAIMessage {
    pub role: String,
    pub content: Option<String>,
    pub tool_calls: Option<Vec<ToolCall>>,
    pub tool_call_id: Option<String>,
    pub name: Option<String>,
}

/// A chat-completions request.  `temperature` carries the IEEE-754 bit
/// pattern of the client's 32-bit value; the gateway only passes it through.
#[derive(Debug)]
pub struct OpenAIChatRequest {
    pub model: String,
    pub messages: Vec<OpenAIMessage>,
    pub stream: bool,
    pub temperature: Option<u32>,
    pub max_tokens: Option<u32>,
    pub tools: Option<Vec<Tool>>,
    pub tool_choice: Option<ToolChoice>,
}

/// A chat-completions response.
#[derive(Debug)]
pub struct OpenAIChatResponse {
    pub id: String,
    pub object: String,
    pub created: u64,
    pub model: String,
    pub choices: Vec<OpenAIChoice>,
    pub usage: OpenAIUsage,
}

/// One response choice.
#[derive(Debug)]
pub struct OpenAIChoice {
    pub index: u32,
    pub message: OpenAIMessage,
    pub finish_reason: String,
}

/// Token accounting for a response.
#[derive(Debug)]
pub struct OpenAIUsage {
    pub prompt_tokens: u32,
    pub completion_tokens: u32,
    pub total_tokens: u32,
}

/// The model-catalog answer in the OpenAI shape.
#[derive(Debug)]
pub struct OpenAIModelsResponse {
    pub data: Vec<OpenAIModel>,
}

/// One catalog entry in the OpenAI shape.
#[derive(Debug)]
pub struct OpenAIModel {
    pub id: String,
    pub object: String,
    pub created: u32,
    pub owned_by: String,
}

// ---------------------------------------------------------------------------
// Views
// ---------------------------------------------------------------------------
/// The view of a tool call: its fields as sequences.
#[verifier::ext_equal]
pub struct ToolCallV {
    pub id: Option<Seq<char>>,
    pub tool_type: Seq<char>,
    pub name: Seq<char>,
    pub arguments: Seq<char>,
}

impl View for ToolCall {
    type V = ToolCallV;

    open spec fn view(&self) -> ToolCallV {
        ToolCallV {
            id: self.id.deep_view(),
            tool_type: self.tool_type@,
            name: self.function.name@,
            arguments: self.function.arguments@,
        }
    }
}

impl DeepView for ToolCall {
    type V = ToolCallV;

    open spec fn deep_view(&self) -> ToolCallV {
        self.view()
    }
}

/// The view of a message: its fields as sequences.
#[verifier::ext_equal]
pub struct MessageV {
    pub role: Seq<char>,
    pub content: Option<Seq<char>>,
    pub tool_calls: Option<Seq<ToolCallV>>,
    pub tool_call_id: Option<Seq<char>>,
    pub name: Option<Seq<char>>,
}

impl View for OpenAIMessage {
    type V = MessageV;

    open spec fn view(&self) -> MessageV {
        MessageV {
            role: self.role@,
            content: self.content.deep_view(),
            tool_calls: self.tool_calls.deep_view(),
            tool_call_id: self.tool_call_id.deep_view(),
            name: self.name.deep_view(),
        }
    }
}

impl DeepView for OpenAIMessage {
    type V = MessageV;

    open spec fn deep_view(&self) -> MessageV {
        self.view()
    }
}

// ---------------------------------------------------------------------------
// The normalization, specified
// ---------------------------------------------------------------------------
/// The role of tool-result messages.
pub open spec fn tool_role() -> Seq<char> {
    "tool"@
}

/// The role of assistant messages.
pub open spec fn assistant_role() -> Seq<char> {
    "assistant"@
}

/// An identifier counts only when present and non-empty.
pub open spec fn has_valid_id_v(id: Option<Seq<char>>) -> bool {
    id matches Some(s) && s.len() > 0
}

/// One message carries every identifier the dialect requires of it.
pub open spec fn msg_ok(m: MessageV) -> bool {
    &&& m.role == tool_role() ==> has_valid_id_v(m.tool_call_id)
    &&& (m.role == assistant_role() && m.tool_calls is Some) ==> (forall|j: int|
        0 <= j < m.tool_calls->0.len() ==> has_valid_id_v(#[trigger] m.tool_calls->0[j].id))
}

/// Every tool-related identifier in the request is present.
pub open spec fn ids_present_v(ms: Seq<MessageV>) -> bool {
    forall|i: int| 0 <= i < ms.len() ==> msg_ok(#[trigger] ms[i])
}

/// The function names an assistant message's tool calls reference, in order.
pub open spec fn msg_call_names(m: MessageV) -> Seq<Seq<char>> {
    if m.role == assistant_role() && m.tool_calls is Some {
        m.tool_calls->0.map_values(|c: ToolCallV| c.name)
    } else {
        Seq::empty()
    }
}

/// All function names referenced by assistant tool calls, in message order.
pub open spec fn collected_tool_names(ms: Seq<MessageV>) -> Seq<Seq<char>>
    decreases ms.len(),
{
    if ms.len() == 0 {
        Seq::empty()
    } else {
        collected_tool_names(ms.drop_last()) + msg_call_names(ms.last())
    }
}

/// How many tool-result messages the sequence holds.
pub open spec fn tool_count(ms: Seq<MessageV>) -> nat
    decreases ms.len(),
{
    if ms.len() == 0 {
        0
    } else {
        tool_count(ms.drop_last()) + (if ms.last().role == tool_role() {
            1nat
        } else {
            0nat
        })
    }
}

/// A tool call with its identifier renumbered to its position.
pub open spec fn normalize_call(c: ToolCallV, j: int) -> ToolCallV {
    ToolCallV { id: Some(dec_digits(j as nat)), tool_type: c.tool_type, name: c.name, arguments: c.arguments }
}

/// One message after renumbering: the `k`-th tool-result message takes
/// `tool_call_id` `k` and the `k`-th collected name (when one exists), and
/// an assistant message's tool calls are renumbered within the message.
pub open spec fn normalize_msg(m: MessageV, k: nat, names: Seq<Seq<char>>) -> MessageV {
    if m.role == tool_role() {
        if k < names.len() {
            MessageV {
                role: m.role,
                content: m.content,
                tool_calls: m.tool_calls,
                tool_call_id: Some(dec_digits(k)),
                name: Some(names[k as int]),
            }
        } else {
            m
        }
    } else if m.role == assistant_role() && m.tool_calls is Some {
        MessageV {
            role: m.role,
            content: m.content,
            tool_calls: Some(
                Seq::new(m.tool_calls->0.len(), |j: int| normalize_call(m.tool_calls->0[j], j)),
            ),
            tool_call_id: m.tool_call_id,
            name: m.name,
        }
    } else {
        m
    }
}

/// The whole normalization: the identity when every identifier is present,
/// and the positional renumbering otherwise.
pub open spec fn normalize_msgs(ms: Seq<MessageV>) -> Seq<MessageV> {
    if ids_present_v(ms) {
        ms
    } else {
        Seq::new(
            ms.len(),
            |i: int| normalize_msg(ms[i], tool_count(ms.take(i)), collected_tool_names(ms)),
        )
    }
}

/// Appending one message extends the collected names by that message's.
pub proof fn lemma_collected_names_step(ms: Seq<MessageV>, i: int)
    requires
        0 <= i < ms.len(),
    ensures
        collected_tool_names(ms.take(i + 1)) == collected_tool_names(ms.take(i)) + msg_call_names(
            ms[i],
        ),
{
    assert(ms.take(i + 1).drop_last() =~= ms.take(i));
    assert(ms.take(i + 1).last() == ms[i]);
}

/// Appending one message adds one to the tool count exactly when it is a
/// tool-result message.
pub proof fn lemma_tool_count_step(ms: Seq<MessageV>, i: int)
    requires
        0 <= i < ms.len(),
    ensures
        tool_count(ms.take(i + 1)) == tool_count(ms.take(i)) + (if ms[i].role == tool_role() {
            1nat
        } else {
            0nat
        }),
{
    assert(ms.take(i + 1).drop_last() =~= ms.take(i));
    assert(ms.take(i + 1).last() == ms[i]);
}

/// The tool count never exceeds the length.
pub proof fn lemma_tool_count_le_len(ms: Seq<MessageV>)
    ensures
        tool_count(ms) <= ms.len(),
    decreases ms.len(),
{
    if ms.len() > 0 {
        lemma_tool_count_le_len(ms.drop_last());
    }
}

/// Two message sequences whose members reference the same call names
/// collect the same names.
proof fn lemma_collected_pointwise(a: Seq<MessageV>, b: Seq<MessageV>)
    requires
        a.len() == b.len(),
        forall|i: int| 0 <= i < a.len() ==> msg_call_names(#[trigger] a[i]) == msg_call_names(b[i]),
    ensures
        collected_tool_names(a) == collected_tool_names(b),
    decreases a.len(),
{
    if a.len() > 0 {
        lemma_collected_pointwise(a.drop_last(), b.drop_last());
    }
}

/// Two message sequences with the same roles have the same tool count.
proof fn lemma_tool_count_pointwise(a: Seq<MessageV>, b: Seq<MessageV>)
    requires
        a.len() == b.len(),
        forall|i: int| 0 <= i < a.len() ==> (#[trigger] a[i]).role == b[i].role,
    ensures
        tool_count(a) == tool_count(b),
    decreases a.len(),
{
    if a.len() > 0 {
        lemma_tool_count_pointwise(a.drop_last(), b.drop_last());
    }
}

/// The two special roles are different words.
proof fn lemma_roles_distinct()
    ensures
        tool_role() != assistant_role(),
{
    reveal_strlit("tool");
    reveal_strlit("assistant");
    assert(tool_role().len() == 4);
    assert(assistant_role().len() == 9);
}

/// A prefix never holds more tool-result messages than the whole.
proof fn lemma_tool_count_prefix(ms: Seq<MessageV>, j: int)
    requires
        0 <= j <= ms.len(),
    ensures
        tool_count(ms.take(j)) <= tool_count(ms),
    decreases ms.len(),
{
    if j == ms.len() {
        assert(ms.take(j) =~= ms);
    } else {
        assert(ms.take(j) =~= ms.drop_last().take(j));
        lemma_tool_count_prefix(ms.drop_last(), j);
    }
}

/// When the request references at least as many call names as it holds
/// tool-result messages, one pass completes every identifier: a second call
/// of the normalizer observes them all present.
pub proof fn lemma_normalize_completes(ms: Seq<MessageV>)
    requires
        tool_count(ms) <= collected_tool_names(ms).len(),
    ensures
        ids_present_v(normalize_msgs(ms)),
{
    if !ids_present_v(ms) {
        let ns = normalize_msgs(ms);
        let names = collected_tool_names(ms);
        assert forall|i: int| 0 <= i < ns.len() implies msg_ok(#[trigger] ns[i]) by {
            let m = ms[i];
            let k = tool_count(ms.take(i));
            assert(ns[i] == normalize_msg(m, k, names));
            lemma_roles_distinct();
            if m.role == tool_role() {
                lemma_tool_count_step(ms, i);
                lemma_tool_count_prefix(ms, i + 1);
                assert(k < tool_count(ms));
                lemma_dec_digits_nonempty(k);
                assert(has_valid_id_v(ns[i].tool_call_id));
            } else if m.role == assistant_role() && m.tool_calls is Some {
                assert forall|j: int|
                    0 <= j < ns[i].tool_calls->0.len() implies has_valid_id_v(
                    #[trigger] ns[i].tool_calls->0[j].id,
                ) by {
                    assert(ns[i].tool_calls->0[j] == normalize_call(m.tool_calls->0[j], j));
                    lemma_dec_digits_nonempty(j as nat);
                }
            }
        }
    }
}

/// Normalization is idempotent: normalizing an already-normalized request
/// changes nothing, so applying the normalizer twice yields exactly what one
/// application yields.
pub proof fn lemma_normalize_idempotent(ms: Seq<MessageV>)
    ensures
        normalize_msgs(normalize_msgs(ms)) == normalize_msgs(ms),
{
    if !ids_present_v(ms) {
        let ns = normalize_msgs(ms);
        assert forall|i: int| 0 <= i < ns.len() implies msg_call_names(#[trigger] ns[i])
            == msg_call_names(ms[i]) && ns[i].role == ms[i].role by {
            let m = ms[i];
            let nm = ns[i];
            assert(nm == normalize_msg(m, tool_count(ms.take(i)), collected_tool_names(ms)));
            if m.role == assistant_role() && m.tool_calls is Some {
                if m.role == tool_role() {
                    assert(msg_call_names(nm) == msg_call_names(m));
                } else {
                    assert(msg_call_names(nm) =~= msg_call_names(m));
                }
            }
        }
        lemma_collected_pointwise(ns, ms);
        assert forall|i: int| 0 <= i <= ns.len() implies tool_count(#[trigger] ns.take(i))
            == tool_count(ms.take(i)) by {
            assert(forall|t: int| 0 <= t < i ==> (#[trigger] ns.take(i)[t]).role == ms.take(
                i,
            )[t].role);
            lemma_tool_count_pointwise(ns.take(i), ms.take(i));
        }
        assert forall|i: int| 0 <= i < ns.len() implies #[trigger] normalize_msg(
            ns[i],
            tool_count(ns.take(i)),
            collected_tool_names(ns),
        ) == ns[i] by {
            let m = ms[i];
            let nm = ns[i];
            let k = tool_count(ms.take(i));
            let names = collected_tool_names(ms);
            assert(nm == normalize_msg(m, k, names));
            assert(tool_count(ns.take(i)) == k);
            assert(collected_tool_names(ns) == names);
            if m.role == tool_role() {
                if k < names.len() {
                    assert(normalize_msg(nm, k, names) == nm);
                } else {
                    assert(normalize_msg(nm, k, names) == nm);
                }
            } else if m.role == assistant_role() && m.tool_calls is Some {
                let cv = m.tool_calls->0;
                assert(nm.tool_calls->0 == Seq::new(cv.len(), |j: int| normalize_call(cv[j], j)));
                assert(Seq::new(
                    nm.tool_calls->0.len(),
                    |j: int| normalize_call(nm.tool_calls->0[j], j),
                ) =~= nm.tool_calls->0);
                assert(normalize_msg(nm, k, names) =~~= nm);
            } else {
                assert(normalize_msg(nm, k, names) == nm);
            }
        }
        if ids_present_v(ns) {
            assert(normalize_msgs(ns) == ns);
        } else {
            assert(normalize_msgs(ns) =~= ns);
        }
    }
}

// ---------------------------------------------------------------------------
// Executable normalizer
// ---------------------------------------------------------------------------
impl Clone for FunctionCall {
    fn clone(&self) -> (r: Self)
        ensures
            r == *self,
    {
        FunctionCall { name: self.name.clone(), arguments: self.arguments.clone() }
    }
}

impl Clone for ToolCall {
    fn clone(&self) -> (r: Self)
        ensures
            r == *self,
    {
        ToolCall {
            id: clone_opt_string(&self.id),
            tool_type: self.tool_type.clone(),
            function: self.function.clone(),
        }
    }
}

/// Clone an optional string, preserving the value.
pub fn clone_opt_string(s: &Option<String>) -> (r: Option<String>)
    ensures
        r == *s,
{
    match s {
        Some(v) => Some(v.clone()),
        None => None,
    }
}

/// Clone a tool-call list, preserving each element.
pub fn clone_tool_calls(v: &Vec<ToolCall>) -> (r: Vec<ToolCall>)
    ensures
        r@ == v@,
{
    let mut out: Vec<ToolCall> = Vec::new();
    let n = v.len();
    let mut i: usize = 0;
    while i < n
        invariant
            i <= n,
            n == v@.len(),
            out@ =~= v@.take(i as int),
        decreases n - i,
    {
        out.push(v[i].clone());
        proof {
            assert(out@ =~= v@.take(i + 1));
        }
        i += 1;
    }
    proof {
        assert(v@.take(n as int) =~= v@);
    }
    out
}

fn clone_opt_tool_calls(v: &Option<Vec<ToolCall>>) -> (r: Option<Vec<ToolCall>>)
    ensures
        r matches Some(c) <==> v matches Some(_),
        r matches Some(c) ==> (v matches Some(o) && c@ == o@),
        r is None <==> v is None,
{
    match v {
        Some(c) => Some(clone_tool_calls(c)),
        None => None,
    }
}

impl Clone for OpenAIMessage {
    fn clone(&self) -> (r: Self)
        ensures
            r@ == self@,
    {
        let r = OpenAIMessage {
            role: self.role.clone(),
            content: clone_opt_string(&self.content),
            tool_calls: clone_opt_tool_calls(&self.tool_calls),
            tool_call_id: clone_opt_string(&self.tool_call_id),
            name: clone_opt_string(&self.name),
        };
        proof {
            assert(r.tool_calls.deep_view() =~~= self.tool_calls.deep_view());
            assert(r@ =~~= self@);
        }
        r
    }
}
/// Whether an identifier is present and non-empty.
fn has_valid_id(id: &Option<String>) -> (r: bool)
    ensures
        r == has_valid_id_v(id.deep_view()),
{
    match id {
        Some(s) => !s.as_str().is_empty(),
        None => false,
    }
}

impl OpenAIChatRequest {
    /// Whether every tool-result message has a non-empty `tool_call_id` and
    /// every assistant tool call a non-empty `id`.
    pub fn ids_present(&self) -> (r: bool)
        ensures
            r == ids_present_v(self.messages.deep_view()),
    {
        let ghost ms = self.messages.deep_view();
        let n = self.messages.len();
        let mut i: usize = 0;
        while i < n
            invariant
                i <= n,
                n == ms.len(),
                ms == self.messages.deep_view(),
                forall|k: int| 0 <= k < i ==> msg_ok(#[trigger] ms[k]),
            decreases n - i,
        {
            let m = &self.messages[i];
            proof {
                assert(m.deep_view() == ms[i as int]);
            }
            if str_eq(m.role.as_str(), "tool") {
                if !has_valid_id(&m.tool_call_id) {
                    assert(!msg_ok(ms[i as int]));
                    return false;
                }
            }
            if str_eq(m.role.as_str(), "assistant") {
                match &m.tool_calls {
                    Some(calls) => {
                        let cn = calls.len();
                        let mut j: usize = 0;
                        while j < cn
                            invariant
                                j <= cn,
                                cn == calls@.len(),
                                i < ms.len(),
                                ms == self.messages.deep_view(),
                                calls.deep_view() == ms[i as int].tool_calls->0,
                                ms[i as int].role == assistant_role(),
                                ms[i as int].tool_calls is Some,
                                forall|t: int|
                                    0 <= t < j ==> has_valid_id_v(
                                        #[trigger] ms[i as int].tool_calls->0[t].id),
                            decreases cn - j,
                        {
                            if !has_valid_id(&calls[j].id) {
                                proof {
                                    assert(calls@[j as int].deep_view()
                                        == ms[i as int].tool_calls->0[j as int]);
                                    assert(!has_valid_id_v(
                                        ms[i as int].tool_calls->0[j as int].id,
                                    ));
                                    assert(!msg_ok(ms[i as int]));
                                    assert(!ids_present_v(ms));
                                }
                                return false;
                            }
                            proof {
                                assert(calls@[j as int].deep_view()
                                    == ms[i as int].tool_calls->0[j as int]);
                            }
                            j += 1;
                        }
                    },
                    None => {},
                }
            }
            proof {
                assert(msg_ok(ms[i as int]));
            }
            i += 1;
        }
        true
    }

    /// Generate positional identifiers when any are missing; leave a
    /// request whose identifiers are complete untouched.
    pub fn ensure_tool_ids(&mut self)
        ensures
            final(self).messages.deep_view() == normalize_msgs(old(self).messages.deep_view()),
            final(self).model == old(self).model,
            final(self).stream == old(self).stream,
            final(self).temperature == old(self).temperature,
            final(self).max_tokens == old(self).max_tokens,
            final(self).tools == old(self).tools,
            final(self).tool_choice == old(self).tool_choice,
    {
        let ghost ms = self.messages.deep_view();
        if self.ids_present() {
            return;
        }
        let n = self.messages.len();
        // First pass: collect, in message order, the function names that
        // assistant tool calls reference.
        let mut names: Vec<String> = Vec::new();
        let mut i: usize = 0;
        proof {
            assert(ms.take(0) =~= Seq::<MessageV>::empty());
        }
        while i < n
            invariant
                i <= n,
                n == ms.len(),
                ms == self.messages.deep_view(),
                names.deep_view() == collected_tool_names(ms.take(i as int)),
            decreases n - i,
        {
            let m = &self.messages[i];
            proof {
                assert(m.deep_view() == ms[i as int]);
            }
            if str_eq(m.role.as_str(), "assistant") {
                match &m.tool_calls {
                    Some(calls) => {
                        let cn = calls.len();
                        let mut j: usize = 0;
                        proof {
                            assert(msg_call_names(ms[i as int]).take(0) =~= Seq::<
                                Seq<char>,
                            >::empty());
                            assert(names.deep_view() =~= collected_tool_names(ms.take(i as int))
                                + msg_call_names(ms[i as int]).take(0));
                        }
                        while j < cn
                            invariant
                                j <= cn,
                                cn == calls@.len(),
                                i < ms.len(),
                                ms == self.messages.deep_view(),
                                calls.deep_view() == ms[i as int].tool_calls->0,
                                ms[i as int].role == assistant_role(),
                                ms[i as int].tool_calls is Some,
                                names.deep_view() == collected_tool_names(ms.take(i as int))
                                    + msg_call_names(ms[i as int]).take(j as int),
                            decreases cn - j,
                        {
                            let x = calls[j].function.name.clone();
                            let ghost pdv = names.deep_view();
                            let ghost pn = names@;
                            names.push(x);
                            proof {
                                assert(calls@[j as int].deep_view()
                                    == ms[i as int].tool_calls->0[j as int]);
                                assert(msg_call_names(ms[i as int])[j as int]
                                    == ms[i as int].tool_calls->0[j as int].name);
                                assert(forall|t: int| 0 <= t < pn.len() ==> names@[t] == pn[t]);
                                assert(names.deep_view() =~= pdv.push(x@));
                                assert(names.deep_view() =~= collected_tool_names(
                                    ms.take(i as int),
                                ) + msg_call_names(ms[i as int]).take(j + 1));
                            }
                            j += 1;
                        }
                        proof {
                            assert(msg_call_names(ms[i as int]).take(cn as int) =~= msg_call_names(
                                ms[i as int],
                            ));
                            lemma_collected_names_step(ms, i as int);
                            assert(names.deep_view() =~= collected_tool_names(ms.take(i + 1)));
                        }
                    },
                    None => {
                        proof {
                            lemma_collected_names_step(ms, i as int);
                            assert(msg_call_names(ms[i as int]) =~= Seq::<Seq<char>>::empty());
                            assert(names.deep_view() =~= collected_tool_names(ms.take(i + 1)));
                        }
                    },
                }
            } else {
                proof {
                    lemma_collected_names_step(ms, i as int);
                    assert(msg_call_names(ms[i as int]) =~= Seq::<Seq<char>>::empty());
                    assert(names.deep_view() =~= collected_tool_names(ms.take(i + 1)));
                }
            }
            i += 1;
        }
        proof {
            assert(ms.take(n as int) =~= ms);
        }
        let ghost names_all = collected_tool_names(ms);
        // Second pass: rebuild the message list with positional identifiers.
        let mut out: Vec<OpenAIMessage> = Vec::new();
        let mut tool_seen: usize = 0;
        let mut i2: usize = 0;
        proof {
            assert(ms.take(0) =~= Seq::<MessageV>::empty());
        }
        while i2 < n
            invariant
                i2 <= n,
                n == ms.len(),
                ms == self.messages.deep_view(),
                names.deep_view() == names_all,
                names_all == collected_tool_names(ms),
                tool_seen as nat == tool_count(ms.take(i2 as int)),
                out.deep_view().len() == i2,
                forall|t: int|
                    0 <= t < i2 ==> #[trigger] out.deep_view()[t] == normalize_msg(
                        ms[t],
                        tool_count(ms.take(t)),
                        names_all,
                    ),
            decreases n - i2,
        {
            let ghost k = tool_count(ms.take(i2 as int));
            let ghost target = normalize_msg(ms[i2 as int], k, names_all);
            let m = &self.messages[i2];
            proof {
                assert(m.deep_view() == ms[i2 as int]);
                lemma_tool_count_le_len(ms.take(i2 as int));
            }
            if str_eq(m.role.as_str(), "tool") {
                if tool_seen < names.len() {
                    let rebuilt = OpenAIMessage {
                        role: m.role.clone(),
                        content: clone_opt_string(&m.content),
                        tool_calls: clone_opt_tool_calls(&m.tool_calls),
                        tool_call_id: Some(usize_to_string(tool_seen)),
                        name: Some(names[tool_seen].clone()),
                    };
                    proof {
                        assert(rebuilt@.tool_calls =~~= ms[i2 as int].tool_calls);
                        assert(names.deep_view()[tool_seen as int] == names_all[tool_seen as int]);
                        assert(rebuilt@ =~~= target);
                    }
                    let ghost podv = out.deep_view();
                    let ghost pos = out@;
                    out.push(rebuilt);
                    proof {
                        assert(forall|t: int| 0 <= t < pos.len() ==> out@[t] == pos[t]);
                        assert(out.deep_view() =~= podv.push(target));
                    }
                } else {
                    let cloned = m.clone();
                    let ghost podv = out.deep_view();
                    let ghost pos = out@;
                    out.push(cloned);
                    proof {
                        assert(target == ms[i2 as int]);
                        assert(forall|t: int| 0 <= t < pos.len() ==> out@[t] == pos[t]);
                        assert(out.deep_view() =~= podv.push(target));
                    }
                }
                tool_seen += 1;
                proof {
                    lemma_tool_count_step(ms, i2 as int);
                }
            } else if str_eq(m.role.as_str(), "assistant") && m.tool_calls.is_some() {
                let ghost cv = ms[i2 as int].tool_calls->0;
                let cn = match &m.tool_calls {
                    Some(c) => c.len(),
                    None => 0,
                };
                let mut new_calls: Vec<ToolCall> = Vec::new();
                let mut j: usize = 0;
                while j < cn
                    invariant
                        j <= cn,
                        i2 < ms.len(),
                        ms == self.messages.deep_view(),
                        m.deep_view() == ms[i2 as int],
                        m.tool_calls is Some,
                        cn == cv.len(),
                        cv == ms[i2 as int].tool_calls->0,
                        new_calls.deep_view().len() == j,
                        forall|t: int|
                            0 <= t < j ==> #[trigger] new_calls.deep_view()[t] == normalize_call(
                                cv[t],
                                t,
                            ),
                    decreases cn - j,
                {
                    let calls = match &m.tool_calls {
                        Some(c) => c,
                        None => {
                            proof {
                                assert(false);
                            }
                            return ;
                        },
                    };
                    let nc = ToolCall {
                        id: Some(usize_to_string(j)),
                        tool_type: calls[j].tool_type.clone(),
                        function: calls[j].function.clone(),
                    };
                    let ghost pcv = new_calls.deep_view();
                    let ghost pcs = new_calls@;
                    new_calls.push(nc);
                    proof {
                        assert(calls@[j as int].deep_view() == cv[j as int]);
                        assert(forall|t: int| 0 <= t < pcs.len() ==> new_calls@[t] == pcs[t]);
                        assert(new_calls.deep_view() =~= pcv.push(normalize_call(cv[j as int], j as int)));
                    }
                    j += 1;
                }
                let rebuilt = OpenAIMessage {
                    role: m.role.clone(),
                    content: clone_opt_string(&m.content),
                    tool_calls: Some(new_calls),
                    tool_call_id: clone_opt_string(&m.tool_call_id),
                    name: clone_opt_string(&m.name),
                };
                proof {
                    assert(rebuilt@.tool_calls->0 =~= Seq::new(
                        cv.len(),
                        |t: int| normalize_call(cv[t], t),
                    ));
                    assert(rebuilt@ =~~= target);
                }
                let ghost podv = out.deep_view();
                let ghost pos = out@;
                out.push(rebuilt);
                proof {
                    assert(forall|t: int| 0 <= t < pos.len() ==> out@[t] == pos[t]);
                    assert(out.deep_view() =~= podv.push(target));
                    lemma_tool_count_step(ms, i2 as int);
                }
            } else {
                let cloned = m.clone();
                let ghost podv = out.deep_view();
                let ghost pos = out@;
                out.push(cloned);
                proof {
                    assert(target == ms[i2 as int]);
                    assert(forall|t: int| 0 <= t < pos.len() ==> out@[t] == pos[t]);
                    assert(out.deep_view() =~= podv.push(target));
                    lemma_tool_count_step(ms, i2 as int);
                }
            }
            i2 += 1;
        }
        self.messages = out;
        proof {
            assert(final(self).messages.deep_view() =~= normalize_msgs(ms));
        }
    }

    /// Prepare an inbound request for the upstream dialect: today that is
    /// exactly the identifier normalization.
    pub fn prepare_for_copilot(&mut self)
        ensures
            final(self).messages.deep_view() == normalize_msgs(old(self).messages.deep_view()),
            final(self).model == old(self).model,
            final(self).stream == old(self).stream,
            final(self).temperature == old(self).temperature,
            final(self).max_tokens == old(self).max_tokens,
            final(self).tools == old(self).tools,
            final(self).tool_choice == old(self).tool_choice,
    {
        self.ensure_tool_ids();
    }
}

} // verus!
