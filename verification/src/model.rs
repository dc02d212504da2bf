use vstd::prelude::*;
use crate::ids::{is_ulid_text, new_ulid};
use crate::json::{Json, JsonV, json_clone};
use crate::text::copy_string;

verus! {

/// Who wrote a message of the conversation.
#[derive(Clone, Copy, Debug, PartialEq, Eq, Structural)]
pub enum Role {
    System,
    User,
    Assistant,
    Tool,
}

/// A call of a function requested by the model: its name and its arguments as JSON text.
#[derive(Debug)]
pub struct FunctionCall {
    pub name: String,
    pub arguments: String,
}

pub struct FunctionCallV {
    pub name: Seq<char>,
    pub arguments: Seq<char>,
}

impl View for FunctionCall {
    type V = FunctionCallV;

    open spec fn view(&self) -> FunctionCallV {
        FunctionCallV { name: self.name@, arguments: self.arguments@ }
    }
}

/// A tool call requested by the model.
#[derive(Debug)]
pub struct ToolCall {
    pub id: String,
    pub tool_type: String,
    pub function: FunctionCall,
}

pub struct ToolCallV {
    pub id: Seq<char>,
    pub tool_type: Seq<char>,
    pub function: FunctionCallV,
}

impl View for ToolCall {
    type V = ToolCallV;

    open spec fn view(&self) -> ToolCallV {
        ToolCallV { id: self.id@, tool_type: self.tool_type@, function: self.function@ }
    }
}

/// The declaration of a function offered to the model.
#[derive(Debug)]
pub struct FunctionDefinition {
    pub name: String,
    pub description: Option<String>,
    pub parameters: Json,
}

pub struct FunctionDefinitionV {
    pub name: Seq<char>,
    pub description: Option<Seq<char>>,
    pub parameters: JsonV,
}

impl View for FunctionDefinition {
    type V = FunctionDefinitionV;

    open spec fn view(&self) -> FunctionDefinitionV {
        FunctionDefinitionV {
            name: self.name@,
            description: opt_view(self.description),
            parameters: self.parameters@,
        }
    }
}

/// A tool offered to the model.
#[derive(Debug)]
pub struct Tool {
    pub tool_type: String,
    pub function: FunctionDefinition,
}

pub struct ToolV {
    pub tool_type: Seq<char>,
    pub function: FunctionDefinitionV,
}

impl View for Tool {
    type V = ToolV;

    open spec fn view(&self) -> ToolV {
        ToolV { tool_type: self.tool_type@, function: self.function@ }
    }
}

/// A skill: a named group of tools, with words that describe it.
#[derive(Debug)]
pub struct SkillDefinition {
    pub name: String,
    pub description: Option<String>,
    pub keywords: Option<Vec<String>>,
    pub tools: Vec<Tool>,
}

pub struct SkillDefinitionV {
    pub name: Seq<char>,
    pub description: Option<Seq<char>>,
    pub keywords: Option<Seq<Seq<char>>>,
    pub tools: Seq<ToolV>,
}

impl View for SkillDefinition {
    type V = SkillDefinitionV;

    open spec fn view(&self) -> SkillDefinitionV {
        SkillDefinitionV {
            name: self.name@,
            description: opt_view(self.description),
            keywords: match self.keywords {
                Some(k) => Some(strings_view(k@)),
                None => None,
            },
            tools: tools_view(self.tools@),
        }
    }
}

/// A message of the conversation.
#[derive(Debug)]
pub struct Message {
    pub role: Role,
    pub content: String,
    pub tool_calls: Option<Vec<ToolCall>>,
    pub tool_call_id: Option<String>,
}

pub struct MessageV {
    pub role: Role,
    pub content: Seq<char>,
    pub tool_calls: Option<Seq<ToolCallV>>,
    pub tool_call_id: Option<Seq<char>>,
}

impl View for Message {
    type V = MessageV;

    open spec fn view(&self) -> MessageV {
        MessageV {
            role: self.role,
            content: self.content@,
            tool_calls: match self.tool_calls {
                Some(c) => Some(calls_view(c@)),
                None => None,
            },
            tool_call_id: opt_view(self.tool_call_id),
        }
    }
}

/// The identifier of a conversation.
#[derive(Debug)]
pub struct SessionId {
    pub value: String,
}

impl View for SessionId {
    type V = Seq<char>;

    open spec fn view(&self) -> Seq<char> {
        self.value@
    }
}

/// A conversation: its identifier and its messages, oldest first.
#[derive(Debug)]
pub struct Session {
    pub id: SessionId,
    pub messages: Vec<Message>,
}

pub struct SessionV {
    pub id: Seq<char>,
    pub messages: Seq<MessageV>,
}

impl View for Session {
    type V = SessionV;

    open spec fn view(&self) -> SessionV {
        SessionV { id: self.id@, messages: messages_view(self.messages@) }
    }
}

// ---------------------------------------------------------------------
// Models of collections
// ---------------------------------------------------------------------

pub open spec fn opt_view(o: Option<String>) -> Option<Seq<char>> {
    match o {
        Some(s) => Some(s@),
        None => None,
    }
}

pub open spec fn strings_view(v: Seq<String>) -> Seq<Seq<char>> {
    v.map_values(|s: String| s@)
}

pub open spec fn tools_view(v: Seq<Tool>) -> Seq<ToolV> {
    v.map_values(|t: Tool| t@)
}

pub open spec fn calls_view(v: Seq<ToolCall>) -> Seq<ToolCallV> {
    v.map_values(|c: ToolCall| c@)
}

pub open spec fn messages_view(v: Seq<Message>) -> Seq<MessageV> {
    v.map_values(|m: Message| m@)
}

// ---------------------------------------------------------------------
// Construction and copies
// ---------------------------------------------------------------------

impl SessionId {
    /// An identifier holding the given text.
    pub fn from_str(s: &str) -> (r: SessionId)
        ensures
            r@ == s@,
    {
        SessionId { value: s.to_owned() }
    }

    /// A fresh identifier: a new ULID in its text form.
    pub fn new() -> (r: SessionId)
        ensures
            is_ulid_text(r@),
    {
        SessionId { value: new_ulid() }
    }

    /// The identifier's text.
    pub fn as_str(&self) -> (r: &str)
        ensures
            r@ == self@,
    {
        self.value.as_str()
    }

    pub fn duplicate(&self) -> (r: SessionId)
        ensures
            r@ == self@,
    {
        SessionId { value: copy_string(&self.value) }
    }
}

impl Session {
    /// An empty conversation with the given identifier.
    pub fn new_with_id(id: SessionId) -> (r: Session)
        ensures
            r@.id == id@,
            r@.messages == Seq::<MessageV>::empty(),
    {
        let r = Session { id, messages: Vec::new() };
        assert(r@.messages =~= Seq::<MessageV>::empty());
        r
    }

    pub fn duplicate(&self) -> (r: Session)
        ensures
            r@ == self@,
    {
        Session { id: self.id.duplicate(), messages: copy_messages(&self.messages) }
    }
}

pub fn copy_opt_string(o: &Option<String>) -> (r: Option<String>)
    ensures
        opt_view(r) == opt_view(*o),
{
    match o {
        Some(s) => Some(copy_string(s)),
        None => None,
    }
}

impl FunctionCall {
    pub fn duplicate(&self) -> (r: FunctionCall)
        ensures
            r@ == self@,
    {
        FunctionCall { name: copy_string(&self.name), arguments: copy_string(&self.arguments) }
    }
}

impl ToolCall {
    pub fn duplicate(&self) -> (r: ToolCall)
        ensures
            r@ == self@,
    {
        ToolCall {
            id: copy_string(&self.id),
            tool_type: copy_string(&self.tool_type),
            function: self.function.duplicate(),
        }
    }
}

impl Tool {
    pub fn duplicate(&self) -> (r: Tool)
        ensures
            r@ == self@,
    {
        Tool {
            tool_type: copy_string(&self.tool_type),
            function: FunctionDefinition {
                name: copy_string(&self.function.name),
                description: copy_opt_string(&self.function.description),
                parameters: json_clone(&self.function.parameters),
            },
        }
    }
}

pub fn copy_calls(v: &Vec<ToolCall>) -> (r: Vec<ToolCall>)
    ensures
        calls_view(r@) == calls_view(v@),
{
    let mut out: Vec<ToolCall> = Vec::new();
    let mut i: usize = 0;
    while i < v.len()
        invariant
            i <= v.len(),
            out@.len() == i,
            forall|k: int| 0 <= k < i ==> #[trigger] out@[k]@ == v@[k]@,
        decreases v.len() - i,
    {
        out.push(v[i].duplicate());
        i = i + 1;
    }
    assert(calls_view(out@) =~= calls_view(v@));
    out
}

pub fn copy_tools(v: &Vec<Tool>) -> (r: Vec<Tool>)
    ensures
        tools_view(r@) == tools_view(v@),
{
    let mut out: Vec<Tool> = Vec::new();
    let mut i: usize = 0;
    while i < v.len()
        invariant
            i <= v.len(),
            out@.len() == i,
            forall|k: int| 0 <= k < i ==> #[trigger] out@[k]@ == v@[k]@,
        decreases v.len() - i,
    {
        out.push(v[i].duplicate());
        i = i + 1;
    }
    assert(tools_view(out@) =~= tools_view(v@));
    out
}

impl Message {
    pub fn duplicate(&self) -> (r: Message)
        ensures
            r@ == self@,
    {
        Message {
            role: self.role,
            content: copy_string(&self.content),
            tool_calls: match &self.tool_calls {
                Some(c) => Some(copy_calls(c)),
                None => None,
            },
            tool_call_id: copy_opt_string(&self.tool_call_id),
        }
    }

    /// A message with only a role and a text.
    pub fn text(role: Role, content: String) -> (r: Message)
        ensures
            r@ == (MessageV { role, content: content@, tool_calls: None, tool_call_id: None }),
    {
        Message { role, content, tool_calls: None, tool_call_id: None }
    }
}

pub fn copy_messages(v: &Vec<Message>) -> (r: Vec<Message>)
    ensures
        messages_view(r@) == messages_view(v@),
{
    let mut out: Vec<Message> = Vec::new();
    let mut i: usize = 0;
    while i < v.len()
        invariant
            i <= v.len(),
            out@.len() == i,
            forall|k: int| 0 <= k < i ==> #[trigger] out@[k]@ == v@[k]@,
        decreases v.len() - i,
    {
        out.push(v[i].duplicate());
        i = i + 1;
    }
    assert(messages_view(out@) =~= messages_view(v@));
    out
}

} // verus!
