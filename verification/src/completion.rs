//! What is sent to the model.

use vstd::prelude::*;

verus! {

/// The function that a tool call of the model names, and what it is called with.
#[derive(PartialEq, Eq, Debug)]
pub struct FunctionContent {
    pub name: String,
    pub arguments: String,
}

#[verifier::ext_equal]
pub struct FunctionContentView {
    pub name: Seq<char>,
    pub arguments: Seq<char>,
}

impl DeepView for FunctionContent {
    type V = FunctionContentView;

    open spec fn deep_view(&self) -> FunctionContentView {
        FunctionContentView { name: self.name@, arguments: self.arguments@ }
    }
}

#[derive(PartialEq, Eq, Debug)]
pub enum ToolCallContent {
    Function { function: FunctionContent },
}

#[verifier::ext_equal]
pub enum ToolCallContentView {
    Function { function: FunctionContentView },
}

impl DeepView for ToolCallContent {
    type V = ToolCallContentView;

    open spec fn deep_view(&self) -> ToolCallContentView {
        match self {
            ToolCallContent::Function { function } => ToolCallContentView::Function {
                function: function.deep_view(),
            },
        }
    }
}

/// A tool call of the model, as the model is reminded of it.
#[derive(PartialEq, Eq, Debug)]
pub struct ToolCall {
    pub id: String,
    pub content: ToolCallContent,
}

#[verifier::ext_equal]
pub struct ToolCallView {
    pub id: Seq<char>,
    pub content: ToolCallContentView,
}

impl DeepView for ToolCall {
    type V = ToolCallView;

    open spec fn deep_view(&self) -> ToolCallView {
        ToolCallView { id: self.id@, content: self.content.deep_view() }
    }
}

/// One message of the conversation that the model is asked to continue.
#[derive(PartialEq, Eq, Debug)]
#[allow(inconsistent_fields)]
pub enum CompletionMessage {
    System { content: String },
    User { content: String },
    Assistant { content: Option<String>, tool_calls: Vec<ToolCall> },
    Tool { content: String, tool_call_id: String },
}

#[verifier::ext_equal]
#[allow(inconsistent_fields)]
pub enum CompletionMessageView {
    System { content: Seq<char> },
    User { content: Seq<char> },
    Assistant { content: Option<Seq<char>>, tool_calls: Seq<ToolCallView> },
    Tool { content: Seq<char>, tool_call_id: Seq<char> },
}

impl DeepView for CompletionMessage {
    type V = CompletionMessageView;

    open spec fn deep_view(&self) -> CompletionMessageView {
        match self {
            CompletionMessage::System { content } => CompletionMessageView::System {
                content: content@,
            },
            CompletionMessage::User { content } => CompletionMessageView::User { content: content@ },
            CompletionMessage::Assistant { content, tool_calls } => CompletionMessageView::Assistant {
                content: content.deep_view(),
                tool_calls: tool_calls.deep_view(),
            },
            CompletionMessage::Tool { content, tool_call_id } => CompletionMessageView::Tool {
                content: content@,
                tool_call_id: tool_call_id@,
            },
        }
    }
}

} // verus!
