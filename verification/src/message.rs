//! The messages of a chat and the mathematical values that stand for them.

use vstd::prelude::*;

use crate::codebase::{
    file_contexts, replace_file, without_files, AssistantContext, AssistantContextView,
};
use crate::context::{FileContext, FileContextView, FocusHandle, MessageId, SoftWrap};

verus! {

/// The number of lines up to which the editor of a user message grows.
pub const EDITOR_MAX_LINES: usize = 80;

/// Text with its markup resolved, as it is shown.
#[derive(PartialEq, Eq, Debug)]
pub struct RichText {
    pub text: String,
}

impl DeepView for RichText {
    type V = Seq<char>;

    open spec fn deep_view(&self) -> Seq<char> {
        self.text@
    }
}

impl Default for RichText {
    fn default() -> (rich: Self)
        ensures
            rich.deep_view() == Seq::<char>::empty(),
    {
        RichText { text: String::new() }
    }
}

/// The outcome of a tool call.
#[derive(PartialEq, Eq, Debug)]
pub struct ToolFunctionCallResult {
    /// What the model is told.
    pub content: String,
    /// The window's handle of the view that shows the result.
    pub view: usize,
}

#[verifier::ext_equal]
pub struct ToolFunctionCallResultView {
    pub content: Seq<char>,
    pub view: usize,
}

impl DeepView for ToolFunctionCallResult {
    type V = ToolFunctionCallResultView;

    open spec fn deep_view(&self) -> ToolFunctionCallResultView {
        ToolFunctionCallResultView { content: self.content@, view: self.view }
    }
}

impl Clone for ToolFunctionCallResult {
    fn clone(&self) -> (res: Self)
        ensures
            res == *self,
    {
        ToolFunctionCallResult { content: self.content.clone(), view: self.view }
    }
}

/// A call of a tool that the model asks for.
#[derive(PartialEq, Eq, Debug)]
pub struct ToolFunctionCall {
    pub id: String,
    pub name: String,
    pub arguments: String,
    /// Absent while the tool is running.
    pub result: Option<ToolFunctionCallResult>,
}

#[verifier::ext_equal]
pub struct ToolFunctionCallView {
    pub id: Seq<char>,
    pub name: Seq<char>,
    pub arguments: Seq<char>,
    pub result: Option<ToolFunctionCallResultView>,
}

impl ToolFunctionCallView {
    /// A call of which nothing is known yet.
    pub open spec fn blank() -> Self {
        ToolFunctionCallView {
            id: Seq::empty(),
            name: Seq::empty(),
            arguments: Seq::empty(),
            result: None,
        }
    }
}

impl DeepView for ToolFunctionCall {
    type V = ToolFunctionCallView;

    open spec fn deep_view(&self) -> ToolFunctionCallView {
        ToolFunctionCallView {
            id: self.id@,
            name: self.name@,
            arguments: self.arguments@,
            result: self.result.deep_view(),
        }
    }
}

impl Clone for ToolFunctionCall {
    fn clone(&self) -> (res: Self)
        ensures
            res == *self,
    {
        let result = match &self.result {
            Some(result) => Some(result.clone()),
            None => None,
        };
        ToolFunctionCall {
            id: self.id.clone(),
            name: self.name.clone(),
            arguments: self.arguments.clone(),
            result,
        }
    }
}

impl Default for ToolFunctionCall {
    fn default() -> (call: Self)
        ensures
            call.deep_view() == ToolFunctionCallView::blank(),
    {
        ToolFunctionCall {
            id: String::new(),
            name: String::new(),
            arguments: String::new(),
            result: None,
        }
    }
}

/// The editor in which the user writes a message.
#[derive(PartialEq, Eq, Debug)]
pub struct Editor {
    /// The number of lines up to which the editor grows.
    pub max_lines: usize,
    pub soft_wrap: SoftWrap,
    /// What the user has written.
    pub text: String,
}

#[verifier::ext_equal]
pub struct EditorView {
    pub max_lines: usize,
    pub soft_wrap: SoftWrap,
    pub text: Seq<char>,
}

impl DeepView for Editor {
    type V = EditorView;

    open spec fn deep_view(&self) -> EditorView {
        EditorView { max_lines: self.max_lines, soft_wrap: self.soft_wrap, text: self.text@ }
    }
}

/// A message that the user writes.
#[derive(PartialEq, Eq, Debug)]
pub struct UserMessage {
    pub id: MessageId,
    pub body: Editor,
    /// What the model is told ahead of the message.
    pub contexts: Vec<AssistantContext>,
}

#[verifier::ext_equal]
pub struct UserMessageView {
    pub id: MessageId,
    pub body: EditorView,
    pub contexts: Seq<AssistantContextView>,
}

impl UserMessageView {
    /// A message to which nothing has been written yet.
    pub open spec fn blank(id: MessageId) -> Self {
        UserMessageView {
            id,
            body: EditorView {
                max_lines: EDITOR_MAX_LINES,
                soft_wrap: SoftWrap::EditorWidth,
                text: Seq::empty(),
            },
            contexts: Seq::empty(),
        }
    }

    /// The message with this file, or none, in the place of the files among its contexts.
    pub open spec fn with_file(self, file: Option<FileContextView>) -> Self {
        UserMessageView {
            contexts: without_files(self.contexts) + file_contexts(file),
            ..self
        }
    }
}

impl UserMessage {
    /// Has the model told of this file, or of none, ahead of the message.
    pub fn set_file(&mut self, file: Option<FileContext>)
        ensures
            final(self).deep_view() == old(self).deep_view().with_file(file.deep_view()),
    {
        let mut contexts: Vec<AssistantContext> = Vec::new();
        std::mem::swap(&mut contexts, &mut self.contexts);
        self.contexts = replace_file(contexts, file);
    }
}

impl DeepView for UserMessage {
    type V = UserMessageView;

    open spec fn deep_view(&self) -> UserMessageView {
        UserMessageView {
            id: self.id,
            body: self.body.deep_view(),
            contexts: self.contexts.deep_view(),
        }
    }
}

/// A message that the model writes.
#[derive(PartialEq, Eq, Debug)]
pub struct AssistantMessage {
    pub id: MessageId,
    pub body: RichText,
    pub tool_calls: Vec<ToolFunctionCall>,
    /// Why the model could not finish the message.
    pub error: Option<String>,
}

#[verifier::ext_equal]
pub struct AssistantMessageView {
    pub id: MessageId,
    pub body: Seq<char>,
    pub tool_calls: Seq<ToolFunctionCallView>,
    pub error: Option<Seq<char>>,
}

impl AssistantMessageView {
    /// A message to which nothing has been written yet.
    pub open spec fn blank(id: MessageId) -> Self {
        AssistantMessageView { id, body: Seq::empty(), tool_calls: Seq::empty(), error: None }
    }
}

impl DeepView for AssistantMessage {
    type V = AssistantMessageView;

    open spec fn deep_view(&self) -> AssistantMessageView {
        AssistantMessageView {
            id: self.id,
            body: self.body.deep_view(),
            tool_calls: self.tool_calls.deep_view(),
            error: self.error.deep_view(),
        }
    }
}

/// One message of a chat.
#[derive(PartialEq, Eq, Debug)]
pub enum ChatMessage {
    User(UserMessage),
    Assistant(AssistantMessage),
}

#[verifier::ext_equal]
pub enum ChatMessageView {
    User(UserMessageView),
    Assistant(AssistantMessageView),
}

impl ChatMessageView {
    pub open spec fn id(self) -> MessageId {
        match self {
            ChatMessageView::User(message) => message.id,
            ChatMessageView::Assistant(message) => message.id,
        }
    }

    /// The editor that takes the focus for this message: only user messages have one.
    pub open spec fn focus_handle(self) -> Option<FocusHandle> {
        match self {
            ChatMessageView::User(message) => Some(FocusHandle(message.id)),
            ChatMessageView::Assistant(_) => None,
        }
    }
}

impl DeepView for ChatMessage {
    type V = ChatMessageView;

    open spec fn deep_view(&self) -> ChatMessageView {
        match self {
            ChatMessage::User(message) => ChatMessageView::User(message.deep_view()),
            ChatMessage::Assistant(message) => ChatMessageView::Assistant(message.deep_view()),
        }
    }
}

impl ChatMessage {
    /// The id of the message, whoever wrote it.
    pub fn id(&self) -> (id: MessageId)
        ensures
            id == self.deep_view().id(),
    {
        match self {
            ChatMessage::User(message) => message.id,
            ChatMessage::Assistant(message) => message.id,
        }
    }

    /// The focus handle of the message's editor.
    pub fn focus_handle(&self) -> (handle: Option<FocusHandle>)
        ensures
            handle == self.deep_view().focus_handle(),
    {
        match self {
            ChatMessage::User(message) => Some(FocusHandle(message.id)),
            ChatMessage::Assistant(_) => None,
        }
    }
}

} // verus!
