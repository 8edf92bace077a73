//! What is shown of a chat. Each element says what appears; the window decides how it looks.

use vstd::prelude::*;

use crate::chat::AssistantChat;
use crate::codebase::{
    AssistantContext, AssistantContextView, CodebaseContext, CodebaseContextView, CodebaseExcerpt,
    CodebaseExcerptView, ElementId, ElementIdView,
};
use crate::context::FocusHandle;
use crate::message::{
    AssistantMessage, AssistantMessageView, ChatMessage, ChatMessageView, ToolFunctionCall,
    ToolFunctionCallView,
};

verus! {

/// The role of a colour in the theme of the window.
#[derive(Clone, Copy, PartialEq, Eq, Structural, Debug)]
pub enum Color {
    Default,
    Modified,
    Muted,
}

#[derive(Clone, Copy, PartialEq, Eq, Structural, Debug)]
pub enum IconName {
    Ai,
    ChevronDown,
    File,
}

/// A line of text in one colour.
#[derive(PartialEq, Eq, Debug)]
pub struct Label {
    pub text: String,
    pub color: Color,
}

#[verifier::ext_equal]
pub struct LabelView {
    pub text: Seq<char>,
    pub color: Color,
}

impl DeepView for Label {
    type V = LabelView;

    open spec fn deep_view(&self) -> LabelView {
        LabelView { text: self.text@, color: self.color }
    }
}

/// The text of an assistant message.
#[derive(PartialEq, Eq, Debug)]
pub struct BodyElement {
    pub element_id: ElementId,
    pub text: String,
}

#[verifier::ext_equal]
pub struct BodyElementView {
    pub element_id: ElementIdView,
    pub text: Seq<char>,
}

impl DeepView for BodyElement {
    type V = BodyElementView;

    open spec fn deep_view(&self) -> BodyElementView {
        BodyElementView { element_id: self.element_id.deep_view(), text: self.text@ }
    }
}

/// Room for an error.
#[derive(PartialEq, Eq, Debug)]
pub enum ErrorElement {
    Blank,
    Banner(String),
}

#[verifier::ext_equal]
pub enum ErrorElementView {
    Blank,
    Banner(Seq<char>),
}

impl DeepView for ErrorElement {
    type V = ErrorElementView;

    open spec fn deep_view(&self) -> ErrorElementView {
        match self {
            ErrorElement::Blank => ErrorElementView::Blank,
            ErrorElement::Banner(error) => ErrorElementView::Banner(error@),
        }
    }
}

/// A tool call below an assistant message.
#[derive(PartialEq, Eq, Debug)]
pub enum ToolCallElement {
    /// The view of the result, under the name of the tool.
    Finished { name: String, view: usize },
    /// The name of the tool and the note that it is running.
    Running { label: Label, note: String },
}

#[verifier::ext_equal]
pub enum ToolCallElementView {
    Finished { name: Seq<char>, view: usize },
    Running { label: LabelView, note: Seq<char> },
}

impl DeepView for ToolCallElement {
    type V = ToolCallElementView;

    open spec fn deep_view(&self) -> ToolCallElementView {
        match self {
            ToolCallElement::Finished { name, view } => ToolCallElementView::Finished {
                name: name@,
                view: *view,
            },
            ToolCallElement::Running { label, note } => ToolCallElementView::Running {
                label: label.deep_view(),
                note: note@,
            },
        }
    }
}

/// One item of the list of messages.
#[derive(PartialEq, Eq, Debug)]
#[allow(inconsistent_fields)]
pub enum MessageElement {
    User {
        /// There is space below the message.
        spaced: bool,
        label: Label,
        editor: FocusHandle,
    },
    Assistant {
        /// There is space below the message.
        spaced: bool,
        label: Label,
        /// Absent where only the tool calls of the message are shown.
        body: Option<BodyElement>,
        error: ErrorElement,
        tool_calls: Vec<ToolCallElement>,
    },
}

#[verifier::ext_equal]
#[allow(inconsistent_fields)]
pub enum MessageElementView {
    User { spaced: bool, label: LabelView, editor: FocusHandle },
    Assistant {
        spaced: bool,
        label: LabelView,
        body: Option<BodyElementView>,
        error: ErrorElementView,
        tool_calls: Seq<ToolCallElementView>,
    },
}

impl DeepView for MessageElement {
    type V = MessageElementView;

    open spec fn deep_view(&self) -> MessageElementView {
        match self {
            MessageElement::User { spaced, label, editor } => MessageElementView::User {
                spaced: *spaced,
                label: label.deep_view(),
                editor: *editor,
            },
            MessageElement::Assistant { spaced, label, body, error, tool_calls } => {
                MessageElementView::Assistant {
                    spaced: *spaced,
                    label: label.deep_view(),
                    body: body.deep_view(),
                    error: error.deep_view(),
                    tool_calls: tool_calls.deep_view(),
                }
            },
        }
    }
}

/// The button that opens the menu from which the user picks the model that answers.
#[derive(PartialEq, Eq, Debug)]
pub struct ModelDropdown {
    /// The model on the button.
    pub selected: String,
    pub icon: IconName,
    pub icon_color: Color,
    pub tooltip: String,
}

/// One excerpt of the codebase.
#[derive(PartialEq, Eq, Debug)]
pub struct ExcerptElement {
    pub element_id: ElementId,
    pub expanded: bool,
    pub icon: IconName,
    pub icon_color: Color,
    pub path: Label,
    pub text: String,
}

#[verifier::ext_equal]
pub struct ExcerptElementView {
    pub element_id: ElementIdView,
    pub expanded: bool,
    pub icon: IconName,
    pub icon_color: Color,
    pub path: LabelView,
    pub text: Seq<char>,
}

impl DeepView for ExcerptElement {
    type V = ExcerptElementView;

    open spec fn deep_view(&self) -> ExcerptElementView {
        ExcerptElementView {
            element_id: self.element_id.deep_view(),
            expanded: self.expanded,
            icon: self.icon,
            icon_color: self.icon_color,
            path: self.path.deep_view(),
            text: self.text@,
        }
    }
}

/// The excerpts of the codebase for one message, or what stands in for them.
#[derive(PartialEq, Eq, Debug)]
pub enum CodebaseElement {
    Searching { icon: IconName, icon_color: Color, note: String },
    Excerpts(Vec<ExcerptElement>),
    Failed(String),
}

#[verifier::ext_equal]
pub enum CodebaseElementView {
    Searching { icon: IconName, icon_color: Color, note: Seq<char> },
    Excerpts(Seq<ExcerptElementView>),
    Failed(Seq<char>),
}

impl DeepView for CodebaseElement {
    type V = CodebaseElementView;

    open spec fn deep_view(&self) -> CodebaseElementView {
        match self {
            CodebaseElement::Searching { icon, icon_color, note } => {
                CodebaseElementView::Searching {
                    icon: *icon,
                    icon_color: *icon_color,
                    note: note@,
                }
            },
            CodebaseElement::Excerpts(excerpts) => CodebaseElementView::Excerpts(
                excerpts.deep_view(),
            ),
            CodebaseElement::Failed(error) => CodebaseElementView::Failed(error@),
        }
    }
}

/// What the model is told ahead of a message.
#[derive(PartialEq, Eq, Debug)]
pub enum ContextElement {
    Codebase(CodebaseElement),
    File { icon: IconName, icon_color: Color, path: Label },
}

#[verifier::ext_equal]
pub enum ContextElementView {
    Codebase(CodebaseElementView),
    File { icon: IconName, icon_color: Color, path: LabelView },
}

impl DeepView for ContextElement {
    type V = ContextElementView;

    open spec fn deep_view(&self) -> ContextElementView {
        match self {
            ContextElement::Codebase(element) => ContextElementView::Codebase(element.deep_view()),
            ContextElement::File { icon, icon_color, path } => ContextElementView::File {
                icon: *icon,
                icon_color: *icon_color,
                path: path.deep_view(),
            },
        }
    }
}

/// What is shown of an error.
pub open spec fn error_element(error: Option<Seq<char>>) -> ErrorElementView {
    match error {
        Some(error) => ErrorElementView::Banner(error),
        None => ErrorElementView::Blank,
    }
}

/// What is shown of a tool call.
pub open spec fn tool_call_element(call: ToolFunctionCallView) -> ToolCallElementView {
    match call.result {
        Some(result) => ToolCallElementView::Finished { name: call.name, view: result.view },
        None => ToolCallElementView::Running {
            label: LabelView { text: call.name, color: Color::Modified },
            note: "Running..."@,
        },
    }
}

pub open spec fn tool_call_elements(calls: Seq<ToolFunctionCallView>) -> Seq<
    ToolCallElementView,
> {
    Seq::new(calls.len(), |i: int| tool_call_element(calls[i]))
}

/// What is shown of the text of an assistant message: nothing where the message has tool calls
/// and no text.
pub open spec fn body_element(message: AssistantMessageView) -> Option<BodyElementView> {
    if message.body.len() == 0 && message.tool_calls.len() > 0 {
        None
    } else {
        Some(
            BodyElementView {
                element_id: ElementIdView::Integer(message.id.0),
                text: message.body,
            },
        )
    }
}

/// What is shown of a message. The last message has no space below it.
pub open spec fn message_element(message: ChatMessageView, is_last: bool) -> MessageElementView {
    match message {
        ChatMessageView::User(message) => MessageElementView::User {
            spaced: !is_last,
            label: LabelView { text: "You"@, color: Color::Default },
            editor: FocusHandle(message.id),
        },
        ChatMessageView::Assistant(message) => MessageElementView::Assistant {
            spaced: !is_last,
            label: LabelView { text: "Assistant"@, color: Color::Modified },
            body: body_element(message),
            error: error_element(message.error),
            tool_calls: tool_call_elements(message.tool_calls),
        },
    }
}

/// What is shown of an excerpt.
pub open spec fn excerpt_element(excerpt: CodebaseExcerptView) -> ExcerptElementView {
    ExcerptElementView {
        element_id: excerpt.element_id,
        expanded: excerpt.expanded,
        icon: IconName::File,
        icon_color: Color::Muted,
        path: LabelView { text: excerpt.path, color: Color::Muted },
        text: excerpt.text,
    }
}

/// What is shown of the excerpts of a context.
pub open spec fn codebase_element(context: CodebaseContextView) -> CodebaseElementView {
    match context {
        CodebaseContextView::Pending => CodebaseElementView::Searching {
            icon: IconName::Ai,
            icon_color: Color::Muted,
            note: "Searching codebase..."@,
        },
        CodebaseContextView::Found(excerpts) => CodebaseElementView::Excerpts(
            Seq::new(excerpts.len(), |i: int| excerpt_element(excerpts[i])),
        ),
        CodebaseContextView::Failed(error) => CodebaseElementView::Failed(error),
    }
}

/// What is shown of a context.
pub open spec fn context_element(context: AssistantContextView) -> ContextElementView {
    match context {
        AssistantContextView::Codebase(context) => ContextElementView::Codebase(
            codebase_element(context),
        ),
        AssistantContextView::File(file) => ContextElementView::File {
            icon: IconName::File,
            icon_color: Color::Muted,
            path: LabelView { text: file.path, color: Color::Muted },
        },
    }
}

/// The entries of the menu of models.
pub open spec fn model_entries(models: Seq<Seq<char>>) -> Seq<LabelView> {
    Seq::new(models.len(), |i: int| LabelView { text: models[i], color: Color::Default })
}

/// The entries of the menu of models, where these are the models that can be had.
pub fn render_model_menu(available_models: &Vec<String>) -> (entries: Vec<Label>)
    ensures
        entries.deep_view() == model_entries(available_models.deep_view()),
{
    let mut entries: Vec<Label> = Vec::new();
    for i in 0..available_models.len()
        invariant
            entries.deep_view() =~= model_entries(available_models.deep_view()).take(i as int),
    {
        let ghost before = entries.deep_view();
        let entry = Label { text: available_models[i].clone(), color: Color::Default };
        let ghost added = entry.deep_view();
        assert(added == model_entries(available_models.deep_view())[i as int]);
        entries.push(entry);
        assert(entries.deep_view() =~= before.push(added));
    }
    assert(entries.deep_view() =~= model_entries(available_models.deep_view()));
    entries
}

fn render_tool_call(call: &ToolFunctionCall) -> (element: ToolCallElement)
    ensures
        element.deep_view() == tool_call_element(call.deep_view()),
{
    let name = call.name.clone();
    match &call.result {
        Some(result) => ToolCallElement::Finished { name, view: result.view },
        None => ToolCallElement::Running {
            label: Label { text: name, color: Color::Modified },
            note: "Running...".to_string(),
        },
    }
}

fn render_tool_calls(calls: &Vec<ToolFunctionCall>) -> (elements: Vec<ToolCallElement>)
    ensures
        elements.deep_view() == tool_call_elements(calls.deep_view()),
{
    let mut elements: Vec<ToolCallElement> = Vec::new();
    for i in 0..calls.len()
        invariant
            elements.deep_view() =~= tool_call_elements(calls.deep_view()).take(i as int),
    {
        let ghost before = elements.deep_view();
        let element = render_tool_call(&calls[i]);
        let ghost added = element.deep_view();
        assert(added == tool_call_elements(calls.deep_view())[i as int]);
        elements.push(element);
        assert(elements.deep_view() =~= before.push(added));
    }
    elements
}

fn render_body(message: &AssistantMessage) -> (body: Option<BodyElement>)
    ensures
        body.deep_view() == body_element(message.deep_view()),
{
    if message.body.text.as_str().is_empty() && !message.tool_calls.is_empty() {
        None
    } else {
        Some(
            BodyElement {
                element_id: ElementId::Integer(message.id.0),
                text: message.body.text.clone(),
            },
        )
    }
}

impl AssistantChat {
    /// What is shown of an error, or of there being none.
    pub fn render_error(&self, error: &Option<String>) -> (element: ErrorElement)
        ensures
            element.deep_view() == error_element(error.deep_view()),
    {
        match error {
            Some(error) => ErrorElement::Banner(error.clone()),
            None => ErrorElement::Blank,
        }
    }

    /// What is shown of the message at `ix`.
    pub fn render_message(&self, ix: usize) -> (element: MessageElement)
        requires
            ix < self.messages.len(),
        ensures
            element.deep_view() == message_element(
                self.deep_view().messages[ix as int],
                ix == self.messages.len() - 1,
            ),
    {
        let is_last = ix == self.messages.len() - 1;
        match &self.messages[ix] {
            ChatMessage::User(message) => MessageElement::User {
                spaced: !is_last,
                label: Label { text: "You".to_string(), color: Color::Default },
                editor: FocusHandle(message.id),
            },
            ChatMessage::Assistant(message) => MessageElement::Assistant {
                spaced: !is_last,
                label: Label { text: "Assistant".to_string(), color: Color::Modified },
                body: render_body(message),
                error: self.render_error(&message.error),
                tool_calls: render_tool_calls(&message.tool_calls),
            },
        }
    }

    /// What opens the menu of the models.
    pub fn render_model_dropdown(&self) -> (menu: ModelDropdown)
        ensures
            menu.selected@ == self.model@,
            menu.icon == IconName::ChevronDown,
            menu.icon_color == Color::Muted,
            menu.tooltip@ == "Change Model"@,
    {
        ModelDropdown {
            selected: self.model.clone(),
            icon: IconName::ChevronDown,
            icon_color: Color::Muted,
            tooltip: "Change Model".to_string(),
        }
    }
}

fn render_excerpt(excerpt: &CodebaseExcerpt) -> (element: ExcerptElement)
    ensures
        element.deep_view() == excerpt_element(excerpt.deep_view()),
{
    ExcerptElement {
        element_id: excerpt.element_id.clone(),
        expanded: excerpt.expanded,
        icon: IconName::File,
        icon_color: Color::Muted,
        path: Label { text: excerpt.path.clone(), color: Color::Muted },
        text: excerpt.text.clone(),
    }
}

impl CodebaseContext {
    /// What is shown of the excerpts.
    pub fn render(&self) -> (element: CodebaseElement)
        ensures
            element.deep_view() == codebase_element(self.deep_view()),
    {
        match self {
            CodebaseContext::Pending => CodebaseElement::Searching {
                icon: IconName::Ai,
                icon_color: Color::Muted,
                note: "Searching codebase...".to_string(),
            },
            CodebaseContext::Done(Ok(excerpts)) => {
                let ghost shown = codebase_element(self.deep_view())->Excerpts_0;
                let mut elements: Vec<ExcerptElement> = Vec::new();
                for i in 0..excerpts.len()
                    invariant
                        shown == Seq::new(
                            excerpts.deep_view().len(),
                            |i: int| excerpt_element(excerpts.deep_view()[i]),
                        ),
                        elements.deep_view() =~= shown.take(i as int),
                {
                    let ghost before = elements.deep_view();
                    let element = render_excerpt(&excerpts[i]);
                    let ghost added = element.deep_view();
                    assert(added == shown[i as int]);
                    elements.push(element);
                    assert(elements.deep_view() =~= before.push(added));
                }
                assert(elements.deep_view() =~= shown);
                CodebaseElement::Excerpts(elements)
            },
            CodebaseContext::Done(Err(error)) => CodebaseElement::Failed(error.clone()),
        }
    }
}

impl AssistantContext {
    /// What is shown of this context.
    pub fn render(&self) -> (element: ContextElement)
        ensures
            element.deep_view() == context_element(self.deep_view()),
    {
        match self {
            AssistantContext::Codebase(context) => ContextElement::Codebase(context.render()),
            AssistantContext::File(file) => ContextElement::File {
                icon: IconName::File,
                icon_color: Color::Muted,
                path: Label { text: file.path.clone(), color: Color::Muted },
            },
        }
    }
}

} // verus!
