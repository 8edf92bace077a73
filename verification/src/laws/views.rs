//! The value that stands for something holds what that something holds, each part in its own place.

use vstd::prelude::*;

use crate::chat::AssistantChat;
use crate::codebase::{
    AssistantContext, AssistantContextView, CodebaseContext, CodebaseContextView, CodebaseExcerpt,
    ElementId, ElementIdView, LoadedResult,
};
use crate::completion::{
    CompletionMessage, CompletionMessageView, FunctionContent, ToolCall, ToolCallContent,
    ToolCallContentView,
};
use crate::context::FileContext;
use crate::delta::{
    CompletionDelta, FunctionCallDelta, ToolCallDelta, ToolCallDeltaVariant,
    ToolCallDeltaVariantView,
};
use crate::message::{
    AssistantMessage, ChatMessage, ChatMessageView, RichText, ToolFunctionCall, UserMessage,
};
use crate::render::{
    BodyElement, CodebaseElement, CodebaseElementView, ContextElement, ContextElementView,
    ErrorElement, ErrorElementView, ExcerptElement, Label, MessageElement, MessageElementView,
    ToolCallElement, ToolCallElementView,
};
use crate::request::{
    CompletionAction, CompletionActionView, CompletionCall, CompletionEvent, CompletionEventView,
    CompletionRequest,
};

verus! {

/// The text that may be there is the one that stands for it.
pub open spec fn same_text(text: Option<String>, view: Option<Seq<char>>) -> bool {
    match text {
        Some(text) => view == Some(text@),
        None => view is None,
    }
}

/// The items that stand for a list are those that stand for its items, in order.
pub open spec fn same_items<A: DeepView>(items: Vec<A>, views: Seq<A::V>) -> bool {
    &&& views.len() == items@.len()
    &&& forall|i: int| 0 <= i < views.len() ==> #[trigger] views[i] == items@[i].deep_view()
}

/// A chat is its model, its messages in order, its counters and its request.
pub proof fn law_view_of_chat(chat: AssistantChat)
    ensures
        chat.deep_view().model == chat.model@,
        same_items(chat.messages, chat.deep_view().messages),
        chat.deep_view().next_message_id == chat.next_message_id,
        chat.deep_view().next_request_id == chat.next_request_id,
        chat.pending_completion matches Some(request) ==> chat.deep_view().pending_completion
            == Some(request.deep_view()),
        chat.pending_completion is None ==> chat.deep_view().pending_completion is None,
{
}

/// A request is its ids, its mode, its counts, its text and its phase.
pub proof fn law_view_of_request(request: CompletionRequest)
    ensures
        request.deep_view().id == request.id,
        request.deep_view().message_id == request.message_id,
        request.deep_view().mode == request.mode,
        request.deep_view().limit == request.limit,
        request.deep_view().call_count == request.call_count,
        request.deep_view().body == request.body@,
        request.deep_view().phase == request.phase,
{
}

/// A message of the user stays one, with its id, its editor and its contexts. A message of the model
/// stays one, with its id, its text, its tool calls and its error.
pub proof fn law_view_of_message(user: UserMessage, reply: AssistantMessage)
    ensures
        ChatMessage::User(user).deep_view() == ChatMessageView::User(user.deep_view()),
        ChatMessage::Assistant(reply).deep_view() == ChatMessageView::Assistant(reply.deep_view()),
        user.deep_view().id == user.id,
        user.deep_view().body.text == user.body.text@,
        user.deep_view().body.max_lines == user.body.max_lines,
        user.deep_view().body.soft_wrap == user.body.soft_wrap,
        same_items(user.contexts, user.deep_view().contexts),
        reply.deep_view().id == reply.id,
        reply.deep_view().body == reply.body.text@,
        same_items(reply.tool_calls, reply.deep_view().tool_calls),
        same_text(reply.error, reply.deep_view().error),
{
}

/// A tool call is its id, its name, its arguments and its result, if that is there.
pub proof fn law_view_of_tool_call(call: ToolFunctionCall)
    ensures
        call.deep_view().id == call.id@,
        call.deep_view().name == call.name@,
        call.deep_view().arguments == call.arguments@,
        call.result is None ==> call.deep_view().result is None,
        call.result matches Some(result) ==> (call.deep_view().result matches Some(view)
            && view.content == result.content@ && view.view == result.view),
{
}

/// A rendered text is its text.
pub proof fn law_view_of_text(rich: RichText)
    ensures
        rich.deep_view() == rich.text@,
{
}

/// A piece of a message is its text, if it has any, and its pieces of tool calls. Such a piece is
/// its index, and what it brings of the id, of the name and of the arguments.
pub proof fn law_view_of_piece(
    delta: CompletionDelta,
    piece: ToolCallDelta,
    function: FunctionCallDelta,
)
    ensures
        same_text(delta.content, delta.deep_view().content),
        same_items(delta.tool_calls, delta.deep_view().tool_calls),
        piece.deep_view().index == piece.index,
        same_text(piece.id, piece.deep_view().id),
        piece.variant is None ==> piece.deep_view().variant is None,
        piece.variant == Some(ToolCallDeltaVariant::Function(function))
            ==> piece.deep_view().variant == Some(
            ToolCallDeltaVariantView::Function(function.deep_view()),
        ),
        same_text(function.name, function.deep_view().name),
        same_text(function.arguments, function.deep_view().arguments),
{
}

/// An event is what it is, with what it brings. The end of a message tells whether the message is
/// complete, and the tools that returned bring their calls, in order.
pub proof fn law_view_of_event(
    delta: CompletionDelta,
    rich: RichText,
    error: String,
    results: Vec<Result<ToolFunctionCall, String>>,
)
    ensures
        CompletionEvent::Begin.deep_view() == CompletionEventView::Begin,
        CompletionEvent::Delta(delta).deep_view() == CompletionEventView::Delta(delta.deep_view()),
        CompletionEvent::Rendered(rich).deep_view() == CompletionEventView::Rendered(rich.text@),
        CompletionEvent::StreamEnded(Ok(())).deep_view() == CompletionEventView::StreamComplete,
        CompletionEvent::StreamEnded(Err(error)).deep_view() == CompletionEventView::StreamFailed(
            error@,
        ),
        CompletionEvent::ToolsReturned(results).deep_view() matches
            CompletionEventView::ToolsReturned(views) && {
            &&& views.len() == results@.len()
            &&& forall|i: int|
                0 <= i < views.len() ==> match results@[i] {
                    Ok(call) => #[trigger] views[i] == Some(call.deep_view()),
                    Err(_) => views[i] is None,
                }
        },
        CompletionEvent::Settle.deep_view() == CompletionEventView::Settle,
{
}

/// An action is what it is, with what it is to be done on.
pub proof fn law_view_of_action(
    call: CompletionCall,
    text: String,
    calls: Vec<ToolFunctionCall>,
)
    ensures
        CompletionAction::Complete(call).deep_view() == CompletionActionView::Complete(
            call.deep_view(),
        ),
        CompletionAction::Render(text).deep_view() == CompletionActionView::Render(text@),
        CompletionAction::Listen.deep_view() == CompletionActionView::Listen,
        CompletionAction::CallTools(calls).deep_view() matches CompletionActionView::CallTools(
            views,
        ) && same_items(calls, views),
        CompletionAction::Repeat.deep_view() == CompletionActionView::Repeat,
        CompletionAction::Finish.deep_view() == CompletionActionView::Finish,
        CompletionAction::Rest.deep_view() == CompletionActionView::Rest,
        call.deep_view().model == call.model@,
        same_items(call.messages, call.deep_view().messages),
        same_items(call.stop, call.deep_view().stop),
        call.deep_view().temperature_bits == call.temperature_bits,
        call.deep_view().offer_tools == call.offer_tools,
{
}

/// What is sent to the model is its text under its role, with its tool calls, or with the tool call
/// that it answers.
pub proof fn law_view_of_sent_message(
    text: String,
    content: Option<String>,
    tool_calls: Vec<ToolCall>,
    tool_call_id: String,
)
    ensures
        (CompletionMessage::System { content: text }).deep_view()
            == (CompletionMessageView::System { content: text@ }),
        (CompletionMessage::User { content: text }).deep_view() == (CompletionMessageView::User {
            content: text@,
        }),
        (CompletionMessage::Assistant { content, tool_calls }).deep_view() matches
            CompletionMessageView::Assistant { content: view, tool_calls: calls } && same_text(
            content,
            view,
        ) && same_items(tool_calls, calls),
        (CompletionMessage::Tool { content: text, tool_call_id }).deep_view()
            == (CompletionMessageView::Tool { content: text@, tool_call_id: tool_call_id@ }),
{
}

/// A tool call that is sent is its id and its function, with the name and the arguments of that.
pub proof fn law_view_of_sent_tool_call(call: ToolCall, function: FunctionContent)
    ensures
        call.deep_view().id == call.id@,
        call.content == (ToolCallContent::Function { function }) ==> call.deep_view().content == (
        ToolCallContentView::Function { function: function.deep_view() }),
        function.deep_view().name == function.name@,
        function.deep_view().arguments == function.arguments@,
{
}

/// A context is a search or a file, and a search is what has become of it.
pub proof fn law_view_of_context(
    search: CodebaseContext,
    file: FileContext,
    excerpts: Vec<CodebaseExcerpt>,
    error: String,
)
    ensures
        AssistantContext::Codebase(search).deep_view() == AssistantContextView::Codebase(
            search.deep_view(),
        ),
        AssistantContext::File(file).deep_view() == AssistantContextView::File(file.deep_view()),
        file.deep_view().path == file.path@,
        file.deep_view().text == file.text@,
        CodebaseContext::Pending.deep_view() == CodebaseContextView::Pending,
        CodebaseContext::Done(Err(error)).deep_view() == CodebaseContextView::Failed(error@),
        CodebaseContext::Done(Ok(excerpts)).deep_view() matches CodebaseContextView::Found(views)
            && same_items(excerpts, views),
{
}

/// An excerpt is its id, its path, its text, its score and whether it is unfolded. A search result
/// is its path, its range, its score and the text of its file, if that could be read.
pub proof fn law_view_of_excerpt(
    excerpt: CodebaseExcerpt,
    result: LoadedResult,
    number: usize,
    name: String,
)
    ensures
        excerpt.deep_view().element_id == excerpt.element_id.deep_view(),
        excerpt.deep_view().path == excerpt.path@,
        excerpt.deep_view().text == excerpt.text@,
        excerpt.deep_view().score == excerpt.score@,
        excerpt.deep_view().expanded == excerpt.expanded,
        ElementId::Integer(number).deep_view() == ElementIdView::Integer(number),
        ElementId::Name(name).deep_view() == ElementIdView::Name(name@),
        result.deep_view().path == result.path@,
        result.deep_view().start == result.start,
        result.deep_view().end == result.end,
        result.deep_view().score == result.score@,
        match result.text {
            Ok(text) => result.deep_view().text == Some(text@),
            Err(_) => result.deep_view().text is None,
        },
{
}

/// What is shown of a message is its label, its space, and its editor or its text, error and tool
/// calls.
pub proof fn law_view_of_message_element(element: MessageElement)
    ensures
        match element {
            MessageElement::User { spaced, label, editor } => element.deep_view()
                == (MessageElementView::User { spaced, label: label.deep_view(), editor }),
            MessageElement::Assistant { spaced, label, body, error, tool_calls } => {
                element.deep_view() matches MessageElementView::Assistant {
                    spaced: space,
                    label: name,
                    body: text,
                    error: reason,
                    tool_calls: calls,
                } && {
                    &&& space == spaced
                    &&& name == label.deep_view()
                    &&& body matches Some(body) ==> text == Some(body.deep_view())
                    &&& body is None ==> text is None
                    &&& reason == error.deep_view()
                    &&& same_items(tool_calls, calls)
                }
            },
        },
{
}

/// The parts of what is shown of a message are their texts, colours and ids.
pub proof fn law_view_of_message_parts(
    label: Label,
    body: BodyElement,
    error: String,
    name: String,
    view: usize,
    note: String,
)
    ensures
        label.deep_view().text == label.text@,
        label.deep_view().color == label.color,
        body.deep_view().element_id == body.element_id.deep_view(),
        body.deep_view().text == body.text@,
        ErrorElement::Blank.deep_view() == ErrorElementView::Blank,
        ErrorElement::Banner(error).deep_view() == ErrorElementView::Banner(error@),
        (ToolCallElement::Finished { name, view }).deep_view() == (ToolCallElementView::Finished {
            name: name@,
            view,
        }),
        (ToolCallElement::Running { label, note }).deep_view() == (ToolCallElementView::Running {
            label: label.deep_view(),
            note: note@,
        }),
{
}

/// What is shown of a context is its icon, its notes, its excerpts and its path.
pub proof fn law_view_of_context_element(
    context: ContextElement,
    element: CodebaseElement,
    excerpt: ExcerptElement,
)
    ensures
        match context {
            ContextElement::Codebase(shown) => context.deep_view() == ContextElementView::Codebase(
                shown.deep_view(),
            ),
            ContextElement::File { icon, icon_color, path } => context.deep_view() == (
            ContextElementView::File { icon, icon_color, path: path.deep_view() }),
        },
        match element {
            CodebaseElement::Searching { icon, icon_color, note } => element.deep_view() == (
            CodebaseElementView::Searching { icon, icon_color, note: note@ }),
            CodebaseElement::Excerpts(excerpts) => element.deep_view() matches
                CodebaseElementView::Excerpts(views) && same_items(excerpts, views),
            CodebaseElement::Failed(error) => element.deep_view() == CodebaseElementView::Failed(
                error@,
            ),
        },
        excerpt.deep_view().element_id == excerpt.element_id.deep_view(),
        excerpt.deep_view().expanded == excerpt.expanded,
        excerpt.deep_view().icon == excerpt.icon,
        excerpt.deep_view().icon_color == excerpt.icon_color,
        excerpt.deep_view().path == excerpt.path.deep_view(),
        excerpt.deep_view().text == excerpt.text@,
{
}

} // verus!
