//! What is shown, field by field.

use vstd::prelude::*;

use crate::codebase::{
    AssistantContextView, CodebaseContextView, CodebaseExcerptView, ElementIdView,
};
use crate::context::{FileContextView, FocusHandle};
use crate::message::{AssistantMessageView, ChatMessageView, ToolFunctionCallView, UserMessageView};
use crate::render::{
    codebase_element, context_element, error_element, message_element, model_entries,
    CodebaseElementView, Color, ContextElementView, ErrorElementView, ExcerptElementView, IconName,
    MessageElementView, ToolCallElementView,
};

verus! {

/// A user message is shown under the name of the user, as the editor in which it is written. There
/// is space below it unless it is the last.
pub proof fn law_user_message_is_shown(message: UserMessageView, is_last: bool)
    ensures
        message_element(ChatMessageView::User(message), is_last) matches MessageElementView::User {
            spaced,
            label,
            editor,
        } && {
            &&& spaced == !is_last
            &&& label.text == "You"@
            &&& label.color == Color::Default
            &&& editor == FocusHandle(message.id)
        },
{
}

/// What is shown of a tool call: the view of its result under the name of the tool, or that it is
/// running.
pub open spec fn shows_call(element: ToolCallElementView, call: ToolFunctionCallView) -> bool {
    match call.result {
        Some(result) => element matches ToolCallElementView::Finished { name, view } && {
            &&& name == call.name
            &&& view == result.view
        },
        None => element matches ToolCallElementView::Running { label, note } && {
            &&& label.text == call.name
            &&& label.color == Color::Modified
            &&& note == "Running..."@
        },
    }
}

/// A message of the model is shown under its name. Its text is shown whenever there is any,
/// whatever the error and the tool calls are, and also where there are no tool calls. Its error is
/// shown whatever the text and the tool calls are, and each tool call is shown, in order. There is
/// space below the message unless it is the last.
pub proof fn law_assistant_message_is_shown(message: AssistantMessageView, is_last: bool)
    ensures
        message_element(ChatMessageView::Assistant(message), is_last) matches
            MessageElementView::Assistant { spaced, label, body, error, tool_calls } && {
            &&& spaced == !is_last
            &&& label.text == "Assistant"@
            &&& label.color == Color::Modified
            &&& body is None <==> message.body.len() == 0 && message.tool_calls.len() > 0
            &&& body matches Some(body) ==> {
                &&& body.text == message.body
                &&& body.element_id == ElementIdView::Integer(message.id.0)
            }
            &&& message.error matches Some(text) ==> error == ErrorElementView::Banner(text)
            &&& message.error is None ==> error == ErrorElementView::Blank
            &&& tool_calls.len() == message.tool_calls.len()
            &&& forall|i: int|
                0 <= i < tool_calls.len() ==> shows_call(
                    #[trigger] tool_calls[i],
                    message.tool_calls[i],
                )
        },
{
}

/// An error is shown as a banner with its text, and no error as blank room.
pub proof fn law_error_is_shown(text: Seq<char>)
    ensures
        error_element(Some(text)) == ErrorElementView::Banner(text),
        error_element(None) == ErrorElementView::Blank,
{
}

/// What is shown of an excerpt: its path, and its text where it is unfolded.
pub open spec fn shows_excerpt(element: ExcerptElementView, excerpt: CodebaseExcerptView) -> bool {
    &&& element.element_id == excerpt.element_id
    &&& element.expanded == excerpt.expanded
    &&& element.icon == IconName::File
    &&& element.icon_color == Color::Muted
    &&& element.path.text == excerpt.path
    &&& element.path.color == Color::Muted
    &&& element.text == excerpt.text
}

/// While the search runs, that is what is shown. When it has ended, each excerpt is shown, in
/// order, or why there are none.
pub proof fn law_search_is_shown(excerpts: Seq<CodebaseExcerptView>, reason: Seq<char>)
    ensures
        codebase_element(CodebaseContextView::Pending) matches CodebaseElementView::Searching {
            icon,
            icon_color,
            note,
        } && icon == IconName::Ai && icon_color == Color::Muted && note
            == "Searching codebase..."@,
        codebase_element(CodebaseContextView::Failed(reason)) == CodebaseElementView::Failed(
            reason,
        ),
        codebase_element(CodebaseContextView::Found(excerpts)) matches
            CodebaseElementView::Excerpts(shown) && {
            &&& shown.len() == excerpts.len()
            &&& forall|i: int|
                0 <= i < shown.len() ==> shows_excerpt(#[trigger] shown[i], excerpts[i])
        },
{
}

/// A context of excerpts is shown as the excerpts, and one of a file by the path of the file.
pub proof fn law_context_is_shown(context: CodebaseContextView, file: FileContextView)
    ensures
        context_element(AssistantContextView::Codebase(context)) == ContextElementView::Codebase(
            codebase_element(context),
        ),
        context_element(AssistantContextView::File(file)) matches ContextElementView::File {
            icon,
            icon_color,
            path,
        } && {
            &&& icon == IconName::File
            &&& icon_color == Color::Muted
            &&& path.text == file.path
            &&& path.color == Color::Muted
        },
{
}

/// The menu has one entry for each model, in order, with its name.
pub proof fn law_menu_lists_the_models(models: Seq<Seq<char>>)
    ensures
        model_entries(models).len() == models.len(),
        forall|i: int|
            0 <= i < models.len() ==> (#[trigger] model_entries(models)[i]).text == models[i]
                && model_entries(models)[i].color == Color::Default,
{
}

} // verus!
