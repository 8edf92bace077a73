//! What the operations of a chat do to it and ask of the window, field by field.

use vstd::prelude::*;

use crate::chat::{is_user_message, AssistantChatView};
use crate::codebase::{without_files, AssistantContextView};
use crate::context::{
    Effect, FileContextView, FocusHandle, ListAlignment, MessageId, Pixels, RequestId, SoftWrap,
    ViewContext,
};
use crate::laws::rounds::has_user;
use crate::message::{ChatMessageView, UserMessageView};
use crate::request::{Phase, Submit, SubmitMode};
use crate::search::{lemma_first_index, lemma_first_index_at};
use crate::validity::{lemma_user_position, lemma_with_file};

verus! {

/// The id of a message, whoever wrote it.
pub open spec fn id_of(message: ChatMessageView) -> MessageId {
    match message {
        ChatMessageView::User(message) => message.id,
        ChatMessageView::Assistant(message) => message.id,
    }
}

/// The message at `index` is the first one with its id.
pub open spec fn is_first_of_its_id(messages: Seq<ChatMessageView>, index: int) -> bool {
    &&& 0 <= index < messages.len()
    &&& forall|j: int|
        0 <= j < index ==> id_of(#[trigger] messages[j]) != id_of(messages[index])
}

/// Nothing but the messages and the next id has changed.
pub open spec fn same_besides(before: AssistantChatView, after: AssistantChatView) -> bool {
    &&& after.model == before.model
    &&& after.next_request_id == before.next_request_id
    &&& after.pending_completion == before.pending_completion
}

/// The message is a user message with this id to which nothing has been written: no text and no
/// contexts, in an editor of up to 80 lines that wraps at its width.
pub open spec fn is_unwritten(message: ChatMessageView, id: MessageId) -> bool {
    message matches ChatMessageView::User(message) && {
        &&& message.id == id
        &&& message.body.text.len() == 0
        &&& message.body.max_lines == 80
        &&& message.body.soft_wrap == SoftWrap::EditorWidth
        &&& message.contexts.len() == 0
    }
}

/// A message has one id, and a focus handle exactly where it is one of the user.
pub proof fn law_message_has_an_id(message: ChatMessageView)
    ensures
        message.id() == id_of(message),
        message is User ==> message.focus_handle() == Some(FocusHandle(id_of(message))),
        message is Assistant ==> message.focus_handle() is None,
{
}

/// A user message without text and contexts is appended under the next id. Its editor is opened,
/// takes the focus exactly where it is to, and becomes the last item of the list.
pub proof fn law_user_message_is_appended(chat: AssistantChatView, focus: bool)
    requires
        chat.next_message_id.0 < usize::MAX,
        chat.messages.len() <= usize::MAX,
    ensures
        ({
            let after = chat.with_user_message();
            let handle = FocusHandle(chat.next_message_id);
            let open = Effect::OpenEditor {
                focus_handle: handle,
                max_lines: 80,
                soft_wrap: SoftWrap::EditorWidth,
            };
            let splice = Effect::SpliceFocusable {
                start: chat.messages.len() as usize,
                end: chat.messages.len() as usize,
                focus_handle: Some(handle),
            };
            &&& same_besides(chat, after)
            &&& after.next_message_id.0 == chat.next_message_id.0 + 1
            &&& after.messages.len() == chat.messages.len() + 1
            &&& after.messages.drop_last() == chat.messages
            &&& is_unwritten(after.messages[after.messages.len() - 1], chat.next_message_id)
            &&& chat.user_message_effects(focus) == if focus {
                seq![open, Effect::Focus(handle), splice, Effect::Notify]
            } else {
                seq![open, splice, Effect::Notify]
            }
        }),
{
    assert(chat.with_user_message().messages.drop_last() =~= chat.messages);
    let all = chat.user_message_effects(focus);
    let handle = FocusHandle(chat.next_message_id);
    let open = Effect::OpenEditor {
        focus_handle: handle,
        max_lines: 80,
        soft_wrap: SoftWrap::EditorWidth,
    };
    let splice = Effect::SpliceFocusable {
        start: chat.messages.len() as usize,
        end: chat.messages.len() as usize,
        focus_handle: Some(handle),
    };
    if focus {
        assert(all =~= seq![open, Effect::Focus(handle), splice, Effect::Notify]);
    } else {
        assert(all =~= seq![open, splice, Effect::Notify]);
    }
}

/// A message of the model without text, tool calls and error is appended under the next id, and
/// becomes the last item of the list, which takes no focus.
pub proof fn law_assistant_message_is_appended(chat: AssistantChatView)
    requires
        chat.next_message_id.0 < usize::MAX,
        chat.messages.len() <= usize::MAX,
    ensures
        ({
            let after = chat.with_assistant_message();
            &&& same_besides(chat, after)
            &&& after.next_message_id.0 == chat.next_message_id.0 + 1
            &&& after.messages.len() == chat.messages.len() + 1
            &&& after.messages.drop_last() == chat.messages
            &&& after.messages[after.messages.len() - 1] matches ChatMessageView::Assistant(
                message,
            ) && {
                &&& message.id == chat.next_message_id
                &&& message.body.len() == 0
                &&& message.tool_calls.len() == 0
                &&& message.error is None
            }
            &&& chat.assistant_message_effects() == seq![
                Effect::SpliceFocusable {
                    start: chat.messages.len() as usize,
                    end: chat.messages.len() as usize,
                    focus_handle: None,
                },
                Effect::Notify,
            ]
        }),
{
    assert(chat.with_assistant_message().messages.drop_last() =~= chat.messages);
}

/// A new chat has the model it was given and one user message to which nothing has been written,
/// under id 0, and no request. Its list is made, filled from the bottom and drawn 1024 pixels
/// beyond what is visible, and the editor of the message takes the focus.
pub proof fn law_new_chat_has_one_message(model: Seq<char>)
    ensures
        ({
            let chat = AssistantChatView::empty(model).with_user_message();
            let handle = FocusHandle(MessageId(0));
            &&& chat.model == model
            &&& chat.messages.len() == 1
            &&& is_unwritten(chat.messages[0], MessageId(0))
            &&& chat.next_message_id == MessageId(1)
            &&& chat.pending_completion is None
            &&& AssistantChatView::new_effects(model) == seq![
                Effect::CreateList {
                    alignment: ListAlignment::Bottom,
                    overdraw: Pixels { bits: 0x4480_0000 },
                },
                Effect::OpenEditor {
                    focus_handle: handle,
                    max_lines: 80,
                    soft_wrap: SoftWrap::EditorWidth,
                },
                Effect::Focus(handle),
                Effect::SpliceFocusable { start: 0, end: 0, focus_handle: Some(handle) },
                Effect::Notify,
            ]
        }),
{
    let handle = FocusHandle(MessageId(0));
    assert(AssistantChatView::new_effects(model) =~= seq![
        Effect::CreateList {
            alignment: ListAlignment::Bottom,
            overdraw: Pixels { bits: 0x4480_0000 },
        },
        Effect::OpenEditor {
            focus_handle: handle,
            max_lines: 80,
            soft_wrap: SoftWrap::EditorWidth,
        },
        Effect::Focus(handle),
        Effect::SpliceFocusable { start: 0, end: 0, focus_handle: Some(handle) },
        Effect::Notify,
    ]);
}

/// The messages up to the first one with the id are kept as they are, whoever wrote it, and all
/// after it are removed, also from the list.
pub proof fn law_truncation_keeps_the_front(chat: AssistantChatView, index: int)
    requires
        is_first_of_its_id(chat.messages, index),
        chat.messages.len() <= usize::MAX,
    ensures
        ({
            let id = id_of(chat.messages[index]);
            let after = chat.truncated(id);
            &&& same_besides(chat, after)
            &&& after.next_message_id == chat.next_message_id
            &&& after.messages.len() == index + 1
            &&& forall|i: int| 0 <= i <= index ==> #[trigger] after.messages[i] == chat.messages[i]
            &&& chat.truncate_effects(id) == seq![
                Effect::Splice {
                    start: (index + 1) as usize,
                    end: chat.messages.len() as usize,
                    count: 0,
                },
                Effect::Notify,
            ]
        }),
{
    let id = id_of(chat.messages[index]);
    lemma_first_index_at(
        chat.messages,
        |message: ChatMessageView| message.id() == id,
        index,
    );
}

/// Without a message that has the id nothing is removed, and nothing is asked of the window.
pub proof fn law_truncation_needs_a_message(chat: AssistantChatView, id: MessageId)
    requires
        forall|j: int| 0 <= j < chat.messages.len() ==> id_of(#[trigger] chat.messages[j]) != id,
    ensures
        chat.truncated(id) == chat,
        chat.truncate_effects(id).len() == 0,
{
    lemma_first_index(chat.messages, |message: ChatMessageView| message.id() == id);
}

/// A user message is found under its id where no earlier one has the same id, and no message of the
/// model is ever taken for it.
pub proof fn law_user_message_is_found(chat: AssistantChatView, index: int, id: MessageId)
    requires
        0 <= index < chat.messages.len(),
        chat.messages[index] matches ChatMessageView::User(message) && message.id == id,
        forall|j: int|
            0 <= j < index ==> (#[trigger] chat.messages[j] matches ChatMessageView::User(message)
                ==> message.id != id),
    ensures
        chat.user_position(id) == Some(index),
{
    lemma_first_index_at(
        chat.messages,
        |message: ChatMessageView| is_user_message(message, id),
        index,
    );
}

/// The focused message is the user message whose editor holds the focus. There is none where
/// nothing holds the focus, or only something else.
pub proof fn law_focused_message(chat: AssistantChatView, focused: Option<FocusHandle>)
    ensures
        focused is None ==> chat.focused_message_id(focused) is None,
        focused matches Some(handle) ==> chat.focused_message_id(focused) == if has_user(
            chat.messages,
            handle.0,
        ) {
            Some(handle.0)
        } else {
            None
        },
        forall|id: MessageId| #[trigger]
            chat.user_position(id) is Some == has_user(chat.messages, id),
{
    assert forall|id: MessageId| #[trigger]
        chat.user_position(id) is Some == has_user(chat.messages, id) by {
        lemma_user_position(chat, id);
        if let Some(index) = chat.user_position(id) {
            assert(chat.messages[index] is User);
            assert(has_user(chat.messages, id));
        }
    }
}

/// The file of a submission: the current one where the mode is to send it, and none else.
pub open spec fn sends_file(
    submit: Submit,
    current_file: Option<FileContextView>,
    contexts: Seq<AssistantContextView>,
    others: Seq<AssistantContextView>,
) -> bool {
    match current_file {
        Some(file) => if submit.0 == SubmitMode::CurrentFile {
            contexts == others.push(AssistantContextView::File(file))
        } else {
            contexts == others
        },
        None => contexts == others,
    }
}

/// A submission removes the messages after the submitted one, also from the list, and leaves those
/// before it as they are. The submitted message keeps its id and its text, and its contexts but for
/// the file. A request takes the place of the one before: under the next request id, for the
/// submitted message, in the mode of the submission, with tools on offer in five rounds, and with no
/// round begun. The model and the next message id stay.
pub proof fn law_message_is_submitted(
    chat: AssistantChatView,
    submit: Submit,
    index: int,
    message: UserMessageView,
    current_file: Option<FileContextView>,
)
    requires
        is_first_of_its_id(chat.messages, index),
        chat.messages[index] == ChatMessageView::User(message),
        chat.messages.len() <= usize::MAX,
    ensures
        ({
            let focused = Some(FocusHandle(message.id));
            let after = chat.submitted(submit, focused, current_file);
            &&& after.model == chat.model
            &&& after.next_message_id == chat.next_message_id
            &&& chat.next_request_id.0 < u64::MAX ==> after.next_request_id.0
                == chat.next_request_id.0 + 1
            &&& chat.next_request_id.0 == u64::MAX ==> after.next_request_id.0 == 0
            &&& after.messages.len() == index + 1
            &&& forall|i: int| 0 <= i < index ==> #[trigger] after.messages[i] == chat.messages[i]
            &&& after.messages[index] matches ChatMessageView::User(submitted) && {
                &&& submitted.id == message.id
                &&& submitted.body == message.body
                &&& sends_file(
                    submit,
                    current_file,
                    submitted.contexts,
                    without_files(message.contexts),
                )
            }
            &&& after.pending_completion matches Some(request) && {
                &&& request.id == chat.next_request_id
                &&& request.message_id == message.id
                &&& request.mode == submit.0
                &&& request.limit == 5
                &&& request.call_count == 0
                &&& request.body.len() == 0
                &&& request.phase == Phase::Ready
            }
            &&& chat.submit_effects(focused) == seq![
                Effect::Splice {
                    start: (index + 1) as usize,
                    end: chat.messages.len() as usize,
                    count: 0,
                },
                Effect::Notify,
            ]
        }),
{
    let id = message.id;
    let file = if submit.0 == SubmitMode::CurrentFile {
        current_file
    } else {
        None
    };
    assert forall|j: int| 0 <= j < index implies (
    #[trigger] chat.messages[j] matches ChatMessageView::User(other) ==> other.id != id) by {
        assert(id_of(chat.messages[j]) != id_of(chat.messages[index]));
    }
    law_user_message_is_found(chat, index, id);
    law_truncation_keeps_the_front(chat, index);
    lemma_with_file(chat, id, file);
    let marked = chat.with_file(id, file);
    assert(is_first_of_its_id(marked.messages, index)) by {
        assert forall|j: int| 0 <= j < index implies id_of(#[trigger] marked.messages[j]) != id_of(
            marked.messages[index],
        ) by {
            assert(marked.messages[j] == chat.messages[j]);
        }
    }
    law_truncation_keeps_the_front(marked, index);
    let others = without_files(message.contexts);
    assert(others + Seq::empty() =~= others);
    if let Some(file) = current_file {
        assert(others + seq![AssistantContextView::File(file)] =~= others.push(
            AssistantContextView::File(file),
        ));
    }
}

/// Where no editor of a user message holds the focus, a submission changes nothing.
pub proof fn law_submission_needs_the_focus(
    chat: AssistantChatView,
    submit: Submit,
    focused: Option<FocusHandle>,
    current_file: Option<FileContextView>,
)
    requires
        focused matches Some(handle) ==> !has_user(chat.messages, handle.0),
    ensures
        chat.submitted(submit, focused, current_file) == chat,
        chat.submit_effects(focused).len() == 0,
{
    law_focused_message(chat, focused);
}

/// Request ids count up, and start over after the greatest.
pub proof fn law_request_ids_count_up(id: RequestId)
    ensures
        id.0 < u64::MAX ==> id.following().0 == id.0 + 1,
        id.0 == u64::MAX ==> id.following().0 == 0,
{
}

/// What is asked of the window comes behind what was asked before, and nothing else changes of what
/// is known of the window.
pub proof fn law_effects_are_appended(
    before: ViewContext,
    after: ViewContext,
    effects: Seq<Effect>,
)
    ensures
        after.adds(before, effects) == (after.effects@ == before.effects@ + effects && after.focused
            == before.focused && after.current_file == before.current_file),
{
}

} // verus!
