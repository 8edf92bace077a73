//! What holds of every chat, and why every operation keeps it.

use vstd::prelude::*;

use crate::chat::{is_user_message, next_id, AssistantChatView};
use crate::context::{FileContextView, FocusHandle, MessageId};
use crate::message::{ChatMessageView, UserMessageView};
use crate::request::{file_to_send, CompletionEventView, Phase, Submit};
use crate::search::{lemma_first_index, lemma_first_index_at};

verus! {

impl AssistantChatView {
    /// Nothing has happened to the chat yet.
    pub open spec fn is_blank(self) -> bool {
        &&& self.messages.len() == 0
        &&& self.next_message_id == MessageId(0)
        &&& self.pending_completion is None
    }

    /// The chat starts with a user message.
    pub open spec fn starts_with_user(self) -> bool {
        self.messages.len() > 0 && self.messages[0] is User
    }

    /// The id of the request is the one that was given out last.
    pub open spec fn request_is_latest(self) -> bool {
        self.pending_completion matches Some(request) ==> self.next_request_id
            == request.id.following()
    }

    /// A chat starts with the user message that has the first id, its ids increase, and the next id
    /// is still unused.
    pub open spec fn well_formed(self) -> bool {
        &&& self.starts_with_user()
        &&& self.messages[0].id() == MessageId(0)
        &&& self.request_is_latest()
        &&& forall|i: int, j: int|
            0 <= i < j < self.messages.len() ==> (#[trigger] self.messages[i]).id().0 < (
            #[trigger] self.messages[j]).id().0
        &&& forall|i: int|
            0 <= i < self.messages.len() ==> (#[trigger] self.messages[i]).id().0
                < self.next_message_id.0
    }

    /// The submitted message is in the chat, and the message that the model is writing is its last.
    pub open spec fn request_in_place(self) -> bool {
        self.pending_completion matches Some(request) ==> {
            &&& self.user_position(request.message_id) is Some
            &&& match request.phase {
                Phase::Streaming => self.last_is_assistant(),
                Phase::Rendering => self.last_is_assistant(),
                Phase::CallingTools => self.last_is_assistant(),
                _ => true,
            }
        }
    }
}

/// In a well-formed chat a message is found at its own place.
pub proof fn lemma_position(chat: AssistantChatView, index: int)
    requires
        chat.well_formed(),
        0 <= index < chat.messages.len(),
    ensures
        chat.position(chat.messages[index].id()) == Some(index),
        chat.messages[index] is User ==> chat.user_position(chat.messages[index].id()) == Some(
            index,
        ),
{
    let id = chat.messages[index].id();
    lemma_first_index_at(
        chat.messages,
        |message: ChatMessageView| message.id() == id,
        index,
    );
    if chat.messages[index] is User {
        lemma_first_index_at(
            chat.messages,
            |message: ChatMessageView| is_user_message(message, id),
            index,
        );
    }
}

/// What the place of a user message says.
pub proof fn lemma_user_position(chat: AssistantChatView, id: MessageId)
    ensures
        match chat.user_position(id) {
            Some(index) => 0 <= index < chat.messages.len() && is_user_message(
                chat.messages[index],
                id,
            ),
            None => forall|i: int|
                0 <= i < chat.messages.len() ==> !is_user_message(#[trigger] chat.messages[i], id),
        },
{
    lemma_first_index(chat.messages, |message: ChatMessageView| is_user_message(message, id));
}

/// The search for a user message looks at the messages alone, and stops at the first.
pub proof fn lemma_user_position_of_prefix(
    before: AssistantChatView,
    after: AssistantChatView,
    id: MessageId,
)
    requires
        before.user_position(id) is Some,
        after.messages.len() > before.user_position(id)->0,
        after.messages.take(before.user_position(id)->0 + 1) == before.messages.take(
            before.user_position(id)->0 + 1,
        ),
    ensures
        after.user_position(id) == before.user_position(id),
{
    let index = before.user_position(id)->0;
    let pred = |message: ChatMessageView| is_user_message(message, id);
    lemma_first_index(before.messages, pred);
    assert forall|j: int| 0 <= j <= index implies #[trigger] after.messages[j]
        == before.messages[j] by {
        assert(after.messages.take(index + 1)[j] == before.messages.take(index + 1)[j]);
    }
    lemma_first_index_at(after.messages, pred, index);
}

/// A message under the next id keeps a chat well formed.
pub proof fn lemma_push_keeps_well_formed(chat: AssistantChatView, message: ChatMessageView)
    requires
        chat.well_formed() || chat.is_blank() && message is User,
        chat.next_message_id.0 < usize::MAX,
        message.id() == chat.next_message_id,
    ensures
        (AssistantChatView {
            next_message_id: next_id(chat.next_message_id),
            ..chat.pushed(message)
        }).well_formed(),
{
}

/// Removing the messages after one keeps a chat well formed.
pub proof fn lemma_truncate_keeps_well_formed(chat: AssistantChatView, id: MessageId)
    requires
        chat.well_formed(),
    ensures
        chat.truncated(id).well_formed(),
{
    lemma_first_index(chat.messages, |message: ChatMessageView| message.id() == id);
}

/// Editing a user message keeps a chat well formed, and every message at its place.
pub proof fn lemma_edit_keeps_well_formed(
    chat: AssistantChatView,
    index: int,
    message: UserMessageView,
)
    requires
        chat.well_formed(),
        0 <= index < chat.messages.len(),
        is_user_message(chat.messages[index], message.id),
    ensures
        ({
            let edited = AssistantChatView {
                messages: chat.messages.update(index, ChatMessageView::User(message)),
                ..chat
            };
            &&& edited.well_formed()
            &&& forall|id: MessageId|
                #![trigger edited.user_position(id)]
                chat.user_position(id) is Some ==> edited.user_position(id) == chat.user_position(
                    id,
                )
        }),
{
    let edited = AssistantChatView {
        messages: chat.messages.update(index, ChatMessageView::User(message)),
        ..chat
    };
    assert forall|i: int| 0 <= i < edited.messages.len() implies (
    #[trigger] edited.messages[i]).id() == chat.messages[i].id() && (edited.messages[i] is User
        == chat.messages[i] is User) by {}
    assert forall|id: MessageId| chat.user_position(id) is Some implies #[trigger]
        edited.user_position(id) == chat.user_position(id) by {
        lemma_user_position(chat, id);
        let place = chat.user_position(id)->0;
        assert(edited.messages[place].id() == chat.messages[place].id());
        lemma_position(chat, place);
        lemma_position(edited, place);
    }
}

/// A file in a user message moves no message and asks for nothing else of the window.
pub proof fn lemma_with_file(
    chat: AssistantChatView,
    id: MessageId,
    file: Option<FileContextView>,
)
    ensures
        ({
            let marked = chat.with_file(id, file);
            &&& marked.messages.len() == chat.messages.len()
            &&& marked.position(id) == chat.position(id)
            &&& marked.truncate_effects(id) == chat.truncate_effects(id)
            &&& forall|i: int|
                0 <= i < chat.messages.len() ==> (#[trigger] marked.messages[i]).id()
                    == chat.messages[i].id() && marked.messages[i].focus_handle()
                    == chat.messages[i].focus_handle()
        }),
{
    let marked = chat.with_file(id, file);
    lemma_user_position(chat, id);
    let pred = |message: ChatMessageView| message.id() == id;
    assert forall|i: int| 0 <= i < chat.messages.len() implies (
    #[trigger] marked.messages[i]).id() == chat.messages[i].id()
        && marked.messages[i].focus_handle() == chat.messages[i].focus_handle() by {}
    lemma_first_index(chat.messages, pred);
    lemma_first_index(marked.messages, pred);
    match chat.position(id) {
        Some(index) => {
            assert(marked.messages[index].id() == id);
            assert forall|j: int| 0 <= j < index implies !pred(#[trigger] marked.messages[j]) by {
                assert(!pred(chat.messages[j]));
            }
            lemma_first_index_at(marked.messages, pred, index);
        },
        None => {
            if let Some(index) = marked.position(id) {
                assert(!pred(chat.messages[index]));
            }
        },
    }
}

/// A submission keeps a chat well formed, and puts its request in place. Where nothing is submitted
/// nothing changes.
pub proof fn lemma_submit_keeps_invariant(
    chat: AssistantChatView,
    submit: Submit,
    focused: Option<FocusHandle>,
    current_file: Option<FileContextView>,
)
    requires
        chat.well_formed(),
    ensures
        chat.submitted(submit, focused, current_file).well_formed(),
        chat.request_in_place() || chat.focused_message_id(focused) is Some
            ==> chat.submitted(submit, focused, current_file).request_in_place(),
{
    if let Some(id) = chat.focused_message_id(focused) {
        let file = file_to_send(submit.0, current_file);
        let marked = chat.with_file(id, file);
        let after = chat.submitted(submit, focused, current_file);
        lemma_user_position(chat, id);
        let index = chat.user_position(id)->0;
        lemma_edit_keeps_well_formed(chat, index, chat.messages[index]->User_0.with_file(file));
        assert(marked.user_position(id) == Some(index));
        lemma_truncate_keeps_well_formed(marked, id);
        lemma_position(marked, index);
        assert(after.messages.take(index + 1) =~= marked.messages.take(index + 1));
        lemma_user_position_of_prefix(marked, after, id);
    }
}

/// An event keeps a chat well formed, whatever was done to the chat since the submission.
pub proof fn lemma_step_keeps_well_formed(
    chat: AssistantChatView,
    event: CompletionEventView,
    focused: Option<FocusHandle>,
)
    requires
        chat.well_formed(),
        chat.accepts(event),
    ensures
        chat.step(event, focused).chat.well_formed(),
{
}

/// An event keeps a chat well formed and its request in place. It leaves the messages up to the
/// submitted one as they are, and never removes a message.
pub proof fn lemma_step_keeps_invariant(
    chat: AssistantChatView,
    event: CompletionEventView,
    focused: Option<FocusHandle>,
)
    requires
        chat.well_formed(),
        chat.request_in_place(),
        chat.accepts(event),
    ensures
        ({
            let after = chat.step(event, focused).chat;
            let kept = chat.user_position(chat.request().message_id)->0 + 1;
            &&& after.well_formed()
            &&& after.pending_completion is Some
            &&& after.request_in_place()
            &&& after.request().id == chat.request().id
            &&& after.request().message_id == chat.request().message_id
            &&& 0 < kept <= chat.messages.len() <= after.messages.len()
            &&& after.messages.take(kept) == chat.messages.take(kept)
        }),
{
    let after = chat.step(event, focused).chat;
    let id = chat.request().message_id;
    lemma_user_position(chat, id);
    let index = chat.user_position(id)->0;
    assert(after.messages.take(index + 1) =~= chat.messages.take(index + 1));
    lemma_user_position_of_prefix(chat, after, id);
}

} // verus!
