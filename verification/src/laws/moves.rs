//! What holds of a chat whatever is called on it, in whatever order.

use vstd::prelude::*;

use crate::chat::{is_user_message, AssistantChatView};
use crate::context::{FileContextView, FocusHandle, MessageId, RequestId};
use crate::message::{ChatMessageView, UserMessageView};
use crate::panel::{is_last_user, last_focus_handle, law_last_user_message_is_focused};
use crate::request::{file_to_send, CompletionEventView, Submit};
use crate::search::lemma_first_index;
use crate::validity::{
    lemma_edit_keeps_well_formed, lemma_push_keeps_well_formed, lemma_step_keeps_well_formed,
    lemma_submit_keeps_invariant, lemma_truncate_keeps_well_formed, lemma_user_position,
    lemma_with_file,
};

verus! {

/// Something that happens to a chat.
pub enum Move {
    /// The user submits a message.
    Submit { submit: Submit, focused: Option<FocusHandle>, current_file: Option<FileContextView> },
    /// A request moves on.
    Event { id: RequestId, event: CompletionEventView, focused: Option<FocusHandle> },
    /// A blank user message is appended.
    PushUser,
    /// A blank assistant message is appended.
    PushAssistant,
    /// The messages after one are removed.
    Truncate { last_message_id: MessageId },
    /// The user changes a message.
    Edit { index: int, message: UserMessageView },
    /// The user picks a model.
    SelectModel { model: Seq<char> },
}

/// The move can come next: an event has to fit the request, and an edit the message it changes.
pub open spec fn allows(chat: AssistantChatView, step: Move) -> bool {
    match step {
        Move::Event { id, event, .. } => chat.accepts_from(id, event),
        Move::Edit { index, message } => 0 <= index < chat.messages.len() && is_user_message(
            chat.messages[index],
            message.id,
        ),
        _ => true,
    }
}

/// The chat after one move.
pub open spec fn moved(chat: AssistantChatView, step: Move) -> AssistantChatView {
    match step {
        Move::Submit { submit, focused, current_file } => chat.submitted(
            submit,
            focused,
            current_file,
        ),
        Move::Event { event, focused, .. } => chat.step(event, focused).chat,
        Move::PushUser => chat.with_user_message(),
        Move::PushAssistant => chat.with_assistant_message(),
        Move::Truncate { last_message_id } => chat.truncated(last_message_id),
        Move::Edit { index, message } => AssistantChatView {
            messages: chat.messages.update(index, ChatMessageView::User(message)),
            ..chat
        },
        Move::SelectModel { model } => AssistantChatView { model, ..chat },
    }
}

/// Each of the moves can come when its turn is there.
pub open spec fn allows_all(chat: AssistantChatView, moves: Seq<Move>) -> bool
    decreases moves.len(),
{
    moves.len() == 0 || {
        &&& allows(chat, moves.first())
        &&& allows_all(moved(chat, moves.first()), moves.drop_first())
    }
}

/// The chat after all of the moves.
pub open spec fn moved_all(chat: AssistantChatView, moves: Seq<Move>) -> AssistantChatView
    decreases moves.len(),
{
    if moves.len() == 0 {
        chat
    } else {
        moved_all(moved(chat, moves.first()), moves.drop_first())
    }
}

/// The id of the message that a move appends, as a sequence of at most one.
pub open spec fn given(chat: AssistantChatView, step: Move) -> Seq<MessageId> {
    let after = moved(chat, step);
    if after.messages.len() > chat.messages.len() {
        seq![after.messages.last().id()]
    } else {
        Seq::empty()
    }
}

/// The ids that the moves give out, in order.
pub open spec fn given_by_all(chat: AssistantChatView, moves: Seq<Move>) -> Seq<MessageId>
    decreases moves.len(),
{
    if moves.len() == 0 {
        Seq::empty()
    } else {
        given(chat, moves.first()) + given_by_all(
            moved(chat, moves.first()),
            moves.drop_first(),
        )
    }
}

/// How many of the moves are submissions.
pub open spec fn submissions(moves: Seq<Move>) -> nat
    decreases moves.len(),
{
    if moves.len() == 0 {
        0
    } else {
        submissions(moves.drop_first()) + if moves.first() is Submit {
            1nat
        } else {
            0
        }
    }
}

/// The chat that the panel starts with.
pub open spec fn new_chat(model: Seq<char>) -> AssistantChatView {
    AssistantChatView::empty(model).with_user_message()
}

proof fn lemma_move_keeps_well_formed(chat: AssistantChatView, step: Move)
    requires
        chat.well_formed(),
        allows(chat, step),
        chat.next_message_id.0 + given(chat, step).len() <= usize::MAX,
    ensures
        moved(chat, step).well_formed(),
{
    match step {
        Move::Submit { submit, focused, current_file } => {
            lemma_submit_keeps_invariant(chat, submit, focused, current_file);
        },
        Move::Event { event, focused, .. } => {
            lemma_step_keeps_well_formed(chat, event, focused);
        },
        Move::PushUser => {
            lemma_push_keeps_well_formed(chat, chat.with_user_message().messages.last());
        },
        Move::PushAssistant => {
            lemma_push_keeps_well_formed(chat, chat.with_assistant_message().messages.last());
        },
        Move::Truncate { last_message_id } => {
            lemma_truncate_keeps_well_formed(chat, last_message_id);
        },
        Move::Edit { index, message } => {
            lemma_edit_keeps_well_formed(chat, index, message);
        },
        Move::SelectModel { .. } => {},
    }
}

/// Of the messages of a chat a move keeps the ids at their places, and it uses the next id exactly
/// where it appends a message.
proof fn lemma_move_and_ids(chat: AssistantChatView, step: Move)
    requires
        allows(chat, step),
        chat.next_message_id.0 + given(chat, step).len() <= usize::MAX,
    ensures
        ({
            let after = moved(chat, step);
            let used = given(chat, step);
            &&& after.messages.len() <= chat.messages.len() + used.len()
            &&& after.next_message_id.0 == chat.next_message_id.0 + used.len()
            &&& used.len() > 0 ==> used[0] == chat.next_message_id
            &&& forall|i: int|
                0 <= i < after.messages.len() && i < chat.messages.len() ==> (
                #[trigger] after.messages[i]).id() == chat.messages[i].id()
        }),
{
    match step {
        Move::Submit { submit, focused, current_file } => {
            if let Some(id) = chat.focused_message_id(focused) {
                let file = file_to_send(submit.0, current_file);
                lemma_with_file(chat, id, file);
                lemma_first_index(
                    chat.with_file(id, file).messages,
                    |message: ChatMessageView| message.id() == id,
                );
            }
        },
        Move::Truncate { last_message_id } => {
            lemma_first_index(
                chat.messages,
                |message: ChatMessageView| message.id() == last_message_id,
            );
        },
        _ => {},
    }
}

/// Whatever is called on it, a well-formed chat stays well formed, as long as there are ids.
pub proof fn law_moves_keep_well_formed(chat: AssistantChatView, moves: Seq<Move>)
    requires
        chat.well_formed(),
        allows_all(chat, moves),
        chat.next_message_id.0 + given_by_all(chat, moves).len() <= usize::MAX,
    ensures
        moved_all(chat, moves).well_formed(),
    decreases moves.len(),
{
    if moves.len() > 0 {
        lemma_move_keeps_well_formed(chat, moves.first());
        lemma_move_and_ids(chat, moves.first());
        law_moves_keep_well_formed(moved(chat, moves.first()), moves.drop_first());
    }
}

/// No id is given out twice, whatever is called. The next id never decreases. The ids that are
/// given out increase, and are greater than all that were given out before. A message whose id is
/// from before still stands at its place, so the id of a removed message never comes back.
pub proof fn law_ids_are_given_out_once(chat: AssistantChatView, moves: Seq<Move>)
    requires
        chat.well_formed(),
        allows_all(chat, moves),
        chat.next_message_id.0 + given_by_all(chat, moves).len() <= usize::MAX,
    ensures
        ({
            let after = moved_all(chat, moves);
            let used = given_by_all(chat, moves);
            &&& chat.next_message_id.0 <= after.next_message_id.0
            &&& forall|i: int|
                0 <= i < used.len() ==> chat.next_message_id.0 <= (#[trigger] used[i]).0
                    < after.next_message_id.0
            &&& forall|i: int, j: int|
                0 <= i < j < used.len() ==> (#[trigger] used[i]).0 < (#[trigger] used[j]).0
            &&& forall|i: int|
                0 <= i < after.messages.len() && (#[trigger] after.messages[i]).id().0
                    < chat.next_message_id.0 ==> i < chat.messages.len()
                    && after.messages[i].id() == chat.messages[i].id()
        }),
    decreases moves.len(),
{
    if moves.len() > 0 {
        let next = moved(chat, moves.first());
        let first = given(chat, moves.first());
        let rest = given_by_all(next, moves.drop_first());
        let used = given_by_all(chat, moves);
        let after = moved_all(chat, moves);
        lemma_move_keeps_well_formed(chat, moves.first());
        lemma_move_and_ids(chat, moves.first());
        law_ids_are_given_out_once(next, moves.drop_first());
        assert forall|i: int| 0 <= i < used.len() implies chat.next_message_id.0 <= (
        #[trigger] used[i]).0 < after.next_message_id.0 by {
            if i >= first.len() {
                assert(used[i] == rest[i - first.len()]);
            }
        }
        assert forall|i: int, j: int| 0 <= i < j < used.len() implies (#[trigger] used[i]).0 < (
        #[trigger] used[j]).0 by {
            assert(used[j] == rest[j - first.len()]);
            if i >= first.len() {
                assert(used[i] == rest[i - first.len()]);
            }
        }
        assert forall|i: int|
            0 <= i < after.messages.len() && (#[trigger] after.messages[i]).id().0
                < chat.next_message_id.0 implies i < chat.messages.len() && after.messages[i].id()
            == chat.messages[i].id() by {
            assert(after.messages[i].id() == next.messages[i].id());
            if i >= chat.messages.len() {
                assert(next.messages[i].id() == chat.next_message_id);
            }
        }
    }
}

/// In a chat that was made by [`crate::chat::AssistantChat::new`], whatever was called since, the
/// ids grow with the place of the messages and are below the next id. The first message is the user
/// message with id 0. The ids that were given out since the chat was made are all different, and
/// none is 0.
pub proof fn law_ids_of_a_chat(model: Seq<char>, moves: Seq<Move>)
    requires
        allows_all(new_chat(model), moves),
        given_by_all(new_chat(model), moves).len() < usize::MAX,
    ensures
        ({
            let after = moved_all(new_chat(model), moves);
            let used = given_by_all(new_chat(model), moves);
            &&& after.messages.len() > 0
            &&& is_user_message(after.messages[0], MessageId(0))
            &&& forall|i: int, j: int|
                0 <= i < j < after.messages.len() ==> (#[trigger] after.messages[i]).id().0 < (
                #[trigger] after.messages[j]).id().0
            &&& forall|i: int|
                0 <= i < after.messages.len() ==> (#[trigger] after.messages[i]).id().0
                    < after.next_message_id.0
            &&& forall|i: int|
                0 <= i < used.len() ==> 0 < (#[trigger] used[i]).0 < after.next_message_id.0
            &&& forall|i: int, j: int|
                0 <= i < j < used.len() ==> (#[trigger] used[i]).0 < (#[trigger] used[j]).0
        }),
{
    lemma_push_keeps_well_formed(
        AssistantChatView::empty(model),
        new_chat(model).messages.last(),
    );
    law_moves_keep_well_formed(new_chat(model), moves);
    law_ids_are_given_out_once(new_chat(model), moves);
}

proof fn lemma_first_message_stays(chat: AssistantChatView, moves: Seq<Move>)
    requires
        chat.starts_with_user(),
        allows_all(chat, moves),
    ensures
        moved_all(chat, moves).starts_with_user(),
    decreases moves.len(),
{
    if moves.len() > 0 {
        match moves.first() {
            Move::Submit { submit, focused, current_file } => {
                if let Some(id) = chat.focused_message_id(focused) {
                    let file = file_to_send(submit.0, current_file);
                    lemma_user_position(chat, id);
                    lemma_first_index(
                        chat.with_file(id, file).messages,
                        |message: ChatMessageView| message.id() == id,
                    );
                }
            },
            Move::Truncate { last_message_id } => {
                lemma_first_index(
                    chat.messages,
                    |message: ChatMessageView| message.id() == last_message_id,
                );
            },
            _ => {},
        }
        lemma_first_message_stays(moved(chat, moves.first()), moves.drop_first());
    }
}

/// The panel can always be focused. In a chat that was made by [`crate::chat::AssistantChat::new`],
/// whatever was called since, there is a user message, and the editor of the last one is what
/// [`crate::panel::AssistantPanel::focus_handle`] finds, even where assistant messages come after
/// it.
pub proof fn law_panel_can_always_be_focused(model: Seq<char>, moves: Seq<Move>)
    requires
        allows_all(new_chat(model), moves),
    ensures
        ({
            let messages = moved_all(new_chat(model), moves).messages;
            exists|i: int| #[trigger]
                is_last_user(messages, i) && last_focus_handle(messages) == Some(
                    FocusHandle(messages[i].id()),
                )
        }),
{
    lemma_first_message_stays(new_chat(model), moves);
    let messages = moved_all(new_chat(model), moves).messages;
    let last = lemma_last_user(messages);
    law_last_user_message_is_focused(messages, last);
}

proof fn lemma_last_user(messages: Seq<ChatMessageView>) -> (last: int)
    requires
        messages.len() > 0,
        messages[0] is User,
    ensures
        is_last_user(messages, last),
    decreases messages.len(),
{
    if messages.last() is User {
        messages.len() - 1
    } else {
        let last = lemma_last_user(messages.drop_last());
        assert(messages.drop_last()[last] == messages[last]);
        assert forall|j: int| last < j < messages.len() implies !(#[trigger] messages[j] is User) by {
            if j < messages.len() - 1 {
                assert(messages.drop_last()[j] == messages[j]);
            }
        }
        last
    }
}

/// The id was given out `age` ids ago.
spec fn is_aged(chat: AssistantChatView, id: RequestId, age: int) -> bool {
    ||| chat.next_request_id.0 == id.0 + age
    ||| chat.next_request_id.0 + u64::MAX + 1 == id.0 + age
}

proof fn lemma_replaced_request_stays_so(
    chat: AssistantChatView,
    moves: Seq<Move>,
    id: RequestId,
    age: int,
    event: CompletionEventView,
)
    requires
        chat.request_is_latest(),
        allows_all(chat, moves),
        is_aged(chat, id, age),
        2 <= age,
        age + submissions(moves) <= u64::MAX + 1,
    ensures
        !moved_all(chat, moves).accepts_from(id, event),
    decreases moves.len(),
{
    if moves.len() > 0 {
        let next = moved(chat, moves.first());
        assert(next.request_is_latest());
        if next.next_request_id == chat.next_request_id {
            lemma_replaced_request_stays_so(next, moves.drop_first(), id, age, event);
        } else {
            lemma_replaced_request_stays_so(next, moves.drop_first(), id, age + 1, event);
        }
    }
}

/// A new submission ends the request before it for good: whatever is called from then on, no event
/// of the earlier request is accepted, so it changes no message and appends none. Only the count of
/// the submissions is limited, to what the ids can tell apart.
pub proof fn law_submission_ends_the_request_before(
    chat: AssistantChatView,
    submit: Submit,
    focused: Option<FocusHandle>,
    current_file: Option<FileContextView>,
    moves: Seq<Move>,
    event: CompletionEventView,
)
    requires
        chat.request_is_latest(),
        chat.pending_completion is Some,
        chat.focused_message_id(focused) is Some,
        allows_all(chat.submitted(submit, focused, current_file), moves),
        submissions(moves) < u64::MAX,
    ensures
        !moved_all(chat.submitted(submit, focused, current_file), moves).accepts_from(
            chat.request().id,
            event,
        ),
{
    lemma_replaced_request_stays_so(
        chat.submitted(submit, focused, current_file),
        moves,
        chat.request().id,
        2,
        event,
    );
}

/// At most one request of a chat is live: events are accepted of no two requests.
pub proof fn law_one_request_is_live(
    chat: AssistantChatView,
    first: RequestId,
    first_event: CompletionEventView,
    second: RequestId,
    second_event: CompletionEventView,
)
    requires
        chat.accepts_from(first, first_event),
        chat.accepts_from(second, second_event),
    ensures
        first == second,
{
}

} // verus!
