//! The list on the screen shows the messages of the chat, one item for each, in order.

use vstd::prelude::*;

use crate::chat::{AssistantChatView, OVERDRAW_BITS};
use crate::context::{
    list_after, list_items, Effect, FileContextView, FocusHandle, ListAlignment, MessageId, Pixels,
};
use crate::message::{AssistantMessageView, ChatMessageView, UserMessageView};
use crate::request::{file_to_send, CompletionEventView, Submit};
use crate::search::lemma_first_index;
use crate::validity::lemma_with_file;

verus! {

/// The focus handles of the messages.
pub open spec fn handles(messages: Seq<ChatMessageView>) -> Seq<Option<FocusHandle>> {
    Seq::new(messages.len(), |i: int| messages[i].focus_handle())
}

/// Once all effects are performed, the list has one item for each message of the chat, and an item
/// takes the focus exactly where its message has an editor.
pub open spec fn mirrors(effects: Seq<Effect>, chat: AssistantChatView) -> bool {
    list_items(effects) == handles(chat.messages)
}

proof fn lemma_list_items_push(effects: Seq<Effect>, effect: Effect)
    ensures
        list_items(effects.push(effect)) == list_after(list_items(effects), effect),
{
    assert(effects.push(effect).drop_last() =~= effects);
}

/// Appending a message appends its item to the list.
pub proof fn law_push_mirrors(
    effects: Seq<Effect>,
    chat: AssistantChatView,
    message: ChatMessageView,
)
    requires
        mirrors(effects, chat),
        chat.messages.len() <= usize::MAX,
    ensures
        mirrors(effects + chat.push_effects(message), chat.pushed(message)),
{
    let len = chat.messages.len() as usize;
    let splice = Effect::SpliceFocusable {
        start: len,
        end: len,
        focus_handle: message.focus_handle(),
    };
    lemma_list_items_push(effects, splice);
    lemma_list_items_push(effects.push(splice), Effect::Notify);
    assert(effects + chat.push_effects(message) =~= effects.push(splice).push(Effect::Notify));
    assert(list_items(effects + chat.push_effects(message)) =~= handles(
        chat.pushed(message).messages,
    ));
}

/// Appending a blank user message appends one item that takes the focus.
pub proof fn law_user_message_mirrors(effects: Seq<Effect>, chat: AssistantChatView, focus: bool)
    requires
        mirrors(effects, chat),
        chat.messages.len() <= usize::MAX,
    ensures
        mirrors(effects + chat.user_message_effects(focus), chat.with_user_message()),
{
    let handle = FocusHandle(chat.next_message_id);
    let all = chat.user_message_effects(focus);
    let message = ChatMessageView::User(UserMessageView::blank(chat.next_message_id));
    let opened = effects.push(all[0]);
    lemma_list_items_push(effects, all[0]);
    if focus {
        lemma_list_items_push(opened, Effect::Focus(handle));
        let focused = opened.push(Effect::Focus(handle));
        law_push_mirrors(focused, chat, message);
        assert(effects + all =~= focused + chat.push_effects(message));
    } else {
        law_push_mirrors(opened, chat, message);
        assert(effects + all =~= opened + chat.push_effects(message));
    }
}

/// Removing the messages after one removes their items from the list.
pub proof fn law_truncate_mirrors(
    effects: Seq<Effect>,
    chat: AssistantChatView,
    last_message_id: MessageId,
)
    requires
        mirrors(effects, chat),
        chat.messages.len() <= usize::MAX,
    ensures
        mirrors(
            effects + chat.truncate_effects(last_message_id),
            chat.truncated(last_message_id),
        ),
{
    lemma_first_index(
        chat.messages,
        |message: ChatMessageView| message.id() == last_message_id,
    );
    match chat.position(last_message_id) {
        Some(index) => {
            let splice = Effect::Splice {
                start: (index + 1) as usize,
                end: chat.messages.len() as usize,
                count: 0,
            };
            lemma_list_items_push(effects, splice);
            lemma_list_items_push(effects.push(splice), Effect::Notify);
            assert(effects + chat.truncate_effects(last_message_id) =~= effects.push(splice).push(
                Effect::Notify,
            ));
            assert(list_items(effects.push(splice)) =~= handles(
                chat.truncated(last_message_id).messages,
            ));
        },
        None => {
            assert(effects + chat.truncate_effects(last_message_id) =~= effects);
        },
    }
}

/// A new chat has its list show its one message, whatever was asked of the window before.
pub proof fn law_new_chat_mirrors(effects: Seq<Effect>, model: Seq<char>)
    ensures
        mirrors(
            effects + AssistantChatView::new_effects(model),
            AssistantChatView::empty(model).with_user_message(),
        ),
{
    let empty = AssistantChatView::empty(model);
    let create = Effect::CreateList {
        alignment: ListAlignment::Bottom,
        overdraw: Pixels { bits: OVERDRAW_BITS },
    };
    lemma_list_items_push(effects, create);
    assert(list_items(effects.push(create)) =~= handles(empty.messages));
    law_user_message_mirrors(effects.push(create), empty, true);
    assert(effects + AssistantChatView::new_effects(model) =~= effects.push(create)
        + empty.user_message_effects(true));
}

/// A submission leaves the list showing the messages.
pub proof fn law_submit_mirrors(
    effects: Seq<Effect>,
    chat: AssistantChatView,
    submit: Submit,
    focused: Option<FocusHandle>,
    current_file: Option<FileContextView>,
)
    requires
        mirrors(effects, chat),
        chat.messages.len() <= usize::MAX,
    ensures
        mirrors(
            effects + chat.submit_effects(focused),
            chat.submitted(submit, focused, current_file),
        ),
{
    match chat.focused_message_id(focused) {
        Some(id) => {
            let marked = chat.with_file(id, file_to_send(submit.0, current_file));
            lemma_with_file(chat, id, file_to_send(submit.0, current_file));
            assert(handles(marked.messages) =~= handles(chat.messages));
            law_truncate_mirrors(effects, marked, id);
        },
        None => {
            assert(effects + chat.submit_effects(focused) =~= effects);
        },
    }
}

/// Whatever happens to a request, the list goes on showing the messages.
pub proof fn law_step_mirrors(
    effects: Seq<Effect>,
    chat: AssistantChatView,
    event: CompletionEventView,
    focused: Option<FocusHandle>,
)
    requires
        mirrors(effects, chat),
        chat.messages.len() <= usize::MAX,
        chat.accepts(event),
    ensures
        mirrors(effects + chat.step(event, focused).effects, chat.step(event, focused).chat),
{
    let step = chat.step(event, focused);
    match event {
        CompletionEventView::Begin => {
            law_push_mirrors(
                effects,
                chat,
                ChatMessageView::Assistant(AssistantMessageView::blank(chat.next_message_id)),
            );
        },
        CompletionEventView::Settle => {
            law_user_message_mirrors(
                effects,
                chat,
                focused == Some(FocusHandle(chat.request().message_id)),
            );
        },
        _ => {
            if step.effects.len() > 0 {
                lemma_list_items_push(effects, Effect::Notify);
                assert(effects + step.effects =~= effects.push(Effect::Notify));
            } else {
                assert(effects + step.effects =~= effects);
            }
            assert(handles(step.chat.messages) =~= handles(chat.messages));
        },
    }
}

} // verus!
