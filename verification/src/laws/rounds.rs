//! What each event does to a request and to its chat, field by field.

use vstd::prelude::*;

use crate::chat::AssistantChatView;
use crate::completion::CompletionMessageView;
use crate::context::{Effect, FocusHandle, MessageId, RequestId, SoftWrap};
use crate::conversation::conversation;
use crate::delta::{merged_all, CompletionDeltaView};
use crate::laws::conversation::{
    law_assistant_message_is_sent, law_blank_message_is_not_sent, law_conversation_appends,
    reminds_of, tells_outcome,
};
use crate::message::{AssistantMessageView, ChatMessageView, ToolFunctionCallView};
use crate::request::{CompletionActionView, CompletionEventView, Phase, SubmitMode};
use crate::round::{returned, returned_one};
use crate::validity::lemma_user_position;

verus! {

/// The last message is one of the model.
pub open spec fn ends_with_reply(messages: Seq<ChatMessageView>) -> bool {
    messages.len() > 0 && messages[messages.len() - 1] is Assistant
}

/// The last message, where it is one of the model.
pub open spec fn reply(messages: Seq<ChatMessageView>) -> AssistantMessageView {
    messages[messages.len() - 1]->Assistant_0
}

/// Some user message has this id.
pub open spec fn has_user(messages: Seq<ChatMessageView>, id: MessageId) -> bool {
    exists|i: int|
        0 <= i < messages.len() && (#[trigger] messages[i] matches ChatMessageView::User(message)
            && message.id == id)
}

/// The request is the same one, on behalf of the same message, with the same limit.
pub open spec fn same_request(before: AssistantChatView, after: AssistantChatView) -> bool {
    &&& before.pending_completion is Some
    &&& after.pending_completion is Some
    &&& after.pending_completion->0.id == before.pending_completion->0.id
    &&& after.pending_completion->0.message_id == before.pending_completion->0.message_id
    &&& after.pending_completion->0.mode == before.pending_completion->0.mode
    &&& after.pending_completion->0.limit == before.pending_completion->0.limit
    &&& after.model == before.model
    &&& after.next_request_id == before.next_request_id
}

/// No message was appended or removed, no round was begun, and all messages but the last are as
/// they were.
pub open spec fn same_but_last(before: AssistantChatView, after: AssistantChatView) -> bool {
    &&& same_request(before, after)
    &&& after.pending_completion->0.call_count == before.pending_completion->0.call_count
    &&& after.next_message_id == before.next_message_id
    &&& after.messages.len() == before.messages.len()
    &&& forall|i: int|
        0 <= i < before.messages.len() - 1 ==> #[trigger] after.messages[i] == before.messages[i]
}

/// When a round begins, a message of the model without text, tool calls and error is appended under
/// the next id. The text of the round is empty, whatever earlier rounds sent, and the round is
/// counted. The model that is selected is called with the conversation so far, and is offered tools
/// exactly where the codebase may be searched and fewer rounds than the limit have begun.
pub proof fn law_round_begins(chat: AssistantChatView, focused: Option<FocusHandle>)
    requires
        chat.pending_completion is Some,
        chat.pending_completion->0.call_count < usize::MAX,
        chat.next_message_id.0 < usize::MAX,
        chat.messages.len() <= usize::MAX,
    ensures
        ({
            let step = chat.step(CompletionEventView::Begin, focused);
            let after = step.chat;
            let request = chat.pending_completion->0;
            &&& same_request(chat, after)
            &&& after.pending_completion->0.call_count == request.call_count + 1
            &&& after.pending_completion->0.body.len() == 0
            &&& after.pending_completion->0.phase == Phase::Streaming
            &&& after.next_message_id.0 == chat.next_message_id.0 + 1
            &&& after.messages.len() == chat.messages.len() + 1
            &&& after.messages.drop_last() == chat.messages
            &&& ends_with_reply(after.messages)
            &&& reply(after.messages).id == chat.next_message_id
            &&& reply(after.messages).body.len() == 0
            &&& reply(after.messages).tool_calls.len() == 0
            &&& reply(after.messages).error is None
            &&& step.action matches CompletionActionView::Complete(call) && {
                &&& call.model == chat.model
                &&& call.messages == conversation(chat.messages)
                &&& call.stop.len() == 0
                &&& call.temperature_bits == 0x3f80_0000u32
                &&& call.offer_tools == (request.mode == SubmitMode::Codebase && request.call_count
                    < request.limit)
            }
            &&& step.effects == seq![
                Effect::SpliceFocusable {
                    start: chat.messages.len() as usize,
                    end: chat.messages.len() as usize,
                    focus_handle: None,
                },
                Effect::Notify,
            ]
        }),
{
    let after = chat.step(CompletionEventView::Begin, focused).chat;
    assert(after.messages.drop_last() =~= chat.messages);
    law_blank_message_is_not_sent(chat.messages, chat.next_message_id);
}

/// A piece of the message adds its text, if it has any, to the text of the round, and that whole
/// text is to be rendered. Its pieces of tool calls go to the message that is being written, whose
/// shown text waits for the rendering.
pub proof fn law_piece_is_received(
    chat: AssistantChatView,
    delta: CompletionDeltaView,
    focused: Option<FocusHandle>,
)
    requires
        chat.pending_completion is Some,
        ends_with_reply(chat.messages),
    ensures
        ({
            let step = chat.step(CompletionEventView::Delta(delta), focused);
            let after = step.chat;
            let text = chat.pending_completion->0.body;
            &&& same_but_last(chat, after)
            &&& delta.content matches Some(content) ==> after.pending_completion->0.body == text
                + content
            &&& delta.content is None ==> after.pending_completion->0.body == text
            &&& after.pending_completion->0.phase == Phase::Rendering
            &&& ends_with_reply(after.messages)
            &&& reply(after.messages).id == reply(chat.messages).id
            &&& reply(after.messages).body == reply(chat.messages).body
            &&& reply(after.messages).error == reply(chat.messages).error
            &&& reply(after.messages).tool_calls == merged_all(
                reply(chat.messages).tool_calls,
                delta.tool_calls,
            )
            &&& step.action == CompletionActionView::Render(after.pending_completion->0.body)
            &&& step.effects.len() == 0
        }),
{
    let after = chat.step(CompletionEventView::Delta(delta), focused).chat;
    let text = chat.pending_completion->0.body;
    if delta.content is None {
        assert(after.pending_completion->0.body =~= text);
    }
}

/// A rendered text becomes the text of the message, and nothing else of the message changes. Then
/// the model is listened to again.
pub proof fn law_rendered_text_is_shown(
    chat: AssistantChatView,
    text: Seq<char>,
    focused: Option<FocusHandle>,
)
    requires
        chat.pending_completion is Some,
        ends_with_reply(chat.messages),
    ensures
        ({
            let step = chat.step(CompletionEventView::Rendered(text), focused);
            let after = step.chat;
            &&& same_but_last(chat, after)
            &&& after.pending_completion->0.body == chat.pending_completion->0.body
            &&& after.pending_completion->0.phase == Phase::Streaming
            &&& ends_with_reply(after.messages)
            &&& reply(after.messages).body == text
            &&& reply(after.messages).id == reply(chat.messages).id
            &&& reply(after.messages).tool_calls == reply(chat.messages).tool_calls
            &&& reply(after.messages).error == reply(chat.messages).error
            &&& step.action == CompletionActionView::Listen
            &&& step.effects == seq![Effect::Notify]
        }),
{
}

/// A complete message stays as it is. All its tool calls are run, in order; without any the request
/// is over.
pub proof fn law_complete_message_calls_its_tools(
    chat: AssistantChatView,
    focused: Option<FocusHandle>,
)
    requires
        chat.pending_completion is Some,
        ends_with_reply(chat.messages),
    ensures
        ({
            let step = chat.step(CompletionEventView::StreamComplete, focused);
            let after = step.chat;
            let calls = reply(chat.messages).tool_calls;
            &&& same_but_last(chat, after)
            &&& after.messages == chat.messages
            &&& after.pending_completion->0.body == chat.pending_completion->0.body
            &&& calls.len() > 0 ==> step.action == CompletionActionView::CallTools(calls)
                && after.pending_completion->0.phase == Phase::CallingTools
            &&& calls.len() == 0 ==> step.action == CompletionActionView::Finish
                && after.pending_completion->0.phase == Phase::Finished
            &&& step.effects.len() == 0
        }),
{
}

/// A message that broke off keeps its text and its tool calls and gets the error. No tool is run,
/// and the request is over.
pub proof fn law_broken_message_gets_the_error(
    chat: AssistantChatView,
    error: Seq<char>,
    focused: Option<FocusHandle>,
)
    requires
        chat.pending_completion is Some,
        ends_with_reply(chat.messages),
    ensures
        ({
            let step = chat.step(CompletionEventView::StreamFailed(error), focused);
            let after = step.chat;
            &&& same_but_last(chat, after)
            &&& after.pending_completion->0.body == chat.pending_completion->0.body
            &&& after.pending_completion->0.phase == Phase::Finished
            &&& ends_with_reply(after.messages)
            &&& reply(after.messages).error == Some(error)
            &&& reply(after.messages).id == reply(chat.messages).id
            &&& reply(after.messages).body == reply(chat.messages).body
            &&& reply(after.messages).tool_calls == reply(chat.messages).tool_calls
            &&& step.action == CompletionActionView::Finish
            &&& step.effects == seq![Effect::Notify]
        }),
{
}

/// Where every tool has returned, the message keeps each call as it came back, in order, and
/// another round is to begin. The rest of the message stays as it is.
pub proof fn law_tool_results_are_kept(
    chat: AssistantChatView,
    results: Seq<Option<ToolFunctionCallView>>,
    focused: Option<FocusHandle>,
)
    requires
        chat.pending_completion is Some,
        ends_with_reply(chat.messages),
    ensures
        ({
            let step = chat.step(CompletionEventView::ToolsReturned(results), focused);
            let after = step.chat;
            &&& same_but_last(chat, after)
            &&& after.pending_completion->0.body == chat.pending_completion->0.body
            &&& after.pending_completion->0.phase == Phase::Ready
            &&& ends_with_reply(after.messages)
            &&& reply(after.messages).id == reply(chat.messages).id
            &&& reply(after.messages).body == reply(chat.messages).body
            &&& reply(after.messages).error == reply(chat.messages).error
            &&& reply(after.messages).tool_calls == returned(results)
            &&& (forall|i: int| 0 <= i < results.len() ==> #[trigger] results[i] is Some) ==> {
                &&& reply(after.messages).tool_calls.len() == results.len()
                &&& forall|i: int|
                    0 <= i < results.len() ==> Some(#[trigger] reply(after.messages).tool_calls[i])
                        == results[i]
            }
            &&& step.action == CompletionActionView::Repeat
            &&& step.effects == seq![Effect::Notify]
        }),
{
    if forall|i: int| 0 <= i < results.len() ==> #[trigger] results[i] is Some {
        law_all_results_are_kept(results);
    }
}

/// The round after the tools have returned sends each call as it came back, and behind it, as the
/// last messages of the conversation, the outcome of each call, in order.
pub proof fn law_next_round_sends_the_results(
    chat: AssistantChatView,
    results: Seq<Option<ToolFunctionCallView>>,
    focused: Option<FocusHandle>,
)
    requires
        chat.pending_completion is Some,
        chat.pending_completion->0.call_count < usize::MAX,
        chat.next_message_id.0 < usize::MAX,
        chat.messages.len() <= usize::MAX,
        ends_with_reply(chat.messages),
        results.len() > 0,
        forall|i: int| 0 <= i < results.len() ==> #[trigger] results[i] is Some,
    ensures
        ({
            let after = chat.step(CompletionEventView::ToolsReturned(results), focused).chat;
            let action = after.step(CompletionEventView::Begin, focused).action;
            &&& action matches CompletionActionView::Complete(call) && {
                let first = call.messages.len() - 1 - results.len();
                &&& first == conversation(chat.messages.drop_last()).len()
                &&& call.messages.take(first) == conversation(chat.messages.drop_last())
                &&& call.messages[first] matches CompletionMessageView::Assistant {
                    content,
                    tool_calls,
                } && {
                    &&& content == Some(reply(chat.messages).body)
                    &&& tool_calls.len() == results.len()
                    &&& forall|j: int|
                        0 <= j < results.len() ==> reminds_of(
                            #[trigger] tool_calls[j],
                            results[j]->0,
                        )
                }
                &&& forall|k: int|
                    first < k < call.messages.len() ==> tells_outcome(
                        #[trigger] call.messages[k],
                        results[k - first - 1]->0,
                    )
            }
        }),
{
    let after = chat.step(CompletionEventView::ToolsReturned(results), focused).chat;
    law_tool_results_are_kept(chat, results, focused);
    law_round_begins(after, focused);
    let front = chat.messages.drop_last();
    let message = reply(after.messages);
    assert(after.messages =~= front + seq![ChatMessageView::Assistant(message)]);
    law_conversation_appends(front, seq![ChatMessageView::Assistant(message)]);
    law_assistant_message_is_sent(message);
    let own = conversation(seq![ChatMessageView::Assistant(message)]);
    let sent = conversation(after.messages);
    let first = conversation(front).len() as int;
    assert(sent.take(first) =~= conversation(front));
    assert(sent[first] == own[0]);
    assert forall|j: int| 0 <= j < results.len() implies reminds_of(
        #[trigger] own[0]->Assistant_tool_calls[j],
        results[j]->0,
    ) by {
        assert(Some(message.tool_calls[j]) == results[j]);
    }
    assert forall|k: int| first < k < sent.len() implies tells_outcome(
        #[trigger] sent[k],
        results[k - first - 1]->0,
    ) by {
        assert(sent[k] == own[k - first]);
        assert(Some(message.tool_calls[k - first - 1]) == results[k - first - 1]);
    }
}

/// A message of the user at the end of the chat is left alone by what the model does.
pub proof fn law_user_message_is_left_alone(
    chat: AssistantChatView,
    event: CompletionEventView,
    focused: Option<FocusHandle>,
)
    requires
        chat.pending_completion is Some,
        !ends_with_reply(chat.messages),
        event is StreamComplete || event is StreamFailed || event is ToolsReturned,
    ensures
        ({
            let step = chat.step(event, focused);
            &&& same_request(chat, step.chat)
            &&& step.chat.messages == chat.messages
            &&& step.chat.next_message_id == chat.next_message_id
            &&& step.chat.pending_completion->0.call_count
                == chat.pending_completion->0.call_count
            &&& step.chat.pending_completion->0.body == chat.pending_completion->0.body
            &&& event is ToolsReturned ==> step.action == CompletionActionView::Repeat
                && step.chat.pending_completion->0.phase == Phase::Ready
            &&& !(event is ToolsReturned) ==> step.action == CompletionActionView::Finish
                && step.chat.pending_completion->0.phase == Phase::Finished
            &&& step.effects.len() == 0
        }),
{
}

/// When a request is settled, a user message without text and contexts is appended under the next
/// id, in an editor of up to 80 lines that wraps at its width. The editor takes the focus exactly
/// where the editor of the submitted message has it.
pub proof fn law_request_is_settled(chat: AssistantChatView, focused: Option<FocusHandle>)
    requires
        chat.pending_completion is Some,
        chat.next_message_id.0 < usize::MAX,
        chat.messages.len() <= usize::MAX,
    ensures
        ({
            let step = chat.step(CompletionEventView::Settle, focused);
            let after = step.chat;
            let handle = FocusHandle(chat.next_message_id);
            let open = Effect::OpenEditor {
                focus_handle: handle,
                max_lines: 80,
                soft_wrap: SoftWrap::EditorWidth,
            };
            let splice = Effect::SpliceFocusable {
                start: chat.messages.len() as usize,
                end: chat.messages.len() as usize,
                focus_handle: Some(handle),
            };
            &&& same_request(chat, after)
            &&& after.pending_completion->0.call_count == chat.pending_completion->0.call_count
            &&& after.pending_completion->0.body == chat.pending_completion->0.body
            &&& after.pending_completion->0.phase == Phase::Settled
            &&& after.next_message_id.0 == chat.next_message_id.0 + 1
            &&& after.messages.len() == chat.messages.len() + 1
            &&& after.messages.drop_last() == chat.messages
            &&& after.messages[after.messages.len() - 1] matches ChatMessageView::User(message) && {
                &&& message.id == chat.next_message_id
                &&& message.body.text.len() == 0
                &&& message.body.max_lines == 80
                &&& message.body.soft_wrap == SoftWrap::EditorWidth
                &&& message.contexts.len() == 0
            }
            &&& step.action == CompletionActionView::Rest
            &&& step.effects == if focused == Some(
                FocusHandle(chat.pending_completion->0.message_id),
            ) {
                seq![open, Effect::Focus(handle), splice, Effect::Notify]
            } else {
                seq![open, splice, Effect::Notify]
            }
        }),
{
    let step = chat.step(CompletionEventView::Settle, focused);
    assert(step.chat.messages.drop_last() =~= chat.messages);
    let handle = FocusHandle(chat.next_message_id);
    let open = Effect::OpenEditor {
        focus_handle: handle,
        max_lines: 80,
        soft_wrap: SoftWrap::EditorWidth,
    };
    let splice = Effect::SpliceFocusable {
        start: chat.messages.len() as usize,
        end: chat.messages.len() as usize,
        focus_handle: Some(handle),
    };
    if focused == Some(FocusHandle(chat.pending_completion->0.message_id)) {
        assert(step.effects =~= seq![open, Effect::Focus(handle), splice, Effect::Notify]);
    } else {
        assert(step.effects =~= seq![open, splice, Effect::Notify]);
    }
}

/// Which events can happen when. An event has to come of the request that is under way, and has to
/// fit how far that has come: a round begins when it is due, pieces and the end of a message come
/// while the model is sending one, a text was rendered that was to be, tools return that were
/// called, and a request settles once it is over and while its message is still in the chat.
pub proof fn law_events_come_in_turn(
    chat: AssistantChatView,
    id: RequestId,
    event: CompletionEventView,
)
    ensures
        chat.accepts_from(id, event) == {
            &&& chat.pending_completion matches Some(request) && {
                &&& request.id == id
                &&& match event {
                    CompletionEventView::Begin => {
                        &&& request.phase == Phase::Ready
                        &&& request.call_count < usize::MAX
                        &&& chat.next_message_id.0 < usize::MAX
                    },
                    CompletionEventView::Delta(delta) => {
                        &&& request.phase == Phase::Streaming
                        &&& ends_with_reply(chat.messages)
                        &&& forall|i: int|
                            0 <= i < delta.tool_calls.len() ==> (
                            #[trigger] delta.tool_calls[i]).index < usize::MAX
                    },
                    CompletionEventView::Rendered(_) => {
                        &&& request.phase == Phase::Rendering
                        &&& ends_with_reply(chat.messages)
                    },
                    CompletionEventView::StreamComplete => request.phase == Phase::Streaming,
                    CompletionEventView::StreamFailed(_) => request.phase == Phase::Streaming,
                    CompletionEventView::ToolsReturned(_) => request.phase == Phase::CallingTools,
                    CompletionEventView::Settle => {
                        &&& request.phase == Phase::Finished
                        &&& has_user(chat.messages, request.message_id)
                        &&& chat.next_message_id.0 < usize::MAX
                    },
                }
            }
        },
{
    if let Some(request) = chat.pending_completion {
        lemma_user_position(chat, request.message_id);
        if let Some(index) = chat.user_position(request.message_id) {
            assert(chat.messages[index] is User);
            assert(has_user(chat.messages, request.message_id));
        }
    }
}

/// Where every tool has returned, all calls are kept as they came back, in order.
pub proof fn law_all_results_are_kept(results: Seq<Option<ToolFunctionCallView>>)
    requires
        forall|i: int| 0 <= i < results.len() ==> #[trigger] results[i] is Some,
    ensures
        returned(results).len() == results.len(),
        forall|i: int|
            0 <= i < results.len() ==> Some(#[trigger] returned(results)[i]) == results[i],
    decreases results.len(),
{
    if results.len() == 0 {
        assert(returned(results) =~= Seq::empty());
    } else {
        let init = results.drop_last();
        assert forall|i: int| 0 <= i < init.len() implies #[trigger] init[i] is Some by {
            assert(init[i] == results[i]);
        }
        law_all_results_are_kept(init);
        assert(results =~= init.push(results.last()));
        init.lemma_flat_map_push(returned_one(), results.last());
        assert(results[results.len() - 1] is Some);
        assert forall|i: int| 0 <= i < results.len() implies Some(#[trigger] returned(results)[i])
            == results[i] by {
            if i < init.len() {
                assert(returned(results)[i] == returned(init)[i]);
                assert(init[i] == results[i]);
            }
        }
    }
}

/// What came back of two batches of tools is kept as that of the first followed by that of the
/// second. One call that came back is kept, and one that did not is not.
pub proof fn law_results_are_kept_in_order(
    first: Seq<Option<ToolFunctionCallView>>,
    second: Seq<Option<ToolFunctionCallView>>,
    call: ToolFunctionCallView,
)
    ensures
        returned(first + second) == returned(first) + returned(second),
        returned(seq![Some(call)]) == seq![call],
        returned(seq![None]) == Seq::<ToolFunctionCallView>::empty(),
    decreases second.len(),
{
    let none = Seq::<Option<ToolFunctionCallView>>::empty();
    assert(returned(none) =~= Seq::empty());
    none.lemma_flat_map_push(returned_one(), Some(call));
    none.lemma_flat_map_push(returned_one(), None);
    assert(none.push(Some(call)) =~= seq![Some(call)]);
    assert(none.push(None) =~= seq![None]);
    assert(returned(seq![Some(call)]) =~= seq![call]);
    assert(returned(seq![None]) =~= Seq::<ToolFunctionCallView>::empty());
    if second.len() == 0 {
        assert(first + second =~= first);
        assert(second =~= none);
        assert(returned(first) + Seq::empty() =~= returned(first));
    } else {
        let init = second.drop_last();
        law_results_are_kept_in_order(first, init, call);
        assert(first + second =~= (first + init).push(second.last()));
        assert(second =~= init.push(second.last()));
        (first + init).lemma_flat_map_push(returned_one(), second.last());
        init.lemma_flat_map_push(returned_one(), second.last());
        assert(returned(first + second) =~= returned(first) + returned(second));
    }
}

} // verus!
