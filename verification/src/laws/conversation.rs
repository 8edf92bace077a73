//! The conversation that is sent to the model.

use vstd::prelude::*;

use crate::codebase::AssistantContextView;
use crate::completion::{CompletionMessageView, ToolCallContentView, ToolCallView};
use crate::context::MessageId;
use crate::conversation::{
    answers, context_messages, contribution, contributions, conversation, reminders,
};
use crate::message::{AssistantMessageView, ChatMessageView, ToolFunctionCallView, UserMessageView};

verus! {

/// The tool calls of a message, where it has any.
pub open spec fn calls_of(message: CompletionMessageView) -> Seq<ToolCallView> {
    match message {
        CompletionMessageView::Assistant { tool_calls, .. } => tool_calls,
        _ => Seq::empty(),
    }
}

/// The message answers the tool call.
pub open spec fn answers_call(message: CompletionMessageView, call: ToolCallView) -> bool {
    message matches CompletionMessageView::Tool { tool_call_id, .. } && tool_call_id == call.id
}

/// The tool call `j` of the message at `k` is answered at its place behind that message.
pub open spec fn answered_at(sent: Seq<CompletionMessageView>, k: int, j: int) -> bool {
    k + 1 + j < sent.len() && answers_call(sent[k + 1 + j], calls_of(sent[k])[j])
}

/// The tool calls of each message are answered right behind it, one message for each, in order.
pub open spec fn all_answered(sent: Seq<CompletionMessageView>) -> bool {
    forall|k: int, j: int|
        0 <= k < sent.len() && 0 <= j < calls_of(sent[k]).len() ==> #[trigger] answered_at(
            sent,
            k,
            j,
        )
}

/// The message at `k` answers the tool call `k - caller - 1` of the message at `caller`.
pub open spec fn replies_to(sent: Seq<CompletionMessageView>, k: int, caller: int) -> bool {
    let calls = calls_of(sent[caller]);
    &&& 0 <= caller < k
    &&& k - caller - 1 < calls.len()
    &&& answers_call(sent[k], calls[k - caller - 1])
}

/// Every answer belongs to a tool call.
pub open spec fn all_asked(sent: Seq<CompletionMessageView>) -> bool {
    forall|k: int|
        0 <= k < sent.len() && #[trigger] sent[k] is Tool ==> exists|caller: int|
            replies_to(sent, k, caller)
}

/// The message of the model has text or tool calls.
pub open spec fn says_something(message: CompletionMessageView) -> bool {
    message matches CompletionMessageView::Assistant { content, tool_calls } ==> (
    content matches Some(text) && text.len() > 0) || tool_calls.len() > 0
}

/// No message of the model is empty.
pub open spec fn none_empty(sent: Seq<CompletionMessageView>) -> bool {
    forall|k: int| 0 <= k < sent.len() ==> says_something(#[trigger] sent[k])
}

proof fn lemma_concat(a: Seq<CompletionMessageView>, b: Seq<CompletionMessageView>)
    requires
        all_answered(a),
        all_answered(b),
        all_asked(a),
        all_asked(b),
        none_empty(a),
        none_empty(b),
    ensures
        all_answered(a + b),
        all_asked(a + b),
        none_empty(a + b),
{
    let all = a + b;
    assert forall|k: int, j: int|
        0 <= k < all.len() && 0 <= j < calls_of(all[k]).len() implies #[trigger] answered_at(
        all,
        k,
        j,
    ) by {
        if k < a.len() {
            assert(answered_at(a, k, j));
        } else {
            assert(answered_at(b, k - a.len(), j));
        }
    }
    assert forall|k: int| 0 <= k < all.len() && #[trigger] all[k] is Tool implies exists|
        caller: int,
    | replies_to(all, k, caller) by {
        if k < a.len() {
            assert(a[k] is Tool);
            let caller = choose|caller: int| replies_to(a, k, caller);
            assert(replies_to(all, k, caller));
        } else {
            let m = k - a.len();
            assert(b[m] is Tool);
            let caller = choose|caller: int| replies_to(b, m, caller);
            assert(replies_to(all, k, caller + a.len()));
        }
    }
    assert forall|k: int| 0 <= k < all.len() implies says_something(#[trigger] all[k]) by {
        if k < a.len() {
            assert(says_something(a[k]));
        } else {
            assert(says_something(b[k - a.len()]));
        }
    }
}

/// Contexts tell the model something only in system messages.
pub proof fn law_contexts_are_system_messages(contexts: Seq<AssistantContextView>)
    ensures
        forall|i: int|
            0 <= i < contexts.flat_map(context_messages()).len() ==> #[trigger] contexts.flat_map(
                context_messages(),
            )[i] is System,
    decreases contexts.len(),
{
    if contexts.len() == 0 {
        assert(contexts.flat_map(context_messages()) =~= Seq::empty());
    } else {
        let init = contexts.drop_last();
        law_contexts_are_system_messages(init);
        assert(contexts =~= init.push(contexts.last()));
        init.lemma_flat_map_push(context_messages(), contexts.last());
    }
}

/// A user message contributes its own text last, after what its contexts tell the model.
pub proof fn law_user_message_comes_last(message: UserMessageView)
    ensures
        ({
            let sent = contribution(ChatMessageView::User(message));
            &&& sent.len() > 0
            &&& sent.last() == CompletionMessageView::User { content: message.body.text }
            &&& forall|i: int| 0 <= i < sent.len() - 1 ==> #[trigger] sent[i] is System
        }),
{
    law_contexts_are_system_messages(message.contexts);
    let told = message.contexts.flat_map(context_messages());
    let sent = contribution(ChatMessageView::User(message));
    assert forall|i: int| 0 <= i < sent.len() - 1 implies #[trigger] sent[i] is System by {
        assert(sent[i] == told[i]);
    }
}

proof fn lemma_contribution(message: ChatMessageView)
    ensures
        all_answered(contribution(message)),
        all_asked(contribution(message)),
        none_empty(contribution(message)),
{
    let sent = contribution(message);
    match message {
        ChatMessageView::User(user) => {
            law_user_message_comes_last(user);
            assert forall|k: int| 0 <= k < sent.len() implies calls_of(#[trigger] sent[k]).len()
                == 0 && !(sent[k] is Tool) && says_something(sent[k]) by {
                if k < sent.len() - 1 {
                    assert(sent[k] is System);
                }
            }
        },
        ChatMessageView::Assistant(assistant) => {
            if sent.len() > 0 {
                let calls = assistant.tool_calls;
                assert forall|k: int| 1 <= k < sent.len() implies #[trigger] sent[k] == answers(
                    calls,
                )[k - 1] by {}
                assert(calls_of(sent[0]) == reminders(calls));
                assert forall|k: int, j: int|
                    0 <= k < sent.len() && 0 <= j < calls_of(sent[k]).len() implies
                    #[trigger] answered_at(sent, k, j) by {
                    if k == 0 {
                        assert(sent[1 + j] == answers(calls)[j]);
                    } else {
                        assert(sent[k] == answers(calls)[k - 1]);
                    }
                }
                assert forall|k: int|
                    0 <= k < sent.len() && #[trigger] sent[k] is Tool implies exists|caller: int|
                    replies_to(sent, k, caller) by {
                    assert(k > 0);
                    assert(answered_at(sent, 0, k - 1));
                    assert(replies_to(sent, k, 0));
                }
                assert forall|k: int| 0 <= k < sent.len() implies says_something(
                    #[trigger] sent[k],
                ) by {
                    if k > 0 {
                        assert(sent[k] == answers(calls)[k - 1]);
                    }
                }
            }
        },
    }
}

/// In every conversation that is sent, each tool call is answered right behind the message that
/// makes it, by one message with its id and in the order of the calls. Each answer belongs to such
/// a call. No message of the model is empty.
pub proof fn law_conversation_is_answered(messages: Seq<ChatMessageView>)
    ensures
        all_answered(conversation(messages)),
        all_asked(conversation(messages)),
        none_empty(conversation(messages)),
    decreases messages.len(),
{
    if messages.len() == 0 {
        assert(conversation(messages) =~= Seq::empty());
    } else {
        let init = messages.drop_last();
        law_conversation_is_answered(init);
        lemma_contribution(messages.last());
        lemma_concat(conversation(init), contribution(messages.last()));
        assert(messages =~= init.push(messages.last()));
        init.lemma_flat_map_push(contributions(), messages.last());
    }
}

/// A tool that is still running is answered for by an empty text.
pub proof fn law_running_tool_answers_nothing(calls: Seq<ToolFunctionCallView>, j: int)
    requires
        0 <= j < calls.len(),
        calls[j].result is None,
    ensures
        answers(calls)[j] == (CompletionMessageView::Tool {
            content: Seq::empty(),
            tool_call_id: calls[j].id,
        }),
{
}

/// Later messages add to the conversation and change nothing in front of them.
pub proof fn law_conversation_appends(first: Seq<ChatMessageView>, second: Seq<ChatMessageView>)
    ensures
        conversation(first + second) == conversation(first) + conversation(second),
    decreases second.len(),
{
    if second.len() == 0 {
        assert(first + second =~= first);
        assert(conversation(second) =~= Seq::empty());
        assert(conversation(first) + Seq::empty() =~= conversation(first));
    } else {
        let init = second.drop_last();
        law_conversation_appends(first, init);
        assert(first + second =~= (first + init).push(second.last()));
        assert(second =~= init.push(second.last()));
        (first + init).lemma_flat_map_push(contributions(), second.last());
        init.lemma_flat_map_push(contributions(), second.last());
        assert(conversation(first + second) =~= conversation(first) + conversation(second));
    }
}

/// The message that the model has yet to write is not part of the conversation.
pub proof fn law_blank_message_is_not_sent(messages: Seq<ChatMessageView>, id: MessageId)
    ensures
        conversation(messages.push(ChatMessageView::Assistant(AssistantMessageView::blank(id))))
            == conversation(messages),
{
    let blank = ChatMessageView::Assistant(AssistantMessageView::blank(id));
    messages.lemma_flat_map_push(contributions(), blank);
    assert(conversation(messages) + contribution(blank) =~= conversation(messages));
}

/// The model is reminded of this tool call: of its id, of the name of its function and of the
/// arguments, each in its own field.
pub open spec fn reminds_of(sent: ToolCallView, call: ToolFunctionCallView) -> bool {
    &&& sent.id == call.id
    &&& sent.content matches ToolCallContentView::Function { function } && {
        &&& function.name == call.name
        &&& function.arguments == call.arguments
    }
}

/// The message tells the model what this tool call came to, which is nothing while the tool runs.
pub open spec fn tells_outcome(sent: CompletionMessageView, call: ToolFunctionCallView) -> bool {
    sent matches CompletionMessageView::Tool { content, tool_call_id } && {
        &&& tool_call_id == call.id
        &&& call.result matches Some(result) ==> content == result.content
        &&& call.result is None ==> content.len() == 0
    }
}

proof fn lemma_conversation_of_one(message: ChatMessageView)
    ensures
        conversation(seq![message]) == contribution(message),
{
    let none = Seq::<ChatMessageView>::empty();
    assert(conversation(none) =~= Seq::empty());
    none.lemma_flat_map_push(contributions(), message);
    assert(none.push(message) =~= seq![message]);
    assert(conversation(seq![message]) =~= contribution(message));
}

/// A message of the model is sent with its text and with all its tool calls, in order, each with
/// its own id, function name and arguments. Behind it comes the outcome of each call, in order. A
/// message with neither text nor tool calls is not sent.
pub proof fn law_assistant_message_is_sent(message: AssistantMessageView)
    ensures
        ({
            let sent = conversation(seq![ChatMessageView::Assistant(message)]);
            let calls = message.tool_calls;
            &&& message.body.len() == 0 && calls.len() == 0 ==> sent.len() == 0
            &&& message.body.len() > 0 || calls.len() > 0 ==> {
                &&& sent.len() == 1 + calls.len()
                &&& sent[0] matches CompletionMessageView::Assistant { content, tool_calls } && {
                    &&& content == Some(message.body)
                    &&& tool_calls.len() == calls.len()
                    &&& forall|j: int|
                        0 <= j < calls.len() ==> reminds_of(#[trigger] tool_calls[j], calls[j])
                }
                &&& forall|k: int|
                    1 <= k < sent.len() ==> tells_outcome(#[trigger] sent[k], calls[k - 1])
            }
        }),
{
    lemma_conversation_of_one(ChatMessageView::Assistant(message));
    let sent = conversation(seq![ChatMessageView::Assistant(message)]);
    let calls = message.tool_calls;
    if message.body.len() > 0 || calls.len() > 0 {
        assert forall|k: int| 1 <= k < sent.len() implies tells_outcome(
            #[trigger] sent[k],
            calls[k - 1],
        ) by {
            assert(sent[k] == answers(calls)[k - 1]);
        }
    }
}

/// A user message without contexts is sent as its text, and as nothing else.
pub proof fn law_user_message_is_sent(message: UserMessageView)
    requires
        message.contexts.len() == 0,
    ensures
        conversation(seq![ChatMessageView::User(message)]) == seq![
            CompletionMessageView::User { content: message.body.text },
        ],
{
    lemma_conversation_of_one(ChatMessageView::User(message));
    assert(message.contexts.flat_map(context_messages()) =~= Seq::empty());
    assert(conversation(seq![ChatMessageView::User(message)]) =~= seq![
        CompletionMessageView::User { content: message.body.text },
    ]);
}

/// One more context of a user message tells what it has to tell behind the other contexts and ahead
/// of the text of the message.
pub proof fn law_context_is_sent_ahead_of_the_text(
    message: UserMessageView,
    context: AssistantContextView,
)
    ensures
        ({
            let more = UserMessageView { contexts: message.contexts.push(context), ..message };
            let sent = conversation(seq![ChatMessageView::User(message)]);
            &&& sent.len() > 0
            &&& conversation(seq![ChatMessageView::User(more)]) == sent.drop_last()
                + context.completion_messages() + seq![
                CompletionMessageView::User { content: message.body.text },
            ]
        }),
{
    let more = UserMessageView { contexts: message.contexts.push(context), ..message };
    lemma_conversation_of_one(ChatMessageView::User(message));
    lemma_conversation_of_one(ChatMessageView::User(more));
    message.contexts.lemma_flat_map_push(context_messages(), context);
    let sent = conversation(seq![ChatMessageView::User(message)]);
    assert(sent.drop_last() =~= message.contexts.flat_map(context_messages()));
    assert(conversation(seq![ChatMessageView::User(more)]) =~= sent.drop_last()
        + context.completion_messages() + seq![
        CompletionMessageView::User { content: message.body.text },
    ]);
}

/// Nothing is sent of a chat without messages.
pub proof fn law_nothing_to_send()
    ensures
        conversation(Seq::empty()) == Seq::<CompletionMessageView>::empty(),
{
    assert(conversation(Seq::empty()) =~= Seq::<CompletionMessageView>::empty());
}

} // verus!
