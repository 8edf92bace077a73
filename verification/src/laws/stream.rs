//! How the message of the model is put together from its pieces.

use vstd::prelude::*;

use crate::chat::AssistantChatView;
use crate::context::FocusHandle;
use crate::delta::{
    call_at, merged, merged_all, text_or_empty, CompletionDeltaView, ToolCallDeltaVariantView,
    ToolCallDeltaView,
};
use crate::laws::rounds::law_round_begins;
use crate::message::{AssistantMessageView, ChatMessageView, ToolFunctionCallView};
use crate::request::{CompletionActionView, CompletionEventView, CompletionRequestView, Phase};

verus! {

/// What the pieces for the call at `index` add to its id, name and arguments, first to last.
pub open spec fn pieces(deltas: Seq<ToolCallDeltaView>, index: int) -> ToolFunctionCallView
    decreases deltas.len(),
{
    if deltas.len() == 0 {
        ToolFunctionCallView::blank()
    } else {
        let before = pieces(deltas.drop_last(), index);
        if deltas.last().index == index {
            deltas.last().extend(before)
        } else {
            before
        }
    }
}

/// Each tool call is what it was, followed by the pieces that were sent for it, in the order in
/// which they came. Pieces for one call never touch another.
pub proof fn law_tool_calls_are_assembled(
    calls: Seq<ToolFunctionCallView>,
    deltas: Seq<ToolCallDeltaView>,
    index: int,
)
    requires
        0 <= index,
    ensures
        ({
            let before = call_at(calls, index);
            let added = pieces(deltas, index);
            call_at(merged_all(calls, deltas), index) == (ToolFunctionCallView {
                id: before.id + added.id,
                name: before.name + added.name,
                arguments: before.arguments + added.arguments,
                result: before.result,
            })
        }),
    decreases deltas.len(),
{
    let before = call_at(calls, index);
    if deltas.len() == 0 {
        assert(before.id + Seq::empty() =~= before.id);
        assert(before.name + Seq::empty() =~= before.name);
        assert(before.arguments + Seq::empty() =~= before.arguments);
    } else {
        let init = deltas.drop_last();
        law_tool_calls_are_assembled(calls, init, index);
        let last = deltas.last();
        let some = merged_all(calls, init);
        let added = pieces(init, index);
        assert(call_at(merged(some, last), index) == if last.index == index {
            last.extend(call_at(some, index))
        } else {
            call_at(some, index)
        });
        if last.index == index {
            assert(before.id + added.id + text_or_empty(last.id) =~= before.id + (added.id
                + text_or_empty(last.id)));
            assert(before.name + added.name + last.name() =~= before.name + (added.name
                + last.name()));
            assert(before.arguments + added.arguments + last.arguments() =~= before.arguments + (
            added.arguments + last.arguments()));
        }
    }
}

/// One piece of a tool call, field by field. What it brings of the id, of the name and of the
/// arguments is appended to the call at its index, each whether or not the piece brings the others,
/// and what it does not bring stays as it was. So does the result. No other call changes. Where
/// there was no such call yet, calls without id, name, arguments and result are put in between.
pub proof fn law_piece_extends_its_call(
    calls: Seq<ToolFunctionCallView>,
    delta: ToolCallDeltaView,
)
    ensures
        ({
            let after = merged(calls, delta);
            let k = delta.index as int;
            let known = k < calls.len();
            let id = if known {
                calls[k].id
            } else {
                Seq::empty()
            };
            let name = if known {
                calls[k].name
            } else {
                Seq::empty()
            };
            let arguments = if known {
                calls[k].arguments
            } else {
                Seq::empty()
            };
            &&& known ==> after.len() == calls.len() && after[k].result == calls[k].result
            &&& !known ==> after.len() == k + 1 && after[k].result is None
            &&& delta.id matches Some(added) ==> after[k].id == id + added
            &&& delta.id is None ==> after[k].id == id
            &&& delta.variant matches Some(ToolCallDeltaVariantView::Function(function)) ==> {
                &&& function.name matches Some(added) ==> after[k].name == name + added
                &&& function.name is None ==> after[k].name == name
                &&& function.arguments matches Some(added) ==> after[k].arguments == arguments
                    + added
                &&& function.arguments is None ==> after[k].arguments == arguments
            }
            &&& delta.variant is None ==> after[k].name == name && after[k].arguments == arguments
            &&& forall|i: int|
                0 <= i < calls.len() && i != k ==> #[trigger] after[i] == calls[i]
            &&& forall|i: int|
                #![trigger after[i]]
                calls.len() <= i < k ==> after[i].id.len() == 0 && after[i].name.len() == 0
                    && after[i].arguments.len() == 0 && after[i].result is None
        }),
{
    let after = merged(calls, delta);
    let k = delta.index as int;
    let before = call_at(calls, k);
    assert(before.id + Seq::empty() =~= before.id);
    assert(before.name + Seq::empty() =~= before.name);
    assert(before.arguments + Seq::empty() =~= before.arguments);
}

/// Pieces are merged one by one, in the order in which they come.
pub proof fn law_pieces_are_merged_in_order(
    calls: Seq<ToolFunctionCallView>,
    deltas: Seq<ToolCallDeltaView>,
    delta: ToolCallDeltaView,
)
    ensures
        merged_all(calls, Seq::empty()) == calls,
        merged_all(calls, seq![delta]) == merged(calls, delta),
        merged_all(calls, deltas.push(delta)) == merged(merged_all(calls, deltas), delta),
{
    assert(deltas.push(delta).drop_last() =~= deltas);
    assert(seq![delta].drop_last() =~= Seq::empty());
    assert(merged_all(calls, Seq::empty()) == calls);
}

/// The list of tool calls never shrinks, and grows only as far as a piece asks for.
pub proof fn law_tool_calls_grow(
    calls: Seq<ToolFunctionCallView>,
    deltas: Seq<ToolCallDeltaView>,
)
    ensures
        merged_all(calls, deltas).len() >= calls.len(),
        forall|i: int|
            0 <= i < deltas.len() ==> merged_all(calls, deltas).len() > (
            #[trigger] deltas[i]).index,
        merged_all(calls, deltas).len() == calls.len() || exists|i: int|
            0 <= i < deltas.len() && merged_all(calls, deltas).len() == (
            #[trigger] deltas[i]).index + 1,
    decreases deltas.len(),
{
    if deltas.len() > 0 {
        let init = deltas.drop_last();
        law_tool_calls_grow(calls, init);
        let some = merged_all(calls, init);
        let all = merged_all(calls, deltas);
        let last = deltas.len() - 1;
        assert forall|i: int| 0 <= i < deltas.len() implies all.len() > (
        #[trigger] deltas[i]).index by {
            if i < last {
                assert(init[i] == deltas[i]);
            }
        }
        if all.len() != calls.len() {
            if all.len() == some.len() {
                let i = choose|i: int|
                    0 <= i < init.len() && some.len() == (#[trigger] init[i]).index + 1;
                assert(deltas[i] == init[i]);
            } else {
                assert(all.len() == deltas[last].index + 1);
            }
        }
    }
}

/// Merging pieces in two goes is merging them in one.
pub proof fn law_merge_in_parts(
    calls: Seq<ToolFunctionCallView>,
    first: Seq<ToolCallDeltaView>,
    second: Seq<ToolCallDeltaView>,
)
    ensures
        merged_all(merged_all(calls, first), second) == merged_all(calls, first + second),
    decreases second.len(),
{
    if second.len() == 0 {
        assert(first + second =~= first);
    } else {
        law_merge_in_parts(calls, first, second.drop_last());
        assert((first + second).drop_last() =~= first + second.drop_last());
    }
}

/// The chat after the model has sent `deltas`, where the text was rendered as `texts` after each.
pub open spec fn streamed(
    chat: AssistantChatView,
    deltas: Seq<CompletionDeltaView>,
    texts: Seq<Seq<char>>,
) -> AssistantChatView
    recommends
        deltas.len() == texts.len(),
    decreases deltas.len(),
{
    if deltas.len() == 0 {
        chat
    } else {
        let before = streamed(chat, deltas.drop_last(), texts.drop_last());
        before.delta_step(deltas.last()).chat.rendered_step(texts.last()).chat
    }
}

/// The text of a piece, as a value.
pub open spec fn contents() -> spec_fn(CompletionDeltaView) -> Seq<char> {
    |delta: CompletionDeltaView| text_or_empty(delta.content)
}

/// The pieces of tool calls in a piece, as a value.
pub open spec fn call_pieces() -> spec_fn(CompletionDeltaView) -> Seq<ToolCallDeltaView> {
    |delta: CompletionDeltaView| delta.tool_calls
}

/// While the model sends its message, the text to render is the concatenation of what it has sent,
/// the message shows the text as it was rendered last, its tool calls are merged from all pieces,
/// and nothing else in the chat changes.
pub proof fn law_message_is_assembled(
    chat: AssistantChatView,
    deltas: Seq<CompletionDeltaView>,
    texts: Seq<Seq<char>>,
)
    requires
        chat.pending_completion is Some,
        chat.request().phase == Phase::Streaming,
        chat.last_is_assistant(),
        deltas.len() == texts.len(),
    ensures
        streamed(chat, deltas, texts) == chat.with_last(
            AssistantMessageView {
                body: if deltas.len() == 0 {
                    chat.last_assistant().body
                } else {
                    texts.last()
                },
                tool_calls: merged_all(
                    chat.last_assistant().tool_calls,
                    deltas.flat_map(call_pieces()),
                ),
                ..chat.last_assistant()
            },
        ).with_request(
            CompletionRequestView {
                body: chat.request().body + deltas.flat_map(contents()),
                ..chat.request()
            },
        ),
    decreases deltas.len(),
{
    let calls = chat.last_assistant().tool_calls;
    if deltas.len() == 0 {
        assert(deltas.flat_map(contents()) =~= Seq::empty());
        assert(deltas.flat_map(call_pieces()) =~= Seq::empty());
        assert(chat.request().body + Seq::empty() =~= chat.request().body);
        let same = chat.with_last(chat.last_assistant());
        assert(same.messages =~= chat.messages);
    } else {
        let init = deltas.drop_last();
        let last = deltas.last();
        law_message_is_assembled(chat, init, texts.drop_last());
        let before = streamed(chat, init, texts.drop_last());
        assert(deltas =~= init.push(last));
        init.lemma_flat_map_push(contents(), last);
        init.lemma_flat_map_push(call_pieces(), last);
        law_merge_in_parts(calls, init.flat_map(call_pieces()), last.tool_calls);
        assert(chat.request().body + init.flat_map(contents()) + text_or_empty(last.content)
            =~= chat.request().body + (init.flat_map(contents()) + text_or_empty(last.content)));
        let after = streamed(chat, deltas, texts);
        assert(before.last_is_assistant());
        let expected = AssistantMessageView {
            body: texts.last(),
            tool_calls: merged_all(calls, deltas.flat_map(call_pieces())),
            ..chat.last_assistant()
        };
        assert(after.messages =~= chat.with_last(expected).messages);
    }
}

/// The texts that the pieces bring, one after the other.
pub open spec fn said(deltas: Seq<CompletionDeltaView>) -> Seq<char>
    decreases deltas.len(),
{
    if deltas.len() == 0 {
        Seq::empty()
    } else {
        match deltas[deltas.len() - 1].content {
            Some(content) => said(deltas.drop_last()) + content,
            None => said(deltas.drop_last()),
        }
    }
}

proof fn lemma_said(deltas: Seq<CompletionDeltaView>)
    ensures
        said(deltas) == deltas.flat_map(contents()),
    decreases deltas.len(),
{
    if deltas.len() == 0 {
        assert(deltas.flat_map(contents()) =~= Seq::empty());
    } else {
        let init = deltas.drop_last();
        lemma_said(init);
        assert(deltas =~= init.push(deltas.last()));
        init.lemma_flat_map_push(contents(), deltas.last());
        assert(said(deltas) =~= deltas.flat_map(contents()));
    }
}

/// In each round the text to render is what the model has sent in that round, from its first piece
/// on, and nothing of what earlier rounds sent. The message of the round shows the text as it was
/// rendered last, and its tool calls come of the pieces of this round alone. The messages before it
/// stay as they are.
pub proof fn law_round_renders_its_own_text(
    chat: AssistantChatView,
    focused: Option<FocusHandle>,
    deltas: Seq<CompletionDeltaView>,
    texts: Seq<Seq<char>>,
    delta: CompletionDeltaView,
)
    requires
        chat.pending_completion is Some,
        chat.pending_completion->0.call_count < usize::MAX,
        chat.next_message_id.0 < usize::MAX,
        chat.messages.len() <= usize::MAX,
        deltas.len() == texts.len(),
    ensures
        ({
            let begun = chat.step(CompletionEventView::Begin, focused).chat;
            let heard = streamed(begun, deltas, texts);
            let last = heard.messages.len() - 1;
            &&& heard.step(CompletionEventView::Delta(delta), focused).action
                == CompletionActionView::Render(said(deltas.push(delta)))
            &&& last == chat.messages.len()
            &&& heard.messages.take(last) == chat.messages
            &&& heard.messages[last] matches ChatMessageView::Assistant(message) && {
                &&& message.id == chat.next_message_id
                &&& message.error is None
                &&& deltas.len() == 0 ==> message.body.len() == 0
                &&& deltas.len() > 0 ==> message.body == texts[texts.len() - 1]
                &&& message.tool_calls == merged_all(
                    Seq::empty(),
                    deltas.flat_map(call_pieces()),
                )
            }
        }),
{
    let begun = chat.step(CompletionEventView::Begin, focused).chat;
    let heard = streamed(begun, deltas, texts);
    law_round_begins(chat, focused);
    law_message_is_assembled(begun, deltas, texts);
    lemma_said(deltas);
    let text = begun.request().body;
    assert(text =~= Seq::empty());
    assert(text + deltas.flat_map(contents()) =~= said(deltas));
    assert(deltas.push(delta).drop_last() =~= deltas);
    assert(said(deltas) + Seq::empty() =~= said(deltas));
    assert(begun.last_assistant().tool_calls =~= Seq::empty());
    assert(heard.messages.take(chat.messages.len() as int) =~= chat.messages) by {
        assert(begun.messages.drop_last() == chat.messages);
        assert forall|i: int| 0 <= i < chat.messages.len() implies #[trigger] heard.messages[i]
            == chat.messages[i] by {
            assert(begun.messages.drop_last()[i] == begun.messages[i]);
        }
    }
}

} // verus!
