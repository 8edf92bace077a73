//! What a submission and the rounds of its request do to a chat.

use vstd::prelude::*;

use crate::chat::{is_user_message, AssistantChatView};
use crate::codebase::{file_contexts, unless_file, without_files, AssistantContextView};
use crate::completion::CompletionMessageView;
use crate::context::{Effect, FileContextView, FocusHandle, MessageId, RequestId};
use crate::conversation::{context_messages, contribution, contributions, conversation};
use crate::delta::indices_fit;
use crate::laws::codebase::{contains_text, law_file_is_told_whole};
use crate::laws::conversation::{law_blank_message_is_not_sent, law_conversation_appends};
use crate::laws::list::{law_step_mirrors, mirrors};
use crate::message::{ChatMessageView, UserMessageView};
use crate::request::{
    file_to_send, CompletionActionView, CompletionEventView, CompletionRequestView, Phase, Submit,
    SubmitMode, MAX_COMPLETION_CALLS_PER_SUBMISSION,
};
use crate::search::{lemma_first_index, lemma_first_index_at};
use crate::validity::{
    lemma_edit_keeps_well_formed, lemma_position, lemma_step_keeps_invariant,
    lemma_submit_keeps_invariant, lemma_user_position, lemma_user_position_of_prefix,
    lemma_with_file,
};

verus! {

/// An event, and what holds the focus when it happens.
pub type TimedEvent = (CompletionEventView, Option<FocusHandle>);

/// Each of the events can happen when its turn comes.
pub open spec fn accepts_all(chat: AssistantChatView, events: Seq<TimedEvent>) -> bool
    decreases events.len(),
{
    events.len() == 0 || {
        let (event, focused) = events.first();
        &&& chat.accepts(event)
        &&& accepts_all(chat.step(event, focused).chat, events.drop_first())
    }
}

/// The chat after all of the events.
pub open spec fn after_all(chat: AssistantChatView, events: Seq<TimedEvent>) -> AssistantChatView
    decreases events.len(),
{
    if events.len() == 0 {
        chat
    } else {
        let (event, focused) = events.first();
        after_all(chat.step(event, focused).chat, events.drop_first())
    }
}

/// What the events ask of the window.
pub open spec fn effects_of_all(chat: AssistantChatView, events: Seq<TimedEvent>) -> Seq<Effect>
    decreases events.len(),
{
    if events.len() == 0 {
        Seq::empty()
    } else {
        let (event, focused) = events.first();
        let step = chat.step(event, focused);
        step.effects + effects_of_all(step.chat, events.drop_first())
    }
}

/// The model is called and offered tools.
pub open spec fn is_offer(action: CompletionActionView) -> bool {
    action matches CompletionActionView::Complete(call) && call.offer_tools
}

/// How often the events have the model called with tools on offer.
pub open spec fn offers(chat: AssistantChatView, events: Seq<TimedEvent>) -> nat
    decreases events.len(),
{
    if events.len() == 0 {
        0
    } else {
        let (event, focused) = events.first();
        let step = chat.step(event, focused);
        offers(step.chat, events.drop_first()) + if is_offer(step.action) {
            1nat
        } else {
            0
        }
    }
}

/// A submission keeps the messages before the one that is submitted, which becomes the last, and
/// nothing of what came after. The submitted message keeps its text.
pub proof fn law_submit_keeps_what_came_before(
    chat: AssistantChatView,
    submit: Submit,
    focused: Option<FocusHandle>,
    current_file: Option<FileContextView>,
)
    requires
        chat.well_formed(),
        chat.focused_message_id(focused) is Some,
    ensures
        ({
            let id = chat.focused_message_id(focused)->0;
            let after = chat.submitted(submit, focused, current_file);
            let last = after.messages.len() - 1;
            &&& focused == Some(FocusHandle(id))
            &&& 0 <= last < chat.messages.len()
            &&& after.messages.take(last) == chat.messages.take(last)
            &&& is_user_message(chat.messages[last], id)
            &&& after.messages[last] == ChatMessageView::User(
                chat.messages[last]->User_0.with_file(file_to_send(submit.0, current_file)),
            )
            &&& after.request().message_id == id
            &&& after.request().mode == submit.0
        }),
{
    let id = chat.focused_message_id(focused)->0;
    let file = file_to_send(submit.0, current_file);
    lemma_user_position(chat, id);
    let index = chat.user_position(id)->0;
    lemma_with_file(chat, id, file);
    lemma_position(chat, index);
    let after = chat.submitted(submit, focused, current_file);
    assert(after.messages.take(index) =~= chat.messages.take(index));
}

/// To submit the same message again, before anything else has happened, changes no message. It
/// only puts a new request in the place of an equal one.
pub proof fn law_submit_twice(
    chat: AssistantChatView,
    submit: Submit,
    focused: Option<FocusHandle>,
    current_file: Option<FileContextView>,
)
    requires
        chat.well_formed(),
    ensures
        ({
            let once = chat.submitted(submit, focused, current_file);
            let twice = once.submitted(submit, focused, current_file);
            &&& twice.model == once.model
            &&& twice.messages == once.messages
            &&& twice.next_message_id == once.next_message_id
            &&& chat.focused_message_id(focused) is Some ==> twice.request()
                == CompletionRequestView { id: once.next_request_id, ..once.request() }
            &&& chat.focused_message_id(focused) is None ==> twice == once
        }),
{
    let once = chat.submitted(submit, focused, current_file);
    if let Some(id) = chat.focused_message_id(focused) {
        let file = file_to_send(submit.0, current_file);
        law_submit_keeps_what_came_before(chat, submit, focused, current_file);
        lemma_submit_keeps_invariant(chat, submit, focused, current_file);
        let last = once.messages.len() - 1;
        let message = chat.messages[last]->User_0;
        lemma_position(once, last);
        lemma_with_file(once, id, file);
        lemma_replaced_twice(message.contexts, file);
        assert(message.with_file(file).with_file(file) =~= message.with_file(file));
        let twice = once.submitted(submit, focused, current_file);
        assert(twice.messages =~= once.messages);
    }
}

proof fn lemma_no_files_left(contexts: Seq<AssistantContextView>)
    ensures
        forall|i: int|
            0 <= i < without_files(contexts).len() ==> !(#[trigger] without_files(
                contexts,
            )[i] is File),
        without_files(without_files(contexts)) == without_files(contexts),
    decreases contexts.len(),
{
    if contexts.len() == 0 {
        assert(without_files(contexts) =~= Seq::empty());
    } else {
        let init = contexts.drop_last();
        lemma_no_files_left(init);
        assert(contexts =~= init.push(contexts.last()));
        init.lemma_flat_map_push(unless_file(), contexts.last());
        if contexts.last() is File {
            assert(without_files(contexts) =~= without_files(init));
        } else {
            without_files(init).lemma_flat_map_push(unless_file(), contexts.last());
            assert(without_files(contexts) =~= without_files(init).push(contexts.last()));
        }
    }
}

proof fn lemma_replaced_twice(contexts: Seq<AssistantContextView>, file: Option<FileContextView>)
    ensures
        without_files(without_files(contexts) + file_contexts(file)) == without_files(contexts),
{
    lemma_no_files_left(contexts);
    let kept = without_files(contexts);
    match file {
        Some(file) => {
            let added = AssistantContextView::File(file);
            kept.lemma_flat_map_push(unless_file(), added);
            assert(kept + file_contexts(Some(file)) =~= kept.push(added));
            assert(without_files(kept.push(added)) =~= without_files(kept));
        },
        None => {
            assert(kept + file_contexts(None) =~= kept);
        },
    }
}

/// The submitted message carries the current file where the mode is to send it, as the last of its
/// contexts, and no other file: what an earlier submission sent is replaced. Its other contexts
/// stay as they are.
pub proof fn law_submitted_message_carries_the_file(
    chat: AssistantChatView,
    submit: Submit,
    focused: Option<FocusHandle>,
    current_file: Option<FileContextView>,
)
    requires
        chat.well_formed(),
        chat.focused_message_id(focused) is Some,
    ensures
        ({
            let after = chat.submitted(submit, focused, current_file);
            let last = after.messages.len() - 1;
            let contexts = after.messages[last]->User_0.contexts;
            &&& without_files(contexts) == without_files(chat.messages[last]->User_0.contexts)
            &&& submit.0 == SubmitMode::CurrentFile && current_file is Some ==> contexts.len() > 0
                && contexts.last() == AssistantContextView::File(current_file->0)
            &&& forall|i: int|
                0 <= i < contexts.len() && #[trigger] contexts[i] is File ==> submit.0
                    == SubmitMode::CurrentFile && current_file is Some && i == contexts.len() - 1
        }),
{
    law_submit_keeps_what_came_before(chat, submit, focused, current_file);
    let after = chat.submitted(submit, focused, current_file);
    let last = after.messages.len() - 1;
    let file = file_to_send(submit.0, current_file);
    let before = chat.messages[last]->User_0.contexts;
    let contexts = after.messages[last]->User_0.contexts;
    lemma_no_files_left(before);
    lemma_replaced_twice(before, file);
    assert forall|i: int| 0 <= i < contexts.len() && #[trigger] contexts[i] is File implies submit.0
        == SubmitMode::CurrentFile && current_file is Some && i == contexts.len() - 1 by {
        if i < without_files(before).len() {
            assert(contexts[i] == without_files(before)[i]);
        }
    }
}

/// At `k` a conversation tells the whole text of the file, right ahead of the user's own text.
pub open spec fn file_told_at(
    sent: Seq<CompletionMessageView>,
    k: int,
    file: FileContextView,
    text: Seq<char>,
) -> bool {
    &&& 0 <= k < sent.len() - 1
    &&& sent[k] matches CompletionMessageView::System { content } && contains_text(
        content,
        file.text,
    )
    &&& sent[k + 1] == CompletionMessageView::User { content: text }
}

proof fn lemma_file_is_told(
    first: Seq<ChatMessageView>,
    message: UserMessageView,
    rest: Seq<ChatMessageView>,
    file: FileContextView,
)
    requires
        message.contexts.len() > 0,
        message.contexts.last() == AssistantContextView::File(file),
    ensures
        ({
            let sent = conversation(first.push(ChatMessageView::User(message)) + rest);
            let k = conversation(first).len() + contribution(ChatMessageView::User(message)).len()
                - 2;
            &&& file_told_at(sent, k, file, message.body.text)
            &&& rest.len() == 0 ==> k == sent.len() - 2
        }),
{
    let user = ChatMessageView::User(message);
    let others = message.contexts.drop_last();
    let told = others.flat_map(context_messages());
    assert(message.contexts =~= others.push(AssistantContextView::File(file)));
    others.lemma_flat_map_push(context_messages(), AssistantContextView::File(file));
    assert(contribution(user) =~= told + seq![
        CompletionMessageView::System { content: file.told() },
        CompletionMessageView::User { content: message.body.text },
    ]);
    first.lemma_flat_map_push(contributions(), user);
    law_conversation_appends(first.push(user), rest);
    law_file_is_told_whole(file);
    if rest.len() == 0 {
        assert(conversation(rest) =~= Seq::empty());
    }
}

/// After a submission that is to send the current file, every round of the request tells the model
/// the text of that file, in a system message right ahead of the submitted message. In the first
/// round nothing comes after these two.
pub proof fn law_current_file_is_sent(
    chat: AssistantChatView,
    focused: Option<FocusHandle>,
    file: FileContextView,
    events: Seq<TimedEvent>,
)
    requires
        chat.well_formed(),
        chat.focused_message_id(focused) is Some,
        accepts_all(
            chat.submitted(Submit(SubmitMode::CurrentFile), focused, Some(file)),
            events,
        ),
        after_all(
            chat.submitted(Submit(SubmitMode::CurrentFile), focused, Some(file)),
            events,
        ).accepts(CompletionEventView::Begin),
    ensures
        ({
            let submitted = chat.submitted(Submit(SubmitMode::CurrentFile), focused, Some(file));
            let text = chat.messages[submitted.messages.len() - 1]->User_0.body.text;
            let action = after_all(submitted, events).begin_step().action;
            &&& action matches CompletionActionView::Complete(call) && {
                &&& exists|k: int| #[trigger] file_told_at(call.messages, k, file, text)
                &&& events.len() == 0 ==> file_told_at(
                    call.messages,
                    call.messages.len() - 2,
                    file,
                    text,
                )
            }
        }),
{
    let submit = Submit(SubmitMode::CurrentFile);
    let submitted = chat.submitted(submit, focused, Some(file));
    law_submit_keeps_what_came_before(chat, submit, focused, Some(file));
    law_submitted_message_carries_the_file(chat, submit, focused, Some(file));
    lemma_submit_keeps_invariant(chat, submit, focused, Some(file));
    law_events_keep_what_was_submitted(submitted, events);
    let last = submitted.messages.len() - 1;
    lemma_position(submitted, last);
    let after = after_all(submitted, events);
    let first = submitted.messages.take(last);
    let rest = after.messages.skip(last + 1);
    let message = submitted.messages[last]->User_0;
    assert(submitted.messages.take(last + 1) =~= first.push(ChatMessageView::User(message)));
    assert(after.messages =~= after.messages.take(last + 1) + rest);
    law_blank_message_is_not_sent(after.messages, after.next_message_id);
    lemma_file_is_told(first, message, rest, file);
    let sent = conversation(after.messages);
    let k = conversation(first).len() + contribution(ChatMessageView::User(message)).len() - 2;
    let text = chat.messages[last]->User_0.body.text;
    assert(after.messages == first.push(ChatMessageView::User(message)) + rest);
    assert(file_told_at(sent, k, file, text));
    assert(after.begin_step().action->Complete_0.messages == sent);
}

/// Removing the messages after one a second time changes nothing.
pub proof fn law_truncate_twice(chat: AssistantChatView, id: MessageId)
    ensures
        chat.truncated(id).truncated(id) == chat.truncated(id),
{
    let pred = |message: ChatMessageView| message.id() == id;
    lemma_first_index(chat.messages, pred);
    if let Some(index) = chat.position(id) {
        let once = chat.truncated(id);
        lemma_first_index_at(once.messages, pred, index);
        assert(once.messages.take(index + 1) =~= once.messages);
    }
}

/// Editing a user message keeps a chat valid.
pub proof fn law_edit_keeps_validity(
    chat: AssistantChatView,
    index: int,
    message: UserMessageView,
)
    requires
        chat.well_formed(),
        chat.request_in_place(),
        0 <= index < chat.messages.len(),
        is_user_message(chat.messages[index], message.id),
    ensures
        (AssistantChatView {
            messages: chat.messages.update(index, ChatMessageView::User(message)),
            ..chat
        }).well_formed(),
        (AssistantChatView {
            messages: chat.messages.update(index, ChatMessageView::User(message)),
            ..chat
        }).request_in_place(),
{
    lemma_edit_keeps_well_formed(chat, index, message);
    if chat.pending_completion is Some {
        let edited = AssistantChatView {
            messages: chat.messages.update(index, ChatMessageView::User(message)),
            ..chat
        };
        assert(edited.user_position(chat.request().message_id) is Some);
    }
}

/// Whatever happens to a request, the chat stays valid, and the messages up to the submitted one
/// stay as they are. So the submitted message is still there when the request is over.
pub proof fn law_events_keep_what_was_submitted(chat: AssistantChatView, events: Seq<TimedEvent>)
    requires
        chat.well_formed(),
        chat.request_in_place(),
        chat.pending_completion is Some,
        accepts_all(chat, events),
    ensures
        ({
            let after = after_all(chat, events);
            let kept = chat.user_position(chat.request().message_id)->0 + 1;
            &&& after.well_formed()
            &&& after.pending_completion is Some
            &&& after.request_in_place()
            &&& after.request().id == chat.request().id
            &&& after.request().message_id == chat.request().message_id
            &&& after.user_position(chat.request().message_id) == chat.user_position(
                chat.request().message_id,
            )
            &&& 0 < kept <= chat.messages.len() <= after.messages.len()
            &&& after.messages.take(kept) == chat.messages.take(kept)
        }),
    decreases events.len(),
{
    lemma_user_position(chat, chat.request().message_id);
    if events.len() > 0 {
        let (event, focused) = events.first();
        let next = chat.step(event, focused).chat;
        lemma_step_keeps_invariant(chat, event, focused);
        lemma_user_position_of_prefix(chat, next, chat.request().message_id);
        law_events_keep_what_was_submitted(next, events.drop_first());
    }
}

/// Over all events the list goes on showing the messages of the chat.
pub proof fn law_events_mirror(
    effects: Seq<Effect>,
    chat: AssistantChatView,
    events: Seq<TimedEvent>,
)
    requires
        mirrors(effects, chat),
        chat.messages.len() + events.len() <= usize::MAX,
        accepts_all(chat, events),
    ensures
        mirrors(effects + effects_of_all(chat, events), after_all(chat, events)),
    decreases events.len(),
{
    if events.len() == 0 {
        assert(effects + effects_of_all(chat, events) =~= effects);
    } else {
        let (event, focused) = events.first();
        let step = chat.step(event, focused);
        law_step_mirrors(effects, chat, event, focused);
        law_events_mirror(effects + step.effects, step.chat, events.drop_first());
        assert(effects + effects_of_all(chat, events) =~= effects + step.effects + effects_of_all(
            step.chat,
            events.drop_first(),
        ));
    }
}

proof fn lemma_offers_are_limited(chat: AssistantChatView, events: Seq<TimedEvent>)
    requires
        chat.pending_completion is Some,
        accepts_all(chat, events),
    ensures
        chat.request().mode != SubmitMode::Codebase ==> offers(chat, events) == 0,
        chat.request().call_count >= chat.request().limit ==> offers(chat, events) == 0,
        chat.request().call_count <= chat.request().limit ==> offers(chat, events)
            <= chat.request().limit - chat.request().call_count,
    decreases events.len(),
{
    if events.len() > 0 {
        let (event, focused) = events.first();
        let step = chat.step(event, focused);
        lemma_offers_are_limited(step.chat, events.drop_first());
    }
}

/// After a submission the model is offered tools in no more than
/// [`MAX_COMPLETION_CALLS_PER_SUBMISSION`] rounds, and in none unless the codebase may be searched.
pub proof fn law_tools_are_offered_seldom(
    chat: AssistantChatView,
    submit: Submit,
    focused: Option<FocusHandle>,
    current_file: Option<FileContextView>,
    events: Seq<TimedEvent>,
)
    requires
        chat.focused_message_id(focused) is Some,
        accepts_all(chat.submitted(submit, focused, current_file), events),
    ensures
        offers(chat.submitted(submit, focused, current_file), events)
            <= MAX_COMPLETION_CALLS_PER_SUBMISSION,
        submit.0 != SubmitMode::Codebase ==> offers(
            chat.submitted(submit, focused, current_file),
            events,
        ) == 0,
{
    lemma_offers_are_limited(chat.submitted(submit, focused, current_file), events);
}

/// The event is one that can come of doing what the action says.
pub open spec fn can_follow(action: CompletionActionView, event: CompletionEventView) -> bool {
    match action {
        CompletionActionView::Complete(_) => is_of_stream(event),
        CompletionActionView::Listen => is_of_stream(event),
        CompletionActionView::Render(_) => event is Rendered,
        CompletionActionView::CallTools(_) => event is ToolsReturned,
        CompletionActionView::Repeat => event is Begin,
        CompletionActionView::Finish => event is Settle,
        CompletionActionView::Rest => false,
    }
}

/// The event is a piece of a message, or the end of one.
pub open spec fn is_of_stream(event: CompletionEventView) -> bool {
    match event {
        CompletionEventView::Delta(delta) => indices_fit(delta.tool_calls),
        CompletionEventView::StreamComplete => true,
        CompletionEventView::StreamFailed(_) => true,
        _ => false,
    }
}

/// A request that was just submitted can begin, as long as there are ids. Nothing else can happen
/// to it.
pub proof fn law_submitted_request_can_begin(
    chat: AssistantChatView,
    submit: Submit,
    focused: Option<FocusHandle>,
    current_file: Option<FileContextView>,
)
    requires
        chat.focused_message_id(focused) is Some,
        chat.next_message_id.0 < usize::MAX,
    ensures
        chat.submitted(submit, focused, current_file).accepts_from(
            chat.next_request_id,
            CompletionEventView::Begin,
        ),
        forall|id: RequestId, event: CompletionEventView| #[trigger]
            chat.submitted(submit, focused, current_file).accepts_from(id, event) ==> id
                == chat.next_request_id && event is Begin,
{
}

/// Whoever does what a request wants done never meets an event that the request cannot take, as
/// long as there are ids and rounds left to count: the message that the model is writing is always
/// the last one, and the submitted message is always found.
pub proof fn law_request_takes_what_follows(
    chat: AssistantChatView,
    event: CompletionEventView,
    focused: Option<FocusHandle>,
    next: CompletionEventView,
)
    requires
        chat.well_formed(),
        chat.request_in_place(),
        chat.accepts(event),
        can_follow(chat.step(event, focused).action, next),
        chat.step(event, focused).chat.next_message_id.0 < usize::MAX,
        chat.step(event, focused).chat.request().call_count < usize::MAX,
    ensures
        chat.step(event, focused).chat.accepts(next),
{
    lemma_step_keeps_invariant(chat, event, focused);
}

/// A message that broke off shows why, runs no tools, and is the last of its request: only the
/// user can go on.
pub proof fn law_failed_message_ends_the_request(chat: AssistantChatView, error: Seq<char>)
    requires
        chat.request_in_place(),
        chat.accepts(CompletionEventView::StreamFailed(error)),
    ensures
        ({
            let step = chat.failed_step(error);
            &&& step.action == CompletionActionView::Finish
            &&& step.chat.last_assistant().error == Some(error)
            &&& step.chat.last_assistant().body == chat.last_assistant().body
            &&& step.chat.last_assistant().tool_calls == chat.last_assistant().tool_calls
            &&& forall|event: CompletionEventView| #[trigger]
                step.chat.accepts(event) ==> event == CompletionEventView::Settle
        }),
{
}

/// Another round is asked for exactly when tools have returned, and tools are run exactly when a
/// complete message asks for some.
pub proof fn law_rounds_follow_tool_calls(
    chat: AssistantChatView,
    event: CompletionEventView,
    focused: Option<FocusHandle>,
)
    requires
        chat.request_in_place(),
        chat.accepts(event),
    ensures
        ({
            let step = chat.step(event, focused);
            &&& (step.chat.request().phase == Phase::Ready) == (event is ToolsReturned)
            &&& (step.action is CallTools) == (event == CompletionEventView::StreamComplete
                && chat.last_assistant().tool_calls.len() > 0)
            &&& step.action matches CompletionActionView::CallTools(calls) ==> calls
                == chat.last_assistant().tool_calls
        }),
{
}

/// When a request is over the user gets a blank message at the end of the chat. It takes the focus
/// exactly where the submitted message still has it.
pub proof fn law_settled_request_gives_the_word(
    chat: AssistantChatView,
    focused: Option<FocusHandle>,
)
    requires
        chat.accepts(CompletionEventView::Settle),
    ensures
        ({
            let step = chat.settle_step(focused);
            &&& step.chat.messages == chat.messages.push(
                ChatMessageView::User(UserMessageView::blank(chat.next_message_id)),
            )
            &&& step.effects.contains(Effect::Focus(FocusHandle(chat.next_message_id))) == (focused
                == Some(FocusHandle(chat.request().message_id)))
        }),
{
    let effects = chat.settle_step(focused).effects;
    if focused == Some(FocusHandle(chat.request().message_id)) {
        assert(effects[1] == Effect::Focus(FocusHandle(chat.next_message_id)));
    }
}

} // verus!
