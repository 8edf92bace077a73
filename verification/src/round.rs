//! The rounds of a request.
//!
//! In each round the model is asked to continue the conversation, its message is put together from
//! the pieces in which it comes, and the tools that it asks for are run. A round without tool
//! calls is the last one.

use vstd::prelude::*;

use crate::chat::{AssistantChat, AssistantChatView};
use crate::context::{Effect, FocusHandle, RequestId, ViewContext};
use crate::conversation::conversation;
use crate::delta::{
    fit_indices, indices_fit, merge_tool_calls, merged_all, text_or_empty, CompletionDelta,
    CompletionDeltaView,
};
use crate::laws::rounds::law_all_results_are_kept;
use crate::message::{
    AssistantMessageView, ChatMessage, ChatMessageView, RichText, ToolFunctionCall,
    ToolFunctionCallView,
};
use crate::request::{
    returned_call, CompletionAction, CompletionActionView, CompletionCall, CompletionCallView,
    CompletionEvent, CompletionEventView, CompletionRequestView, Phase, TEMPERATURE_BITS,
};
use crate::validity::{lemma_step_keeps_invariant, lemma_step_keeps_well_formed};

verus! {

/// What an event leads to: the chat after it, what is to be done next, and what is asked of the
/// window.
#[verifier::ext_equal]
pub struct CompletionStep {
    pub chat: AssistantChatView,
    pub action: CompletionActionView,
    pub effects: Seq<Effect>,
}

/// The calls whose tools have returned, in order.
pub open spec fn returned(results: Seq<Option<ToolFunctionCallView>>) -> Seq<ToolFunctionCallView> {
    results.flat_map(returned_one())
}

/// The call as a sequence of at most one.
pub open spec fn returned_one() -> spec_fn(Option<ToolFunctionCallView>) -> Seq<
    ToolFunctionCallView,
> {
    |result: Option<ToolFunctionCallView>|
        match result {
            Some(call) => seq![call],
            None => Seq::empty(),
        }
}

impl AssistantChatView {
    /// The request that is under way.
    pub open spec fn request(self) -> CompletionRequestView {
        self.pending_completion->0
    }

    pub open spec fn with_request(self, request: CompletionRequestView) -> Self {
        AssistantChatView { pending_completion: Some(request), ..self }
    }

    /// The chat with the request in another phase.
    pub open spec fn in_phase(self, phase: Phase) -> Self {
        self.with_request(CompletionRequestView { phase, ..self.request() })
    }

    pub open spec fn last_is_assistant(self) -> bool {
        self.messages.len() > 0 && self.messages.last() is Assistant
    }

    /// The assistant message at the end of the chat.
    pub open spec fn last_assistant(self) -> AssistantMessageView {
        self.messages.last()->Assistant_0
    }

    /// The chat with another assistant message in place of its last message.
    pub open spec fn with_last(self, message: AssistantMessageView) -> Self {
        AssistantChatView {
            messages: self.messages.update(
                self.messages.len() - 1,
                ChatMessageView::Assistant(message),
            ),
            ..self
        }
    }

    /// A round begins: the model is to write the message that is appended for it.
    pub open spec fn begin_step(self) -> CompletionStep {
        let request = self.request();
        let asked = self.with_assistant_message();
        CompletionStep {
            chat: asked.with_request(
                CompletionRequestView {
                    call_count: (request.call_count + 1) as usize,
                    body: Seq::empty(),
                    phase: Phase::Streaming,
                    ..request
                },
            ),
            action: CompletionActionView::Complete(
                CompletionCallView {
                    model: self.model,
                    messages: conversation(asked.messages),
                    stop: Seq::empty(),
                    temperature_bits: TEMPERATURE_BITS,
                    offer_tools: request.offers_tools(),
                },
            ),
            effects: self.assistant_message_effects(),
        }
    }

    /// A piece of the message has come: it is added, and the whole text is to be rendered.
    pub open spec fn delta_step(self, delta: CompletionDeltaView) -> CompletionStep {
        let message = self.last_assistant();
        let body = self.request().body + text_or_empty(delta.content);
        CompletionStep {
            chat: self.with_last(
                AssistantMessageView {
                    tool_calls: merged_all(message.tool_calls, delta.tool_calls),
                    ..message
                },
            ).with_request(
                CompletionRequestView { body, phase: Phase::Rendering, ..self.request() },
            ),
            action: CompletionActionView::Render(body),
            effects: Seq::empty(),
        }
    }

    /// The text has been rendered: it is shown.
    pub open spec fn rendered_step(self, text: Seq<char>) -> CompletionStep {
        CompletionStep {
            chat: self.with_last(
                AssistantMessageView { body: text, ..self.last_assistant() },
            ).in_phase(Phase::Streaming),
            action: CompletionActionView::Listen,
            effects: seq![Effect::Notify],
        }
    }

    /// The message is complete: its tool calls are run, and without any the request is over.
    pub open spec fn complete_step(self) -> CompletionStep {
        if self.last_is_assistant() && self.last_assistant().tool_calls.len() > 0 {
            CompletionStep {
                chat: self.in_phase(Phase::CallingTools),
                action: CompletionActionView::CallTools(self.last_assistant().tool_calls),
                effects: Seq::empty(),
            }
        } else {
            CompletionStep {
                chat: self.in_phase(Phase::Finished),
                action: CompletionActionView::Finish,
                effects: Seq::empty(),
            }
        }
    }

    /// The message broke off: the error is shown, no tool is run, and the request is over.
    pub open spec fn failed_step(self, error: Seq<char>) -> CompletionStep {
        if self.last_is_assistant() {
            CompletionStep {
                chat: self.with_last(
                    AssistantMessageView { error: Some(error), ..self.last_assistant() },
                ).in_phase(Phase::Finished),
                action: CompletionActionView::Finish,
                effects: seq![Effect::Notify],
            }
        } else {
            CompletionStep {
                chat: self.in_phase(Phase::Finished),
                action: CompletionActionView::Finish,
                effects: Seq::empty(),
            }
        }
    }

    /// The tools have returned: their results are kept, and another round is needed.
    pub open spec fn tools_step(
        self,
        results: Seq<Option<ToolFunctionCallView>>,
    ) -> CompletionStep {
        if self.last_is_assistant() {
            CompletionStep {
                chat: self.with_last(
                    AssistantMessageView {
                        tool_calls: returned(results),
                        ..self.last_assistant()
                    },
                ).in_phase(Phase::Ready),
                action: CompletionActionView::Repeat,
                effects: seq![Effect::Notify],
            }
        } else {
            CompletionStep {
                chat: self.in_phase(Phase::Ready),
                action: CompletionActionView::Repeat,
                effects: Seq::empty(),
            }
        }
    }

    /// The request is over: the user gets a new message, which takes the focus if the submitted
    /// message still has it.
    pub open spec fn settle_step(self, focused: Option<FocusHandle>) -> CompletionStep {
        CompletionStep {
            chat: self.with_user_message().in_phase(Phase::Settled),
            action: CompletionActionView::Rest,
            effects: self.user_message_effects(
                focused == Some(FocusHandle(self.request().message_id)),
            ),
        }
    }

    /// What an event leads to while `focused` holds the focus.
    pub open spec fn step(
        self,
        event: CompletionEventView,
        focused: Option<FocusHandle>,
    ) -> CompletionStep {
        match event {
            CompletionEventView::Begin => self.begin_step(),
            CompletionEventView::Delta(delta) => self.delta_step(delta),
            CompletionEventView::Rendered(text) => self.rendered_step(text),
            CompletionEventView::StreamComplete => self.complete_step(),
            CompletionEventView::StreamFailed(error) => self.failed_step(error),
            CompletionEventView::ToolsReturned(results) => self.tools_step(results),
            CompletionEventView::Settle => self.settle_step(focused),
        }
    }

    /// The event comes of the request that is under way, and can happen now.
    pub open spec fn accepts_from(self, id: RequestId, event: CompletionEventView) -> bool {
        self.accepts(event) && self.request().id == id
    }

    /// The event can happen now, and neither an id nor a counter runs out over it.
    pub open spec fn accepts(self, event: CompletionEventView) -> bool {
        &&& self.pending_completion is Some
        &&& match event {
            CompletionEventView::Begin => {
                &&& self.request().phase == Phase::Ready
                &&& self.request().call_count < usize::MAX
                &&& self.next_message_id.0 < usize::MAX
            },
            CompletionEventView::Delta(delta) => {
                &&& self.request().phase == Phase::Streaming
                &&& self.last_is_assistant()
                &&& indices_fit(delta.tool_calls)
            },
            CompletionEventView::Rendered(_) => {
                &&& self.request().phase == Phase::Rendering
                &&& self.last_is_assistant()
            },
            CompletionEventView::StreamComplete => self.request().phase == Phase::Streaming,
            CompletionEventView::StreamFailed(_) => self.request().phase == Phase::Streaming,
            CompletionEventView::ToolsReturned(_) => self.request().phase == Phase::CallingTools,
            CompletionEventView::Settle => {
                &&& self.request().phase == Phase::Finished
                &&& self.user_position(self.request().message_id) is Some
                &&& self.next_message_id.0 < usize::MAX
            },
        }
    }
}

/// Copies tool calls.
fn clone_calls(calls: &Vec<ToolFunctionCall>) -> (res: Vec<ToolFunctionCall>)
    ensures
        res.deep_view() == calls.deep_view(),
{
    let mut res: Vec<ToolFunctionCall> = Vec::new();
    for i in 0..calls.len()
        invariant
            res@ =~= calls@.take(i as int),
    {
        res.push(calls[i].clone());
    }
    assert(res.deep_view() =~= calls.deep_view());
    res
}

/// Keeps the calls whose tools have returned. A tool that the window left behind is not kept.
pub fn keep_returned(results: Vec<Result<ToolFunctionCall, String>>) -> (calls: Vec<
    ToolFunctionCall,
>)
    ensures
        calls.deep_view() == returned(
            Seq::new(results@.len(), |i: int| returned_call(results@[i])),
        ),
        (forall|i: int| 0 <= i < results@.len() ==> #[trigger] results@[i] is Ok) ==> {
            &&& calls@.len() == results@.len()
            &&& forall|i: int|
                0 <= i < results@.len() ==> #[trigger] calls.deep_view()[i]
                    == results@[i]->Ok_0.deep_view()
        },
{
    let ghost all = results@;
    let ghost views = Seq::new(all.len(), |i: int| returned_call(all[i]));
    let mut calls: Vec<ToolFunctionCall> = Vec::new();
    assert(views.take(0).flat_map(returned_one()) =~= Seq::empty());
    assert(calls.deep_view() =~= Seq::empty());
    for result in it: results
        invariant
            it.seq() == all,
            views == Seq::new(all.len(), |i: int| returned_call(all[i])),
            calls.deep_view() == views.take(it.index() as int).flat_map(returned_one()),
    {
        proof {
            views.lemma_flat_map_take_append(returned_one(), it.index() as int);
        }
        let ghost before = calls.deep_view();
        match result {
            Ok(call) => {
                let ghost added = call.deep_view();
                calls.push(call);
                assert(calls.deep_view() =~= before + seq![added]);
            },
            Err(_) => {
                assert(before =~= before + Seq::empty());
            },
        }
    }
    assert(views.take(all.len() as int) =~= views);
    proof {
        if forall|i: int| 0 <= i < all.len() ==> #[trigger] all[i] is Ok {
            assert forall|i: int| 0 <= i < views.len() implies #[trigger] views[i] is Some by {
                assert(all[i] is Ok);
            }
            law_all_results_are_kept(views);
        }
    }
    calls
}

impl AssistantChat {
    /// Tells whether the last message is one of the model.
    pub fn last_is_assistant(&self) -> (res: bool)
        ensures
            res == self.deep_view().last_is_assistant(),
    {
        let len: usize = self.messages.len();
        if len == 0 {
            false
        } else {
            assert(self.messages.deep_view()[len - 1] == self.messages[len - 1].deep_view());
            matches!(self.messages[len - 1], ChatMessage::Assistant(_))
        }
    }

    /// Moves the request on to another phase.
    fn enter(&mut self, phase: Phase)
        requires
            old(self).pending_completion is Some,
        ensures
            final(self).deep_view() == old(self).deep_view().in_phase(phase),
    {
        if let Some(request) = &mut self.pending_completion {
            request.phase = phase;
        }
    }

    fn begin(&mut self, cx: &mut ViewContext) -> (action: CompletionAction)
        requires
            old(self).deep_view().accepts(CompletionEventView::Begin),
        ensures
            final(self).deep_view() == old(self).deep_view().begin_step().chat,
            action.deep_view() == old(self).deep_view().begin_step().action,
            final(cx).adds(*old(cx), old(self).deep_view().begin_step().effects),
    {
        self.push_new_assistant_message(cx);
        let mut offer_tools = false;
        if let Some(request) = &mut self.pending_completion {
            offer_tools = request.offers_tools();
            request.call_count = request.call_count + 1;
            request.body = String::new();
            request.phase = Phase::Streaming;
        }
        let messages = self.completion_messages();
        let stop: Vec<String> = Vec::new();
        assert(stop.deep_view() =~= Seq::empty());
        CompletionAction::Complete(
            CompletionCall {
                model: self.model.clone(),
                messages,
                stop,
                temperature_bits: TEMPERATURE_BITS,
                offer_tools,
            },
        )
    }

    fn receive(&mut self, delta: &CompletionDelta) -> (action: CompletionAction)
        requires
            old(self).deep_view().accepts(CompletionEventView::Delta(delta.deep_view())),
        ensures
            final(self).deep_view() == old(self).deep_view().delta_step(delta.deep_view()).chat,
            action.deep_view() == old(self).deep_view().delta_step(delta.deep_view()).action,
    {
        let ghost all = self.messages.deep_view();
        let last: usize = self.messages.len() - 1;
        assert(all[last as int] == self.messages[last as int].deep_view());
        if let ChatMessage::Assistant(message) = &mut self.messages[last] {
            merge_tool_calls(&mut message.tool_calls, &delta.tool_calls);
        }
        let mut text = String::new();
        if let Some(request) = &mut self.pending_completion {
            if let Some(content) = &delta.content {
                request.body.append(content.as_str());
            }
            request.phase = Phase::Rendering;
            text = request.body.clone();
        }
        let ghost step = old(self).deep_view().delta_step(delta.deep_view());
        assert(self.messages.deep_view() =~= step.chat.messages);
        assert(self.pending_completion.deep_view()->0.body =~= step.chat.request().body);
        CompletionAction::Render(text)
    }

    fn show(&mut self, rich: RichText, cx: &mut ViewContext) -> (action: CompletionAction)
        requires
            old(self).deep_view().accepts(CompletionEventView::Rendered(rich.deep_view())),
        ensures
            final(self).deep_view() == old(self).deep_view().rendered_step(rich.deep_view()).chat,
            action.deep_view() == old(self).deep_view().rendered_step(rich.deep_view()).action,
            final(cx).adds(
                *old(cx),
                old(self).deep_view().rendered_step(rich.deep_view()).effects,
            ),
    {
        let ghost all = self.messages.deep_view();
        let ghost step = self.deep_view().rendered_step(rich.deep_view());
        let last: usize = self.messages.len() - 1;
        assert(all[last as int] == self.messages[last as int].deep_view());
        if let ChatMessage::Assistant(message) = &mut self.messages[last] {
            message.body = rich;
        }
        assert(self.messages.deep_view() =~= step.chat.messages);
        self.enter(Phase::Streaming);
        cx.notify();
        CompletionAction::Listen
    }

    fn complete(&mut self) -> (action: CompletionAction)
        requires
            old(self).deep_view().accepts(CompletionEventView::StreamComplete),
        ensures
            final(self).deep_view() == old(self).deep_view().complete_step().chat,
            action.deep_view() == old(self).deep_view().complete_step().action,
    {
        let mut calls: Vec<ToolFunctionCall> = Vec::new();
        let len: usize = self.messages.len();
        if len > 0 {
            assert(self.messages.deep_view()[len - 1] == self.messages[len - 1].deep_view());
            if let ChatMessage::Assistant(message) = &self.messages[len - 1] {
                calls = clone_calls(&message.tool_calls);
            }
        }
        if calls.is_empty() {
            self.enter(Phase::Finished);
            CompletionAction::Finish
        } else {
            self.enter(Phase::CallingTools);
            CompletionAction::CallTools(calls)
        }
    }

    fn fail(&mut self, error: String, cx: &mut ViewContext) -> (action: CompletionAction)
        requires
            old(self).deep_view().accepts(CompletionEventView::StreamFailed(error@)),
        ensures
            final(self).deep_view() == old(self).deep_view().failed_step(error@).chat,
            action.deep_view() == old(self).deep_view().failed_step(error@).action,
            final(cx).adds(*old(cx), old(self).deep_view().failed_step(error@).effects),
    {
        let ghost all = self.messages.deep_view();
        let ghost step = self.deep_view().failed_step(error@);
        if self.last_is_assistant() {
            let last: usize = self.messages.len() - 1;
            assert(all[last as int] == self.messages[last as int].deep_view());
            if let ChatMessage::Assistant(message) = &mut self.messages[last] {
                message.error = Some(error);
            }
            assert(self.messages.deep_view() =~= step.chat.messages);
            cx.notify();
        }
        self.enter(Phase::Finished);
        assert(cx.effects@ =~= old(cx).effects@ + step.effects);
        CompletionAction::Finish
    }

    fn keep_results(
        &mut self,
        results: Vec<Result<ToolFunctionCall, String>>,
        cx: &mut ViewContext,
    ) -> (action: CompletionAction)
        requires
            old(self).deep_view().accepts(
                CompletionEvent::ToolsReturned(results).deep_view(),
            ),
        ensures
            ({
                let step = old(self).deep_view().step(
                    CompletionEvent::ToolsReturned(results).deep_view(),
                    old(cx).focused,
                );
                &&& final(self).deep_view() == step.chat
                &&& action.deep_view() == step.action
                &&& final(cx).adds(*old(cx), step.effects)
            }),
    {
        let ghost all = self.messages.deep_view();
        let ghost step = self.deep_view().step(
            CompletionEvent::ToolsReturned(results).deep_view(),
            cx.focused,
        );
        let calls = keep_returned(results);
        if self.last_is_assistant() {
            let last: usize = self.messages.len() - 1;
            assert(all[last as int] == self.messages[last as int].deep_view());
            if let ChatMessage::Assistant(message) = &mut self.messages[last] {
                message.tool_calls = calls;
            }
            assert(self.messages.deep_view() =~= step.chat.messages);
            cx.notify();
        }
        self.enter(Phase::Ready);
        assert(cx.effects@ =~= old(cx).effects@ + step.effects);
        CompletionAction::Repeat
    }

    fn settle(&mut self, cx: &mut ViewContext) -> (action: CompletionAction)
        requires
            old(self).deep_view().accepts(CompletionEventView::Settle),
        ensures
            final(self).deep_view() == old(self).deep_view().settle_step(old(cx).focused).chat,
            action.deep_view() == old(self).deep_view().settle_step(old(cx).focused).action,
            final(cx).adds(
                *old(cx),
                old(self).deep_view().settle_step(old(cx).focused).effects,
            ),
    {
        let mut focus = false;
        if let Some(request) = &self.pending_completion {
            focus = match cx.focused {
                Some(handle) => handle == FocusHandle(request.message_id),
                None => false,
            };
        }
        self.push_new_user_message(focus, cx);
        self.enter(Phase::Settled);
        CompletionAction::Rest
    }

    /// Tells whether the request with this id is still under way: none has taken its place.
    pub fn is_pending(&self, id: RequestId) -> (res: bool)
        ensures
            res == (self.pending_completion is Some && self.deep_view().request().id == id),
    {
        match &self.pending_completion {
            Some(request) => request.id == id,
            None => false,
        }
    }

    /// Tells whether the event of the request with this id can happen now.
    pub fn can_take(&self, id: RequestId, event: &CompletionEvent) -> (res: bool)
        ensures
            res == self.deep_view().accepts_from(id, event.deep_view()),
    {
        match &self.pending_completion {
            Some(request) => request.id == id && match event {
                CompletionEvent::Begin => request.phase == Phase::Ready && request.call_count
                    < usize::MAX && self.next_message_id.0 < usize::MAX,
                CompletionEvent::Delta(delta) => request.phase == Phase::Streaming
                    && self.last_is_assistant() && fit_indices(&delta.tool_calls),
                CompletionEvent::Rendered(_) => request.phase == Phase::Rendering
                    && self.last_is_assistant(),
                CompletionEvent::StreamEnded(_) => request.phase == Phase::Streaming,
                CompletionEvent::ToolsReturned(_) => request.phase == Phase::CallingTools,
                CompletionEvent::Settle => request.phase == Phase::Finished
                    && self.has_user_message(request.message_id) && self.next_message_id.0
                    < usize::MAX,
            },
            None => false,
        }
    }

    /// Moves the request with this id on over an event, and tells what is to be done next.
    pub fn request_completion(
        &mut self,
        id: RequestId,
        event: CompletionEvent,
        cx: &mut ViewContext,
    ) -> (action: CompletionAction)
        requires
            old(self).deep_view().accepts_from(id, event.deep_view()),
        ensures
            ({
                let step = old(self).deep_view().step(event.deep_view(), old(cx).focused);
                &&& final(self).deep_view() == step.chat
                &&& action.deep_view() == step.action
                &&& final(cx).adds(*old(cx), step.effects)
            }),
            old(self).deep_view().well_formed() ==> final(self).deep_view().well_formed(),
            old(self).deep_view().well_formed() && old(self).deep_view().request_in_place()
                ==> final(self).deep_view().request_in_place(),
    {
        proof {
            if old(self).deep_view().well_formed() {
                lemma_step_keeps_well_formed(old(self).deep_view(), event.deep_view(), cx.focused);
            }
            if old(self).deep_view().well_formed() && old(self).deep_view().request_in_place() {
                lemma_step_keeps_invariant(old(self).deep_view(), event.deep_view(), cx.focused);
            }
        }
        assert(cx.effects@ =~= old(cx).effects@ + Seq::empty());
        match event {
            CompletionEvent::Begin => self.begin(cx),
            CompletionEvent::Delta(delta) => self.receive(&delta),
            CompletionEvent::Rendered(rich) => self.show(rich, cx),
            CompletionEvent::StreamEnded(Ok(_)) => self.complete(),
            CompletionEvent::StreamEnded(Err(error)) => self.fail(error, cx),
            CompletionEvent::ToolsReturned(results) => self.keep_results(results, cx),
            CompletionEvent::Settle => self.settle(cx),
        }
    }
}

} // verus!
