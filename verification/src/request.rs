//! A request to the model: what it asks for, how far it has come, what can happen to it, and what
//! it wants done.

use vstd::prelude::*;

use crate::completion::{CompletionMessage, CompletionMessageView};
use crate::context::{FileContextView, MessageId, RequestId};
use crate::delta::{CompletionDelta, CompletionDeltaView};
use crate::message::{RichText, ToolFunctionCall, ToolFunctionCallView};

verus! {

/// In how many of its rounds a submission offers tools to the model.
pub const MAX_COMPLETION_CALLS_PER_SUBMISSION: usize = 5;

/// The temperature of every request, as the bits of its single-precision value: one.
pub const TEMPERATURE_BITS: u32 = 0x3f80_0000;

/// There are multiple different ways to submit a model request, represented by this enum.
#[derive(Clone, Copy, PartialEq, Eq, Structural, Debug)]
pub enum SubmitMode {
    /// Only include the conversation.
    Simple,
    /// Send the current file as context.
    CurrentFile,
    /// Offer the model tools, with which it can search the codebase. It is sent what they return.
    Codebase,
}

/// The file that a submission in this mode sends, where `current_file` is the current one.
pub open spec fn file_to_send(
    mode: SubmitMode,
    current_file: Option<FileContextView>,
) -> Option<FileContextView> {
    if mode == SubmitMode::CurrentFile {
        current_file
    } else {
        None
    }
}

/// The action by which the user submits a message.
#[derive(Clone, Copy, PartialEq, Eq, Structural, Debug)]
pub struct Submit(pub SubmitMode);

/// How far a request has come.
#[derive(Clone, Copy, PartialEq, Eq, Structural, Debug)]
pub enum Phase {
    /// A round is about to begin.
    Ready,
    /// The model is sending a message.
    Streaming,
    /// The text that has come so far is being rendered.
    Rendering,
    /// The tools that the model asked for are running.
    CallingTools,
    /// The last round is over.
    Finished,
    /// The user has the word again.
    Settled,
}

/// A request to the model on behalf of a submitted message.
#[derive(PartialEq, Eq, Debug)]
pub struct CompletionRequest {
    pub id: RequestId,
    /// The message that was submitted.
    pub message_id: MessageId,
    pub mode: SubmitMode,
    /// In how many rounds tools are offered.
    pub limit: usize,
    /// How many rounds have begun.
    pub call_count: usize,
    /// The text that the model has sent in this round, before it is rendered.
    pub body: String,
    pub phase: Phase,
}

#[verifier::ext_equal]
pub struct CompletionRequestView {
    pub id: RequestId,
    pub message_id: MessageId,
    pub mode: SubmitMode,
    pub limit: usize,
    pub call_count: usize,
    pub body: Seq<char>,
    pub phase: Phase,
}

impl DeepView for CompletionRequest {
    type V = CompletionRequestView;

    open spec fn deep_view(&self) -> CompletionRequestView {
        CompletionRequestView {
            id: self.id,
            message_id: self.message_id,
            mode: self.mode,
            limit: self.limit,
            call_count: self.call_count,
            body: self.body@,
            phase: self.phase,
        }
    }
}

impl CompletionRequestView {
    /// A request of which no round has begun.
    pub open spec fn fresh(
        id: RequestId,
        message_id: MessageId,
        mode: SubmitMode,
        limit: usize,
    ) -> Self {
        CompletionRequestView {
            id,
            message_id,
            mode,
            limit,
            call_count: 0,
            body: Seq::empty(),
            phase: Phase::Ready,
        }
    }

    /// The round that is about to begin offers tools to the model.
    pub open spec fn offers_tools(self) -> bool {
        self.call_count < self.limit && self.mode == SubmitMode::Codebase
    }
}

impl CompletionRequest {
    /// A request of which no round has begun.
    pub fn new(id: RequestId, message_id: MessageId, mode: SubmitMode, limit: usize) -> (request:
        Self)
        ensures
            request.deep_view() == CompletionRequestView::fresh(id, message_id, mode, limit),
    {
        CompletionRequest {
            id,
            message_id,
            mode,
            limit,
            call_count: 0,
            body: String::new(),
            phase: Phase::Ready,
        }
    }

    /// Whether the round that is about to begin offers tools to the model.
    pub fn offers_tools(&self) -> (res: bool)
        ensures
            res == self.deep_view().offers_tools(),
    {
        self.call_count < self.limit && matches!(self.mode, SubmitMode::Codebase)
    }
}

/// One call of the model.
#[derive(PartialEq, Eq, Debug)]
pub struct CompletionCall {
    pub model: String,
    pub messages: Vec<CompletionMessage>,
    /// The texts at which the model is to stop.
    pub stop: Vec<String>,
    pub temperature_bits: u32,
    /// Whether the model is told of the registered tools.
    pub offer_tools: bool,
}

#[verifier::ext_equal]
pub struct CompletionCallView {
    pub model: Seq<char>,
    pub messages: Seq<CompletionMessageView>,
    pub stop: Seq<Seq<char>>,
    pub temperature_bits: u32,
    pub offer_tools: bool,
}

impl DeepView for CompletionCall {
    type V = CompletionCallView;

    open spec fn deep_view(&self) -> CompletionCallView {
        CompletionCallView {
            model: self.model@,
            messages: self.messages.deep_view(),
            stop: self.stop.deep_view(),
            temperature_bits: self.temperature_bits,
            offer_tools: self.offer_tools,
        }
    }
}

/// Something that happened to a request.
#[derive(PartialEq, Eq, Debug)]
pub enum CompletionEvent {
    /// The next round may begin.
    Begin,
    /// The model has sent a piece of its message.
    Delta(CompletionDelta),
    /// The text that had come so far has been rendered.
    Rendered(RichText),
    /// The message of the model is complete, or broke off, or was refused from the start.
    StreamEnded(Result<(), String>),
    /// The tools have returned, in the order of their calls.
    ToolsReturned(Vec<Result<ToolFunctionCall, String>>),
    /// The request is over.
    Settle,
}

#[verifier::ext_equal]
pub enum CompletionEventView {
    Begin,
    Delta(CompletionDeltaView),
    Rendered(Seq<char>),
    StreamComplete,
    StreamFailed(Seq<char>),
    ToolsReturned(Seq<Option<ToolFunctionCallView>>),
    Settle,
}

/// The call that came back, unless the window went away while the tool ran.
pub open spec fn returned_call(result: Result<ToolFunctionCall, String>) -> Option<
    ToolFunctionCallView,
> {
    match result {
        Ok(call) => Some(call.deep_view()),
        Err(_) => None,
    }
}

impl DeepView for CompletionEvent {
    type V = CompletionEventView;

    open spec fn deep_view(&self) -> CompletionEventView {
        match self {
            CompletionEvent::Begin => CompletionEventView::Begin,
            CompletionEvent::Delta(delta) => CompletionEventView::Delta(delta.deep_view()),
            CompletionEvent::Rendered(rich) => CompletionEventView::Rendered(rich.deep_view()),
            CompletionEvent::StreamEnded(Ok(_)) => CompletionEventView::StreamComplete,
            CompletionEvent::StreamEnded(Err(error)) => CompletionEventView::StreamFailed(error@),
            CompletionEvent::ToolsReturned(results) => CompletionEventView::ToolsReturned(
                Seq::new(results@.len(), |i: int| returned_call(results@[i])),
            ),
            CompletionEvent::Settle => CompletionEventView::Settle,
        }
    }
}

/// What a request wants done next.
#[derive(PartialEq, Eq, Debug)]
pub enum CompletionAction {
    /// Call the model.
    Complete(CompletionCall),
    /// Render this text.
    Render(String),
    /// Wait for the next piece of the message.
    Listen,
    /// Run these tool calls.
    CallTools(Vec<ToolFunctionCall>),
    /// Begin another round.
    Repeat,
    /// Settle: no more rounds are needed.
    Finish,
    /// Nothing.
    Rest,
}

#[verifier::ext_equal]
pub enum CompletionActionView {
    Complete(CompletionCallView),
    Render(Seq<char>),
    Listen,
    CallTools(Seq<ToolFunctionCallView>),
    Repeat,
    Finish,
    Rest,
}

impl DeepView for CompletionAction {
    type V = CompletionActionView;

    open spec fn deep_view(&self) -> CompletionActionView {
        match self {
            CompletionAction::Complete(call) => CompletionActionView::Complete(call.deep_view()),
            CompletionAction::Render(text) => CompletionActionView::Render(text@),
            CompletionAction::Listen => CompletionActionView::Listen,
            CompletionAction::CallTools(calls) => CompletionActionView::CallTools(
                calls.deep_view(),
            ),
            CompletionAction::Repeat => CompletionActionView::Repeat,
            CompletionAction::Finish => CompletionActionView::Finish,
            CompletionAction::Rest => CompletionActionView::Rest,
        }
    }
}

} // verus!
