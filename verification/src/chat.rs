//! A chat: its messages, the model that answers them, and the request that is under way.

use vstd::prelude::*;

use crate::completion::CompletionMessage;
use crate::context::{
    Effect, FileContext, FileContextView, FocusHandle, ListAlignment, MessageId, Pixels, RequestId,
    SoftWrap, ViewContext,
};
use crate::conversation::{self, conversation};
use crate::message::{
    AssistantMessage, AssistantMessageView, ChatMessage, ChatMessageView, Editor, RichText,
    UserMessage, UserMessageView, EDITOR_MAX_LINES,
};
use crate::request::{
    file_to_send, CompletionRequest, CompletionRequestView, Submit, SubmitMode,
    MAX_COMPLETION_CALLS_PER_SUBMISSION,
};
use crate::search::{first_index, lemma_first_index, lemma_first_index_at};
use crate::validity::{
    lemma_push_keeps_well_formed, lemma_submit_keeps_invariant, lemma_truncate_keeps_well_formed,
    lemma_with_file,
};

verus! {

/// How far beyond its visible part the list of messages is drawn, as the bits of a
/// single-precision value: 1024 pixels.
pub const OVERDRAW_BITS: u32 = 0x4480_0000;

/// A chat between the user and the model.
#[derive(PartialEq, Eq, Debug)]
pub struct AssistantChat {
    /// The model that answers.
    pub model: String,
    pub messages: Vec<ChatMessage>,
    pub next_message_id: MessageId,
    pub next_request_id: RequestId,
    /// The request that was submitted last.
    pub pending_completion: Option<CompletionRequest>,
}

#[verifier::ext_equal]
pub struct AssistantChatView {
    pub model: Seq<char>,
    pub messages: Seq<ChatMessageView>,
    pub next_message_id: MessageId,
    pub next_request_id: RequestId,
    pub pending_completion: Option<CompletionRequestView>,
}

impl DeepView for AssistantChat {
    type V = AssistantChatView;

    open spec fn deep_view(&self) -> AssistantChatView {
        AssistantChatView {
            model: self.model@,
            messages: self.messages.deep_view(),
            next_message_id: self.next_message_id,
            next_request_id: self.next_request_id,
            pending_completion: self.pending_completion.deep_view(),
        }
    }
}

/// The message is a user message with this id.
pub open spec fn is_user_message(message: ChatMessageView, id: MessageId) -> bool {
    message is User && message.id() == id
}

/// The id after this one.
pub open spec fn next_id(id: MessageId) -> MessageId {
    MessageId((id.0 + 1) as usize)
}

impl AssistantChatView {
    /// A chat without messages.
    pub open spec fn empty(model: Seq<char>) -> Self {
        AssistantChatView {
            model,
            messages: Seq::empty(),
            next_message_id: MessageId(0),
            next_request_id: RequestId(0),
            pending_completion: None,
        }
    }

    /// The first message with this id.
    pub open spec fn position(self, id: MessageId) -> Option<int> {
        first_index(self.messages, |message: ChatMessageView| message.id() == id)
    }

    /// The first user message with this id.
    pub open spec fn user_position(self, id: MessageId) -> Option<int> {
        first_index(self.messages, |message: ChatMessageView| is_user_message(message, id))
    }

    /// The user message whose editor holds the focus.
    pub open spec fn focused_message_id(self, focused: Option<FocusHandle>) -> Option<MessageId> {
        match focused {
            Some(FocusHandle(id)) => if self.user_position(id) is Some {
                Some(id)
            } else {
                None
            },
            None => None,
        }
    }

    /// The chat with one more message at its end.
    pub open spec fn pushed(self, message: ChatMessageView) -> Self {
        AssistantChatView { messages: self.messages.push(message), ..self }
    }

    /// What [`AssistantChat::push_message`] asks of the window.
    pub open spec fn push_effects(self, message: ChatMessageView) -> Seq<Effect> {
        seq![
            Effect::SpliceFocusable {
                start: self.messages.len() as usize,
                end: self.messages.len() as usize,
                focus_handle: message.focus_handle(),
            },
            Effect::Notify,
        ]
    }

    /// The chat with a blank user message at its end.
    pub open spec fn with_user_message(self) -> Self {
        AssistantChatView {
            next_message_id: next_id(self.next_message_id),
            ..self.pushed(ChatMessageView::User(UserMessageView::blank(self.next_message_id)))
        }
    }

    /// What [`AssistantChat::push_new_user_message`] asks of the window.
    pub open spec fn user_message_effects(self, focus: bool) -> Seq<Effect> {
        let handle = FocusHandle(self.next_message_id);
        let open = seq![
            Effect::OpenEditor {
                focus_handle: handle,
                max_lines: EDITOR_MAX_LINES,
                soft_wrap: SoftWrap::EditorWidth,
            },
        ];
        let focusing = if focus {
            seq![Effect::Focus(handle)]
        } else {
            Seq::empty()
        };
        open + focusing + self.push_effects(
            ChatMessageView::User(UserMessageView::blank(self.next_message_id)),
        )
    }

    /// What [`AssistantChat::new`] asks of the window.
    pub open spec fn new_effects(model: Seq<char>) -> Seq<Effect> {
        seq![
            Effect::CreateList {
                alignment: ListAlignment::Bottom,
                overdraw: Pixels { bits: OVERDRAW_BITS },
            },
        ] + AssistantChatView::empty(model).user_message_effects(true)
    }

    /// The chat with a blank assistant message at its end.
    pub open spec fn with_assistant_message(self) -> Self {
        AssistantChatView {
            next_message_id: next_id(self.next_message_id),
            ..self.pushed(
                ChatMessageView::Assistant(AssistantMessageView::blank(self.next_message_id)),
            )
        }
    }

    /// What [`AssistantChat::push_new_assistant_message`] asks of the window.
    pub open spec fn assistant_message_effects(self) -> Seq<Effect> {
        self.push_effects(
            ChatMessageView::Assistant(AssistantMessageView::blank(self.next_message_id)),
        )
    }

    /// The chat without the messages after the first one with this id.
    pub open spec fn truncated(self, last_message_id: MessageId) -> Self {
        match self.position(last_message_id) {
            Some(index) => AssistantChatView { messages: self.messages.take(index + 1), ..self },
            None => self,
        }
    }

    /// What [`AssistantChat::truncate_messages`] asks of the window.
    pub open spec fn truncate_effects(self, last_message_id: MessageId) -> Seq<Effect> {
        match self.position(last_message_id) {
            Some(index) => seq![
                Effect::Splice {
                    start: (index + 1) as usize,
                    end: self.messages.len() as usize,
                    count: 0,
                },
                Effect::Notify,
            ],
            None => Seq::empty(),
        }
    }

    /// The chat where the first user message with this id carries this file, or none.
    pub open spec fn with_file(self, id: MessageId, file: Option<FileContextView>) -> Self {
        match self.user_position(id) {
            Some(index) => AssistantChatView {
                messages: self.messages.update(
                    index,
                    ChatMessageView::User(self.messages[index]->User_0.with_file(file)),
                ),
                ..self
            },
            None => self,
        }
    }

    /// The chat after a message was submitted while `focused` held the focus and the user was
    /// working on `current_file`.
    pub open spec fn submitted(
        self,
        submit: Submit,
        focused: Option<FocusHandle>,
        current_file: Option<FileContextView>,
    ) -> Self {
        match self.focused_message_id(focused) {
            Some(id) => AssistantChatView {
                next_request_id: self.next_request_id.following(),
                pending_completion: Some(
                    CompletionRequestView::fresh(
                        self.next_request_id,
                        id,
                        submit.0,
                        MAX_COMPLETION_CALLS_PER_SUBMISSION,
                    ),
                ),
                ..self.with_file(id, file_to_send(submit.0, current_file)).truncated(id)
            },
            None => self,
        }
    }

    /// What [`AssistantChat::submit`] asks of the window.
    pub open spec fn submit_effects(self, focused: Option<FocusHandle>) -> Seq<Effect> {
        match self.focused_message_id(focused) {
            Some(id) => self.truncate_effects(id),
            None => Seq::empty(),
        }
    }
}

impl AssistantChat {
    /// A chat with one user message, whose editor takes the focus.
    pub fn new(default_model: String, cx: &mut ViewContext) -> (chat: Self)
        ensures
            chat.deep_view() == AssistantChatView::empty(default_model@).with_user_message(),
            final(cx).adds(*old(cx), AssistantChatView::new_effects(default_model@)),
            chat.deep_view().well_formed(),
            chat.deep_view().request_in_place(),
    {
        cx.ask(
            Effect::CreateList {
                alignment: ListAlignment::Bottom,
                overdraw: Pixels { bits: OVERDRAW_BITS },
            },
        );
        let mut chat = AssistantChat {
            model: default_model,
            messages: Vec::new(),
            next_message_id: MessageId(0),
            next_request_id: RequestId(0),
            pending_completion: None,
        };
        assert(chat.deep_view() =~= AssistantChatView::empty(default_model@));
        chat.push_new_user_message(true, cx);
        assert(cx.effects@ =~= old(cx).effects@ + AssistantChatView::new_effects(default_model@));
        chat
    }

    /// The user message whose editor holds the focus.
    pub fn focused_message_id(&self, cx: &ViewContext) -> (id: Option<MessageId>)
        ensures
            id == self.deep_view().focused_message_id(cx.focused),
    {
        let ghost all = self.messages.deep_view();
        for index in 0..self.messages.len()
            invariant
                all == self.messages.deep_view(),
                forall|j: int|
                    0 <= j < index ==> (#[trigger] all[j]).focus_handle() is None
                        || all[j].focus_handle() != cx.focused,
        {
            assert(all[index as int] == self.messages[index as int].deep_view());
            if let ChatMessage::User(message) = &self.messages[index] {
                if let Some(handle) = cx.focused {
                    if handle == FocusHandle(message.id) {
                        proof {
                            lemma_first_index(
                                all,
                                |message: ChatMessageView| is_user_message(message, handle.0),
                            );
                        }
                        return Some(message.id);
                    }
                }
            }
        }
        proof {
            if let Some(handle) = cx.focused {
                lemma_first_index(
                    all,
                    |message: ChatMessageView| is_user_message(message, handle.0),
                );
            }
        }
        None
    }

    /// Finds the first message with this id.
    fn find_message(&self, message_id: MessageId) -> (found: Option<usize>)
        ensures
            match found {
                Some(index) => index < self.messages.len() && self.deep_view().position(message_id)
                    == Some(index as int),
                None => self.deep_view().position(message_id) is None,
            },
    {
        let ghost all = self.messages.deep_view();
        for index in 0..self.messages.len()
            invariant
                all == self.messages.deep_view(),
                forall|j: int| 0 <= j < index ==> (#[trigger] all[j]).id() != message_id,
        {
            assert(all[index as int] == self.messages[index as int].deep_view());
            if self.messages[index].id() == message_id {
                proof {
                    lemma_first_index_at(
                        all,
                        |message: ChatMessageView| message.id() == message_id,
                        index as int,
                    );
                }
                return Some(index);
            }
        }
        proof {
            lemma_first_index(all, |message: ChatMessageView| message.id() == message_id);
        }
        None
    }

    /// Finds the first user message with this id.
    fn find_user_message(&self, message_id: MessageId) -> (found: Option<usize>)
        ensures
            match found {
                Some(index) => index < self.messages.len() && self.deep_view().user_position(
                    message_id,
                ) == Some(index as int),
                None => self.deep_view().user_position(message_id) is None,
            },
    {
        let ghost all = self.messages.deep_view();
        for index in 0..self.messages.len()
            invariant
                all == self.messages.deep_view(),
                forall|j: int| 0 <= j < index ==> !is_user_message(#[trigger] all[j], message_id),
        {
            assert(all[index as int] == self.messages[index as int].deep_view());
            if let ChatMessage::User(message) = &self.messages[index] {
                if message.id == message_id {
                    proof {
                        lemma_first_index_at(
                            all,
                            |message: ChatMessageView| is_user_message(message, message_id),
                            index as int,
                        );
                    }
                    return Some(index);
                }
            }
        }
        proof {
            lemma_first_index(
                all,
                |message: ChatMessageView| is_user_message(message, message_id),
            );
        }
        None
    }

    /// Tells whether there is a user message with this id.
    pub fn has_user_message(&self, message_id: MessageId) -> (res: bool)
        ensures
            res == self.deep_view().user_position(message_id) is Some,
    {
        self.find_user_message(message_id).is_some()
    }

    /// The user message with this id, to be changed.
    pub fn user_message(&mut self, message_id: MessageId) -> (message: &mut UserMessage)
        requires
            old(self).deep_view().user_position(message_id) is Some,
        ensures
            ({
                let index = old(self).deep_view().user_position(message_id)->0;
                &&& 0 <= index < old(self).messages@.len()
                &&& old(self).messages@[index] == ChatMessage::User(*message)
                &&& final(self).messages@ == old(self).messages@.update(
                    index,
                    ChatMessage::User(*final(message)),
                )
            }),
            final(self).model == old(self).model,
            final(self).next_message_id == old(self).next_message_id,
            final(self).next_request_id == old(self).next_request_id,
            final(self).pending_completion == old(self).pending_completion,
    {
        let found = self.find_user_message(message_id);
        let index: usize = found.unwrap();
        proof {
            lemma_first_index(
                self.messages.deep_view(),
                |message: ChatMessageView| is_user_message(message, message_id),
            );
            assert(self.messages.deep_view()[index as int]
                == self.messages[index as int].deep_view());
        }
        match &mut self.messages[index] {
            ChatMessage::User(message) => message,
            ChatMessage::Assistant(_) => vstd::pervasive::unreached(),
        }
    }

    /// Appends a message and shows it.
    fn push_message(&mut self, message: ChatMessage, cx: &mut ViewContext)
        ensures
            final(self).deep_view() == old(self).deep_view().pushed(message.deep_view()),
            final(cx).adds(*old(cx), old(self).deep_view().push_effects(message.deep_view())),
    {
        let ghost added = message.deep_view();
        let old_len: usize = self.messages.len();
        let focus_handle = message.focus_handle();
        self.messages.push(message);
        assert(self.messages.deep_view() =~= old(self).messages.deep_view().push(added));
        cx.ask(Effect::SpliceFocusable { start: old_len, end: old_len, focus_handle });
        cx.notify();
        assert(cx.effects@ =~= old(cx).effects@ + old(self).deep_view().push_effects(added));
    }

    /// Appends a blank user message, whose editor takes the focus if `focus` says so.
    pub fn push_new_user_message(&mut self, focus: bool, cx: &mut ViewContext)
        requires
            old(self).next_message_id.0 < usize::MAX,
        ensures
            final(self).deep_view() == old(self).deep_view().with_user_message(),
            final(cx).adds(*old(cx), old(self).deep_view().user_message_effects(focus)),
            old(self).deep_view().well_formed() || old(self).deep_view().is_blank()
                ==> final(self).deep_view().well_formed(),
    {
        proof {
            if old(self).deep_view().well_formed() || old(self).deep_view().is_blank() {
                lemma_push_keeps_well_formed(
                    old(self).deep_view(),
                    ChatMessageView::User(UserMessageView::blank(old(self).next_message_id)),
                );
            }
        }
        let id = self.next_message_id.post_inc();
        let body = Editor {
            max_lines: EDITOR_MAX_LINES,
            soft_wrap: SoftWrap::EditorWidth,
            text: String::new(),
        };
        cx.ask(
            Effect::OpenEditor {
                focus_handle: FocusHandle(id),
                max_lines: EDITOR_MAX_LINES,
                soft_wrap: SoftWrap::EditorWidth,
            },
        );
        if focus {
            cx.ask(Effect::Focus(FocusHandle(id)));
        }
        let message = ChatMessage::User(UserMessage { id, body, contexts: Vec::new() });
        assert(message.deep_view() =~= ChatMessageView::User(UserMessageView::blank(id)));
        self.push_message(message, cx);
        assert(cx.effects@ =~= old(cx).effects@ + old(self).deep_view().user_message_effects(
            focus,
        ));
    }

    /// Appends a blank assistant message.
    pub fn push_new_assistant_message(&mut self, cx: &mut ViewContext)
        requires
            old(self).next_message_id.0 < usize::MAX,
        ensures
            final(self).deep_view() == old(self).deep_view().with_assistant_message(),
            final(cx).adds(*old(cx), old(self).deep_view().assistant_message_effects()),
            old(self).deep_view().well_formed() ==> final(self).deep_view().well_formed(),
    {
        proof {
            if old(self).deep_view().well_formed() {
                lemma_push_keeps_well_formed(
                    old(self).deep_view(),
                    ChatMessageView::Assistant(
                        AssistantMessageView::blank(old(self).next_message_id),
                    ),
                );
            }
        }
        let message = ChatMessage::Assistant(
            AssistantMessage {
                id: self.next_message_id.post_inc(),
                body: RichText::default(),
                tool_calls: Vec::new(),
                error: None,
            },
        );
        assert(message.deep_view() =~= ChatMessageView::Assistant(
            AssistantMessageView::blank(old(self).next_message_id),
        ));
        self.push_message(message, cx);
    }

    /// Removes all messages after the one with this id. Without such a message nothing changes.
    pub fn truncate_messages(&mut self, last_message_id: MessageId, cx: &mut ViewContext)
        ensures
            final(self).deep_view() == old(self).deep_view().truncated(last_message_id),
            final(cx).adds(*old(cx), old(self).deep_view().truncate_effects(last_message_id)),
            old(self).deep_view().well_formed() ==> final(self).deep_view().well_formed(),
    {
        proof {
            if old(self).deep_view().well_formed() {
                lemma_truncate_keeps_well_formed(old(self).deep_view(), last_message_id);
            }
        }
        let ghost all = self.messages.deep_view();
        match self.find_message(last_message_id) {
            Some(index) => {
                cx.ask(Effect::Splice { start: index + 1, end: self.messages.len(), count: 0 });
                self.messages.truncate(index + 1);
                cx.notify();
                assert(self.messages.deep_view() =~= all.take(index + 1));
                assert(cx.effects@ =~= old(cx).effects@ + old(self).deep_view().truncate_effects(
                    last_message_id,
                ));
            },
            None => {
                assert(cx.effects@ =~= old(cx).effects@ + Seq::empty());
            },
        }
    }

    /// Submits the message whose editor holds the focus: what came after it is removed, it carries
    /// the current file if the mode asks for it, and a request to the model takes the place of the
    /// one before. Where no editor holds the focus nothing changes. Returns the new request.
    pub fn submit(&mut self, submit: &Submit, cx: &mut ViewContext) -> (request: Option<RequestId>)
        ensures
            request == match old(self).deep_view().focused_message_id(old(cx).focused) {
                Some(_) => Some(old(self).next_request_id),
                None => None,
            },
            final(self).deep_view() == old(self).deep_view().submitted(
                *submit,
                old(cx).focused,
                old(cx).current_file.deep_view(),
            ),
            final(cx).adds(*old(cx), old(self).deep_view().submit_effects(old(cx).focused)),
            old(self).deep_view().well_formed() ==> final(self).deep_view().well_formed(),
            old(self).deep_view().well_formed() && (request is Some
                || old(self).deep_view().request_in_place())
                ==> final(self).deep_view().request_in_place(),
    {
        proof {
            if old(self).deep_view().well_formed() {
                lemma_submit_keeps_invariant(
                    old(self).deep_view(),
                    *submit,
                    cx.focused,
                    cx.current_file.deep_view(),
                );
            }
        }
        match self.focused_message_id(cx) {
            Some(focused_message_id) => {
                let file: Option<FileContext> = match (submit.0, &cx.current_file) {
                    (SubmitMode::CurrentFile, Some(file)) => Some(file.clone()),
                    _ => None,
                };
                let ghost all = self.messages.deep_view();
                let ghost index = self.deep_view().user_position(focused_message_id)->0;
                let ghost marked = self.deep_view().with_file(
                    focused_message_id,
                    file.deep_view(),
                );
                self.user_message(focused_message_id).set_file(file);
                proof {
                    assert(all[index] == old(self).messages[index].deep_view());
                    assert(self.messages.deep_view() =~= marked.messages);
                    lemma_with_file(old(self).deep_view(), focused_message_id, file.deep_view());
                }
                self.truncate_messages(focused_message_id, cx);
                let request_id = self.next_request_id.post_inc();
                self.pending_completion = Some(
                    CompletionRequest::new(
                        request_id,
                        focused_message_id,
                        submit.0,
                        MAX_COMPLETION_CALLS_PER_SUBMISSION,
                    ),
                );
                Some(request_id)
            },
            None => {
                assert(cx.effects@ =~= old(cx).effects@ + Seq::empty());
                None
            },
        }
    }

    /// The conversation that the model is asked to continue.
    pub fn completion_messages(&self) -> (sent: Vec<CompletionMessage>)
        ensures
            sent.deep_view() == conversation(self.deep_view().messages),
    {
        conversation::completion_messages(&self.messages)
    }

    /// Has another model answer from now on.
    pub fn select_model(&mut self, model: String, cx: &mut ViewContext)
        ensures
            final(self).deep_view() == (AssistantChatView {
                model: model@,
                ..old(self).deep_view()
            }),
            final(cx).adds(*old(cx), seq![Effect::Notify]),
    {
        self.model = model;
        cx.notify();
    }
}

} // verus!
