use assistant2::chat::AssistantChat;
use assistant2::completion::CompletionMessage;
use assistant2::context::{
    Effect, FileContext, FocusHandle, ListAlignment, MessageId, Pixels, RequestId, SoftWrap,
    ViewContext,
};
use assistant2::message::{
    AssistantMessage, ChatMessage, Editor, RichText, ToolFunctionCall, ToolFunctionCallResult,
    UserMessage,
};
use assistant2::request::{Phase, Submit, SubmitMode};

fn user(id: usize, text: &str) -> ChatMessage {
    ChatMessage::User(UserMessage {
        id: MessageId(id),
        body: Editor {
            max_lines: 80,
            soft_wrap: SoftWrap::EditorWidth,
            text: text.to_string(),
        },
        contexts: Vec::new(),
    })
}

fn file(path: &str, text: &str) -> FileContext {
    FileContext { path: path.to_string(), text: text.to_string() }
}

fn assistant(id: usize, text: &str) -> ChatMessage {
    ChatMessage::Assistant(AssistantMessage {
        id: MessageId(id),
        body: RichText { text: text.to_string() },
        tool_calls: Vec::new(),
        error: None,
    })
}

fn chat_of(messages: Vec<ChatMessage>, next: usize) -> AssistantChat {
    AssistantChat {
        model: "gpt-4".to_string(),
        messages,
        next_message_id: MessageId(next),
        next_request_id: RequestId(0),
        pending_completion: None,
    }
}

#[test]
fn post_inc_returns_the_id_before() {
    let mut id = MessageId(6);
    assert_eq!(id.post_inc(), MessageId(6));
    assert_eq!(id, MessageId(7));
}

#[test]
fn new_chat_has_one_focused_user_message() {
    let mut cx = ViewContext::new(None, None);
    let chat = AssistantChat::new("gpt-4".to_string(), &mut cx);
    assert_eq!(chat, chat_of(vec![user(0, "")], 1));
    assert_eq!(
        cx.effects,
        vec![
            Effect::CreateList {
                alignment: ListAlignment::Bottom,
                overdraw: Pixels { bits: 1024f32.to_bits() },
            },
            Effect::OpenEditor {
                focus_handle: FocusHandle(MessageId(0)),
                max_lines: 80,
                soft_wrap: SoftWrap::EditorWidth,
            },
            Effect::Focus(FocusHandle(MessageId(0))),
            Effect::SpliceFocusable {
                start: 0,
                end: 0,
                focus_handle: Some(FocusHandle(MessageId(0))),
            },
            Effect::Notify,
        ]
    );
}

#[test]
fn unfocused_user_message_does_not_take_the_focus() {
    let mut cx = ViewContext::new(None, None);
    let mut chat = chat_of(vec![user(0, "a")], 1);
    chat.push_new_user_message(false, &mut cx);
    assert_eq!(chat, chat_of(vec![user(0, "a"), user(1, "")], 2));
    assert_eq!(
        cx.effects,
        vec![
            Effect::OpenEditor {
                focus_handle: FocusHandle(MessageId(1)),
                max_lines: 80,
                soft_wrap: SoftWrap::EditorWidth,
            },
            Effect::SpliceFocusable {
                start: 1,
                end: 1,
                focus_handle: Some(FocusHandle(MessageId(1))),
            },
            Effect::Notify,
        ]
    );
}

#[test]
fn assistant_message_has_no_focus_handle() {
    let mut cx = ViewContext::new(None, None);
    let mut chat = chat_of(vec![user(0, "a")], 1);
    chat.push_new_assistant_message(&mut cx);
    assert_eq!(chat, chat_of(vec![user(0, "a"), assistant(1, "")], 2));
    assert_eq!(
        cx.effects,
        vec![
            Effect::SpliceFocusable { start: 1, end: 1, focus_handle: None },
            Effect::Notify,
        ]
    );
}

#[test]
fn focused_message_is_the_user_message_with_the_focus() {
    let chat = chat_of(vec![user(0, "a"), assistant(1, "b"), user(2, "c")], 3);
    let focused = |id: usize| ViewContext::new(Some(FocusHandle(MessageId(id))), None);
    assert_eq!(chat.focused_message_id(&focused(2)), Some(MessageId(2)));
    assert_eq!(chat.focused_message_id(&focused(0)), Some(MessageId(0)));
    assert_eq!(chat.focused_message_id(&focused(1)), None);
    assert_eq!(chat.focused_message_id(&focused(9)), None);
    assert_eq!(chat.focused_message_id(&ViewContext::new(None, None)), None);
}

#[test]
fn truncate_keeps_messages_up_to_the_given_one() {
    let mut cx = ViewContext::new(None, None);
    let mut chat = chat_of(vec![user(0, "a"), assistant(1, "b"), user(2, "c")], 3);
    chat.truncate_messages(MessageId(1), &mut cx);
    assert_eq!(chat, chat_of(vec![user(0, "a"), assistant(1, "b")], 3));
    assert_eq!(
        cx.effects,
        vec![Effect::Splice { start: 2, end: 3, count: 0 }, Effect::Notify]
    );
    chat.truncate_messages(MessageId(1), &mut cx);
    assert_eq!(chat, chat_of(vec![user(0, "a"), assistant(1, "b")], 3));
}

#[test]
fn truncate_after_an_unknown_message_changes_nothing() {
    let mut cx = ViewContext::new(None, None);
    let mut chat = chat_of(vec![user(0, "a"), assistant(1, "b")], 2);
    chat.truncate_messages(MessageId(7), &mut cx);
    assert_eq!(chat, chat_of(vec![user(0, "a"), assistant(1, "b")], 2));
    assert!(cx.effects.is_empty());
}

#[test]
fn submit_drops_what_came_after_the_focused_message() {
    let mut cx = ViewContext::new(Some(FocusHandle(MessageId(0))), None);
    let mut chat = chat_of(vec![user(0, "a"), assistant(1, "b"), user(2, "c")], 3);
    assert_eq!(chat.submit(&Submit(SubmitMode::Codebase), &mut cx), Some(RequestId(0)));
    assert_eq!(chat.messages, vec![user(0, "a")]);
    assert_eq!(chat.next_message_id, MessageId(3));
    let request = chat.pending_completion.as_ref().unwrap();
    assert_eq!(request.id, RequestId(0));
    assert_eq!(request.message_id, MessageId(0));
    assert_eq!(request.mode, SubmitMode::Codebase);
    assert_eq!(request.limit, 5);
    assert_eq!(request.call_count, 0);
    assert_eq!(request.phase, Phase::Ready);
    assert_eq!(
        cx.effects,
        vec![Effect::Splice { start: 1, end: 3, count: 0 }, Effect::Notify]
    );
}

#[test]
fn submit_twice_changes_no_message() {
    let mut cx = ViewContext::new(Some(FocusHandle(MessageId(2))), None);
    let mut once = chat_of(vec![user(0, "a"), assistant(1, "b"), user(2, "c")], 3);
    let mut twice = chat_of(vec![user(0, "a"), assistant(1, "b"), user(2, "c")], 3);
    cx.current_file = Some(file("c.rs", "fn c() {}"));
    let submit = Submit(SubmitMode::CurrentFile);
    assert_eq!(once.submit(&submit, &mut cx), Some(RequestId(0)));
    assert_eq!(twice.submit(&submit, &mut cx), Some(RequestId(0)));
    assert_eq!(twice.submit(&submit, &mut cx), Some(RequestId(1)));
    assert_eq!(once.messages, twice.messages);
    assert_eq!(once.next_message_id, twice.next_message_id);
}

#[test]
fn submit_without_focus_changes_nothing() {
    let mut cx = ViewContext::new(None, None);
    let mut chat = chat_of(vec![user(0, "a"), assistant(1, "b")], 2);
    assert_eq!(chat.submit(&Submit(SubmitMode::Simple), &mut cx), None);
    assert_eq!(chat, chat_of(vec![user(0, "a"), assistant(1, "b")], 2));
    assert!(cx.effects.is_empty());
}

#[test]
fn user_message_can_be_edited() {
    let mut chat = chat_of(vec![user(0, "a"), assistant(1, "b"), user(2, "c")], 3);
    assert!(chat.has_user_message(MessageId(2)));
    assert!(!chat.has_user_message(MessageId(1)));
    chat.user_message(MessageId(2)).body.text = "d".to_string();
    assert_eq!(
        chat,
        chat_of(vec![user(0, "a"), assistant(1, "b"), user(2, "d")], 3)
    );
}

#[test]
fn select_model_changes_the_model_alone() {
    let mut cx = ViewContext::new(None, None);
    let mut chat = chat_of(vec![user(0, "a")], 1);
    chat.select_model("gpt-3.5".to_string(), &mut cx);
    assert_eq!(chat.model, "gpt-3.5");
    assert_eq!(chat.messages, vec![user(0, "a")]);
    assert_eq!(cx.effects, vec![Effect::Notify]);
}

#[test]
fn conversation_answers_every_tool_call() {
    let finished = ToolFunctionCall {
        id: "c1".to_string(),
        name: "search".to_string(),
        arguments: "{}".to_string(),
        result: Some(ToolFunctionCallResult { content: "found".to_string(), view: 3 }),
    };
    let running = ToolFunctionCall {
        id: "c2".to_string(),
        name: "open".to_string(),
        arguments: "[]".to_string(),
        result: None,
    };
    let caller = ChatMessage::Assistant(AssistantMessage {
        id: MessageId(1),
        body: RichText::default(),
        tool_calls: vec![finished, running],
        error: None,
    });
    let chat = chat_of(vec![user(0, "hello"), caller, assistant(2, ""), user(3, "")], 4);
    let sent = chat.completion_messages();
    assert_eq!(sent.len(), 5);
    assert_eq!(sent[0], CompletionMessage::User { content: "hello".to_string() });
    match &sent[1] {
        CompletionMessage::Assistant { content, tool_calls } => {
            assert_eq!(content.as_deref(), Some(""));
            assert_eq!(tool_calls.len(), 2);
            assert_eq!(tool_calls[0].id, "c1");
            assert_eq!(tool_calls[1].id, "c2");
        }
        _ => panic!("the second message is not of the model"),
    }
    assert_eq!(
        sent[2],
        CompletionMessage::Tool {
            content: "found".to_string(),
            tool_call_id: "c1".to_string(),
        }
    );
    assert_eq!(
        sent[3],
        CompletionMessage::Tool { content: "".to_string(), tool_call_id: "c2".to_string() }
    );
    assert_eq!(sent[4], CompletionMessage::User { content: "".to_string() });
}

#[test]
fn blank_assistant_message_is_not_sent() {
    let mut cx = ViewContext::new(None, None);
    let mut chat = chat_of(vec![user(0, "a"), assistant(1, "b")], 2);
    let before = chat.completion_messages();
    chat.push_new_assistant_message(&mut cx);
    assert_eq!(chat.completion_messages(), before);
    assert_eq!(
        before[1],
        CompletionMessage::Assistant { content: Some("b".to_string()), tool_calls: Vec::new() }
    );
}
