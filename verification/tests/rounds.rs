use assistant2::chat::AssistantChat;
use assistant2::codebase::{AssistantContext, CodebaseContext};
use assistant2::completion::CompletionMessage;
use assistant2::context::{
    Effect, FileContext, FocusHandle, MessageId, RequestId, SoftWrap, ViewContext,
};
use assistant2::delta::{
    CompletionDelta, FunctionCallDelta, ToolCallDelta, ToolCallDeltaVariant,
};
use assistant2::message::{
    AssistantMessage, ChatMessage, RichText, ToolFunctionCall, ToolFunctionCallResult,
};
use assistant2::request::{
    CompletionAction, CompletionCall, CompletionEvent, Phase, Submit, SubmitMode,
};

fn submitted(mode: SubmitMode) -> (AssistantChat, ViewContext) {
    let mut cx = ViewContext::new(Some(FocusHandle(MessageId(0))), None);
    let mut chat = AssistantChat::new("gpt-4".to_string(), &mut cx);
    chat.user_message(MessageId(0)).body.text = "hi".to_string();
    assert_eq!(chat.submit(&Submit(mode), &mut cx), Some(RequestId(0)));
    cx.effects.clear();
    (chat, cx)
}

fn take(chat: &mut AssistantChat, cx: &mut ViewContext, event: CompletionEvent) -> CompletionAction {
    let id = chat.pending_completion.as_ref().unwrap().id;
    assert!(chat.can_take(id, &event));
    chat.request_completion(id, event, cx)
}

fn piece(index: u32, id: Option<&str>, name: Option<&str>, arguments: Option<&str>) -> ToolCallDelta {
    ToolCallDelta {
        index,
        id: id.map(|text| text.to_string()),
        variant: Some(ToolCallDeltaVariant::Function(FunctionCallDelta {
            name: name.map(|text| text.to_string()),
            arguments: arguments.map(|text| text.to_string()),
        })),
    }
}

fn text(content: &str) -> CompletionDelta {
    CompletionDelta { content: Some(content.to_string()), tool_calls: Vec::new() }
}

fn calls(tool_calls: Vec<ToolCallDelta>) -> CompletionDelta {
    CompletionDelta { content: None, tool_calls }
}

fn last(chat: &AssistantChat) -> &AssistantMessage {
    match chat.messages.last() {
        Some(ChatMessage::Assistant(message)) => message,
        _ => panic!("the last message is not of the model"),
    }
}

fn call(id: &str, name: &str, arguments: &str) -> ToolFunctionCall {
    ToolFunctionCall {
        id: id.to_string(),
        name: name.to_string(),
        arguments: arguments.to_string(),
        result: None,
    }
}

fn offered(action: &CompletionAction) -> bool {
    match action {
        CompletionAction::Complete(call) => call.offer_tools,
        _ => panic!("the model is not called"),
    }
}

#[test]
fn first_round_calls_the_model() {
    let (mut chat, mut cx) = submitted(SubmitMode::Simple);
    let action = take(&mut chat, &mut cx, CompletionEvent::Begin);
    assert_eq!(
        action,
        CompletionAction::Complete(CompletionCall {
            model: "gpt-4".to_string(),
            messages: vec![CompletionMessage::User { content: "hi".to_string() }],
            stop: Vec::new(),
            temperature_bits: 1f32.to_bits(),
            offer_tools: false,
        })
    );
    assert_eq!(
        cx.effects,
        vec![
            Effect::SpliceFocusable { start: 1, end: 1, focus_handle: None },
            Effect::Notify,
        ]
    );
    assert_eq!(chat.messages.len(), 2);
    assert_eq!(chat.pending_completion.as_ref().unwrap().call_count, 1);
}

#[test]
fn text_is_rendered_as_a_whole() {
    let (mut chat, mut cx) = submitted(SubmitMode::Simple);
    take(&mut chat, &mut cx, CompletionEvent::Begin);
    let first = take(&mut chat, &mut cx, CompletionEvent::Delta(text("**Hel")));
    assert_eq!(first, CompletionAction::Render("**Hel".to_string()));
    let shown = RichText { text: "**Hel".to_string() };
    cx.effects.clear();
    let listen = take(&mut chat, &mut cx, CompletionEvent::Rendered(shown));
    assert_eq!(listen, CompletionAction::Listen);
    assert_eq!(cx.effects, vec![Effect::Notify]);
    let second = take(&mut chat, &mut cx, CompletionEvent::Delta(text("lo**")));
    assert_eq!(second, CompletionAction::Render("**Hello**".to_string()));
    let shown = RichText { text: "Hello".to_string() };
    take(&mut chat, &mut cx, CompletionEvent::Rendered(shown));
    assert_eq!(last(&chat).body.text, "Hello");
    let end = take(&mut chat, &mut cx, CompletionEvent::StreamEnded(Ok(())));
    assert_eq!(end, CompletionAction::Finish);
    assert!(last(&chat).error.is_none());
}

#[test]
fn tool_calls_are_assembled_from_pieces() {
    let (mut chat, mut cx) = submitted(SubmitMode::Codebase);
    take(&mut chat, &mut cx, CompletionEvent::Begin);
    let pieces = calls(vec![
        piece(1, Some("b"), Some("open"), None),
        piece(0, Some("a"), Some("sea"), Some("{")),
        ToolCallDelta { index: 0, id: Some("1".to_string()), variant: None },
    ]);
    take(&mut chat, &mut cx, CompletionEvent::Delta(pieces));
    take(&mut chat, &mut cx, CompletionEvent::Rendered(RichText::default()));
    let pieces = calls(vec![piece(0, None, Some("rch"), Some("}")), piece(3, None, None, None)]);
    take(&mut chat, &mut cx, CompletionEvent::Delta(pieces));
    take(&mut chat, &mut cx, CompletionEvent::Rendered(RichText::default()));
    let expected = vec![
        call("a1", "search", "{}"),
        call("b", "open", ""),
        call("", "", ""),
        call("", "", ""),
    ];
    assert_eq!(last(&chat).tool_calls, expected);
    let action = take(&mut chat, &mut cx, CompletionEvent::StreamEnded(Ok(())));
    assert_eq!(action, CompletionAction::CallTools(expected));
    assert_eq!(chat.pending_completion.as_ref().unwrap().phase, Phase::CallingTools);
}

#[test]
fn results_of_lost_tools_are_left_out() {
    let (mut chat, mut cx) = submitted(SubmitMode::Codebase);
    take(&mut chat, &mut cx, CompletionEvent::Begin);
    let pieces = calls(vec![piece(0, Some("a"), None, None), piece(1, Some("b"), None, None)]);
    take(&mut chat, &mut cx, CompletionEvent::Delta(pieces));
    take(&mut chat, &mut cx, CompletionEvent::Rendered(RichText::default()));
    take(&mut chat, &mut cx, CompletionEvent::StreamEnded(Ok(())));
    let mut done = call("b", "", "");
    done.result = Some(ToolFunctionCallResult { content: "ok".to_string(), view: 1 });
    cx.effects.clear();
    let results = vec![Err("window closed".to_string()), Ok(done.clone())];
    let action = take(&mut chat, &mut cx, CompletionEvent::ToolsReturned(results));
    assert_eq!(action, CompletionAction::Repeat);
    assert_eq!(last(&chat).tool_calls, vec![done]);
    assert_eq!(cx.effects, vec![Effect::Notify]);
    match take(&mut chat, &mut cx, CompletionEvent::Begin) {
        CompletionAction::Complete(call) => {
            assert_eq!(call.messages.len(), 3);
            assert_eq!(
                call.messages[2],
                CompletionMessage::Tool {
                    content: "ok".to_string(),
                    tool_call_id: "b".to_string(),
                }
            );
        }
        _ => panic!("the model is not called"),
    }
    assert_eq!(chat.messages.len(), 3);
}

#[test]
fn broken_message_shows_the_error_and_runs_no_tools() {
    let (mut chat, mut cx) = submitted(SubmitMode::Codebase);
    take(&mut chat, &mut cx, CompletionEvent::Begin);
    let pieces = calls(vec![piece(0, Some("a"), Some("search"), None)]);
    take(&mut chat, &mut cx, CompletionEvent::Delta(pieces));
    take(&mut chat, &mut cx, CompletionEvent::Rendered(RichText::default()));
    cx.effects.clear();
    let broken = CompletionEvent::StreamEnded(Err("timeout".to_string()));
    assert_eq!(take(&mut chat, &mut cx, broken), CompletionAction::Finish);
    assert_eq!(last(&chat).error.as_deref(), Some("timeout"));
    assert_eq!(last(&chat).tool_calls.len(), 1);
    assert_eq!(cx.effects, vec![Effect::Notify]);
    assert!(!chat.can_take(RequestId(0), &CompletionEvent::Begin));
    assert!(chat.can_take(RequestId(0), &CompletionEvent::Settle));
}

#[test]
fn tools_are_offered_in_five_rounds_at_most() {
    let (mut chat, mut cx) = submitted(SubmitMode::Codebase);
    let mut offers = Vec::new();
    for _ in 0..7 {
        let action = take(&mut chat, &mut cx, CompletionEvent::Begin);
        offers.push(offered(&action));
        let pieces = calls(vec![piece(0, Some("a"), Some("search"), None)]);
        take(&mut chat, &mut cx, CompletionEvent::Delta(pieces));
        take(&mut chat, &mut cx, CompletionEvent::Rendered(RichText::default()));
        take(&mut chat, &mut cx, CompletionEvent::StreamEnded(Ok(())));
        let results = vec![Ok(call("a", "search", ""))];
        take(&mut chat, &mut cx, CompletionEvent::ToolsReturned(results));
    }
    assert_eq!(offers, vec![true, true, true, true, true, false, false]);
    assert_eq!(chat.messages.len(), 8);
}

#[test]
fn tools_are_offered_for_the_codebase_only() {
    for mode in [SubmitMode::Simple, SubmitMode::CurrentFile] {
        let (mut chat, mut cx) = submitted(mode);
        let action = take(&mut chat, &mut cx, CompletionEvent::Begin);
        assert!(!offered(&action));
    }
}

#[test]
fn settled_request_gives_the_user_a_focused_message() {
    let (mut chat, mut cx) = submitted(SubmitMode::Simple);
    take(&mut chat, &mut cx, CompletionEvent::Begin);
    take(&mut chat, &mut cx, CompletionEvent::StreamEnded(Ok(())));
    cx.effects.clear();
    let action = take(&mut chat, &mut cx, CompletionEvent::Settle);
    assert_eq!(action, CompletionAction::Rest);
    assert_eq!(
        cx.effects,
        vec![
            Effect::OpenEditor {
                focus_handle: FocusHandle(MessageId(2)),
                max_lines: 80,
                soft_wrap: SoftWrap::EditorWidth,
            },
            Effect::Focus(FocusHandle(MessageId(2))),
            Effect::SpliceFocusable {
                start: 2,
                end: 2,
                focus_handle: Some(FocusHandle(MessageId(2))),
            },
            Effect::Notify,
        ]
    );
    assert!(!chat.can_take(RequestId(0), &CompletionEvent::Settle));
}

#[test]
fn settled_request_leaves_the_focus_elsewhere() {
    let (mut chat, mut cx) = submitted(SubmitMode::Simple);
    take(&mut chat, &mut cx, CompletionEvent::Begin);
    take(&mut chat, &mut cx, CompletionEvent::StreamEnded(Ok(())));
    let mut elsewhere = ViewContext::new(None, None);
    take(&mut chat, &mut elsewhere, CompletionEvent::Settle);
    assert_eq!(elsewhere.effects.len(), 3);
    assert!(chat.has_user_message(MessageId(0)));
    assert!(chat.has_user_message(MessageId(2)));
}

#[test]
fn nothing_happens_to_a_chat_without_a_request() {
    let mut cx = ViewContext::new(None, None);
    let chat = AssistantChat::new("gpt-4".to_string(), &mut cx);
    assert!(!chat.can_take(RequestId(0), &CompletionEvent::Begin));
    assert!(!chat.can_take(RequestId(0), &CompletionEvent::Settle));
}

#[test]
fn list_shows_the_messages_throughout() {
    let mut cx = ViewContext::new(Some(FocusHandle(MessageId(0))), None);
    let mut chat = AssistantChat::new("gpt-4".to_string(), &mut cx);
    let mut list: Vec<Option<FocusHandle>> = Vec::new();
    let mut check = |chat: &AssistantChat, cx: &mut ViewContext| {
        for effect in cx.effects.drain(..) {
            match effect {
                Effect::CreateList { .. } => list.clear(),
                Effect::Splice { start, end, count } => {
                    list.splice(start..end, vec![None; count]);
                }
                Effect::SpliceFocusable { start, end, focus_handle } => {
                    list.splice(start..end, vec![focus_handle]);
                }
                Effect::OpenEditor { .. } | Effect::Focus(_) | Effect::Notify => {}
            }
        }
        let handles: Vec<Option<FocusHandle>> =
            chat.messages.iter().map(|message| message.focus_handle()).collect();
        assert_eq!(list, handles);
    };
    check(&chat, &mut cx);
    for _ in 0..2 {
        assert!(chat.submit(&Submit(SubmitMode::Simple), &mut cx).is_some());
        check(&chat, &mut cx);
        for event in [
            CompletionEvent::Begin,
            CompletionEvent::Delta(text("a")),
            CompletionEvent::Rendered(RichText { text: "a".to_string() }),
            CompletionEvent::StreamEnded(Ok(())),
            CompletionEvent::Settle,
        ] {
            take(&mut chat, &mut cx, event);
            check(&chat, &mut cx);
        }
        assert_eq!(chat.messages.len(), 3);
    }
    assert_eq!(chat.messages[1].id(), MessageId(3));
    assert_eq!(chat.messages[2].id(), MessageId(4));
}

fn file(path: &str, text: &str) -> FileContext {
    FileContext { path: path.to_string(), text: text.to_string() }
}

fn asked(action: CompletionAction) -> Vec<CompletionMessage> {
    match action {
        CompletionAction::Complete(call) => call.messages,
        _ => panic!("the model is not called"),
    }
}

fn system(content: &str) -> CompletionMessage {
    CompletionMessage::System { content: content.to_string() }
}

fn from_user(content: &str) -> CompletionMessage {
    CompletionMessage::User { content: content.to_string() }
}

#[test]
fn current_file_is_sent_ahead_of_the_message() {
    let (mut chat, mut cx) = submitted(SubmitMode::Simple);
    cx.current_file = Some(file("a.rs", "fn a() {}"));
    assert_eq!(chat.submit(&Submit(SubmitMode::CurrentFile), &mut cx), Some(RequestId(1)));
    let sent = asked(take(&mut chat, &mut cx, CompletionEvent::Begin));
    assert_eq!(
        sent,
        vec![system("Current file a.rs:\n~~~\nfn a() {}\n~~~\n"), from_user("hi")]
    );
    assert_eq!(cx.current_file, Some(file("a.rs", "fn a() {}")));
}

#[test]
fn current_file_takes_the_place_of_an_earlier_one() {
    let (mut chat, mut cx) = submitted(SubmitMode::Simple);
    chat.user_message(MessageId(0)).contexts =
        vec![AssistantContext::Codebase(CodebaseContext::new())];
    for (path, text) in [("a.rs", "fn a() {}"), ("b.rs", "fn b() {}")] {
        cx.current_file = Some(file(path, text));
        assert!(chat.submit(&Submit(SubmitMode::CurrentFile), &mut cx).is_some());
        assert_eq!(
            chat.user_message(MessageId(0)).contexts,
            vec![
                AssistantContext::Codebase(CodebaseContext::new()),
                AssistantContext::File(file(path, text)),
            ]
        );
    }
    let sent = asked(take(&mut chat, &mut cx, CompletionEvent::Begin));
    assert_eq!(
        sent,
        vec![system("Current file b.rs:\n~~~\nfn b() {}\n~~~\n"), from_user("hi")]
    );
}

#[test]
fn no_file_is_sent_in_other_modes_or_without_one() {
    for (mode, current_file) in [
        (SubmitMode::Simple, Some(file("b.rs", "fn b() {}"))),
        (SubmitMode::Codebase, Some(file("b.rs", "fn b() {}"))),
        (SubmitMode::CurrentFile, None),
    ] {
        let (mut chat, mut cx) = submitted(SubmitMode::Simple);
        cx.current_file = Some(file("a.rs", "fn a() {}"));
        assert!(chat.submit(&Submit(SubmitMode::CurrentFile), &mut cx).is_some());
        assert_eq!(chat.user_message(MessageId(0)).contexts.len(), 1);
        cx.current_file = current_file;
        assert!(chat.submit(&Submit(mode), &mut cx).is_some());
        assert!(chat.user_message(MessageId(0)).contexts.is_empty());
        let sent = asked(take(&mut chat, &mut cx, CompletionEvent::Begin));
        assert_eq!(sent, vec![from_user("hi")]);
    }
}

#[test]
fn submission_ends_the_request_before_it() {
    let (mut chat, mut cx) = submitted(SubmitMode::Simple);
    take(&mut chat, &mut cx, CompletionEvent::Begin);
    take(&mut chat, &mut cx, CompletionEvent::Delta(text("a")));
    assert!(chat.is_pending(RequestId(0)));
    assert_eq!(chat.submit(&Submit(SubmitMode::Simple), &mut cx), Some(RequestId(1)));
    assert!(!chat.is_pending(RequestId(0)));
    assert!(chat.is_pending(RequestId(1)));
    let late = || CompletionEvent::Rendered(RichText::default());
    assert!(!chat.can_take(RequestId(0), &late()));
    assert!(!chat.can_take(RequestId(1), &late()));
    assert!(!chat.can_take(RequestId(0), &CompletionEvent::Begin));
    take(&mut chat, &mut cx, CompletionEvent::Begin);
    take(&mut chat, &mut cx, CompletionEvent::Delta(text("b")));
    assert!(!chat.can_take(RequestId(0), &late()));
    assert!(chat.can_take(RequestId(1), &late()));
    take(&mut chat, &mut cx, late());
    take(&mut chat, &mut cx, CompletionEvent::StreamEnded(Ok(())));
    assert!(!chat.can_take(RequestId(0), &CompletionEvent::Settle));
    take(&mut chat, &mut cx, CompletionEvent::Settle);
    assert!(!chat.can_take(RequestId(0), &CompletionEvent::Settle));
    assert_eq!(chat.messages.len(), 3);
}

#[test]
fn ids_are_given_out_once() {
    let (mut chat, mut cx) = submitted(SubmitMode::Simple);
    chat.push_new_user_message(false, &mut cx);
    chat.push_new_assistant_message(&mut cx);
    chat.truncate_messages(MessageId(0), &mut cx);
    assert_eq!(chat.messages.len(), 1);
    assert_eq!(chat.next_message_id, MessageId(3));
    take(&mut chat, &mut cx, CompletionEvent::Begin);
    chat.push_new_user_message(true, &mut cx);
    let ids: Vec<MessageId> = chat.messages.iter().map(|message| message.id()).collect();
    assert_eq!(ids, vec![MessageId(0), MessageId(3), MessageId(4)]);
    assert_eq!(chat.next_message_id, MessageId(5));
}

#[test]
fn request_ids_start_over_after_the_greatest() {
    let (mut chat, mut cx) = submitted(SubmitMode::Simple);
    chat.next_request_id = RequestId(u64::MAX);
    assert_eq!(chat.submit(&Submit(SubmitMode::Simple), &mut cx), Some(RequestId(u64::MAX)));
    assert_eq!(chat.submit(&Submit(SubmitMode::Simple), &mut cx), Some(RequestId(0)));
    assert!(!chat.is_pending(RequestId(u64::MAX)));
    assert!(!chat.can_take(RequestId(u64::MAX), &CompletionEvent::Begin));
    assert!(chat.can_take(RequestId(0), &CompletionEvent::Begin));
}
