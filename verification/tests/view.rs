use assistant2::chat::AssistantChat;
use assistant2::codebase::{AssistantContext, CodebaseContext, CodebaseExcerpt, ElementId};
use assistant2::completion::CompletionMessage;
use assistant2::context::{
    Effect, FileContext, FocusHandle, MessageId, Pixels, RequestId, SoftWrap, ViewContext,
};
use assistant2::message::{
    AssistantMessage, ChatMessage, Editor, RichText, ToolFunctionCall, ToolFunctionCallResult,
    UserMessage,
};
use assistant2::panel::{enabled, AppContext, AssistantPanel, DockPosition, ToggleFocus};
use assistant2::render::{
    render_model_menu, BodyElement, CodebaseElement, Color, ContextElement, ErrorElement,
    ExcerptElement, IconName, Label, MessageElement, ToolCallElement,
};

fn excerpt() -> CodebaseExcerpt {
    CodebaseExcerpt {
        element_id: ElementId::Name("x".to_string()),
        path: "a.rs".to_string(),
        text: "fn a() {}".to_string(),
        score: "1".to_string(),
        expanded: true,
    }
}

fn user(id: usize, text: &str) -> UserMessage {
    UserMessage {
        id: MessageId(id),
        body: Editor {
            max_lines: 80,
            soft_wrap: SoftWrap::EditorWidth,
            text: text.to_string(),
        },
        contexts: Vec::new(),
    }
}

fn reply(id: usize, text: &str, tool_calls: Vec<ToolFunctionCall>) -> AssistantMessage {
    AssistantMessage {
        id: MessageId(id),
        body: RichText { text: text.to_string() },
        tool_calls,
        error: None,
    }
}

fn chat_of(messages: Vec<ChatMessage>) -> AssistantChat {
    AssistantChat {
        model: "gpt-4".to_string(),
        next_message_id: MessageId(messages.len()),
        next_request_id: RequestId(0),
        messages,
        pending_completion: None,
    }
}

fn call(name: &str, result: Option<ToolFunctionCallResult>) -> ToolFunctionCall {
    ToolFunctionCall {
        id: "c".to_string(),
        name: name.to_string(),
        arguments: "{}".to_string(),
        result,
    }
}

#[test]
fn user_message_is_shown_with_its_editor() {
    let chat = chat_of(vec![ChatMessage::User(user(0, "a")), ChatMessage::User(user(1, "b"))]);
    let label = || Label { text: "You".to_string(), color: Color::Default };
    assert_eq!(
        chat.render_message(0),
        MessageElement::User {
            spaced: true,
            label: label(),
            editor: FocusHandle(MessageId(0)),
        }
    );
    assert_eq!(
        chat.render_message(1),
        MessageElement::User {
            spaced: false,
            label: label(),
            editor: FocusHandle(MessageId(1)),
        }
    );
}

#[test]
fn tool_calls_are_shown_below_the_message() {
    let finished = Some(ToolFunctionCallResult { content: "found".to_string(), view: 9 });
    let calls = vec![call("search", finished), call("open", None)];
    let mut message = reply(1, "", calls);
    message.error = Some("timeout".to_string());
    let chat = chat_of(vec![ChatMessage::User(user(0, "a")), ChatMessage::Assistant(message)]);
    assert_eq!(
        chat.render_message(1),
        MessageElement::Assistant {
            spaced: false,
            label: Label { text: "Assistant".to_string(), color: Color::Modified },
            body: None,
            error: ErrorElement::Banner("timeout".to_string()),
            tool_calls: vec![
                ToolCallElement::Finished { name: "search".to_string(), view: 9 },
                ToolCallElement::Running {
                    label: Label { text: "open".to_string(), color: Color::Modified },
                    note: "Running...".to_string(),
                },
            ],
        }
    );
}

#[test]
fn text_is_shown_unless_only_tool_calls_are_there() {
    let body_of = |message: AssistantMessage| {
        match chat_of(vec![ChatMessage::Assistant(message)]).render_message(0) {
            MessageElement::Assistant { body, .. } => body,
            MessageElement::User { .. } => panic!("the message is not of the model"),
        }
    };
    let shown = |text: &str| {
        Some(BodyElement {
            element_id: ElementId::Integer(4),
            text: text.to_string(),
        })
    };
    assert_eq!(body_of(reply(4, "", Vec::new())), shown(""));
    assert_eq!(body_of(reply(4, "b", Vec::new())), shown("b"));
    assert_eq!(body_of(reply(4, "b", vec![call("open", None)])), shown("b"));
    assert_eq!(body_of(reply(4, "", vec![call("open", None)])), None);
}

#[test]
fn error_is_a_banner() {
    let chat = chat_of(Vec::new());
    assert_eq!(chat.render_error(&None), ErrorElement::Blank);
    let error = Some("timeout".to_string());
    assert_eq!(chat.render_error(&error), ErrorElement::Banner("timeout".to_string()));
}

#[test]
fn dropdown_lists_the_models() {
    let chat = chat_of(Vec::new());
    let models = vec!["gpt-4".to_string(), "gpt-3.5".to_string()];
    let entry = |text: &str| Label { text: text.to_string(), color: Color::Default };
    assert_eq!(render_model_menu(&models), vec![entry("gpt-4"), entry("gpt-3.5")]);
    assert!(render_model_menu(&Vec::new()).is_empty());
    let menu = chat.render_model_dropdown();
    assert_eq!(menu.selected, "gpt-4");
    assert_eq!(menu.icon, IconName::ChevronDown);
    assert_eq!(menu.icon_color, Color::Muted);
    assert_eq!(menu.tooltip, "Change Model");
}

#[test]
fn codebase_context_is_shown_in_each_state() {
    assert_eq!(
        CodebaseContext::new().render(),
        CodebaseElement::Searching {
            icon: IconName::Ai,
            icon_color: Color::Muted,
            note: "Searching codebase...".to_string(),
        }
    );
    let found = AssistantContext::Codebase(CodebaseContext::Done(Ok(vec![excerpt()])));
    assert_eq!(
        found.render(),
        ContextElement::Codebase(CodebaseElement::Excerpts(vec![ExcerptElement {
            element_id: ElementId::Name("x".to_string()),
            expanded: true,
            icon: IconName::File,
            icon_color: Color::Muted,
            path: Label { text: "a.rs".to_string(), color: Color::Muted },
            text: "fn a() {}".to_string(),
        }]))
    );
    let failed = CodebaseContext::Done(Err("no index".to_string()));
    assert_eq!(failed.render(), CodebaseElement::Failed("no index".to_string()));
}

#[test]
fn file_is_shown_by_its_path() {
    let file = AssistantContext::File(FileContext {
        path: "b.rs".to_string(),
        text: "fn b() {}".to_string(),
    });
    assert_eq!(
        file.render(),
        ContextElement::File {
            icon: IconName::File,
            icon_color: Color::Muted,
            path: Label { text: "b.rs".to_string(), color: Color::Muted },
        }
    );
}

#[test]
fn contexts_come_before_the_message() {
    let mut message = user(0, "what is a?");
    message.contexts = vec![
        AssistantContext::Codebase(CodebaseContext::new()),
        AssistantContext::Codebase(CodebaseContext::Done(Ok(vec![excerpt()]))),
    ];
    let sent = chat_of(vec![ChatMessage::User(message)]).completion_messages();
    assert_eq!(sent.len(), 2);
    assert!(matches!(sent[0], CompletionMessage::System { .. }));
    assert_eq!(sent[1], CompletionMessage::User { content: "what is a?".to_string() });
}

#[test]
fn assistant_is_for_staff() {
    assert!(enabled(&AppContext { is_staff: true }));
    assert!(!enabled(&AppContext { is_staff: false }));
}

#[test]
fn panel_stands_on_the_right() {
    let mut cx = ViewContext::new(None, None);
    let mut panel = AssistantPanel::new("gpt-4".to_string(), &mut cx);
    assert_eq!(cx.effects.len(), 5);
    panel.set_position(DockPosition::Left);
    assert_eq!(panel.position(), DockPosition::Right);
    assert!(panel.position_is_valid(DockPosition::Right));
    assert!(!panel.position_is_valid(DockPosition::Left));
    assert!(!panel.position_is_valid(DockPosition::Bottom));
    assert_eq!(AssistantPanel::persistent_name(), "AssistantPanelv2");
    assert_eq!(panel.icon(), Some(IconName::Ai));
    assert_eq!(panel.icon_tooltip(), Some("Assistant Panel \u{2728}"));
    assert_eq!(panel.toggle_action(), ToggleFocus);
}

#[test]
fn panel_keeps_the_width_it_was_given() {
    let mut cx = ViewContext::new(None, None);
    let mut panel = AssistantPanel::new("gpt-4".to_string(), &mut cx);
    assert_eq!(f32::from_bits(panel.size().bits), 400.0);
    cx.effects.clear();
    panel.set_size(Some(Pixels { bits: 320.5f32.to_bits() }), &mut cx);
    assert_eq!(f32::from_bits(panel.size().bits), 320.5);
    panel.set_size(None, &mut cx);
    assert_eq!(f32::from_bits(panel.size().bits), 400.0);
    assert_eq!(cx.effects, vec![Effect::Notify, Effect::Notify]);
}

#[test]
fn panel_focuses_the_last_user_message() {
    let mut cx = ViewContext::new(None, None);
    let mut panel = AssistantPanel::new("gpt-4".to_string(), &mut cx);
    assert_eq!(panel.focus_handle(), FocusHandle(MessageId(0)));
    panel.chat.push_new_user_message(false, &mut cx);
    panel.chat.push_new_assistant_message(&mut cx);
    assert_eq!(panel.focus_handle(), FocusHandle(MessageId(1)));
    panel.chat.truncate_messages(MessageId(0), &mut cx);
    panel.chat.push_new_assistant_message(&mut cx);
    assert_eq!(panel.focus_handle(), FocusHandle(MessageId(0)));
}
