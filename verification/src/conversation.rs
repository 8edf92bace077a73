//! The conversation that the model is asked to continue, made from the messages of a chat.

use vstd::prelude::*;

use crate::codebase::AssistantContextView;
use crate::completion::{
    CompletionMessage, CompletionMessageView, FunctionContent, FunctionContentView, ToolCall,
    ToolCallContent, ToolCallContentView, ToolCallView,
};
use crate::message::{
    AssistantMessage, ChatMessage, ChatMessageView, ToolFunctionCall, ToolFunctionCallView,
    UserMessage,
};

verus! {

/// A tool call as the model is reminded of it.
pub open spec fn reminder(call: ToolFunctionCallView) -> ToolCallView {
    ToolCallView {
        id: call.id,
        content: ToolCallContentView::Function {
            function: FunctionContentView { name: call.name, arguments: call.arguments },
        },
    }
}

/// The answer to a tool call. It is empty while the tool is running.
pub open spec fn answer(call: ToolFunctionCallView) -> CompletionMessageView {
    CompletionMessageView::Tool {
        content: match call.result {
            Some(result) => result.content,
            None => Seq::empty(),
        },
        tool_call_id: call.id,
    }
}

pub open spec fn reminders(calls: Seq<ToolFunctionCallView>) -> Seq<ToolCallView> {
    Seq::new(calls.len(), |i: int| reminder(calls[i]))
}

pub open spec fn answers(calls: Seq<ToolFunctionCallView>) -> Seq<CompletionMessageView> {
    Seq::new(calls.len(), |i: int| answer(calls[i]))
}

/// What a context contributes, as a value.
pub open spec fn context_messages() -> spec_fn(AssistantContextView) -> Seq<CompletionMessageView> {
    |context: AssistantContextView| context.completion_messages()
}

/// What one message of the chat contributes to the conversation.
///
/// A user message comes after its contexts, so that the model is grounded in the user's request.
/// An assistant message is followed by one answer for each of its tool calls, and is left out
/// where it has neither text nor tool calls: an empty message is never sent.
pub open spec fn contribution(message: ChatMessageView) -> Seq<CompletionMessageView> {
    match message {
        ChatMessageView::User(message) => message.contexts.flat_map(context_messages()) + seq![
            CompletionMessageView::User { content: message.body.text },
        ],
        ChatMessageView::Assistant(message) => if message.body.len() == 0
            && message.tool_calls.len() == 0 {
            Seq::empty()
        } else {
            seq![
                CompletionMessageView::Assistant {
                    content: Some(message.body),
                    tool_calls: reminders(message.tool_calls),
                },
            ] + answers(message.tool_calls)
        },
    }
}

/// [`contribution`] as a value.
pub open spec fn contributions() -> spec_fn(ChatMessageView) -> Seq<CompletionMessageView> {
    |message: ChatMessageView| contribution(message)
}

/// The conversation: what the messages contribute, first to last.
pub open spec fn conversation(messages: Seq<ChatMessageView>) -> Seq<CompletionMessageView> {
    messages.flat_map(contributions())
}

fn remind(call: &ToolFunctionCall) -> (res: ToolCall)
    ensures
        res.deep_view() == reminder(call.deep_view()),
{
    ToolCall {
        content: ToolCallContent::Function {
            function: FunctionContent {
                name: call.name.clone(),
                arguments: call.arguments.clone(),
            },
        },
        id: call.id.clone(),
    }
}

fn remind_all(calls: &Vec<ToolFunctionCall>) -> (res: Vec<ToolCall>)
    ensures
        res.deep_view() == reminders(calls.deep_view()),
{
    let mut res: Vec<ToolCall> = Vec::new();
    for i in 0..calls.len()
        invariant
            res.deep_view() =~= reminders(calls.deep_view()).take(i as int),
    {
        let ghost before = res.deep_view();
        let call = remind(&calls[i]);
        assert(call.deep_view() == reminders(calls.deep_view())[i as int]);
        let ghost added = call.deep_view();
        res.push(call);
        assert(res.deep_view() =~= before.push(added));
    }
    res
}

fn answer_to(call: &ToolFunctionCall) -> (res: CompletionMessage)
    ensures
        res.deep_view() == answer(call.deep_view()),
{
    let content = match &call.result {
        Some(result) => result.content.clone(),
        None => String::new(),
    };
    CompletionMessage::Tool { content, tool_call_id: call.id.clone() }
}

fn contribute_user(message: &UserMessage, sent: &mut Vec<CompletionMessage>)
    ensures
        final(sent).deep_view() == old(sent).deep_view() + contribution(
            ChatMessageView::User(message.deep_view()),
        ),
{
    let ghost start = sent.deep_view();
    let ghost contexts = message.contexts.deep_view();
    assert(contexts.take(0).flat_map(context_messages()) =~= Seq::empty());
    assert(start =~= start + Seq::empty());
    for i in 0..message.contexts.len()
        invariant
            contexts == message.contexts.deep_view(),
            sent.deep_view() == start + contexts.take(i as int).flat_map(context_messages()),
    {
        let ghost before = sent.deep_view();
        let context = &message.contexts[i];
        let mut told = context.completion_messages();
        let ghost added = told.deep_view();
        sent.append(&mut told);
        proof {
            assert(contexts[i as int] == context.deep_view());
            contexts.lemma_flat_map_take_append(context_messages(), i as int);
            assert(sent.deep_view() =~= before + added);
        }
    }
    assert(contexts.take(contexts.len() as int) =~= contexts);
    let ghost before = sent.deep_view();
    sent.push(CompletionMessage::User { content: message.body.text.clone() });
    assert(sent.deep_view() =~= before.push(
        CompletionMessageView::User { content: message.body.text@ },
    ));
    assert(sent.deep_view() =~= start + contribution(ChatMessageView::User(message.deep_view())));
}

fn contribute_assistant(message: &AssistantMessage, sent: &mut Vec<CompletionMessage>)
    ensures
        final(sent).deep_view() == old(sent).deep_view() + contribution(
            ChatMessageView::Assistant(message.deep_view()),
        ),
{
    let ghost start = sent.deep_view();
    let ghost calls = message.tool_calls.deep_view();
    if message.body.text.as_str().is_empty() && message.tool_calls.is_empty() {
        assert(start =~= start + Seq::empty());
        return ;
    }
    let own = CompletionMessage::Assistant {
        content: Some(message.body.text.clone()),
        tool_calls: remind_all(&message.tool_calls),
    };
    let ghost head = seq![own.deep_view()];
    sent.push(own);
    for i in 0..message.tool_calls.len()
        invariant
            calls == message.tool_calls.deep_view(),
            sent.deep_view() =~= start + head + answers(calls).take(i as int),
    {
        let ghost before = sent.deep_view();
        let reply = answer_to(&message.tool_calls[i]);
        assert(reply.deep_view() == answers(calls)[i as int]);
        let ghost added = reply.deep_view();
        sent.push(reply);
        assert(sent.deep_view() =~= before.push(added));
    }
    assert(sent.deep_view() =~= start + contribution(
        ChatMessageView::Assistant(message.deep_view()),
    ));
}

/// The conversation that the messages of a chat make.
pub fn completion_messages(messages: &Vec<ChatMessage>) -> (sent: Vec<CompletionMessage>)
    ensures
        sent.deep_view() == conversation(messages.deep_view()),
{
    let ghost all = messages.deep_view();
    let mut sent: Vec<CompletionMessage> = Vec::new();
    assert(all.take(0).flat_map(contributions()) =~= Seq::empty());
    assert(sent.deep_view() =~= Seq::empty());
    for i in 0..messages.len()
        invariant
            all == messages.deep_view(),
            sent.deep_view() == all.take(i as int).flat_map(contributions()),
    {
        proof {
            assert(all[i as int] == messages[i as int].deep_view());
            all.lemma_flat_map_take_append(contributions(), i as int);
        }
        match &messages[i] {
            ChatMessage::User(message) => contribute_user(message, &mut sent),
            ChatMessage::Assistant(message) => contribute_assistant(message, &mut sent),
        }
    }
    assert(all.take(all.len() as int) =~= all);
    sent
}

} // verus!
