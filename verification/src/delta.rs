//! The pieces in which the model sends a message, and how they are put together.

use vstd::prelude::*;

use crate::message::{ToolFunctionCall, ToolFunctionCallView};

verus! {

/// The text that is there, or no text.
pub open spec fn text_or_empty(text: Option<Seq<char>>) -> Seq<char> {
    match text {
        Some(text) => text,
        None => Seq::empty(),
    }
}

/// A piece of the function that a tool call names.
#[derive(PartialEq, Eq, Debug)]
pub struct FunctionCallDelta {
    pub name: Option<String>,
    pub arguments: Option<String>,
}

#[verifier::ext_equal]
pub struct FunctionCallDeltaView {
    pub name: Option<Seq<char>>,
    pub arguments: Option<Seq<char>>,
}

impl DeepView for FunctionCallDelta {
    type V = FunctionCallDeltaView;

    open spec fn deep_view(&self) -> FunctionCallDeltaView {
        FunctionCallDeltaView {
            name: self.name.deep_view(),
            arguments: self.arguments.deep_view(),
        }
    }
}

#[derive(PartialEq, Eq, Debug)]
pub enum ToolCallDeltaVariant {
    Function(FunctionCallDelta),
}

#[verifier::ext_equal]
pub enum ToolCallDeltaVariantView {
    Function(FunctionCallDeltaView),
}

impl DeepView for ToolCallDeltaVariant {
    type V = ToolCallDeltaVariantView;

    open spec fn deep_view(&self) -> ToolCallDeltaVariantView {
        match self {
            ToolCallDeltaVariant::Function(function) => ToolCallDeltaVariantView::Function(
                function.deep_view(),
            ),
        }
    }
}

/// A piece of the tool call with this index among the tool calls of the message.
#[derive(PartialEq, Eq, Debug)]
pub struct ToolCallDelta {
    pub index: u32,
    pub id: Option<String>,
    pub variant: Option<ToolCallDeltaVariant>,
}

#[verifier::ext_equal]
pub struct ToolCallDeltaView {
    pub index: u32,
    pub id: Option<Seq<char>>,
    pub variant: Option<ToolCallDeltaVariantView>,
}

impl DeepView for ToolCallDelta {
    type V = ToolCallDeltaView;

    open spec fn deep_view(&self) -> ToolCallDeltaView {
        ToolCallDeltaView {
            index: self.index,
            id: self.id.deep_view(),
            variant: self.variant.deep_view(),
        }
    }
}

impl ToolCallDeltaView {
    /// What the piece adds to the name of the function.
    pub open spec fn name(self) -> Seq<char> {
        match self.variant {
            Some(ToolCallDeltaVariantView::Function(function)) => text_or_empty(function.name),
            None => Seq::empty(),
        }
    }

    /// What the piece adds to the arguments of the function.
    pub open spec fn arguments(self) -> Seq<char> {
        match self.variant {
            Some(ToolCallDeltaVariantView::Function(function)) => text_or_empty(function.arguments),
            None => Seq::empty(),
        }
    }

    /// The tool call with this piece at its end. A result stays what it was.
    pub open spec fn extend(self, call: ToolFunctionCallView) -> ToolFunctionCallView {
        ToolFunctionCallView {
            id: call.id + text_or_empty(self.id),
            name: call.name + self.name(),
            arguments: call.arguments + self.arguments(),
            result: call.result,
        }
    }
}

/// A piece of a message.
#[derive(PartialEq, Eq, Debug)]
pub struct CompletionDelta {
    pub content: Option<String>,
    pub tool_calls: Vec<ToolCallDelta>,
}

#[verifier::ext_equal]
pub struct CompletionDeltaView {
    pub content: Option<Seq<char>>,
    pub tool_calls: Seq<ToolCallDeltaView>,
}

impl DeepView for CompletionDelta {
    type V = CompletionDeltaView;

    open spec fn deep_view(&self) -> CompletionDeltaView {
        CompletionDeltaView {
            content: self.content.deep_view(),
            tool_calls: self.tool_calls.deep_view(),
        }
    }
}

/// The tool call at `index`, which is blank until a piece of it has come.
pub open spec fn call_at(calls: Seq<ToolFunctionCallView>, index: int) -> ToolFunctionCallView {
    if 0 <= index < calls.len() {
        calls[index]
    } else {
        ToolFunctionCallView::blank()
    }
}

/// The tool calls after one more piece. Its call is extended. Where there was no such call yet,
/// the list grows up to it, with blank calls in between.
pub open spec fn merged(calls: Seq<ToolFunctionCallView>, delta: ToolCallDeltaView) -> Seq<
    ToolFunctionCallView,
> {
    Seq::new(
        if delta.index < calls.len() {
            calls.len()
        } else {
            delta.index as nat + 1
        },
        |i: int|
            if i == delta.index {
                delta.extend(call_at(calls, i))
            } else {
                call_at(calls, i)
            },
    )
}

/// The tool calls after all of `deltas`, first to last.
pub open spec fn merged_all(
    calls: Seq<ToolFunctionCallView>,
    deltas: Seq<ToolCallDeltaView>,
) -> Seq<ToolFunctionCallView>
    decreases deltas.len(),
{
    if deltas.len() == 0 {
        calls
    } else {
        merged(merged_all(calls, deltas.drop_last()), deltas.last())
    }
}

/// The list of tool calls can be as long as the pieces ask for.
pub open spec fn indices_fit(deltas: Seq<ToolCallDeltaView>) -> bool {
    forall|i: int| 0 <= i < deltas.len() ==> (#[trigger] deltas[i]).index < usize::MAX
}

/// Tells whether the list of tool calls can be as long as the pieces ask for.
pub fn fit_indices(deltas: &Vec<ToolCallDelta>) -> (res: bool)
    ensures
        res == indices_fit(deltas.deep_view()),
{
    let ghost all = deltas.deep_view();
    for i in 0..deltas.len()
        invariant
            all == deltas.deep_view(),
            forall|j: int| 0 <= j < i ==> (#[trigger] all[j]).index < usize::MAX,
    {
        assert(all[i as int] == deltas[i as int].deep_view());
        if deltas[i].index as u64 >= usize::MAX as u64 {
            return false;
        }
    }
    true
}

/// Adds one piece of a tool call to the calls that have come so far.
pub fn merge_tool_call(calls: &mut Vec<ToolFunctionCall>, delta: &ToolCallDelta)
    requires
        delta.index < usize::MAX,
    ensures
        final(calls).deep_view() == merged(old(calls).deep_view(), delta.deep_view()),
{
    let index: usize = delta.index as usize;
    let ghost before = calls.deep_view();
    while calls.len() <= index
        invariant
            index == delta.index,
            calls.len() >= before.len(),
            calls.len() <= index + 1 || calls.len() == before.len(),
            forall|i: int|
                0 <= i < calls.len() ==> (#[trigger] calls.deep_view()[i]) == call_at(before, i),
        decreases index + 1 - calls.len(),
    {
        let ghost grown = calls.deep_view();
        let blank = ToolFunctionCall::default();
        calls.push(blank);
        assert(calls.deep_view() =~= grown.push(ToolFunctionCallView::blank()));
    }
    let ghost grown = calls.deep_view();
    assert(grown[index as int] == calls[index as int].deep_view());
    let call = &mut calls[index];
    if let Some(id) = &delta.id {
        call.id.append(id.as_str());
    }
    if let Some(variant) = &delta.variant {
        match variant {
            ToolCallDeltaVariant::Function(function) => {
                if let Some(name) = &function.name {
                    call.name.append(name.as_str());
                }
                if let Some(arguments) = &function.arguments {
                    call.arguments.append(arguments.as_str());
                }
            },
        }
    }
    proof {
        let piece = delta.deep_view();
        let extended = piece.extend(grown[index as int]);
        assert(call.deep_view() =~= extended);
        assert(calls.deep_view() =~= grown.update(index as int, extended));
        assert(calls.deep_view() =~= merged(before, piece));
    }
}

/// Adds pieces of tool calls, first to last, to the calls that have come so far.
pub fn merge_tool_calls(calls: &mut Vec<ToolFunctionCall>, deltas: &Vec<ToolCallDelta>)
    requires
        indices_fit(deltas.deep_view()),
    ensures
        final(calls).deep_view() == merged_all(old(calls).deep_view(), deltas.deep_view()),
{
    let ghost before = calls.deep_view();
    let ghost all = deltas.deep_view();
    for i in 0..deltas.len()
        invariant
            all == deltas.deep_view(),
            indices_fit(all),
            calls.deep_view() == merged_all(before, all.take(i as int)),
    {
        assert(all[i as int] == deltas[i as int].deep_view());
        assert(all.take(i + 1).drop_last() =~= all.take(i as int));
        merge_tool_call(calls, &deltas[i]);
    }
    assert(all.take(all.len() as int) =~= all);
}

} // verus!
