//! What the chat reads from the window that shows it, and what it asks of that window.
//!
//! The chat never draws. It appends [`Effect`]s to a [`ViewContext`], and whoever owns the
//! window performs them in order.

use vstd::prelude::*;

verus! {

/// Identifies a message of a chat. Ids are handed out in increasing order.
#[derive(Clone, Copy, PartialEq, Eq, Structural, Debug)]
pub struct MessageId(pub usize);

impl MessageId {
    /// Returns this id and moves on to the next one.
    pub fn post_inc(&mut self) -> (id: Self)
        requires
            old(self).0 < usize::MAX,
        ensures
            id == *old(self),
            final(self).0 == old(self).0 + 1,
    {
        let id = *self;
        self.0 = self.0 + 1;
        id
    }
}

/// Identifies a request to the model. Each submission has one of its own; after the greatest id the
/// count starts over.
#[derive(Clone, Copy, PartialEq, Eq, Structural, Debug)]
pub struct RequestId(pub u64);

impl RequestId {
    /// The id after this one.
    pub open spec fn following(self) -> Self {
        if self.0 < u64::MAX {
            RequestId((self.0 + 1) as u64)
        } else {
            RequestId(0)
        }
    }

    /// Returns this id and moves on to the next one.
    pub fn post_inc(&mut self) -> (id: Self)
        ensures
            id == *old(self),
            *final(self) == old(self).following(),
    {
        let id = *self;
        self.0 = if self.0 < u64::MAX {
            self.0 + 1
        } else {
            0
        };
        id
    }
}

/// A file with its text.
#[derive(PartialEq, Eq, Debug)]
pub struct FileContext {
    pub path: String,
    pub text: String,
}

#[verifier::ext_equal]
pub struct FileContextView {
    pub path: Seq<char>,
    pub text: Seq<char>,
}

impl DeepView for FileContext {
    type V = FileContextView;

    open spec fn deep_view(&self) -> FileContextView {
        FileContextView { path: self.path@, text: self.text@ }
    }
}

impl Clone for FileContext {
    fn clone(&self) -> (res: Self)
        ensures
            res == *self,
    {
        FileContext { path: self.path.clone(), text: self.text.clone() }
    }
}

/// Names the editor of the user message with the given id as a target of the keyboard focus.
#[derive(Clone, Copy, PartialEq, Eq, Structural, Debug)]
pub struct FocusHandle(pub MessageId);

/// A length in logical pixels, held as the bits of its single-precision value.
#[derive(Clone, Copy, PartialEq, Eq, Structural, Debug)]
pub struct Pixels {
    pub bits: u32,
}

/// Where a list keeps its items while they do not fill it.
#[derive(Clone, Copy, PartialEq, Eq, Structural, Debug)]
pub enum ListAlignment {
    Top,
    Bottom,
}

/// Where an editor breaks long lines.
#[derive(Clone, Copy, PartialEq, Eq, Structural, Debug)]
pub enum SoftWrap {
    /// At the width of the editor.
    EditorWidth,
}

/// One request to the window.
#[derive(Clone, Copy, PartialEq, Eq, Structural, Debug)]
#[allow(inconsistent_fields)]
pub enum Effect {
    /// Make the list of messages, without items.
    CreateList { alignment: ListAlignment, overdraw: Pixels },
    /// Replace the list items `start..end` by `count` items that take no focus.
    Splice { start: usize, end: usize, count: usize },
    /// Replace the list items `start..end` by one item with this focus handle.
    SpliceFocusable { start: usize, end: usize, focus_handle: Option<FocusHandle> },
    /// Open an empty editor that grows up to `max_lines` lines.
    OpenEditor { focus_handle: FocusHandle, max_lines: usize, soft_wrap: SoftWrap },
    /// Move the keyboard focus.
    Focus(FocusHandle),
    /// Draw the view again.
    Notify,
}

/// The window as the chat sees it for the length of one call.
pub struct ViewContext {
    /// The editor that holds the keyboard focus.
    pub focused: Option<FocusHandle>,
    /// The file that the user is working on.
    pub current_file: Option<FileContext>,
    /// What has been asked of the window so far.
    pub effects: Vec<Effect>,
}

impl ViewContext {
    /// A context with nothing asked of the window yet.
    pub fn new(focused: Option<FocusHandle>, current_file: Option<FileContext>) -> (cx: Self)
        ensures
            cx.focused == focused,
            cx.current_file == current_file,
            cx.effects@ == Seq::<Effect>::empty(),
    {
        ViewContext { focused, current_file, effects: Vec::new() }
    }

    /// This context is `before` with `effects` asked on top, in that order.
    pub open spec fn adds(self, before: ViewContext, effects: Seq<Effect>) -> bool {
        &&& self.focused == before.focused
        &&& self.current_file == before.current_file
        &&& self.effects@ == before.effects@ + effects
    }

    /// Asks the window for one more effect.
    pub fn ask(&mut self, effect: Effect)
        ensures
            final(self).adds(*old(self), seq![effect]),
    {
        self.effects.push(effect);
        assert(self.effects@ =~= old(self).effects@ + seq![effect]);
    }

    /// Asks the window to draw the view again.
    pub fn notify(&mut self)
        ensures
            final(self).adds(*old(self), seq![Effect::Notify]),
    {
        self.ask(Effect::Notify);
    }
}

/// The focus handles of the list items after one effect.
pub open spec fn list_after(items: Seq<Option<FocusHandle>>, effect: Effect) -> Seq<
    Option<FocusHandle>,
> {
    match effect {
        Effect::CreateList { .. } => Seq::empty(),
        Effect::Splice { start, end, count } => items.take(start as int) + Seq::new(
            count as nat,
            |i: int| None::<FocusHandle>,
        ) + items.skip(end as int),
        Effect::SpliceFocusable { start, end, focus_handle } => items.take(start as int)
            + seq![focus_handle] + items.skip(end as int),
        Effect::OpenEditor { .. } => items,
        Effect::Focus(_) => items,
        Effect::Notify => items,
    }
}

/// The focus handles of the list items once all of `effects` are performed, first to last.
pub open spec fn list_items(effects: Seq<Effect>) -> Seq<Option<FocusHandle>>
    decreases effects.len(),
{
    if effects.len() == 0 {
        Seq::empty()
    } else {
        list_after(list_items(effects.drop_last()), effects.last())
    }
}

} // verus!
