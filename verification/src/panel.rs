//! The panel that holds the chat, and its place beside the editors.

use vstd::prelude::*;

use crate::chat::{AssistantChat, AssistantChatView};
use crate::context::{Effect, FocusHandle, Pixels, ViewContext};
use crate::message::ChatMessageView;
use crate::render::IconName;

verus! {

/// The width of the panel until the user changes it, as the bits of a single-precision value:
/// 400 pixels.
pub const DEFAULT_WIDTH_BITS: u32 = 0x43c8_0000;

/// What is known of the person who runs the program.
pub struct AppContext {
    pub is_staff: bool,
}

/// Tells whether the assistant is there at all: it is for staff only.
pub fn enabled(cx: &AppContext) -> (res: bool)
    ensures
        res == cx.is_staff,
{
    cx.is_staff
}

/// The action that shows the panel and moves the focus into it, or out of it.
#[derive(Clone, Copy, PartialEq, Eq, Structural, Debug)]
pub struct ToggleFocus;

/// A side of the window at which a panel can stand.
#[derive(Clone, Copy, PartialEq, Eq, Structural, Debug)]
pub enum DockPosition {
    Left,
    Bottom,
    Right,
}

/// The editor of the last user message.
pub open spec fn last_focus_handle(messages: Seq<ChatMessageView>) -> Option<FocusHandle>
    decreases messages.len(),
{
    if messages.len() == 0 {
        None
    } else {
        match messages.last().focus_handle() {
            Some(handle) => Some(handle),
            None => last_focus_handle(messages.drop_last()),
        }
    }
}

/// The last user message is the one at this index.
pub open spec fn is_last_user(messages: Seq<ChatMessageView>, index: int) -> bool {
    &&& 0 <= index < messages.len()
    &&& messages[index] is User
    &&& forall|j: int| index < j < messages.len() ==> !(#[trigger] messages[j] is User)
}

/// Where there is a user message, the editor of the last one is found, whatever comes after it.
pub proof fn law_last_user_message_is_focused(messages: Seq<ChatMessageView>, index: int)
    requires
        is_last_user(messages, index),
    ensures
        last_focus_handle(messages) == Some(FocusHandle(messages[index].id())),
    decreases messages.len(),
{
    if index < messages.len() - 1 {
        let init = messages.drop_last();
        assert(!(messages[messages.len() - 1] is User));
        assert forall|j: int| index < j < init.len() implies !(#[trigger] init[j] is User) by {
            assert(init[j] == messages[j]);
        }
        law_last_user_message_is_focused(init, index);
    }
}

/// The panel of the assistant.
pub struct AssistantPanel {
    pub chat: AssistantChat,
    /// The width that the user has given the panel.
    pub width: Option<Pixels>,
}

impl AssistantPanel {
    /// A panel with a new chat.
    pub fn new(default_model: String, cx: &mut ViewContext) -> (panel: Self)
        ensures
            panel.width is None,
            panel.chat.deep_view() == AssistantChatView::empty(
                default_model@,
            ).with_user_message(),
            panel.chat.deep_view().well_formed(),
            panel.chat.deep_view().request_in_place(),
            final(cx).adds(*old(cx), AssistantChatView::new_effects(default_model@)),
    {
        let chat = AssistantChat::new(default_model, cx);
        AssistantPanel { width: None, chat }
    }

    /// The name under which the window remembers the panel.
    pub fn persistent_name() -> (name: &'static str)
        ensures
            name@ == "AssistantPanelv2"@,
    {
        "AssistantPanelv2"
    }

    /// Where the panel stands.
    pub fn position(&self) -> (position: DockPosition)
        ensures
            position == DockPosition::Right,
    {
        DockPosition::Right
    }

    /// Tells whether the panel can stand there.
    pub fn position_is_valid(&self, position: DockPosition) -> (res: bool)
        ensures
            res == (position == DockPosition::Right),
    {
        matches!(position, DockPosition::Right)
    }

    /// Does nothing: the panel stands at one place.
    pub fn set_position(&mut self, _position: DockPosition)
        ensures
            *final(self) == *old(self),
    {
    }

    /// The width of the panel.
    pub fn size(&self) -> (size: Pixels)
        ensures
            size == match self.width {
                Some(width) => width,
                None => Pixels { bits: DEFAULT_WIDTH_BITS },
            },
    {
        match self.width {
            Some(width) => width,
            None => Pixels { bits: DEFAULT_WIDTH_BITS },
        }
    }

    /// Gives the panel a width, or its first one again.
    pub fn set_size(&mut self, size: Option<Pixels>, cx: &mut ViewContext)
        ensures
            final(self).width == size,
            final(self).chat == old(self).chat,
            final(cx).adds(*old(cx), seq![Effect::Notify]),
    {
        self.width = size;
        cx.notify();
    }

    /// The icon of the panel.
    pub fn icon(&self) -> (icon: Option<IconName>)
        ensures
            icon == Some(IconName::Ai),
    {
        Some(IconName::Ai)
    }

    /// What is said of the icon.
    pub fn icon_tooltip(&self) -> (tooltip: Option<&'static str>)
        ensures
            tooltip matches Some(text) && text@ == "Assistant Panel ✨"@,
    {
        Some("Assistant Panel ✨")
    }

    /// The action that toggles the panel.
    pub fn toggle_action(&self) -> (action: ToggleFocus)
        ensures
            action == ToggleFocus,
    {
        ToggleFocus
    }

    /// The editor that takes the focus when the panel does: that of the last user message.
    pub fn focus_handle(&self) -> (handle: FocusHandle)
        requires
            last_focus_handle(self.chat.deep_view().messages) is Some,
        ensures
            Some(handle) == last_focus_handle(self.chat.deep_view().messages),
    {
        let ghost all = self.chat.messages.deep_view();
        let mut end: usize = self.chat.messages.len();
        assert(all.take(all.len() as int) =~= all);
        while end > 0
            invariant
                all == self.chat.messages.deep_view(),
                end <= all.len(),
                last_focus_handle(all.take(end as int)) is Some,
                last_focus_handle(all.take(end as int)) == last_focus_handle(all),
            ensures
                end > 0,
                all == self.chat.messages.deep_view(),
                end <= all.len(),
                all[end - 1].focus_handle() is Some,
                all[end - 1].focus_handle() == last_focus_handle(all),
            decreases end,
        {
            assert(all[end - 1] == self.chat.messages[end - 1].deep_view());
            assert(all.take(end as int).drop_last() =~= all.take(end - 1));
            if self.chat.messages[end - 1].focus_handle().is_some() {
                break;
            }
            end = end - 1;
        }
        assert(all[end - 1] == self.chat.messages[end - 1].deep_view());
        self.chat.messages[end - 1].focus_handle().unwrap()
    }
}

} // verus!
