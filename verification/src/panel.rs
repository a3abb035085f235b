//! The panel: a window that floats above the others, shows over full-screen
//! applications, takes the keyboard without activating its application, and
//! hides itself when it loses the keyboard.
//!
//! The library keeps a record of what it has asked of the native window and
//! hands out, call by call, the messages that the program has to send to it.

use crate::geometry::Rect;
use vstd::prelude::*;

verus! {

/// The window level of the main menu.
pub const MAIN_MENU_WINDOW_LEVEL: i32 = 24;

/// The level of the panel: one above the main menu.
pub const FLOATING_LEVEL: i32 = 25;

/// Collection behaviour: the window follows to the active space.
pub const MOVE_TO_ACTIVE_SPACE: u64 = 2;

/// Collection behaviour: the window is transient.
pub const TRANSIENT: u64 = 8;

/// Collection behaviour: the window may share a space with a full-screen window.
pub const FULL_SCREEN_AUXILIARY: u64 = 256;

/// The collection behaviour of the panel: transient, following to the active
/// space, and auxiliary to full-screen windows.
pub const CROSS_SPACE_BEHAVIOUR: u64 = 266;

/// Style mask of a panel that does not activate its application.
pub const NON_ACTIVATING_PANEL: i32 = 128;

/// Who receives what is typed into the panel.
#[derive(Clone, Copy, Debug, PartialEq, Eq, Structural)]
pub enum Responder {
    /// The panel itself.
    Panel,
    /// The view that holds the panel's content.
    ContentView,
}

/// The object that hides its panel when the panel is no longer the key window.
#[derive(Clone, Copy, Debug, PartialEq, Eq, Structural)]
pub struct RawNSPanelDelegate {
    /// Whether the delegate knows its panel.
    pub has_panel: bool,
}

/// Who is told when the panel gains or loses the keyboard.
#[derive(Clone, Copy, Debug, PartialEq, Eq, Structural)]
pub enum Delegate {
    /// Nobody yet.
    Unset,
    /// The panel itself, which does nothing about it.
    Panel,
    /// A delegate object.
    Object(RawNSPanelDelegate),
}

/// A message for the native window.
#[derive(Clone, Copy, Debug, PartialEq, Eq, Structural)]
pub enum PanelMessage {
    /// Turn the window into a panel in place, by giving it the panel's class.
    AdoptPanelClass,
    SetLevel(i32),
    SetCollectionBehaviour(u64),
    SetStyleMask(i32),
    SetDelegate(Delegate),
    MakeFirstResponder(Responder),
    OrderFrontRegardless,
    MakeKeyWindow,
    OrderOut,
    /// Move the window, and redraw it.
    SetFrame(Rect),
}

/// The panel as the library has left it.
#[derive(Clone, Copy, Debug, PartialEq, Eq, Structural)]
pub struct RawNSPanel {
    /// On screen.
    pub visible: bool,
    /// The key window: the one that receives the keyboard.
    pub key: bool,
    pub first_responder: Responder,
    pub level: i32,
    pub style_mask: i32,
    pub collection_behaviour: u64,
    pub delegate: Delegate,
    pub frame: Rect,
}

/// The panel, once it exists. There is at most one.
#[derive(Clone, Copy, Debug, PartialEq, Eq, Structural)]
pub struct Store {
    pub panel: Option<RawNSPanel>,
}

impl RawNSPanelDelegate {
    /// A delegate that does not know its panel yet.
    pub fn new() -> (r: RawNSPanelDelegate)
        ensures
            !r.has_panel,
    {
        RawNSPanelDelegate { has_panel: false }
    }

    /// Tells the delegate its panel.
    pub fn set_panel_(&mut self)
        ensures
            final(self).has_panel,
    {
        self.has_panel = true;
    }

    /// The panel has become the key window. Nothing follows.
    pub fn window_did_become_key(&self, panel: &RawNSPanel) -> (sent: Vec<PanelMessage>)
        ensures
            sent@ == Seq::<PanelMessage>::empty(),
    {
        Vec::new()
    }

    /// What follows when `panel` has stopped being the key window: a delegate
    /// that knows its panel orders it out.
    pub open spec fn spec_window_did_resign_key(self, panel: RawNSPanel) -> (
        RawNSPanel,
        Seq<PanelMessage>,
    ) {
        if self.has_panel {
            (panel.spec_order_out(), seq![PanelMessage::OrderOut])
        } else {
            (panel, Seq::<PanelMessage>::empty())
        }
    }

    /// The panel has stopped being the key window: a delegate that knows its
    /// panel orders it out.
    pub fn window_did_resign_key(&self, panel: &mut RawNSPanel) -> (sent: Vec<PanelMessage>)
        ensures
            (*final(panel), sent@) == self.spec_window_did_resign_key(*old(panel)),
    {
        if self.has_panel {
            let message = panel.order_out();
            vec![message]
        } else {
            Vec::new()
        }
    }
}

impl RawNSPanel {
    /// A window that the toolkit has built, taken as a panel. What the
    /// window was is kept: its frame and whether it is on screen. It is not
    /// the key window, it stands at the level of ordinary windows, and it
    /// has no delegate.
    pub fn from(frame: Rect, visible: bool) -> (r: RawNSPanel)
        ensures
            r == (RawNSPanel {
                visible,
                key: false,
                first_responder: Responder::Panel,
                level: 0,
                style_mask: 0,
                collection_behaviour: 0,
                delegate: Delegate::Unset,
                frame,
            }),
    {
        RawNSPanel {
            visible,
            key: false,
            first_responder: Responder::Panel,
            level: 0,
            style_mask: 0,
            collection_behaviour: 0,
            delegate: Delegate::Unset,
            frame,
        }
    }

    /// Whether the panel is set up as the spotlight panel: above the main
    /// menu, across spaces and full-screen windows, not activating, and with
    /// a delegate that hides it when it loses the keyboard.
    pub open spec fn is_spotlight(self) -> bool {
        &&& self.level == FLOATING_LEVEL
        &&& self.collection_behaviour == CROSS_SPACE_BEHAVIOUR
        &&& self.style_mask == NON_ACTIVATING_PANEL
        &&& self.delegate == Delegate::Object(RawNSPanelDelegate { has_panel: true })
    }

    /// The panel may become the key window, though it does not activate its
    /// application.
    pub fn can_become_key_window(&self) -> (r: bool)
        ensures
            r,
    {
        true
    }

    /// The panel after `show`.
    pub open spec fn spec_show(self) -> RawNSPanel {
        RawNSPanel { first_responder: Responder::ContentView, visible: true, key: true, ..self }
    }

    /// The messages of `show`, in the order in which they are sent.
    pub open spec fn show_messages() -> Seq<PanelMessage> {
        seq![
            PanelMessage::MakeFirstResponder(Responder::ContentView),
            PanelMessage::OrderFrontRegardless,
            PanelMessage::MakeKeyWindow,
        ]
    }

    /// Shows the panel: what is typed goes to its content view, the panel
    /// comes to the front without its application being activated, and it
    /// becomes the key window. Level, behaviour, style, delegate and frame
    /// stay as they are.
    pub fn show(&mut self) -> (sent: Vec<PanelMessage>)
        ensures
            *final(self) == old(self).spec_show(),
            sent@ == Self::show_messages(),
    {
        let view = self.content_view();
        let first = self.make_first_responder(Some(view));
        let second = self.order_front_regardless();
        let third = self.make_key_window();
        vec![first, second, third]
    }

    /// Whether the panel is on screen.
    pub fn is_visible(&self) -> (r: bool)
        ensures
            r == self.visible,
    {
        self.visible
    }

    /// Makes the panel the key window.
    pub fn make_key_window(&mut self) -> (sent: PanelMessage)
        ensures
            *final(self) == (RawNSPanel { key: true, ..*old(self) }),
            sent == PanelMessage::MakeKeyWindow,
    {
        self.key = self.can_become_key_window();
        PanelMessage::MakeKeyWindow
    }

    /// Brings the panel to the front, whether or not its application is active.
    pub fn order_front_regardless(&mut self) -> (sent: PanelMessage)
        ensures
            *final(self) == (RawNSPanel { visible: true, ..*old(self) }),
            sent == PanelMessage::OrderFrontRegardless,
    {
        self.visible = true;
        PanelMessage::OrderFrontRegardless
    }

    /// The panel after `order_out`.
    pub open spec fn spec_order_out(self) -> RawNSPanel {
        RawNSPanel { visible: false, key: false, ..self }
    }

    /// Takes the panel off the screen without destroying it. A window that
    /// is off the screen is not the key window.
    pub fn order_out(&mut self) -> (sent: PanelMessage)
        ensures
            *final(self) == old(self).spec_order_out(),
            sent == PanelMessage::OrderOut,
    {
        self.visible = false;
        self.key = false;
        PanelMessage::OrderOut
    }

    /// The view that holds the panel's content.
    pub fn content_view(&self) -> (r: Responder)
        ensures
            r == Responder::ContentView,
    {
        Responder::ContentView
    }

    /// Hands what is typed to `sender`, or to the panel itself where there is none.
    pub fn make_first_responder(&mut self, sender: Option<Responder>) -> (sent: PanelMessage)
        ensures
            final(self).first_responder == match sender {
                Some(responder) => responder,
                None => Responder::Panel,
            },
            *final(self) == (RawNSPanel { first_responder: final(self).first_responder, ..*old(self) }),
            sent == PanelMessage::MakeFirstResponder(final(self).first_responder),
    {
        let responder = match sender {
            Some(responder) => responder,
            None => Responder::Panel,
        };
        self.first_responder = responder;
        PanelMessage::MakeFirstResponder(responder)
    }

    /// Sets the window level.
    pub fn set_level(&mut self, level: i32) -> (sent: PanelMessage)
        ensures
            *final(self) == (RawNSPanel { level, ..*old(self) }),
            sent == PanelMessage::SetLevel(level),
    {
        self.level = level;
        PanelMessage::SetLevel(level)
    }

    /// Sets the style mask.
    pub fn set_style_mask(&mut self, style_mask: i32) -> (sent: PanelMessage)
        ensures
            *final(self) == (RawNSPanel { style_mask, ..*old(self) }),
            sent == PanelMessage::SetStyleMask(style_mask),
    {
        self.style_mask = style_mask;
        PanelMessage::SetStyleMask(style_mask)
    }

    /// Sets how the panel takes part in spaces and full-screen mode.
    pub fn set_collection_behaviour(&mut self, behaviour: u64) -> (sent: PanelMessage)
        ensures
            *final(self) == (RawNSPanel { collection_behaviour: behaviour, ..*old(self) }),
            sent == PanelMessage::SetCollectionBehaviour(behaviour),
    {
        self.collection_behaviour = behaviour;
        PanelMessage::SetCollectionBehaviour(behaviour)
    }

    /// Sets the delegate: `delegate`, or the panel itself where there is none.
    pub fn set_delegate(&mut self, delegate: Option<RawNSPanelDelegate>) -> (sent: PanelMessage)
        ensures
            final(self).delegate == match delegate {
                Some(object) => Delegate::Object(object),
                None => Delegate::Panel,
            },
            *final(self) == (RawNSPanel { delegate: final(self).delegate, ..*old(self) }),
            sent == PanelMessage::SetDelegate(final(self).delegate),
    {
        let chosen = match delegate {
            Some(object) => Delegate::Object(object),
            None => Delegate::Panel,
        };
        self.delegate = chosen;
        PanelMessage::SetDelegate(chosen)
    }

    /// Moves the panel to `frame`.
    pub fn set_frame(&mut self, frame: Rect) -> (sent: PanelMessage)
        ensures
            *final(self) == (RawNSPanel { frame, ..*old(self) }),
            sent == PanelMessage::SetFrame(frame),
    {
        self.frame = frame;
        PanelMessage::SetFrame(frame)
    }

    /// The panel after it has stopped being the key window, and the messages
    /// that its delegate sends on that.
    pub open spec fn spec_resign_key(self) -> (RawNSPanel, Seq<PanelMessage>) {
        let resigned = RawNSPanel { key: false, ..self };
        match self.delegate {
            Delegate::Object(object) => object.spec_window_did_resign_key(resigned),
            _ => (resigned, Seq::<PanelMessage>::empty()),
        }
    }

    /// The panel has stopped being the key window: its delegate is told, and
    /// a delegate object that knows the panel orders it out.
    pub fn resign_key(&mut self) -> (sent: Vec<PanelMessage>)
        ensures
            (*final(self), sent@) == old(self).spec_resign_key(),
    {
        self.key = false;
        match self.delegate {
            Delegate::Object(object) => object.window_did_resign_key(self),
            _ => Vec::new(),
        }
    }
}

/// The spotlight panel made of a window with this frame and visibility.
pub open spec fn spec_spotlight_panel(frame: Rect, visible: bool) -> RawNSPanel {
    RawNSPanel {
        visible,
        key: false,
        first_responder: Responder::Panel,
        level: FLOATING_LEVEL,
        style_mask: NON_ACTIVATING_PANEL,
        collection_behaviour: CROSS_SPACE_BEHAVIOUR,
        delegate: Delegate::Object(RawNSPanelDelegate { has_panel: true }),
        frame,
    }
}

/// The messages that set a window up as the spotlight panel.
pub open spec fn setup_messages() -> Seq<PanelMessage> {
    seq![
        PanelMessage::AdoptPanelClass,
        PanelMessage::SetLevel(FLOATING_LEVEL),
        PanelMessage::SetCollectionBehaviour(CROSS_SPACE_BEHAVIOUR),
        PanelMessage::SetStyleMask(NON_ACTIVATING_PANEL),
        PanelMessage::SetDelegate(Delegate::Object(RawNSPanelDelegate { has_panel: true })),
    ]
}

/// Makes the spotlight panel of a window: the window becomes a panel, goes
/// one level above the main menu, is marked as transient, following to the
/// active space and auxiliary to full-screen windows, does not activate its
/// application, and gets a delegate that hides it when it loses the keyboard.
pub fn create_spotlight_panel(frame: Rect, visible: bool) -> (r: (RawNSPanel, Vec<PanelMessage>))
    ensures
        r.0 == spec_spotlight_panel(frame, visible),
        r.0.is_spotlight(),
        r.1@ == setup_messages(),
{
    assert(8u64 | 2u64 | 256u64 == 266u64) by (bit_vector);
    let mut panel = RawNSPanel::from(frame, visible);
    let level = panel.set_level(MAIN_MENU_WINDOW_LEVEL + 1);
    let behaviour = panel.set_collection_behaviour(
        TRANSIENT | MOVE_TO_ACTIVE_SPACE | FULL_SCREEN_AUXILIARY,
    );
    let style = panel.set_style_mask(NON_ACTIVATING_PANEL);
    let mut delegate = RawNSPanelDelegate::new();
    delegate.set_panel_();
    let installed = panel.set_delegate(Some(delegate));
    (panel, vec![PanelMessage::AdoptPanelClass, level, behaviour, style, installed])
}

/// The store and the messages after `init_spotlight_window`.
pub open spec fn spec_init_spotlight_window(store: Store, frame: Rect, visible: bool) -> (
    Store,
    Seq<PanelMessage>,
) {
    match store.panel {
        Some(_) => (store, Seq::<PanelMessage>::empty()),
        None => (Store { panel: Some(spec_spotlight_panel(frame, visible)) }, setup_messages()),
    }
}

/// Sets the window up as the spotlight panel, once: the first call makes the
/// panel and keeps it in the store, any later call changes nothing and sends
/// nothing.
pub fn init_spotlight_window(store: &mut Store, frame: Rect, visible: bool) -> (sent: Vec<PanelMessage>)
    ensures
        (*final(store), sent@) == spec_init_spotlight_window(*old(store), frame, visible),
{
    match store.panel {
        Some(_) => Vec::new(),
        None => {
            let (panel, sent) = create_spotlight_panel(frame, visible);
            store.panel = Some(panel);
            sent
        },
    }
}

impl Default for Store {
    /// A store without a panel.
    fn default() -> (r: Store)
        ensures
            r.panel is None,
    {
        Store { panel: None }
    }
}

impl Store {
    /// A store without a panel.
    pub fn new() -> (r: Store)
        ensures
            r.panel is None,
    {
        Store { panel: None }
    }

    /// A store holds no panel, or one that is set up as the spotlight panel.
    pub open spec fn wf(self) -> bool {
        match self.panel {
            Some(panel) => panel.is_spotlight(),
            None => true,
        }
    }
}

/// The panel's collection behaviour holds each of its three flags and no other.
pub proof fn lemma_cross_space_behaviour()
    ensures
        CROSS_SPACE_BEHAVIOUR == TRANSIENT | MOVE_TO_ACTIVE_SPACE | FULL_SCREEN_AUXILIARY,
        CROSS_SPACE_BEHAVIOUR & TRANSIENT == TRANSIENT,
        CROSS_SPACE_BEHAVIOUR & MOVE_TO_ACTIVE_SPACE == MOVE_TO_ACTIVE_SPACE,
        CROSS_SPACE_BEHAVIOUR & FULL_SCREEN_AUXILIARY == FULL_SCREEN_AUXILIARY,
        FLOATING_LEVEL == MAIN_MENU_WINDOW_LEVEL + 1,
{
    assert(266u64 == 8u64 | 2u64 | 256u64) by (bit_vector);
    assert(266u64 & 8u64 == 8u64) by (bit_vector);
    assert(266u64 & 2u64 == 2u64) by (bit_vector);
    assert(266u64 & 256u64 == 256u64) by (bit_vector);
}

} // verus!
