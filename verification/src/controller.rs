//! The controller of the overlay window: it knows whether the window is
//! shown, shows and hides it on command, and says what the program has to do
//! to the window for that.
//!
//! Each operation is complete: it leaves the window shown or hidden, never in
//! between. The actions it returns are carried out one by one; one that
//! fails is reported and the next is still carried out.

use crate::command::{
    parse_command, spec_parse_command, PositionOrigin, RemoteCommand, ShowPayload,
};
use crate::geometry::{
    monitor_under_cursor, spec_monitor_under_cursor, spec_position_at_center, Point, Rect, Screen,
};
use crate::json::parsed_document;
use crate::panel::{
    init_spotlight_window, spec_init_spotlight_window, PanelMessage, RawNSPanel, Responder, Store,
};
use vstd::prelude::*;

verus! {

/// Whether the window is on screen.
#[derive(Clone, Copy, Debug, PartialEq, Eq, Structural)]
pub enum WindowVisibility {
    Hidden,
    Visible,
}

/// A script for the content of the window.
#[derive(Clone, Copy, Debug, PartialEq, Eq, Structural)]
pub enum Script {
    /// Gives the keyboard to the content.
    Focus,
    /// Selects all of the text in the query box.
    SelectAll,
}

/// Something that the program has to do to the window.
#[derive(Clone, Copy, Debug, PartialEq, Eq, Structural)]
pub enum WindowAction {
    /// Send a message to the native panel.
    Panel(PanelMessage),
    /// Give the window the keyboard.
    SetFocus,
    /// Run a script in the content of the window.
    Evaluate(Script),
}

/// The controller of the one overlay window.
#[derive(Clone, Copy, Debug, PartialEq, Eq, Structural)]
pub struct Controller {
    pub visibility: WindowVisibility,
    pub store: Store,
}

impl Script {
    /// The text of the script.
    pub open spec fn spec_source(self) -> Seq<char> {
        match self {
            Script::Focus => "window.focus()"@,
            Script::SelectAll => "window.selectAll()"@,
        }
    }

    /// The text of the script.
    pub fn source(&self) -> (r: &'static str)
        ensures
            r@ == self.spec_source(),
    {
        match self {
            Script::Focus => "window.focus()",
            Script::SelectAll => "window.selectAll()",
        }
    }
}

/// Messages for the panel as actions on the window, in the same order.
pub open spec fn panel_actions(sent: Seq<PanelMessage>) -> Seq<WindowAction> {
    sent.map_values(|message: PanelMessage| WindowAction::Panel(message))
}

/// Appends messages for the panel to a list of actions.
fn push_panel_messages(actions: &mut Vec<WindowAction>, sent: &Vec<PanelMessage>)
    ensures
        final(actions)@ == old(actions)@ + panel_actions(sent@),
{
    let mut i: usize = 0;
    while i < sent.len()
        invariant
            i <= sent.len(),
            actions@ == old(actions)@ + panel_actions(sent@.take(i as int)),
        decreases sent.len() - i,
    {
        actions.push(WindowAction::Panel(sent[i]));
        proof {
            assert(sent@.take(i + 1) == sent@.take(i as int).push(sent@[i as int]));
        }
        i += 1;
    }
    proof {
        assert(sent@.take(sent.len() as int) == sent@);
    }
}

/// The visibility of a window that is on screen or not.
pub open spec fn visibility_of(visible: bool) -> WindowVisibility {
    if visible {
        WindowVisibility::Visible
    } else {
        WindowVisibility::Hidden
    }
}

/// The frame that a shown panel is moved to: where the payload asks for the
/// display under the pointer, and the pointer is over a display, the centre
/// of that display; otherwise none.
pub open spec fn spec_target_frame(
    payload: ShowPayload,
    cursor: Point,
    screens: Seq<Screen>,
    frame: Rect,
) -> Option<Rect> {
    match payload.position {
        Some(position) => if position.origin == PositionOrigin::CursorMonitor {
            match spec_monitor_under_cursor(cursor, screens) {
                Some(monitor) => Some(monitor.spec_center(frame)),
                None => None,
            }
        } else {
            None
        },
        None => None,
    }
}

impl Controller {
    /// A controller whose window has not been set up yet.
    pub fn new() -> (r: Controller)
        ensures
            r.visibility == WindowVisibility::Hidden,
            r.store.panel is None,
            r.wf(),
    {
        Controller { visibility: WindowVisibility::Hidden, store: Store::new() }
    }

    /// The controller agrees with its panel: it takes the window for visible
    /// exactly when there is a panel and the panel is on screen, and the
    /// panel, where there is one, is set up as the spotlight panel.
    pub open spec fn wf(self) -> bool {
        &&& self.store.wf()
        &&& self.visibility == match self.store.panel {
            Some(panel) => visibility_of(panel.visible),
            None => WindowVisibility::Hidden,
        }
    }

    /// The window has been set up.
    pub open spec fn is_initialized(self) -> bool {
        self.store.panel is Some
    }

    /// The window has the keyboard: the panel is the key window and what is
    /// typed goes to its content.
    pub open spec fn is_focused(self) -> bool {
        match self.store.panel {
            Some(panel) => panel.key && panel.first_responder == Responder::ContentView,
            None => false,
        }
    }

    /// The visibility that the controller holds.
    pub fn visibility(&self) -> (r: WindowVisibility)
        ensures
            r == self.visibility,
    {
        self.visibility
    }

    /// The controller and the actions after `initialize`.
    pub open spec fn spec_initialize(self, frame: Rect, visible: bool) -> (
        Controller,
        Seq<WindowAction>,
    ) {
        let (store, sent) = spec_init_spotlight_window(self.store, frame, visible);
        (
            Controller {
                visibility: match self.store.panel {
                    Some(_) => self.visibility,
                    None => visibility_of(visible),
                },
                store,
            },
            panel_actions(sent),
        )
    }

    /// Sets the window up, once: the window with this frame and visibility
    /// becomes the spotlight panel. Any later call changes nothing and asks
    /// for nothing.
    pub fn initialize(&mut self, frame: Rect, visible: bool) -> (actions: Vec<WindowAction>)
        ensures
            (*final(self), actions@) == old(self).spec_initialize(frame, visible),
            old(self).wf() ==> final(self).wf(),
            final(self).is_initialized(),
            old(self).is_initialized() ==> *final(self) == *old(self) && actions@.len() == 0,
    {
        let fresh = self.store.panel.is_none();
        let sent = init_spotlight_window(&mut self.store, frame, visible);
        if fresh {
            self.visibility = if visible {
                WindowVisibility::Visible
            } else {
                WindowVisibility::Hidden
            };
        }
        let mut actions: Vec<WindowAction> = Vec::new();
        push_panel_messages(&mut actions, &sent);
        actions
    }

    /// The controller and the actions after `show`.
    pub open spec fn spec_show(
        self,
        payload: ShowPayload,
        cursor: Point,
        screens: Seq<Screen>,
    ) -> (Controller, Seq<WindowAction>) {
        match self.store.panel {
            Some(panel) => {
                let shown = panel.spec_show();
                let target = spec_target_frame(payload, cursor, screens, shown.frame);
                let placed = match target {
                    Some(frame) => RawNSPanel { frame, ..shown },
                    None => shown,
                };
                (
                    Controller {
                        visibility: WindowVisibility::Visible,
                        store: Store { panel: Some(placed) },
                    },
                    panel_actions(RawNSPanel::show_messages()) + seq![
                        WindowAction::SetFocus,
                        WindowAction::Evaluate(Script::Focus),
                    ] + (match target {
                        Some(frame) => seq![WindowAction::Panel(PanelMessage::SetFrame(frame))],
                        None => Seq::<WindowAction>::empty(),
                    }) + (if payload.select_all == Some(true) {
                        seq![WindowAction::Evaluate(Script::SelectAll)]
                    } else {
                        Seq::<WindowAction>::empty()
                    }),
                )
            },
            None => (self, Seq::<WindowAction>::empty()),
        }
    }

    /// Shows the window. The panel is shown and made the key window, and the
    /// keyboard is given to the window and to its content once more, also
    /// where the window was shown already. Where the payload asks for the
    /// display under the pointer, the window is centred on that display; any
    /// other payload leaves it where it is. Where the payload asks for it,
    /// the text in the query box is selected. A controller without a window
    /// does nothing.
    pub fn show(
        &mut self,
        payload: &ShowPayload,
        cursor: Point,
        screens: &Vec<Screen>,
    ) -> (actions: Vec<WindowAction>)
        ensures
            (*final(self), actions@) == old(self).spec_show(*payload, cursor, screens@),
            old(self).wf() ==> final(self).wf(),
    {
        let mut actions: Vec<WindowAction> = Vec::new();
        let mut panel = match self.store.panel {
            Some(panel) => panel,
            None => {
                return actions;
            },
        };
        let sent = panel.show();
        push_panel_messages(&mut actions, &sent);
        actions.push(WindowAction::SetFocus);
        actions.push(WindowAction::Evaluate(Script::Focus));
        if let Some(position) = payload.position {
            if let PositionOrigin::CursorMonitor = position.origin {
                if let Some(monitor) = monitor_under_cursor(cursor, screens) {
                    let moved = panel.set_frame(monitor.center(panel.frame));
                    actions.push(WindowAction::Panel(moved));
                }
            }
        }
        if let Some(true) = payload.select_all {
            actions.push(WindowAction::Evaluate(Script::SelectAll));
        }
        self.store.panel = Some(panel);
        self.visibility = WindowVisibility::Visible;
        proof {
            assert(actions@ =~= old(self).spec_show(*payload, cursor, screens@).1);
        }
        actions
    }

    /// The controller and the actions after `hide_window`.
    pub open spec fn spec_hide_window(self) -> (Controller, Seq<WindowAction>) {
        match self.store.panel {
            Some(panel) => (
                Controller {
                    visibility: WindowVisibility::Hidden,
                    store: Store { panel: Some(panel.spec_order_out()) },
                },
                seq![WindowAction::Panel(PanelMessage::OrderOut)],
            ),
            None => (self, Seq::<WindowAction>::empty()),
        }
    }

    /// Hides the window: the panel is taken off the screen, not destroyed.
    /// A controller without a window does nothing.
    pub fn hide_window(&mut self) -> (actions: Vec<WindowAction>)
        ensures
            (*final(self), actions@) == old(self).spec_hide_window(),
            old(self).wf() ==> final(self).wf(),
    {
        let mut actions: Vec<WindowAction> = Vec::new();
        let mut panel = match self.store.panel {
            Some(panel) => panel,
            None => {
                return actions;
            },
        };
        let sent = panel.order_out();
        actions.push(WindowAction::Panel(sent));
        self.store.panel = Some(panel);
        self.visibility = WindowVisibility::Hidden;
        proof {
            assert(actions@ =~= old(self).spec_hide_window().1);
        }
        actions
    }

    /// The controller and the actions after `toggle`.
    pub open spec fn spec_toggle(
        self,
        payload: ShowPayload,
        cursor: Point,
        screens: Seq<Screen>,
    ) -> (Controller, Seq<WindowAction>) {
        match self.visibility {
            WindowVisibility::Visible => self.spec_hide_window(),
            WindowVisibility::Hidden => self.spec_show(payload, cursor, screens),
        }
    }

    /// Hides the window where it is visible, and shows it where it is
    /// hidden. The visibility is read before anything is done.
    pub fn toggle(
        &mut self,
        payload: &ShowPayload,
        cursor: Point,
        screens: &Vec<Screen>,
    ) -> (actions: Vec<WindowAction>)
        ensures
            (*final(self), actions@) == old(self).spec_toggle(*payload, cursor, screens@),
            old(self).wf() ==> final(self).wf(),
    {
        match self.visibility {
            WindowVisibility::Visible => self.hide_window(),
            WindowVisibility::Hidden => self.show(payload, cursor, screens),
        }
    }

    /// The controller and the actions after `focus_lost`.
    pub open spec fn spec_focus_lost(self) -> (Controller, Seq<WindowAction>) {
        match self.store.panel {
            Some(panel) => {
                let (resigned, sent) = panel.spec_resign_key();
                (
                    Controller {
                        visibility: visibility_of(resigned.visible),
                        store: Store { panel: Some(resigned) },
                    },
                    panel_actions(sent),
                )
            },
            None => (self, Seq::<WindowAction>::empty()),
        }
    }

    /// The window has stopped being the key window: the handler that was
    /// set up with the panel hides it.
    pub fn focus_lost(&mut self) -> (actions: Vec<WindowAction>)
        ensures
            (*final(self), actions@) == old(self).spec_focus_lost(),
            old(self).wf() ==> final(self).wf(),
    {
        let mut actions: Vec<WindowAction> = Vec::new();
        let mut panel = match self.store.panel {
            Some(panel) => panel,
            None => {
                return actions;
            },
        };
        let sent = panel.resign_key();
        push_panel_messages(&mut actions, &sent);
        self.visibility = if panel.is_visible() {
            WindowVisibility::Visible
        } else {
            WindowVisibility::Hidden
        };
        self.store.panel = Some(panel);
        actions
    }

    /// The controller after it was told what the window system says of the window.
    pub open spec fn spec_observe(self, visible: bool) -> Controller {
        match self.store.panel {
            Some(panel) => Controller {
                visibility: visibility_of(visible),
                store: Store {
                    panel: Some(RawNSPanel { visible, key: panel.key && visible, ..panel }),
                },
            },
            None => self,
        }
    }

    /// Takes over what the window system says of the window: whether it is
    /// on screen. A window that is not on screen is not the key window.
    pub fn observe(&mut self, visible: bool)
        ensures
            *final(self) == old(self).spec_observe(visible),
            old(self).wf() ==> final(self).wf(),
    {
        if let Some(panel) = self.store.panel {
            let mut seen = panel;
            seen.visible = visible;
            seen.key = panel.key && visible;
            self.store.panel = Some(seen);
            self.visibility = if visible {
                WindowVisibility::Visible
            } else {
                WindowVisibility::Hidden
            };
        }
    }

    /// The controller and the actions after a command.
    pub open spec fn spec_apply(
        self,
        command: RemoteCommand,
        cursor: Point,
        screens: Seq<Screen>,
    ) -> (Controller, Seq<WindowAction>) {
        match command {
            RemoteCommand::ToggleApp(payload) => self.spec_toggle(payload, cursor, screens),
            RemoteCommand::ShowApp(payload) => self.spec_show(payload, cursor, screens),
            RemoteCommand::Unknown => (self, Seq::<WindowAction>::empty()),
        }
    }

    /// Carries out a command: `ToggleApp` toggles the window, `ShowApp`
    /// shows it, and an unknown command is passed over.
    pub fn apply(
        &mut self,
        command: &RemoteCommand,
        cursor: Point,
        screens: &Vec<Screen>,
    ) -> (actions: Vec<WindowAction>)
        ensures
            (*final(self), actions@) == old(self).spec_apply(*command, cursor, screens@),
            old(self).wf() ==> final(self).wf(),
    {
        match command {
            RemoteCommand::ToggleApp(payload) => self.toggle(payload, cursor, screens),
            RemoteCommand::ShowApp(payload) => self.show(payload, cursor, screens),
            RemoteCommand::Unknown => Vec::new(),
        }
    }

    /// The controller and the actions after a message.
    pub open spec fn spec_dispatch(
        self,
        raw_text: Seq<char>,
        cursor: Point,
        screens: Seq<Screen>,
    ) -> (Controller, Seq<WindowAction>) {
        match spec_parse_command(raw_text) {
            Some(command) => self.spec_apply(command, cursor, screens),
            None => (self, Seq::<WindowAction>::empty()),
        }
    }
}

/// Takes a message of the control protocol to the controller. A text that
/// is no JSON document, and a message whose `Method` is missing, is no
/// string or names no command, is passed over in silence: the controller
/// stays as it is and nothing is asked of the window.
pub fn dispatch(
    raw_text: &str,
    controller: &mut Controller,
    cursor: Point,
    screens: &Vec<Screen>,
) -> (actions: Vec<WindowAction>)
    ensures
        (*final(controller), actions@) == old(controller).spec_dispatch(raw_text@, cursor, screens@),
        old(controller).wf() ==> final(controller).wf(),
        !(spec_parse_command(raw_text@) matches Some(command) && command != RemoteCommand::Unknown)
            ==> *final(controller) == *old(controller) && actions@.len() == 0,
{
    match parse_command(raw_text) {
        Some(command) => controller.apply(&command, cursor, screens),
        None => Vec::new(),
    }
}

/// What follows one action of a list, once it was carried out.
#[derive(Clone, Copy, Debug, PartialEq, Eq, Structural)]
pub struct StepReport {
    /// The action to report as failed, where it failed.
    pub failed: Option<WindowAction>,
    /// The place of the action to carry out next, where one is left.
    pub next: Option<usize>,
}

/// What follows the action at `index`: the next action of the list is due
/// whether or not this one succeeded, and a failure is reported, not passed on.
pub open spec fn spec_after_action(
    actions: Seq<WindowAction>,
    index: int,
    succeeded: bool,
) -> StepReport {
    StepReport {
        failed: if 0 <= index < actions.len() && !succeeded {
            Some(actions[index])
        } else {
            None
        },
        next: if 0 <= index && index + 1 < actions.len() {
            Some((index + 1) as usize)
        } else {
            None
        },
    }
}

/// Takes the outcome of the action at `index`. A failed action is handed
/// back to be reported, and the action after it is due all the same: no
/// failure keeps the rest of the list from being carried out.
pub fn after_action(actions: &Vec<WindowAction>, index: usize, succeeded: bool) -> (r: StepReport)
    ensures
        r == spec_after_action(actions@, index as int, succeeded),
{
    let failed = if index < actions.len() && !succeeded {
        Some(actions[index])
    } else {
        None
    };
    let next = if index < actions.len() && index + 1 < actions.len() {
        Some(index + 1)
    } else {
        None
    };
    StepReport { failed, next }
}

/// Carried out from the first action on, a list is carried out to its end
/// whatever fails: after each action but the last the next one is due.
pub proof fn lemma_every_action_is_due(actions: Seq<WindowAction>, index: int, succeeded: bool)
    requires
        0 <= index < actions.len(),
        actions.len() <= usize::MAX,
    ensures
        index + 1 < actions.len() ==> spec_after_action(actions, index, succeeded).next == Some(
            (index + 1) as usize,
        ),
        index + 1 == actions.len() ==> spec_after_action(actions, index, succeeded).next is None,
        spec_after_action(actions, index, succeeded).next == spec_after_action(
            actions,
            index,
            !succeeded,
        ).next,
{
}

/// A malformed message changes nothing: where the text is no JSON document,
/// or the document has no `Method`, or its `Method` is no string or is
/// neither `ToggleApp` nor `ShowApp`, the controller stays as it is and no
/// action is asked for.
pub proof fn lemma_malformed_message_is_passed_over(
    controller: Controller,
    raw_text: Seq<char>,
    cursor: Point,
    screens: Seq<Screen>,
)
    requires
        match parsed_document(raw_text) {
            Some(doc) => match doc.member("Method"@) {
                Some(method) => match method.as_text() {
                    Some(name) => name != "ToggleApp"@ && name != "ShowApp"@,
                    None => true,
                },
                None => true,
            },
            None => true,
        },
    ensures
        controller.spec_dispatch(raw_text, cursor, screens) == (
            controller,
            Seq::<WindowAction>::empty(),
        ),
{
}

/// A toggle flips the visibility: a hidden window is visible after it and a
/// visible window is hidden, and the controller still agrees with its panel.
pub proof fn lemma_toggle_flips_visibility(
    controller: Controller,
    payload: ShowPayload,
    cursor: Point,
    screens: Seq<Screen>,
)
    requires
        controller.wf(),
        controller.is_initialized(),
    ensures
        ({
            let after = controller.spec_toggle(payload, cursor, screens).0;
            &&& after.wf()
            &&& after.is_initialized()
            &&& controller.visibility == WindowVisibility::Hidden ==> after.visibility
                == WindowVisibility::Visible
            &&& controller.visibility == WindowVisibility::Visible ==> after.visibility
                == WindowVisibility::Hidden
        }),
{
}

/// Two toggles cancel out: after two toggles in a row the window is visible
/// or hidden as it was before them.
pub proof fn lemma_two_toggles_cancel_out(
    controller: Controller,
    first: ShowPayload,
    second: ShowPayload,
    cursor: Point,
    screens: Seq<Screen>,
)
    requires
        controller.wf(),
        controller.is_initialized(),
    ensures
        controller.spec_toggle(first, cursor, screens).0.spec_toggle(
            second,
            cursor,
            screens,
        ).0.visibility == controller.visibility,
{
    lemma_toggle_flips_visibility(controller, first, cursor, screens);
    lemma_toggle_flips_visibility(
        controller.spec_toggle(first, cursor, screens).0,
        second,
        cursor,
        screens,
    );
}

/// After a show the window is visible and has the keyboard, whatever it was
/// before, and the keyboard has been asked for again.
pub proof fn lemma_show_makes_visible_and_focused(
    controller: Controller,
    payload: ShowPayload,
    cursor: Point,
    screens: Seq<Screen>,
)
    requires
        controller.wf(),
        controller.is_initialized(),
    ensures
        ({
            let (after, actions) = controller.spec_show(payload, cursor, screens);
            &&& after.wf()
            &&& after.visibility == WindowVisibility::Visible
            &&& after.is_focused()
            &&& actions.len() >= 5
            &&& actions[0] == WindowAction::Panel(
                PanelMessage::MakeFirstResponder(Responder::ContentView),
            )
            &&& actions[1] == WindowAction::Panel(PanelMessage::OrderFrontRegardless)
            &&& actions[2] == WindowAction::Panel(PanelMessage::MakeKeyWindow)
            &&& actions[3] == WindowAction::SetFocus
            &&& actions[4] == WindowAction::Evaluate(Script::Focus)
        }),
{
}

/// A `ToggleApp` message flips the visibility, and a `ShowApp` message
/// leaves the window visible and with the keyboard, whatever it was before.
pub proof fn lemma_commands_take_effect(
    controller: Controller,
    raw_text: Seq<char>,
    cursor: Point,
    screens: Seq<Screen>,
)
    requires
        controller.wf(),
        controller.is_initialized(),
    ensures
        ({
            let after = controller.spec_dispatch(raw_text, cursor, screens).0;
            &&& after.wf()
            &&& after.is_initialized()
            &&& spec_parse_command(raw_text) matches Some(RemoteCommand::ToggleApp(_)) ==> (
            after.visibility == WindowVisibility::Visible <==> controller.visibility
                == WindowVisibility::Hidden)
            &&& spec_parse_command(raw_text) matches Some(RemoteCommand::ShowApp(_))
                ==> after.visibility == WindowVisibility::Visible && after.is_focused()
        }),
{
    match spec_parse_command(raw_text) {
        Some(RemoteCommand::ToggleApp(payload)) => {
            lemma_toggle_flips_visibility(controller, payload, cursor, screens);
        },
        Some(RemoteCommand::ShowApp(payload)) => {
            lemma_show_makes_visible_and_focused(controller, payload, cursor, screens);
        },
        _ => {},
    }
}

/// A show that asks for the display under the pointer, with the pointer
/// over a display, puts the window at the centre of that display and keeps
/// its size; any other show leaves the frame as it is.
pub proof fn lemma_show_places_window(
    controller: Controller,
    payload: ShowPayload,
    cursor: Point,
    screens: Seq<Screen>,
)
    requires
        controller.is_initialized(),
    ensures
        ({
            let before = controller.store.panel->0.frame;
            let (after, actions) = controller.spec_show(payload, cursor, screens);
            let asked = payload.position matches Some(position) && position.origin
                == PositionOrigin::CursorMonitor;
            &&& after.store.panel->0.frame.size == before.size
            &&& asked ==> after.store.panel->0.frame == spec_position_at_center(
                cursor,
                screens,
                before,
            )
            &&& !asked ==> after.store.panel->0.frame == before
            &&& asked && spec_monitor_under_cursor(cursor, screens) is Some ==> actions[5]
                == WindowAction::Panel(PanelMessage::SetFrame(after.store.panel->0.frame))
        }),
{
}

/// A visible window that stops being the key window is hidden by the
/// handler that was set up with it, without any command.
pub proof fn lemma_focus_lost_hides(controller: Controller)
    requires
        controller.wf(),
        controller.is_initialized(),
    ensures
        ({
            let (after, actions) = controller.spec_focus_lost();
            &&& after.wf()
            &&& after.visibility == WindowVisibility::Hidden
            &&& !after.is_focused()
            &&& actions == seq![WindowAction::Panel(PanelMessage::OrderOut)]
        }),
{
    let (after, actions) = controller.spec_focus_lost();
    assert(actions =~= seq![WindowAction::Panel(PanelMessage::OrderOut)]);
}

/// Level, collection behaviour, style and delegate of the panel are set once,
/// when the window is set up, and no command, no loss of the keyboard and no
/// later set-up changes them.
pub proof fn lemma_panel_setup_is_kept(
    controller: Controller,
    command: RemoteCommand,
    cursor: Point,
    screens: Seq<Screen>,
    frame: Rect,
    visible: bool,
)
    requires
        controller.wf(),
    ensures
        controller.spec_apply(command, cursor, screens).0.wf(),
        controller.spec_focus_lost().0.wf(),
        controller.spec_initialize(frame, visible).0.wf(),
        controller.spec_observe(visible).wf(),
        controller.is_initialized() ==> controller.spec_initialize(frame, visible) == (
            controller,
            Seq::<WindowAction>::empty(),
        ),
{
    if controller.is_initialized() {
        assert(controller.spec_initialize(frame, visible).1 =~= Seq::<WindowAction>::empty());
    }
}

} // verus!
