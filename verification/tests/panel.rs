use wox_overlay::geometry::{Point, Rect, Size};
use wox_overlay::panel::{
    create_spotlight_panel, init_spotlight_window, Delegate, PanelMessage, RawNSPanel,
    RawNSPanelDelegate, Responder, Store, CROSS_SPACE_BEHAVIOUR, FLOATING_LEVEL,
    FULL_SCREEN_AUXILIARY, MAIN_MENU_WINDOW_LEVEL, MOVE_TO_ACTIVE_SPACE, NON_ACTIVATING_PANEL,
    TRANSIENT,
};

const FRAME: Rect = Rect { origin: Point { x: 1, y: 2 }, size: Size { width: 800, height: 60 } };

#[test]
fn constants_of_the_panel() {
    assert_eq!(FLOATING_LEVEL, MAIN_MENU_WINDOW_LEVEL + 1);
    assert_eq!(CROSS_SPACE_BEHAVIOUR, TRANSIENT | MOVE_TO_ACTIVE_SPACE | FULL_SCREEN_AUXILIARY);
    assert_eq!(TRANSIENT, 1 << 3);
    assert_eq!(MOVE_TO_ACTIVE_SPACE, 1 << 1);
    assert_eq!(FULL_SCREEN_AUXILIARY, 1 << 8);
    assert_eq!(NON_ACTIVATING_PANEL, 1 << 7);
}

#[test]
fn a_new_panel_is_an_ordinary_window() {
    let p = RawNSPanel::from(FRAME, true);
    assert!(p.is_visible());
    assert!(!p.key);
    assert_eq!(p.level, 0);
    assert_eq!(p.style_mask, 0);
    assert_eq!(p.collection_behaviour, 0);
    assert_eq!(p.delegate, Delegate::Unset);
    assert_eq!(p.first_responder, Responder::Panel);
    assert_eq!(p.frame, FRAME);
    assert!(p.can_become_key_window());
    assert_eq!(p.content_view(), Responder::ContentView);
}

#[test]
fn show_sends_three_messages_in_order() {
    let (mut p, _) = create_spotlight_panel(FRAME, false);
    let before = p;
    assert_eq!(
        p.show(),
        vec![
            PanelMessage::MakeFirstResponder(Responder::ContentView),
            PanelMessage::OrderFrontRegardless,
            PanelMessage::MakeKeyWindow,
        ]
    );
    assert_eq!(
        p,
        RawNSPanel { visible: true, key: true, first_responder: Responder::ContentView, ..before }
    );
}

#[test]
fn order_out_hides_and_gives_up_the_keyboard() {
    let (mut p, _) = create_spotlight_panel(FRAME, true);
    p.show();
    assert_eq!(p.order_out(), PanelMessage::OrderOut);
    assert!(!p.is_visible());
    assert!(!p.key);
    assert_eq!(p.first_responder, Responder::ContentView);
}

#[test]
fn single_messages_change_one_thing() {
    let mut p = RawNSPanel::from(FRAME, false);
    assert_eq!(p.make_key_window(), PanelMessage::MakeKeyWindow);
    assert_eq!(p, RawNSPanel { key: true, ..RawNSPanel::from(FRAME, false) });
    assert_eq!(p.order_front_regardless(), PanelMessage::OrderFrontRegardless);
    assert!(p.is_visible());
    assert_eq!(p.set_level(3), PanelMessage::SetLevel(3));
    assert_eq!(p.level, 3);
    assert_eq!(p.set_style_mask(5), PanelMessage::SetStyleMask(5));
    assert_eq!(p.style_mask, 5);
    assert_eq!(p.set_collection_behaviour(9), PanelMessage::SetCollectionBehaviour(9));
    assert_eq!(p.collection_behaviour, 9);
    let moved = Rect { origin: Point { x: 5, y: 6 }, size: Size { width: 7, height: 8 } };
    assert_eq!(p.set_frame(moved), PanelMessage::SetFrame(moved));
    assert_eq!(p.frame, moved);
    assert_eq!(
        p.make_first_responder(Some(Responder::ContentView)),
        PanelMessage::MakeFirstResponder(Responder::ContentView)
    );
    assert_eq!(p.make_first_responder(None), PanelMessage::MakeFirstResponder(Responder::Panel));
    assert_eq!(p.first_responder, Responder::Panel);
    assert_eq!(p.set_delegate(None), PanelMessage::SetDelegate(Delegate::Panel));
    assert_eq!(p.delegate, Delegate::Panel);
}

#[test]
fn spotlight_panel_is_set_up_in_five_messages() {
    let (p, sent) = create_spotlight_panel(FRAME, false);
    let delegate = Delegate::Object(RawNSPanelDelegate { has_panel: true });
    assert_eq!(
        sent,
        vec![
            PanelMessage::AdoptPanelClass,
            PanelMessage::SetLevel(25),
            PanelMessage::SetCollectionBehaviour(266),
            PanelMessage::SetStyleMask(128),
            PanelMessage::SetDelegate(delegate),
        ]
    );
    assert_eq!(
        p,
        RawNSPanel {
            visible: false,
            key: false,
            first_responder: Responder::Panel,
            level: 25,
            style_mask: 128,
            collection_behaviour: 266,
            delegate,
            frame: FRAME,
        }
    );
}

#[test]
fn the_store_is_filled_once() {
    let mut store = Store::new();
    assert_eq!(store.panel, None);
    assert_eq!(init_spotlight_window(&mut store, FRAME, false).len(), 5);
    let kept = store;
    let other = Rect { origin: Point { x: 0, y: 0 }, size: Size { width: 1, height: 1 } };
    assert_eq!(init_spotlight_window(&mut store, other, true), Vec::new());
    assert_eq!(store, kept);
    assert_eq!(store.panel.unwrap().frame, FRAME);
}

#[test]
fn delegate_hides_its_panel_on_resign_key() {
    let (mut p, _) = create_spotlight_panel(FRAME, false);
    p.show();
    assert_eq!(p.resign_key(), vec![PanelMessage::OrderOut]);
    assert!(!p.is_visible());
    assert!(!p.key);
}

#[test]
fn delegate_without_a_panel_hides_nothing() {
    let mut p = RawNSPanel::from(FRAME, false);
    let d = RawNSPanelDelegate::new();
    assert!(!d.has_panel);
    p.set_delegate(Some(d));
    p.show();
    assert_eq!(p.resign_key(), Vec::new());
    assert!(p.is_visible());
    assert!(!p.key);
    assert_eq!(d.window_did_resign_key(&mut p), Vec::new());
    let mut knows = RawNSPanelDelegate::new();
    knows.set_panel_();
    assert!(knows.has_panel);
    assert_eq!(knows.window_did_become_key(&p), Vec::new());
    assert_eq!(knows.window_did_resign_key(&mut p), vec![PanelMessage::OrderOut]);
    assert!(!p.is_visible());
}

#[test]
fn panel_as_its_own_delegate_stays_on_screen() {
    let mut p = RawNSPanel::from(FRAME, false);
    p.set_delegate(None);
    p.show();
    assert_eq!(p.resign_key(), Vec::new());
    assert!(p.is_visible());
    assert!(!p.key);
}

#[test]
fn the_default_store_is_empty() {
    assert_eq!(Store::default(), Store::new());
    assert_eq!(Store::default().panel, None);
}
