use desktop_options::{
    find_page, hot_corner, panel_dock_links, render, render_page, super_key_action, top_panel,
    view_panel_dock_links, view_super_key_action, window_controls, Binder, Control, DefaultKey,
    DesktopMessage, DesktopState, Message, Page, PageInfo, SectionKind, SectionRegistry,
    SectionView, Setting,
};
use slotmap::SlotMap;

fn state(hot: bool, ws: bool, apps: bool, min: bool, max: bool) -> DesktopState {
    DesktopState {
        top_left_hot_corner: hot,
        show_workspaces_button: ws,
        show_applications_button: apps,
        show_minimize_button: min,
        show_maximize_button: max,
    }
}

fn info(id: &str, title: &str, description: &str) -> PageInfo {
    PageInfo {
        id: id.to_string(),
        icon: "icon".to_string(),
        title: title.to_string(),
        description: description.to_string(),
    }
}

fn keys(n: usize) -> Vec<DefaultKey> {
    let mut pages: SlotMap<DefaultKey, ()> = SlotMap::new();
    (0..n).map(|_| pages.insert(())).collect()
}

fn binder(desktop: Option<DesktopState>, dir: Vec<(DefaultKey, PageInfo)>) -> Binder {
    Binder { desktop, info: dir }
}

fn labels(v: &SectionView) -> Vec<String> {
    v.items.iter().map(|i| i.label.clone()).collect()
}

#[test]
fn insert_then_get_returns_the_section() {
    let mut reg = SectionRegistry::new();
    let a = reg.insert(hot_corner());
    let b = reg.insert(top_panel());
    assert_ne!(a, b);
    let s = reg.get(a).unwrap();
    assert_eq!(s.kind, SectionKind::HotCorner);
    assert_eq!(s.title, "hot-corner");
    assert_eq!(s.descriptions, vec!["hot-corner.top-left-corner".to_string()]);
    let t = reg.get(b).unwrap();
    assert_eq!(t.kind, SectionKind::TopPanel);
    assert_eq!(t.title, "top-panel");
}

#[test]
fn get_with_foreign_key_is_none() {
    let mut one = SectionRegistry::new();
    let k = one.insert(hot_corner());
    let other = SectionRegistry::new();
    assert!(other.get(k).is_none());
}

#[test]
fn content_registers_sections_in_display_order() {
    let mut reg = SectionRegistry::new();
    let earlier = reg.insert(window_controls());
    let ks = Page.content(&mut reg).unwrap();
    assert_eq!(ks.len(), 5);
    let kinds: Vec<SectionKind> = ks.iter().map(|k| reg.get(*k).unwrap().kind).collect();
    assert_eq!(
        kinds,
        vec![
            SectionKind::SuperKeyAction,
            SectionKind::HotCorner,
            SectionKind::TopPanel,
            SectionKind::WindowControls,
            SectionKind::PanelDockLinks,
        ]
    );
    assert!(!ks.contains(&earlier));
    assert_eq!(reg.get(earlier).unwrap().kind, SectionKind::WindowControls);
}

#[test]
fn rendered_page_keeps_section_order() {
    let mut reg = SectionRegistry::new();
    let ks = Page.content(&mut reg).unwrap();
    let b = binder(Some(state(true, false, true, false, true)), vec![]);
    let views = render_page(&reg, &ks, &b);
    let titles: Vec<String> = views.iter().map(|v| v.title.clone()).collect();
    assert_eq!(
        titles,
        vec![
            "super-key-action",
            "hot-corner",
            "top-panel",
            "window-controls",
            "desktop-panels-and-applets",
        ]
    );
}

#[test]
fn super_key_action_ignores_desktop_state() {
    let s = super_key_action();
    let a = render(&s, &binder(None, vec![]));
    let b = render(&s, &binder(Some(state(true, true, true, true, true)), vec![]));
    let c = view_super_key_action(&s);
    for v in [&a, &b, &c] {
        assert_eq!(v.title, "super-key-action");
        assert_eq!(
            labels(v),
            vec![
                "super-key-action.launcher",
                "super-key-action.workspaces",
                "super-key-action.applications",
            ]
        );
        assert!(v.items.iter().all(|i| i.control == Control::Space && i.description.is_none()));
    }
}

#[test]
fn hot_corner_toggle_follows_flag() {
    let s = hot_corner();
    let on = render(&s, &binder(Some(state(true, false, false, false, false)), vec![]));
    assert_eq!(on.items.len(), 1);
    assert_eq!(on.items[0].label, "hot-corner.top-left-corner");
    assert_eq!(
        on.items[0].control,
        Control::Toggle { value: true, setting: Setting::TopLeftHotCorner }
    );
    let off = render(&s, &binder(Some(state(false, true, true, true, true)), vec![]));
    assert_eq!(
        off.items[0].control,
        Control::Toggle { value: false, setting: Setting::TopLeftHotCorner }
    );
}

#[test]
fn top_panel_and_window_controls_follow_flags() {
    let d = state(false, true, false, false, true);
    let tp = render(&top_panel(), &binder(Some(d), vec![]));
    assert_eq!(labels(&tp), vec!["top-panel.workspaces", "top-panel.applications"]);
    assert_eq!(
        tp.items[0].control,
        Control::Toggle { value: true, setting: Setting::ShowWorkspacesButton }
    );
    assert_eq!(
        tp.items[1].control,
        Control::Toggle { value: false, setting: Setting::ShowApplicationsButton }
    );
    let wc = render(&window_controls(), &binder(Some(d), vec![]));
    assert_eq!(labels(&wc), vec!["window-controls.minimize", "window-controls.maximize"]);
    assert_eq!(
        wc.items[0].control,
        Control::Toggle { value: false, setting: Setting::ShowMinimizeButton }
    );
    assert_eq!(
        wc.items[1].control,
        Control::Toggle { value: true, setting: Setting::ShowMaximizeButton }
    );
}

#[test]
fn hot_corner_toggle_emits_negated_value() {
    for flag in [true, false] {
        let v = render(&hot_corner(), &binder(Some(state(flag, false, false, false, false)), vec![]));
        assert_eq!(
            v.items[0].control.on_press(),
            Some(Message::Desktop(DesktopMessage::TopLeftHotCorner(!flag)))
        );
    }
}

#[test]
fn toggle_messages_match_settings() {
    let c = Control::Toggle { value: false, setting: Setting::ShowMaximizeButton };
    assert_eq!(c.on_press(), Some(Message::Desktop(DesktopMessage::ShowMaximizeButton(true))));
    let c = Control::Toggle { value: true, setting: Setting::ShowWorkspacesButton };
    assert_eq!(c.on_press(), Some(Message::Desktop(DesktopMessage::ShowWorkspacesButton(false))));
    assert_eq!(Control::Space.on_press(), None);
    assert_eq!(Setting::ShowApplicationsButton.message(true), DesktopMessage::ShowApplicationsButton(true));
    assert_eq!(Setting::ShowMinimizeButton.message(false), DesktopMessage::ShowMinimizeButton(false));
    let d = state(false, false, false, true, false);
    assert!(d.get(Setting::ShowMinimizeButton));
    assert!(!d.get(Setting::TopLeftHotCorner));
}

#[test]
fn links_to_panel_and_dock() {
    let k = keys(3);
    let dir = vec![
        (k[0], info("appearance", "Appearance", "Colors")),
        (k[1], info("dock", "Dock", "Dock options")),
        (k[2], info("panel", "Panel", "Panel options")),
    ];
    let v = render(&panel_dock_links(), &binder(None, dir));
    assert_eq!(v.title, "desktop-panels-and-applets");
    assert_eq!(labels(&v), vec!["Dock", "Panel"]);
    assert_eq!(v.items[0].description.as_deref(), Some("Dock options"));
    assert_eq!(v.items[1].description.as_deref(), Some("Panel options"));
    assert_eq!(v.items[0].control.on_press(), Some(Message::Page(k[1])));
    assert_eq!(v.items[1].control.on_press(), Some(Message::Page(k[2])));
}

#[test]
fn links_follow_directory_order() {
    let k = keys(3);
    let dir = vec![
        (k[0], info("panel", "Panel", "Panel options")),
        (k[1], info("appearance", "Appearance", "Colors")),
        (k[2], info("dock", "Dock", "Dock options")),
    ];
    let v = render(&panel_dock_links(), &binder(None, dir));
    assert_eq!(labels(&v), vec!["Panel", "Dock"]);
    assert_eq!(v.items[0].control, Control::Link { target: k[0] });
    assert_eq!(v.items[1].control, Control::Link { target: k[2] });
}

#[test]
fn registry_len_counts_sections() {
    let mut reg = SectionRegistry::new();
    assert_eq!(reg.len(), 0);
    reg.insert(hot_corner());
    assert_eq!(reg.len(), 1);
    Page.content(&mut reg).unwrap();
    assert_eq!(reg.len(), 6);
}

#[test]
fn try_content_builds_when_there_is_room() {
    let mut reg = SectionRegistry::new();
    let ks = Page.try_content(&mut reg).unwrap();
    assert_eq!(ks.len(), 5);
    assert_eq!(reg.len(), 5);
    assert_eq!(reg.get(ks[0]).unwrap().kind, SectionKind::SuperKeyAction);
    assert_eq!(reg.get(ks[4]).unwrap().kind, SectionKind::PanelDockLinks);
}

#[test]
fn links_without_panel_show_only_dock() {
    let k = keys(2);
    let dir = vec![
        (k[0], info("dock", "Dock", "Dock options")),
        (k[1], info("appearance", "Appearance", "Colors")),
    ];
    let v = view_panel_dock_links(&panel_dock_links(), &dir);
    assert_eq!(labels(&v), vec!["Dock"]);
    assert_eq!(v.items[0].control, Control::Link { target: k[0] });
}

#[test]
fn links_without_panel_or_dock_are_empty() {
    let k = keys(1);
    let v = view_panel_dock_links(&panel_dock_links(), &vec![(k[0], info("appearance", "A", "B"))]);
    assert_eq!(v.title, "desktop-panels-and-applets");
    assert!(v.items.is_empty());
    let empty = view_panel_dock_links(&panel_dock_links(), &vec![]);
    assert!(empty.items.is_empty());
}

#[test]
fn links_use_first_page_of_an_id() {
    let k = keys(2);
    let dir = vec![
        (k[0], info("panel", "First", "one")),
        (k[1], info("panel", "Second", "two")),
    ];
    let v = view_panel_dock_links(&panel_dock_links(), &dir);
    assert_eq!(labels(&v), vec!["First"]);
    assert_eq!(v.items[0].control, Control::Link { target: k[0] });
}

#[test]
fn find_page_returns_first_match() {
    let k = keys(3);
    let dir = vec![
        (k[0], info("dock", "Dock", "")),
        (k[1], info("panel", "Panel", "")),
        (k[2], info("panel", "Panel 2", "")),
    ];
    assert_eq!(find_page(&dir, "panel"), Some(1));
    assert_eq!(find_page(&dir, "dock"), Some(0));
    assert_eq!(find_page(&dir, "sound"), None);
    assert_eq!(find_page(&vec![], "panel"), None);
}

#[test]
fn page_info_and_sub_pages() {
    let i = Page.info();
    assert_eq!(i.id, "desktop-panel-options");
    assert_eq!(i.icon, "video-display-symbolic");
    assert_eq!(i.title, "desktop-panel-options");
    assert_eq!(i.description, "desktop-panel-options.desc");
    assert_eq!(Page::sub_pages(), vec!["panel".to_string(), "dock".to_string()]);
}

#[test]
fn section_constructors_carry_their_text() {
    let s = super_key_action();
    assert_eq!(s.descriptions.len(), 3);
    assert_eq!(s.descriptions[2], "super-key-action.applications");
    assert_eq!(window_controls().descriptions[1], "window-controls.maximize");
    assert!(panel_dock_links().descriptions.is_empty());
    assert_eq!(panel_dock_links().kind, SectionKind::PanelDockLinks);
}
