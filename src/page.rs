use crate::desktop::{setting_value, DesktopMessage, Message, Setting};
use crate::registry::{registered, registry_size, SectionRegistry};
use crate::section::{
    hot_corner, kind_title, panel_dock_links, super_key_action, text, top_panel, window_controls,
    Section, SectionKind,
};
use crate::view::{
    has_page, is_first_page, is_link_item, is_wired, kind_settings, page_index, press_message,
    render, renders, Binder, Control, PageInfo, SectionView,
};
use slotmap::DefaultKey;
use vstd::prelude::*;

verus! {

/// The desktop options page: a hub that gathers the super-key, hot-corner,
/// top-panel and window-control options and links to the panel and dock
/// pages.
#[derive(Clone, Copy, Debug, Default)]
pub struct Page;

/// The sections of the page, in display order.
pub open spec fn page_order() -> Seq<SectionKind> {
    seq![
        SectionKind::SuperKeyAction,
        SectionKind::HotCorner,
        SectionKind::TopPanel,
        SectionKind::WindowControls,
        SectionKind::PanelDockLinks,
    ]
}

/// `keys` are the page's sections, built into `after` in display order:
/// fresh, distinct keys, each holding the section built for its kind, with
/// everything `before` held kept as it was.
pub open spec fn built_page(before: SectionRegistry, after: SectionRegistry, keys: Seq<DefaultKey>) -> bool {
    &&& keys.len() == page_order().len()
    &&& forall|i: int|
        0 <= i < page_order().len() ==> {
            &&& !registered(before).dom().contains(#[trigger] keys[i])
            &&& registered(after).dom().contains(keys[i])
            &&& registered(after)[keys[i]].is_built(page_order()[i])
            &&& registered(after)[keys[i]].wf()
        }
    &&& forall|i: int, j: int| 0 <= i < j < page_order().len() ==> keys[i] != keys[j]
    &&& forall|k: DefaultKey|
        #[trigger] registered(before).dom().contains(k) ==> {
            &&& registered(after).dom().contains(k)
            &&& registered(after)[k] == registered(before)[k]
        }
    &&& registry_size(after) == registry_size(before) + 5
}

impl Page {
    /// Builds the page's sections into `sections` and returns their keys in
    /// display order. Whatever the registry held before stays as it was.
    pub fn content(&self, sections: &mut SectionRegistry) -> (r: Option<Vec<DefaultKey>>)
        requires
            registry_size(*old(sections)) + 6 <= u32::MAX,
        ensures
            r is Some,
            built_page(*old(sections), *final(sections), r.unwrap()@),
    {
        let ghost m0 = registered(*sections);
        let k0 = sections.insert(super_key_action());
        let k1 = sections.insert(hot_corner());
        let k2 = sections.insert(top_panel());
        let k3 = sections.insert(window_controls());
        let k4 = sections.insert(panel_dock_links());
        let mut keys: Vec<DefaultKey> = Vec::new();
        keys.push(k0);
        keys.push(k1);
        keys.push(k2);
        keys.push(k3);
        keys.push(k4);
        proof {
            let m = registered(*sections);
            assert(keys@ == seq![k0, k1, k2, k3, k4]);
            assert forall|i: int| 0 <= i < page_order().len() implies {
                &&& !m0.dom().contains(#[trigger] keys@[i])
                &&& m.dom().contains(keys@[i])
                &&& m[keys@[i]].is_built(page_order()[i])
                &&& m[keys@[i]].wf()
            } by {}
        }
        Some(keys)
    }

    /// Builds the page's sections as `content` does where the registry has
    /// room for them; where it has not, returns `None` and leaves the
    /// registry as it was.
    pub fn try_content(&self, sections: &mut SectionRegistry) -> (r: Option<Vec<DefaultKey>>)
        ensures
            r is Some <==> registry_size(*old(sections)) + 6 <= u32::MAX,
            r is Some ==> built_page(*old(sections), *final(sections), r.unwrap()@),
            r is None ==> *final(sections) == *old(sections),
    {
        let n = sections.len() as u64;
        if n <= 4294967289u64 {
            self.content(sections)
        } else {
            None
        }
    }

    /// The page's identity: its id, icon and the text references of its title
    /// and description.
    pub fn info(&self) -> (r: PageInfo)
        ensures
            r.id@ == "desktop-panel-options"@,
            r.icon@ == "video-display-symbolic"@,
            r.title@ == "desktop-panel-options"@,
            r.description@ == "desktop-panel-options.desc"@,
    {
        PageInfo {
            id: text("desktop-panel-options"),
            icon: text("video-display-symbolic"),
            title: text("desktop-panel-options"),
            description: text("desktop-panel-options.desc"),
        }
    }

    /// The ids of the pages this page owns in the navigation tree, in order.
    pub fn sub_pages() -> (r: Vec<String>)
        ensures
            r@.len() == 2,
            r@[0]@ == "panel"@,
            r@[1]@ == "dock"@,
    {
        let mut r: Vec<String> = Vec::new();
        r.push(text("panel"));
        r.push(text("dock"));
        r
    }
}

/// Every key of `keys` names a section of `sections` that can render under
/// `b`.
pub open spec fn renderable(sections: SectionRegistry, keys: Seq<DefaultKey>, b: Binder) -> bool {
    forall|i: int|
        0 <= i < keys.len() ==> {
            &&& registered(sections).dom().contains(#[trigger] keys[i])
            &&& registered(sections)[keys[i]].wf()
            &&& is_wired(registered(sections)[keys[i]], b)
        }
}

/// Renders the sections under `keys`, in the order of `keys`.
pub fn render_page(sections: &SectionRegistry, keys: &Vec<DefaultKey>, b: &Binder) -> (r: Vec<SectionView>)
    requires
        b.wf(),
        renderable(*sections, keys@, *b),
    ensures
        r@.len() == keys@.len(),
        forall|i: int|
            0 <= i < keys@.len() ==> renders(registered(*sections)[keys@[i]], *b, #[trigger] r@[i]),
{
    let mut r: Vec<SectionView> = Vec::new();
    let mut i: usize = 0;
    while i < keys.len()
        invariant
            i <= keys@.len(),
            b.wf(),
            renderable(*sections, keys@, *b),
            r@.len() == i,
            forall|j: int| 0 <= j < i ==> renders(registered(*sections)[keys@[j]], *b, #[trigger] r@[j]),
        decreases keys@.len() - i,
    {
        let s = sections.get(keys[i]).unwrap();
        r.push(render(s, b));
        i = i + 1;
    }
    r
}

/// The super-key-action section reads no desktop state: what it renders to
/// under one binder, it renders to under any other.
pub proof fn lemma_super_key_action_ignores_binder(s: Section, b1: Binder, b2: Binder, v: SectionView)
    requires
        s.kind == SectionKind::SuperKeyAction,
        renders(s, b1, v),
    ensures
        renders(s, b2, v),
{
}

/// Each toggle of a rendered toggle section shows the current value of the
/// option it is bound to; the hot-corner toggle is on exactly when the top
/// left hot corner is enabled.
pub proof fn lemma_toggles_show_state(s: Section, b: Binder, v: SectionView)
    requires
        s.kind == SectionKind::HotCorner || s.kind == SectionKind::TopPanel
            || s.kind == SectionKind::WindowControls,
        b.desktop is Some,
        renders(s, b, v),
    ensures
        v.items@.len() == kind_settings(s.kind).len(),
        forall|i: int|
            0 <= i < kind_settings(s.kind).len() ==> #[trigger] v.items@[i].control == (Control::Toggle {
                value: setting_value(b.desktop.unwrap(), kind_settings(s.kind)[i]),
                setting: kind_settings(s.kind)[i],
            }),
        s.kind == SectionKind::HotCorner ==> v.items@[0].control == (Control::Toggle {
            value: b.desktop.unwrap().top_left_hot_corner,
            setting: Setting::TopLeftHotCorner,
        }),
{
    if s.kind == SectionKind::HotCorner {
        assert(kind_settings(s.kind)[0] == Setting::TopLeftHotCorner);
        assert(v.items@[0].control == (Control::Toggle {
            value: setting_value(b.desktop.unwrap(), kind_settings(s.kind)[0]),
            setting: kind_settings(s.kind)[0],
        }));
    }
}

/// Using the hot-corner toggle emits one message, which sets the top left
/// hot corner to the negation of its current value.
pub proof fn lemma_hot_corner_toggle_message(s: Section, b: Binder, v: SectionView)
    requires
        s.kind == SectionKind::HotCorner,
        b.desktop is Some,
        renders(s, b, v),
    ensures
        press_message(v.items@[0].control) == Some(
            Message::Desktop(DesktopMessage::TopLeftHotCorner(!b.desktop.unwrap().top_left_hot_corner)),
        ),
{
    lemma_toggles_show_state(s, b, v);
}

/// When the directory holds a "panel" page, the link section has exactly one
/// row that opens it, labelled with its title; when it holds none, the
/// section has only the "dock" row, or no row at all.
pub proof fn lemma_panel_link(s: Section, b: Binder, v: SectionView)
    requires
        s.kind == SectionKind::PanelDockLinks,
        b.wf(),
        renders(s, b, v),
    ensures
        has_page(b.info@, "panel"@) ==> {
            let e = b.info@[page_index(b.info@, "panel"@)];
            exists|j: int|
                {
                    &&& 0 <= j < v.items@.len()
                    &&& is_link_item(#[trigger] v.items@[j], e)
                    &&& forall|k: int|
                        0 <= k < v.items@.len() && v.items@[k].control == (Control::Link { target: e.0 })
                            ==> k == j
                }
        },
        !has_page(b.info@, "panel"@) ==> {
            &&& v.items@.len() == if has_page(b.info@, "dock"@) { 1int } else { 0 }
            &&& has_page(b.info@, "dock"@) ==> is_link_item(
                v.items@[0],
                b.info@[page_index(b.info@, "dock"@)],
            )
        },
{
    let dir = b.info@;
    reveal_strlit("panel");
    reveal_strlit("dock");
    assert("panel"@.len() != "dock"@.len());
    let pi = page_index(dir, "panel"@);
    let di = page_index(dir, "dock"@);
    if has_page(dir, "panel"@) {
        assert(is_first_page(dir, "panel"@, pi));
        if has_page(dir, "dock"@) {
            assert(is_first_page(dir, "dock"@, di));
            assert(dir[di].1.id@ != dir[pi].1.id@);
            assert(dir[pi].0 != dir[di].0);
            let j: int = if pi < di { 0 } else { 1 };
            assert(is_link_item(v.items@[j], dir[pi]));
            assert(is_link_item(v.items@[1 - j], dir[di]));
        } else {
            assert(is_link_item(v.items@[0], dir[pi]));
        }
    } else if has_page(dir, "dock"@) {
        assert(is_link_item(v.items@[0], dir[di]));
    }
}

/// Rendering the sections that `content` built, in the order of its keys,
/// gives them in display order: super-key action, hot corner, top panel,
/// window controls, then the links.
pub proof fn lemma_render_order(
    before: SectionRegistry,
    sections: SectionRegistry,
    keys: Seq<DefaultKey>,
    b: Binder,
    views: Seq<SectionView>,
)
    requires
        built_page(before, sections, keys),
        views.len() == keys.len(),
        forall|i: int| 0 <= i < keys.len() ==> renders(registered(sections)[keys[i]], b, #[trigger] views[i]),
    ensures
        forall|i: int| 0 <= i < views.len() ==> (#[trigger] views[i]).title@ == kind_title(page_order()[i]),
{
    assert forall|i: int| 0 <= i < views.len() implies (#[trigger] views[i]).title@ == kind_title(page_order()[i]) by {
        assert(registered(sections)[keys[i]].is_built(page_order()[i]));
        assert(renders(registered(sections)[keys[i]], b, views[i]));
    }
}

} // verus!
