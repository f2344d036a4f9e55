use crate::desktop::{setting_message, setting_value, DesktopState, Message, Setting};
use crate::section::{rows_needed, Section, SectionKind};
use slotmap::DefaultKey;
use vstd::prelude::*;

verus! {

/// The control at the end of a row.
#[derive(Clone, Copy, Debug, PartialEq, Eq)]
pub enum Control {
    /// Empty space; the row is a label only.
    Space,
    /// A switch showing `value`, bound to one desktop option.
    Toggle { value: bool, setting: Setting },
    /// A row that opens the page registered under `target`.
    Link { target: DefaultKey },
}

/// One row of a rendered section.
#[derive(Debug)]
pub struct Item {
    pub label: String,
    pub description: Option<String>,
    pub control: Control,
}

/// A rendered section: a title over its rows, in display order.
#[derive(Debug)]
pub struct SectionView {
    pub title: String,
    pub items: Vec<Item>,
}

/// The identity of a registered page, used for its header and for links to
/// it from other pages.
#[derive(Debug)]
pub struct PageInfo {
    pub id: String,
    pub icon: String,
    pub title: String,
    pub description: String,
}

/// The read-only context of one render pass: the parent desktop page's
/// state, when that page is present, and the directory of all registered
/// pages in registration order.
#[derive(Debug)]
pub struct Binder {
    pub desktop: Option<DesktopState>,
    pub info: Vec<(DefaultKey, PageInfo)>,
}

/// No two entries of the directory share a key.
pub open spec fn keys_distinct(dir: Seq<(DefaultKey, PageInfo)>) -> bool {
    forall|i: int, j: int| 0 <= i < j < dir.len() ==> dir[i].0 != dir[j].0
}

impl Binder {
    /// The directory is keyed as the page registry is: each page under a key
    /// of its own.
    pub open spec fn wf(&self) -> bool {
        keys_distinct(self.info@)
    }
}

/// What using a control emits: nothing for empty space, the negated value
/// for a toggle, a navigation request for a link.
pub open spec fn press_message(c: Control) -> Option<Message> {
    match c {
        Control::Space => None,
        Control::Toggle { value, setting } => Some(Message::Desktop(setting_message(setting, !value))),
        Control::Link { target } => Some(Message::Page(target)),
    }
}

impl Control {
    /// The message that one use of this control emits.
    pub fn on_press(&self) -> (r: Option<Message>)
        ensures
            r == press_message(*self),
    {
        match *self {
            Control::Space => None,
            Control::Toggle { value, setting } => Some(Message::Desktop(setting.message(!value))),
            Control::Link { target } => Some(Message::Page(target)),
        }
    }
}

/// Entry `i` is the first in `dir` whose page id is `id`.
pub open spec fn is_first_page(dir: Seq<(DefaultKey, PageInfo)>, id: Seq<char>, i: int) -> bool {
    &&& 0 <= i < dir.len()
    &&& dir[i].1.id@ == id
    &&& forall|j: int| 0 <= j < i ==> dir[j].1.id@ != id
}

/// Some page of `dir` has the id `id`.
pub open spec fn has_page(dir: Seq<(DefaultKey, PageInfo)>, id: Seq<char>) -> bool {
    exists|i: int| is_first_page(dir, id, i)
}

/// The index of the first page of `dir` with the id `id`.
pub open spec fn page_index(dir: Seq<(DefaultKey, PageInfo)>, id: Seq<char>) -> int {
    choose|i: int| is_first_page(dir, id, i)
}

/// There is at most one first page of a given id.
pub proof fn lemma_first_page_unique(dir: Seq<(DefaultKey, PageInfo)>, id: Seq<char>, i: int, j: int)
    requires
        is_first_page(dir, id, i),
        is_first_page(dir, id, j),
    ensures
        i == j,
{
    if i < j {
        assert(dir[i].1.id@ != id);
    } else if j < i {
        assert(dir[j].1.id@ != id);
    }
}

/// Finds the first page of the directory whose id is `id`.
pub fn find_page(dir: &Vec<(DefaultKey, PageInfo)>, id: &str) -> (r: Option<usize>)
    ensures
        r is Some <==> has_page(dir@, id@),
        r is Some ==> r.unwrap() == page_index(dir@, id@),
        r is None ==> forall|j: int| 0 <= j < dir@.len() ==> dir@[j].1.id@ != id@,
{
    let wanted = id.to_owned();
    let mut i: usize = 0;
    while i < dir.len()
        invariant
            i <= dir@.len(),
            wanted@ == id@,
            forall|j: int| 0 <= j < i ==> dir@[j].1.id@ != id@,
        decreases dir@.len() - i,
    {
        if dir[i].1.id == wanted {
            proof {
                assert(is_first_page(dir@, id@, i as int));
                lemma_first_page_unique(dir@, id@, i as int, page_index(dir@, id@));
            }
            return Some(i);
        }
        i = i + 1;
    }
    proof {
        assert forall|k: int| !is_first_page(dir@, id@, k) by {}
    }
    None
}

/// A label-only row.
pub open spec fn is_label_item(it: Item, label: Seq<char>) -> bool {
    &&& it.label@ == label
    &&& it.description is None
    &&& it.control == Control::Space
}

/// A toggle row showing the current value of `s` in `d`.
pub open spec fn is_toggle_item(it: Item, label: Seq<char>, d: DesktopState, s: Setting) -> bool {
    &&& it.label@ == label
    &&& it.description is None
    &&& it.control == (Control::Toggle { value: setting_value(d, s), setting: s })
}

/// A row linking to the directory entry `e`, under that page's title and
/// description.
pub open spec fn is_link_item(it: Item, e: (DefaultKey, PageInfo)) -> bool {
    &&& it.label@ == e.1.title@
    &&& it.description is Some
    &&& it.description.unwrap()@ == e.1.description@
    &&& it.control == (Control::Link { target: e.0 })
}

/// The options that the toggle rows of `kind` are bound to, in order.
pub open spec fn kind_settings(kind: SectionKind) -> Seq<Setting> {
    match kind {
        SectionKind::HotCorner => seq![Setting::TopLeftHotCorner],
        SectionKind::TopPanel => seq![Setting::ShowWorkspacesButton, Setting::ShowApplicationsButton],
        SectionKind::WindowControls => seq![Setting::ShowMinimizeButton, Setting::ShowMaximizeButton],
        _ => seq![],
    }
}

/// The directory entries that the link section shows: the first "panel"
/// page and the first "dock" page, each where the directory has one, in the
/// order in which the directory lists them.
pub open spec fn link_entries(dir: Seq<(DefaultKey, PageInfo)>) -> Seq<(DefaultKey, PageInfo)> {
    let pi = page_index(dir, "panel"@);
    let di = page_index(dir, "dock"@);
    if has_page(dir, "panel"@) && has_page(dir, "dock"@) {
        if pi < di {
            seq![dir[pi], dir[di]]
        } else {
            seq![dir[di], dir[pi]]
        }
    } else if has_page(dir, "panel"@) {
        seq![dir[pi]]
    } else if has_page(dir, "dock"@) {
        seq![dir[di]]
    } else {
        seq![]
    }
}

/// The rows of the link section: one link per entry of `link_entries`, in
/// that order.
pub open spec fn are_link_items(items: Seq<Item>, dir: Seq<(DefaultKey, PageInfo)>) -> bool {
    &&& items.len() == link_entries(dir).len()
    &&& forall|i: int| 0 <= i < items.len() ==> is_link_item(items[i], link_entries(dir)[i])
}

/// The section's kind needs the parent desktop page, and the binder has it.
pub open spec fn is_wired(s: Section, b: Binder) -> bool {
    s.kind != SectionKind::SuperKeyAction && s.kind != SectionKind::PanelDockLinks ==> b.desktop is Some
}

/// `v` is what `s` renders to under `b`.
pub open spec fn renders(s: Section, b: Binder, v: SectionView) -> bool {
    &&& v.title@ == s.title@
    &&& match s.kind {
        SectionKind::SuperKeyAction => {
            &&& v.items@.len() == 3
            &&& forall|i: int| 0 <= i < 3 ==> is_label_item(v.items@[i], s.descriptions@[i]@)
        },
        SectionKind::PanelDockLinks => are_link_items(v.items@, b.info@),
        _ => {
            let settings = kind_settings(s.kind);
            &&& v.items@.len() == settings.len()
            &&& forall|i: int|
                0 <= i < settings.len() ==> is_toggle_item(
                    v.items@[i],
                    s.descriptions@[i]@,
                    b.desktop.unwrap(),
                    settings[i],
                )
        },
    }
}

fn label_item(label: &String) -> (r: Item)
    ensures
        is_label_item(r, label@),
{
    Item { label: label.clone(), description: None, control: Control::Space }
}

fn link_item(e: &(DefaultKey, PageInfo)) -> (r: Item)
    ensures
        is_link_item(r, *e),
{
    Item {
        label: e.1.title.clone(),
        description: Some(e.1.description.clone()),
        control: Control::Link { target: e.0 },
    }
}

/// The toggle options of `kind`, in row order.
pub fn settings_of(kind: SectionKind) -> (r: Vec<Setting>)
    ensures
        r@ == kind_settings(kind),
{
    let mut r: Vec<Setting> = Vec::new();
    match kind {
        SectionKind::HotCorner => {
            r.push(Setting::TopLeftHotCorner);
        },
        SectionKind::TopPanel => {
            r.push(Setting::ShowWorkspacesButton);
            r.push(Setting::ShowApplicationsButton);
        },
        SectionKind::WindowControls => {
            r.push(Setting::ShowMinimizeButton);
            r.push(Setting::ShowMaximizeButton);
        },
        _ => {},
    }
    assert(r@ =~= kind_settings(kind));
    r
}

/// Renders the super-key-action section: a label row per description. It
/// reads nothing but the section itself.
pub fn view_super_key_action(s: &Section) -> (r: SectionView)
    requires
        s.descriptions@.len() >= 3,
    ensures
        r.title@ == s.title@,
        r.items@.len() == 3,
        forall|i: int| 0 <= i < 3 ==> is_label_item(r.items@[i], s.descriptions@[i]@),
{
    let mut items: Vec<Item> = Vec::new();
    items.push(label_item(&s.descriptions[0]));
    items.push(label_item(&s.descriptions[1]));
    items.push(label_item(&s.descriptions[2]));
    SectionView { title: s.title.clone(), items }
}

/// Renders a section of toggles: row `i` carries description `i` and shows
/// the current value of `settings[i]` in `d`.
pub fn view_toggles(s: &Section, d: &DesktopState, settings: &Vec<Setting>) -> (r: SectionView)
    requires
        s.descriptions@.len() >= settings@.len(),
    ensures
        r.title@ == s.title@,
        r.items@.len() == settings@.len(),
        forall|i: int|
            0 <= i < settings@.len() ==> is_toggle_item(r.items@[i], s.descriptions@[i]@, *d, settings@[i]),
{
    let mut items: Vec<Item> = Vec::new();
    let mut i: usize = 0;
    while i < settings.len()
        invariant
            i <= settings@.len(),
            s.descriptions@.len() >= settings@.len(),
            items@.len() == i,
            forall|j: int|
                0 <= j < i ==> is_toggle_item(items@[j], s.descriptions@[j]@, *d, settings@[j]),
        decreases settings@.len() - i,
    {
        let setting = settings[i];
        let it = Item {
            label: s.descriptions[i].clone(),
            description: None,
            control: Control::Toggle { value: d.get(setting), setting },
        };
        items.push(it);
        i = i + 1;
    }
    SectionView { title: s.title.clone(), items }
}

/// Renders the link section: a row for the first "panel" page of the
/// directory and one for the first "dock" page, in directory order, each
/// left out when the directory has no such page.
pub fn view_panel_dock_links(s: &Section, dir: &Vec<(DefaultKey, PageInfo)>) -> (r: SectionView)
    ensures
        r.title@ == s.title@,
        are_link_items(r.items@, dir@),
{
    let mut items: Vec<Item> = Vec::new();
    let panel = find_page(dir, "panel");
    let dock = find_page(dir, "dock");
    match (panel, dock) {
        (Some(p), Some(d)) => {
            if p < d {
                items.push(link_item(&dir[p]));
                items.push(link_item(&dir[d]));
            } else {
                items.push(link_item(&dir[d]));
                items.push(link_item(&dir[p]));
            }
        },
        (Some(p), None) => {
            items.push(link_item(&dir[p]));
        },
        (None, Some(d)) => {
            items.push(link_item(&dir[d]));
        },
        (None, None) => {},
    }
    proof {
        assert forall|i: int| 0 <= i < items@.len() implies is_link_item(
            items@[i],
            link_entries(dir@)[i],
        ) by {}
    }
    SectionView { title: s.title.clone(), items }
}

/// Renders a section under the context of one render pass.
pub fn render(s: &Section, b: &Binder) -> (r: SectionView)
    requires
        s.wf(),
        b.wf(),
        is_wired(*s, *b),
    ensures
        renders(*s, *b, r),
{
    match s.kind {
        SectionKind::SuperKeyAction => view_super_key_action(s),
        SectionKind::PanelDockLinks => view_panel_dock_links(s, &b.info),
        _ => {
            let settings = settings_of(s.kind);
            let d = b.desktop.unwrap();
            view_toggles(s, &d, &settings)
        },
    }
}

} // verus!
