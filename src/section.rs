use vstd::prelude::*;

verus! {

/// Which of the page's sections a [`Section`] is; decides how it renders.
#[derive(Clone, Copy, Debug, PartialEq, Eq, Structural)]
pub enum SectionKind {
    SuperKeyAction,
    HotCorner,
    TopPanel,
    WindowControls,
    PanelDockLinks,
}

/// A titled fragment of a settings page. Its text fields hold Fluent
/// message references (`id` or `id.attribute`), which the renderer resolves
/// through the localization provider.
#[derive(Debug)]
pub struct Section {
    pub title: String,
    pub descriptions: Vec<String>,
    pub kind: SectionKind,
}

/// The title that the section of `kind` is built with.
pub open spec fn kind_title(kind: SectionKind) -> Seq<char> {
    match kind {
        SectionKind::SuperKeyAction => "super-key-action"@,
        SectionKind::HotCorner => "hot-corner"@,
        SectionKind::TopPanel => "top-panel"@,
        SectionKind::WindowControls => "window-controls"@,
        SectionKind::PanelDockLinks => "desktop-panels-and-applets"@,
    }
}

/// The descriptions that the section of `kind` is built with, in order.
pub open spec fn kind_descriptions(kind: SectionKind) -> Seq<Seq<char>> {
    match kind {
        SectionKind::SuperKeyAction => seq![
            "super-key-action.launcher"@,
            "super-key-action.workspaces"@,
            "super-key-action.applications"@,
        ],
        SectionKind::HotCorner => seq!["hot-corner.top-left-corner"@],
        SectionKind::TopPanel => seq!["top-panel.workspaces"@, "top-panel.applications"@],
        SectionKind::WindowControls => seq![
            "window-controls.minimize"@,
            "window-controls.maximize"@,
        ],
        SectionKind::PanelDockLinks => seq![],
    }
}

/// How many descriptions the section of `kind` renders: one per row, but
/// for the link rows, which take their text from the linked pages.
pub open spec fn rows_needed(kind: SectionKind) -> nat {
    match kind {
        SectionKind::SuperKeyAction => 3,
        SectionKind::HotCorner => 1,
        SectionKind::TopPanel => 2,
        SectionKind::WindowControls => 2,
        SectionKind::PanelDockLinks => 0,
    }
}

/// The texts of a sequence of strings.
pub open spec fn texts(v: Seq<String>) -> Seq<Seq<char>> {
    v.map_values(|s: String| s@)
}

impl Section {
    /// The section holds enough descriptions for the rows its kind renders.
    pub open spec fn wf(&self) -> bool {
        self.descriptions@.len() >= rows_needed(self.kind)
    }

    /// The section is the one this page builds for `kind`.
    pub open spec fn is_built(&self, kind: SectionKind) -> bool {
        &&& self.kind == kind
        &&& self.title@ == kind_title(kind)
        &&& texts(self.descriptions@) == kind_descriptions(kind)
    }
}

/// An owned copy of a text reference.
pub(crate) fn text(s: &str) -> (r: String)
    ensures
        r@ == s@,
{
    s.to_owned()
}

/// The hot-corner section: one toggle for the top-left corner.
pub fn hot_corner() -> (r: Section)
    ensures
        r.is_built(SectionKind::HotCorner),
        r.wf(),
{
    let mut descriptions: Vec<String> = Vec::new();
    descriptions.push(text("hot-corner.top-left-corner"));
    let r = Section { title: text("hot-corner"), descriptions, kind: SectionKind::HotCorner };
    assert(texts(r.descriptions@) =~= kind_descriptions(SectionKind::HotCorner));
    r
}

/// The super-key-action section: three rows that name the choices.
pub fn super_key_action() -> (r: Section)
    ensures
        r.is_built(SectionKind::SuperKeyAction),
        r.wf(),
{
    let mut descriptions: Vec<String> = Vec::new();
    descriptions.push(text("super-key-action.launcher"));
    descriptions.push(text("super-key-action.workspaces"));
    descriptions.push(text("super-key-action.applications"));
    let r = Section {
        title: text("super-key-action"),
        descriptions,
        kind: SectionKind::SuperKeyAction,
    };
    assert(texts(r.descriptions@) =~= kind_descriptions(SectionKind::SuperKeyAction));
    r
}

/// The top-panel section: toggles for the workspaces and applications
/// buttons.
pub fn top_panel() -> (r: Section)
    ensures
        r.is_built(SectionKind::TopPanel),
        r.wf(),
{
    let mut descriptions: Vec<String> = Vec::new();
    descriptions.push(text("top-panel.workspaces"));
    descriptions.push(text("top-panel.applications"));
    let r = Section { title: text("top-panel"), descriptions, kind: SectionKind::TopPanel };
    assert(texts(r.descriptions@) =~= kind_descriptions(SectionKind::TopPanel));
    r
}

/// The window-controls section: toggles for the minimize and maximize
/// buttons.
pub fn window_controls() -> (r: Section)
    ensures
        r.is_built(SectionKind::WindowControls),
        r.wf(),
{
    let mut descriptions: Vec<String> = Vec::new();
    descriptions.push(text("window-controls.minimize"));
    descriptions.push(text("window-controls.maximize"));
    let r = Section {
        title: text("window-controls"),
        descriptions,
        kind: SectionKind::WindowControls,
    };
    assert(texts(r.descriptions@) =~= kind_descriptions(SectionKind::WindowControls));
    r
}

/// The section of links to the panel and dock pages.
pub fn panel_dock_links() -> (r: Section)
    ensures
        r.is_built(SectionKind::PanelDockLinks),
        r.wf(),
{
    let descriptions: Vec<String> = Vec::new();
    let r = Section {
        title: text("desktop-panels-and-applets"),
        descriptions,
        kind: SectionKind::PanelDockLinks,
    };
    assert(texts(r.descriptions@) =~= kind_descriptions(SectionKind::PanelDockLinks));
    r
}

} // verus!
