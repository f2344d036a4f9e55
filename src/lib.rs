//! The desktop options page of a settings application: an ordered set of
//! sections, kept in a slot-map registry, rendered into plain view trees
//! whose toggles and links emit typed messages.

pub mod desktop;
pub mod page;
pub mod registry;
pub mod section;
pub mod view;

pub use desktop::{DesktopMessage, DesktopState, Message, Setting};
pub use page::{render_page, Page};
pub use registry::SectionRegistry;
pub use section::{
    hot_corner, panel_dock_links, super_key_action, top_panel, window_controls, Section,
    SectionKind,
};
pub use slotmap::DefaultKey;
pub use view::{
    find_page, render, settings_of, view_panel_dock_links, view_super_key_action, view_toggles,
    Binder, Control, Item, PageInfo, SectionView,
};
