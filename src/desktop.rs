use slotmap::DefaultKey;
use vstd::prelude::*;

verus! {

/// One boolean option of the desktop, owned by the parent desktop page.
#[derive(Clone, Copy, Debug, PartialEq, Eq, Structural)]
pub enum Setting {
    TopLeftHotCorner,
    ShowWorkspacesButton,
    ShowApplicationsButton,
    ShowMinimizeButton,
    ShowMaximizeButton,
}

/// The parent desktop page's state, as the sections read it.
#[derive(Clone, Copy, Debug, PartialEq, Eq, Structural)]
pub struct DesktopState {
    pub top_left_hot_corner: bool,
    pub show_workspaces_button: bool,
    pub show_applications_button: bool,
    pub show_minimize_button: bool,
    pub show_maximize_button: bool,
}

/// A request to the desktop page to change one of its options.
#[derive(Clone, Copy, Debug, PartialEq, Eq, Structural)]
pub enum DesktopMessage {
    TopLeftHotCorner(bool),
    ShowWorkspacesButton(bool),
    ShowApplicationsButton(bool),
    ShowMinimizeButton(bool),
    ShowMaximizeButton(bool),
}

/// What a control of a rendered section emits when it is used.
#[derive(Clone, Copy, Debug, PartialEq, Eq)]
pub enum Message {
    /// Routed to the desktop page's update logic.
    Desktop(DesktopMessage),
    /// Navigate to the page registered under this key.
    Page(DefaultKey),
}

/// The current value of `s` in `d`.
pub open spec fn setting_value(d: DesktopState, s: Setting) -> bool {
    match s {
        Setting::TopLeftHotCorner => d.top_left_hot_corner,
        Setting::ShowWorkspacesButton => d.show_workspaces_button,
        Setting::ShowApplicationsButton => d.show_applications_button,
        Setting::ShowMinimizeButton => d.show_minimize_button,
        Setting::ShowMaximizeButton => d.show_maximize_button,
    }
}

/// The message that sets `s` to `value`.
pub open spec fn setting_message(s: Setting, value: bool) -> DesktopMessage {
    match s {
        Setting::TopLeftHotCorner => DesktopMessage::TopLeftHotCorner(value),
        Setting::ShowWorkspacesButton => DesktopMessage::ShowWorkspacesButton(value),
        Setting::ShowApplicationsButton => DesktopMessage::ShowApplicationsButton(value),
        Setting::ShowMinimizeButton => DesktopMessage::ShowMinimizeButton(value),
        Setting::ShowMaximizeButton => DesktopMessage::ShowMaximizeButton(value),
    }
}

impl DesktopState {
    /// The current value of one option.
    pub fn get(&self, s: Setting) -> (r: bool)
        ensures
            r == setting_value(*self, s),
    {
        match s {
            Setting::TopLeftHotCorner => self.top_left_hot_corner,
            Setting::ShowWorkspacesButton => self.show_workspaces_button,
            Setting::ShowApplicationsButton => self.show_applications_button,
            Setting::ShowMinimizeButton => self.show_minimize_button,
            Setting::ShowMaximizeButton => self.show_maximize_button,
        }
    }
}

impl Setting {
    /// The message that sets this option to `value`.
    pub fn message(self, value: bool) -> (r: DesktopMessage)
        ensures
            r == setting_message(self, value),
    {
        match self {
            Setting::TopLeftHotCorner => DesktopMessage::TopLeftHotCorner(value),
            Setting::ShowWorkspacesButton => DesktopMessage::ShowWorkspacesButton(value),
            Setting::ShowApplicationsButton => DesktopMessage::ShowApplicationsButton(value),
            Setting::ShowMinimizeButton => DesktopMessage::ShowMinimizeButton(value),
            Setting::ShowMaximizeButton => DesktopMessage::ShowMaximizeButton(value),
        }
    }
}

} // verus!
