//! The tabs of the editor's two dock areas.

use vstd::prelude::*;

verus! {

/// A tab of the central dock area.
#[derive(Clone, Copy, Debug, PartialEq, Eq, Structural)]
pub enum CentralPanelTab {
    /// Shows the frames of the running game.
    Viewport,
    /// Holds the script editor.
    Scripting,
}

impl CentralPanelTab {
    /// The title on the tab.
    pub fn title(&self) -> (title: &'static str)
        ensures
            title@ == match *self {
                CentralPanelTab::Viewport => "Viewport"@,
                CentralPanelTab::Scripting => "Scripting"@,
            },
    {
        match self {
            CentralPanelTab::Viewport => "Viewport",
            CentralPanelTab::Scripting => "Scripting",
        }
    }

    /// Whether the user may close the tab: never.
    pub fn is_closeable(&self) -> (closeable: bool)
        ensures
            !closeable,
    {
        false
    }
}

/// A tab of the side dock area.
#[derive(Clone, Copy, Debug, PartialEq, Eq, Structural)]
pub enum SidePanelTab {
    /// Lists the files of the project.
    FileExplorer,
}

impl SidePanelTab {
    /// The title on the tab.
    pub fn title(&self) -> (title: &'static str)
        ensures
            title@ == "File Explorer"@,
    {
        "File Explorer"
    }

    /// Whether the user may close the tab: never.
    pub fn is_closeable(&self) -> (closeable: bool)
        ensures
            !closeable,
    {
        false
    }
}

} // verus!
