//! The in-memory snapshot handed to `save` and returned by `load`.

use vstd::prelude::*;

verus! {

/// The only version tag that snapshots carry so far.
pub const STATE_VERSION: u8 = 1;

/// One application shortcut inside a group.
#[derive(Clone, Debug, PartialEq)]
pub struct AppEntry {
    pub id: String,
    pub name: String,
    pub path: String,
    /// Launch arguments as a single string; `None` means "no arguments".
    pub args: Option<String>,
    pub added_at: i64,
}

/// A named, ordered list of shortcuts.
#[derive(Clone, Debug, PartialEq)]
pub struct Group {
    pub id: String,
    pub name: String,
    pub apps: Vec<AppEntry>,
}

/// The whole hierarchy: every group, in display order, and the group shown by
/// default.
#[derive(Clone, Debug, PartialEq)]
pub struct LauncherState {
    pub version: u8,
    pub active_group_id: String,
    pub groups: Vec<Group>,
}

pub struct AppEntryView {
    pub id: Seq<char>,
    pub name: Seq<char>,
    pub path: Seq<char>,
    pub args: Option<Seq<char>>,
    pub added_at: i64,
}

pub struct GroupView {
    pub id: Seq<char>,
    pub name: Seq<char>,
    pub apps: Seq<AppEntryView>,
}

pub struct LauncherStateView {
    pub version: u8,
    pub active_group_id: Seq<char>,
    pub groups: Seq<GroupView>,
}

pub open spec fn opt_text(o: Option<String>) -> Option<Seq<char>> {
    match o {
        Some(s) => Some(s@),
        None => None,
    }
}

impl View for AppEntry {
    type V = AppEntryView;

    open spec fn view(&self) -> AppEntryView {
        AppEntryView {
            id: self.id@,
            name: self.name@,
            path: self.path@,
            args: opt_text(self.args),
            added_at: self.added_at,
        }
    }
}

pub open spec fn entries_view(apps: Seq<AppEntry>) -> Seq<AppEntryView> {
    apps.map_values(|a: AppEntry| a@)
}

impl View for Group {
    type V = GroupView;

    open spec fn view(&self) -> GroupView {
        GroupView { id: self.id@, name: self.name@, apps: entries_view(self.apps@) }
    }
}

pub open spec fn groups_view(groups: Seq<Group>) -> Seq<GroupView> {
    groups.map_values(|g: Group| g@)
}

impl View for LauncherState {
    type V = LauncherStateView;

    open spec fn view(&self) -> LauncherStateView {
        LauncherStateView {
            version: self.version,
            active_group_id: self.active_group_id@,
            groups: groups_view(self.groups@),
        }
    }
}

pub open spec fn opt_state_view(o: Option<LauncherState>) -> Option<LauncherStateView> {
    match o {
        Some(s) => Some(s@),
        None => None,
    }
}

} // verus!
