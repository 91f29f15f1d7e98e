//! The relational shape of the store: one meta value and the rows of the
//! `groups` and `apps` tables.

use vstd::prelude::*;

verus! {

/// A row of the `groups` table.
#[derive(Clone, Debug, PartialEq)]
pub struct GroupRow {
    pub id: String,
    pub name: String,
    /// Ordinal of the group among all groups, 0-based.
    pub position: i64,
}

/// A row of the `apps` table. The `args` column is never null: "no
/// arguments" is stored as the empty text.
#[derive(Clone, Debug, PartialEq)]
pub struct AppRow {
    pub id: String,
    pub group_id: String,
    pub name: String,
    pub path: String,
    pub args: String,
    /// Ordinal of the app inside its group, 0-based.
    pub position: i64,
    pub added_at: i64,
}

/// The store's content. Written by a save in this order; as read by a load,
/// the groups and the apps each come ordered by ascending position and the
/// meta value is `None` when it is missing or cannot be read.
#[derive(Clone, Debug, PartialEq)]
pub struct StoreRows {
    pub active_group_id: Option<String>,
    pub groups: Vec<GroupRow>,
    pub apps: Vec<AppRow>,
}

pub struct GroupRowView {
    pub id: Seq<char>,
    pub name: Seq<char>,
    pub position: i64,
}

pub struct AppRowView {
    pub id: Seq<char>,
    pub group_id: Seq<char>,
    pub name: Seq<char>,
    pub path: Seq<char>,
    pub args: Seq<char>,
    pub position: i64,
    pub added_at: i64,
}

pub struct StoreRowsView {
    pub active_group_id: Option<Seq<char>>,
    pub groups: Seq<GroupRowView>,
    pub apps: Seq<AppRowView>,
}

impl View for GroupRow {
    type V = GroupRowView;

    open spec fn view(&self) -> GroupRowView {
        GroupRowView { id: self.id@, name: self.name@, position: self.position }
    }
}

impl View for AppRow {
    type V = AppRowView;

    open spec fn view(&self) -> AppRowView {
        AppRowView {
            id: self.id@,
            group_id: self.group_id@,
            name: self.name@,
            path: self.path@,
            args: self.args@,
            position: self.position,
            added_at: self.added_at,
        }
    }
}

pub open spec fn group_rows_view(rows: Seq<GroupRow>) -> Seq<GroupRowView> {
    rows.map_values(|r: GroupRow| r@)
}

pub open spec fn app_rows_view(rows: Seq<AppRow>) -> Seq<AppRowView> {
    rows.map_values(|r: AppRow| r@)
}

impl View for StoreRows {
    type V = StoreRowsView;

    open spec fn view(&self) -> StoreRowsView {
        StoreRowsView {
            active_group_id: crate::model::opt_text(self.active_group_id),
            groups: group_rows_view(self.groups@),
            apps: app_rows_view(self.apps@),
        }
    }
}

} // verus!
