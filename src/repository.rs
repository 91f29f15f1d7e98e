//! The state repository's two algorithms, apart from the database calls:
//! a load rebuilds the snapshot from the rows read back, and a save turns
//! the snapshot into the rows that replace the store's whole content.

use crate::model::{
    entries_view, groups_view, opt_state_view, opt_text, AppEntry, AppEntryView, Group,
    GroupView, LauncherState, LauncherStateView, STATE_VERSION,
};
use crate::rows::{
    app_rows_view, group_rows_view, AppRow, AppRowView, GroupRow, GroupRowView, StoreRows,
    StoreRowsView,
};
use crate::text::{blank, is_blank};
use vstd::prelude::*;

verus! {

/// The entry that an `apps` row stands for: blank argument text is read as
/// "no arguments".
pub open spec fn entry_of_row(r: AppRowView) -> AppEntryView {
    AppEntryView {
        id: r.id,
        name: r.name,
        path: r.path,
        args: if is_blank(r.args) {
            None
        } else {
            Some(r.args)
        },
        added_at: r.added_at,
    }
}

pub open spec fn in_group(gid: Seq<char>) -> spec_fn(AppRowView) -> bool {
    |r: AppRowView| r.group_id == gid
}

/// The rows of `rows` that belong to the group `gid`, in their order.
pub open spec fn rows_of_group(rows: Seq<AppRowView>, gid: Seq<char>) -> Seq<AppRowView> {
    rows.filter(in_group(gid))
}

/// The apps of group `gid` as a load attaches them.
pub open spec fn apps_of_group(rows: Seq<AppRowView>, gid: Seq<char>) -> Seq<AppEntryView> {
    rows_of_group(rows, gid).map_values(|r: AppRowView| entry_of_row(r))
}

pub open spec fn group_of_row(g: GroupRowView, apps: Seq<AppRowView>) -> GroupView {
    GroupView { id: g.id, name: g.name, apps: apps_of_group(apps, g.id) }
}

pub open spec fn has_group(groups: Seq<GroupRowView>, id: Seq<char>) -> bool {
    exists|i: int| 0 <= i < groups.len() && #[trigger] groups[i].id == id
}

/// Optional text as a `NOT NULL` column holds it: absent is the empty text.
pub open spec fn stored_text(o: Option<Seq<char>>) -> Seq<char> {
    match o {
        Some(s) => s,
        None => Seq::empty(),
    }
}

/// The active group a load reports: the stored id where it is non-empty and
/// names a group, else the first group's id (empty when there is none).
pub open spec fn resolved_active(stored: Option<Seq<char>>, groups: Seq<GroupRowView>) -> Seq<
    char,
> {
    let id = stored_text(stored);
    if id.len() > 0 && has_group(groups, id) {
        id
    } else if groups.len() > 0 {
        groups[0].id
    } else {
        Seq::empty()
    }
}

/// What a load returns for the rows read: nothing while no group is stored,
/// else every group in the order read, each with its own apps.
pub open spec fn loaded_state(rows: StoreRowsView) -> Option<LauncherStateView> {
    if rows.groups.len() == 0 {
        None
    } else {
        Some(
            LauncherStateView {
                version: STATE_VERSION,
                active_group_id: resolved_active(rows.active_group_id, rows.groups),
                groups: rows.groups.map_values(|g: GroupRowView| group_of_row(g, rows.apps)),
            },
        )
    }
}

proof fn lemma_apps_of_group_step(rows: Seq<AppRowView>, gid: Seq<char>, i: int)
    requires
        0 <= i < rows.len(),
    ensures
        apps_of_group(rows.subrange(0, i + 1), gid) == if rows[i].group_id == gid {
            apps_of_group(rows.subrange(0, i), gid).push(entry_of_row(rows[i]))
        } else {
            apps_of_group(rows.subrange(0, i), gid)
        },
{
    let t = rows.subrange(0, i + 1);
    assert(t.drop_last() =~= rows.subrange(0, i));
    assert(t.last() == rows[i]);
    let f = |r: AppRowView| entry_of_row(r);
    let before = rows_of_group(rows.subrange(0, i), gid);
    reveal_with_fuel(Seq::filter, 1);
    assert(rows_of_group(t, gid) == if rows[i].group_id == gid {
        before.push(rows[i])
    } else {
        before
    });
    assert(before.push(rows[i]).map_values(f) =~= before.map_values(f).push(f(rows[i])));
}

/// The entry that an `apps` row stands for.
pub fn entry_from_row(row: &AppRow) -> (e: AppEntry)
    ensures
        e@ == entry_of_row(row@),
{
    let args = if blank(row.args.as_str()) {
        None
    } else {
        Some(row.args.clone())
    };
    AppEntry {
        id: row.id.clone(),
        name: row.name.clone(),
        path: row.path.clone(),
        args,
        added_at: row.added_at,
    }
}

/// The entries of the rows that belong to `group_id`, in the order of `rows`.
pub fn apps_for_group(rows: &Vec<AppRow>, group_id: &String) -> (apps: Vec<AppEntry>)
    ensures
        entries_view(apps@) == apps_of_group(app_rows_view(rows@), group_id@),
{
    let ghost rv = app_rows_view(rows@);
    let mut apps: Vec<AppEntry> = Vec::new();
    let mut i: usize = 0;
    while i < rows.len()
        invariant
            i <= rows.len(),
            rv == app_rows_view(rows@),
            entries_view(apps@) == apps_of_group(rv.subrange(0, i as int), group_id@),
        decreases rows.len() - i,
    {
        proof {
            lemma_apps_of_group_step(rv, group_id@, i as int);
        }
        if rows[i].group_id == *group_id {
            let e = entry_from_row(&rows[i]);
            let ghost prev = apps@;
            apps.push(e);
            proof {
                assert(entries_view(apps@) =~= entries_view(prev).push(e@));
            }
        }
        i += 1;
    }
    proof {
        assert(rv.subrange(0, rows.len() as int) =~= rv);
    }
    apps
}

/// The active group id that a load reports for the stored meta value.
pub fn resolve_active(stored: &Option<String>, groups: &Vec<GroupRow>) -> (r: String)
    ensures
        r@ == resolved_active(opt_text(*stored), group_rows_view(groups@)),
{
    let ghost gv = group_rows_view(groups@);
    let id: String = match stored {
        Some(s) => s.clone(),
        None => String::new(),
    };
    if !id.as_str().is_empty() {
        let mut i: usize = 0;
        while i < groups.len()
            invariant
                i <= groups.len(),
                gv == group_rows_view(groups@),
                id@ == stored_text(opt_text(*stored)),
                id@.len() > 0,
                forall|k: int| 0 <= k < i ==> gv[k].id != id@,
            decreases groups.len() - i,
        {
            if groups[i].id == id {
                assert(gv[i as int].id == id@);
                assert(has_group(gv, id@));
                return id;
            }
            i += 1;
        }
    }
    if groups.len() > 0 {
        groups[0].id.clone()
    } else {
        String::new()
    }
}

/// Load's reconstruction: the snapshot that the rows read from the store
/// stand for, or `None` when no group is stored.
pub fn state_from_rows(rows: &StoreRows) -> (r: Option<LauncherState>)
    ensures
        opt_state_view(r) == loaded_state(rows@),
        r is None <==> rows.groups@.len() == 0,
{
    if rows.groups.len() == 0 {
        return None;
    }
    let active = resolve_active(&rows.active_group_id, &rows.groups);
    let ghost gv = group_rows_view(rows.groups@);
    let ghost av = app_rows_view(rows.apps@);
    let mut groups: Vec<Group> = Vec::new();
    let mut i: usize = 0;
    while i < rows.groups.len()
        invariant
            i <= rows.groups.len(),
            gv == group_rows_view(rows.groups@),
            av == app_rows_view(rows.apps@),
            groups@.len() == i,
            forall|k: int| 0 <= k < i ==> (#[trigger] groups@[k])@ == group_of_row(gv[k], av),
        decreases rows.groups.len() - i,
    {
        let row = &rows.groups[i];
        let apps = apps_for_group(&rows.apps, &row.id);
        groups.push(Group { id: row.id.clone(), name: row.name.clone(), apps });
        i += 1;
    }
    let state = LauncherState { version: STATE_VERSION, active_group_id: active, groups };
    proof {
        assert(groups_view(state.groups@) =~= gv.map_values(|g: GroupRowView| group_of_row(g, av)));
    }
    Some(state)
}


pub open spec fn group_row_of(g: GroupView, i: int) -> GroupRowView {
    GroupRowView { id: g.id, name: g.name, position: i as i64 }
}

pub open spec fn app_row_of(gid: Seq<char>, a: AppEntryView, j: int) -> AppRowView {
    AppRowView {
        id: a.id,
        group_id: gid,
        name: a.name,
        path: a.path,
        args: stored_text(a.args),
        position: j as i64,
        added_at: a.added_at,
    }
}

/// The `apps` rows of one group: its entries in order, at positions 0, 1, ...
pub open spec fn app_rows_of_group(g: GroupView) -> Seq<AppRowView> {
    Seq::new(g.apps.len(), |j: int| app_row_of(g.id, g.apps[j], j))
}

/// The `apps` rows of all groups, group after group.
pub open spec fn app_rows_of(groups: Seq<GroupView>) -> Seq<AppRowView>
    decreases groups.len(),
{
    if groups.len() == 0 {
        Seq::empty()
    } else {
        app_rows_of(groups.drop_last()) + app_rows_of_group(groups.last())
    }
}

/// The store's whole content after a save of `s`: the active id verbatim,
/// each group at its index and each app at its index inside its group.
pub open spec fn saved_rows(s: LauncherStateView) -> StoreRowsView {
    StoreRowsView {
        active_group_id: Some(s.active_group_id),
        groups: Seq::new(s.groups.len(), |i: int| group_row_of(s.groups[i], i)),
        apps: app_rows_of(s.groups),
    }
}

/// Every position of `s` fits the store's 64-bit integer column.
pub open spec fn positions_fit(s: LauncherStateView) -> bool {
    s.groups.len() <= i64::MAX && forall|i: int|
        0 <= i < s.groups.len() ==> #[trigger] s.groups[i].apps.len() <= i64::MAX
}

/// Appends the `apps` rows of `group` to `out`.
fn push_app_rows(group: &Group, out: &mut Vec<AppRow>)
    requires
        group.apps.len() <= i64::MAX,
    ensures
        app_rows_view(final(out)@) == app_rows_view(old(out)@) + app_rows_of_group(group@),
{
    let ghost start = app_rows_view(out@);
    let ghost g = group@;
    let mut j: usize = 0;
    while j < group.apps.len()
        invariant
            j <= group.apps.len(),
            group.apps.len() <= i64::MAX,
            g == group@,
            app_rows_view(out@) == start + app_rows_of_group(g).subrange(0, j as int),
        decreases group.apps.len() - j,
    {
        let a = &group.apps[j];
        let args = match &a.args {
            Some(t) => t.clone(),
            None => String::new(),
        };
        let row = AppRow {
            id: a.id.clone(),
            group_id: group.id.clone(),
            name: a.name.clone(),
            path: a.path.clone(),
            args,
            position: j as i64,
            added_at: a.added_at,
        };
        let ghost prev = out@;
        out.push(row);
        proof {
            assert(g.apps[j as int] == a@);
            assert(row@ == app_row_of(g.id, g.apps[j as int], j as int));
            assert(app_rows_view(out@) =~= app_rows_view(prev).push(row@));
            assert(app_rows_of_group(g).subrange(0, j + 1) =~= app_rows_of_group(g).subrange(
                0,
                j as int,
            ).push(row@));
            assert(app_rows_view(out@) =~= start + app_rows_of_group(g).subrange(0, j + 1));
        }
        j += 1;
    }
    proof {
        assert(app_rows_of_group(g).subrange(0, j as int) =~= app_rows_of_group(g));
    }
}

/// Save's rows: the content that replaces the whole store for `state`.
pub fn rows_from_state(state: &LauncherState) -> (rows: StoreRows)
    requires
        positions_fit(state@),
    ensures
        rows@ == saved_rows(state@),
{
    let ghost sv = state@;
    let mut groups: Vec<GroupRow> = Vec::new();
    let mut apps: Vec<AppRow> = Vec::new();
    let mut i: usize = 0;
    while i < state.groups.len()
        invariant
            i <= state.groups.len(),
            sv == state@,
            positions_fit(sv),
            groups@.len() == i,
            forall|k: int| 0 <= k < i ==> (#[trigger] groups@[k])@ == group_row_of(sv.groups[k], k),
            app_rows_view(apps@) == app_rows_of(sv.groups.subrange(0, i as int)),
        decreases state.groups.len() - i,
    {
        let g = &state.groups[i];
        assert(sv.groups[i as int] == g@);
        assert(g@.apps.len() <= i64::MAX);
        groups.push(GroupRow { id: g.id.clone(), name: g.name.clone(), position: i as i64 });
        push_app_rows(g, &mut apps);
        proof {
            let next = sv.groups.subrange(0, i + 1);
            assert(next.drop_last() =~= sv.groups.subrange(0, i as int));
            assert(next.last() == g@);
        }
        i += 1;
    }
    let rows = StoreRows { active_group_id: Some(state.active_group_id.clone()), groups, apps };
    proof {
        assert(sv.groups.subrange(0, i as int) =~= sv.groups);
        assert(rows@.groups =~= saved_rows(sv).groups);
    }
    rows
}

} // verus!
