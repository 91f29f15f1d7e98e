//! What holds across a save and the load that follows it.

use crate::model::{AppEntryView, GroupView, LauncherStateView, STATE_VERSION};
use crate::repository::{
    app_row_of, app_rows_of, app_rows_of_group, group_of_row, has_group,
    in_group, loaded_state, positions_fit, rows_of_group, saved_rows,
};
use crate::rows::{AppRowView, StoreRowsView};
use crate::text::is_blank;
use vstd::prelude::*;

verus! {

/// What a load reads from the store after a save wrote `saved`, each table
/// ordered by position: the same meta value; the group rows as written,
/// since the save numbered them 0, 1, ...; and app rows in which the rows of
/// each group keep the order in which they were written, since inside one
/// group the save numbered them 0, 1, ... as well. How rows of different
/// groups that share a position interleave is left open.
pub open spec fn reads_back(saved: StoreRowsView, read: StoreRowsView) -> bool {
    &&& read.active_group_id == saved.active_group_id
    &&& read.groups == saved.groups
    &&& forall|gid: Seq<char>| #[trigger]
        rows_of_group(read.apps, gid) == rows_of_group(saved.apps, gid)
}

/// The store's content before anything was ever saved.
pub open spec fn fresh_store() -> StoreRowsView {
    StoreRowsView { active_group_id: None, groups: Seq::empty(), apps: Seq::empty() }
}

/// No two groups share an id (the `groups` table's primary key).
pub open spec fn unique_group_ids(groups: Seq<GroupView>) -> bool {
    forall|i: int, j: int|
        0 <= i < groups.len() && 0 <= j < groups.len() && i != j ==> #[trigger] groups[i].id
            != #[trigger] groups[j].id
}

pub open spec fn names_group(groups: Seq<GroupView>, id: Seq<char>) -> bool {
    exists|i: int| 0 <= i < groups.len() && #[trigger] groups[i].id == id
}

/// The entry as it comes back from the store: arguments that are absent or
/// blank come back absent.
pub open spec fn canonical_entry(a: AppEntryView) -> AppEntryView {
    AppEntryView {
        id: a.id,
        name: a.name,
        path: a.path,
        args: match a.args {
            Some(t) => if is_blank(t) {
                None
            } else {
                Some(t)
            },
            None => None,
        },
        added_at: a.added_at,
    }
}

pub open spec fn canonical_group(g: GroupView) -> GroupView {
    GroupView { id: g.id, name: g.name, apps: g.apps.map_values(|a: AppEntryView| canonical_entry(a)) }
}

/// Every argument text of `s` is absent or holds more than white space.
pub open spec fn args_canonical(s: LauncherStateView) -> bool {
    forall|i: int, j: int|
        0 <= i < s.groups.len() && 0 <= j < s.groups[i].apps.len() ==> ((
        #[trigger] s.groups[i].apps[j]).args matches Some(t) ==> !is_blank(t))
}

/// The active id a load reports after a save of `s`.
pub open spec fn reported_active(s: LauncherStateView) -> Seq<char> {
    if s.active_group_id.len() > 0 && names_group(s.groups, s.active_group_id) {
        s.active_group_id
    } else {
        s.groups[0].id
    }
}

proof fn lemma_rows_all_in_group(rows: Seq<AppRowView>, gid: Seq<char>)
    requires
        forall|i: int| 0 <= i < rows.len() ==> (#[trigger] rows[i]).group_id == gid,
    ensures
        rows_of_group(rows, gid) == rows,
    decreases rows.len(),
{
    if rows.len() > 0 {
        lemma_rows_all_in_group(rows.drop_last(), gid);
        reveal_with_fuel(Seq::filter, 1);
        assert(rows.drop_last().push(rows.last()) =~= rows);
    }
}

proof fn lemma_rows_none_in_group(rows: Seq<AppRowView>, gid: Seq<char>)
    requires
        forall|i: int| 0 <= i < rows.len() ==> (#[trigger] rows[i]).group_id != gid,
    ensures
        rows_of_group(rows, gid) == Seq::<AppRowView>::empty(),
    decreases rows.len(),
{
    if rows.len() > 0 {
        lemma_rows_none_in_group(rows.drop_last(), gid);
        reveal_with_fuel(Seq::filter, 1);
    }
}

/// The saved rows of a group id that no group carries: none.
proof fn lemma_saved_rows_of_unknown_id(gs: Seq<GroupView>, gid: Seq<char>)
    requires
        forall|k: int| 0 <= k < gs.len() ==> (#[trigger] gs[k]).id != gid,
    ensures
        rows_of_group(app_rows_of(gs), gid) == Seq::<AppRowView>::empty(),
    decreases gs.len(),
{
    if gs.len() > 0 {
        let pre = gs.drop_last();
        lemma_saved_rows_of_unknown_id(pre, gid);
        lemma_rows_none_in_group(app_rows_of_group(gs.last()), gid);
        Seq::filter_distributes_over_add(app_rows_of(pre), app_rows_of_group(gs.last()), in_group(gid));
        assert(Seq::<AppRowView>::empty() + Seq::<AppRowView>::empty() =~= Seq::<AppRowView>::empty());
    }
}

/// The saved rows of one group's id: that group's rows, as written.
proof fn lemma_saved_rows_of_group(gs: Seq<GroupView>, k: int)
    requires
        unique_group_ids(gs),
        0 <= k < gs.len(),
    ensures
        rows_of_group(app_rows_of(gs), gs[k].id) == app_rows_of_group(gs[k]),
    decreases gs.len(),
{
    let gid = gs[k].id;
    let pre = gs.drop_last();
    let last = gs.last();
    Seq::filter_distributes_over_add(app_rows_of(pre), app_rows_of_group(last), in_group(gid));
    if k == gs.len() - 1 {
        assert forall|m: int| 0 <= m < pre.len() implies (#[trigger] pre[m]).id != gid by {
            assert(gs[m].id != gs[k].id);
        }
        lemma_saved_rows_of_unknown_id(pre, gid);
        lemma_rows_all_in_group(app_rows_of_group(last), gid);
        assert(Seq::<AppRowView>::empty() + app_rows_of_group(last) =~= app_rows_of_group(last));
    } else {
        assert(unique_group_ids(pre));
        assert(pre[k] == gs[k]);
        lemma_saved_rows_of_group(pre, k);
        assert(last.id != gid);
        lemma_rows_none_in_group(app_rows_of_group(last), gid);
        assert(app_rows_of_group(gs[k]) + Seq::<AppRowView>::empty() =~= app_rows_of_group(gs[k]));
    }
}

/// Saving a snapshot that has at least one group, then loading what the
/// store reads back, gives every group back in order, each with its apps in
/// order and their arguments in stored form; the active id is the saved one
/// where it is non-empty and names a group, else the first group's id.
pub proof fn lemma_save_then_load(s: LauncherStateView, read: StoreRowsView)
    requires
        s.groups.len() > 0,
        positions_fit(s),
        unique_group_ids(s.groups),
        reads_back(saved_rows(s), read),
    ensures
        loaded_state(read) == Some(
            LauncherStateView {
                version: STATE_VERSION,
                active_group_id: reported_active(s),
                groups: s.groups.map_values(|g: GroupView| canonical_group(g)),
            },
        ),
{
    let saved = saved_rows(s);
    let loaded = loaded_state(read)->Some_0;
    assert forall|i: int| 0 <= i < s.groups.len() implies #[trigger] loaded.groups[i]
        == canonical_group(s.groups[i]) by {
        let g = s.groups[i];
        lemma_saved_rows_of_group(s.groups, i);
        assert(rows_of_group(read.apps, g.id) == rows_of_group(saved.apps, g.id));
        let got = group_of_row(read.groups[i], read.apps);
        assert(read.groups[i].id == g.id);
        assert(got.apps =~= canonical_group(g).apps) by {
            assert forall|j: int| 0 <= j < g.apps.len() implies #[trigger] got.apps[j]
                == canonical_entry(g.apps[j]) by {
                assert(app_rows_of_group(g)[j] == app_row_of(g.id, g.apps[j], j));
            }
        }
    }
    assert(loaded.groups =~= s.groups.map_values(|g: GroupView| canonical_group(g)));
    let id = s.active_group_id;
    if names_group(s.groups, id) {
        let i = choose|i: int| 0 <= i < s.groups.len() && #[trigger] s.groups[i].id == id;
        assert(read.groups[i].id == id);
    }
    if has_group(read.groups, id) {
        let i = choose|i: int| 0 <= i < read.groups.len() && #[trigger] read.groups[i].id == id;
        assert(s.groups[i].id == id);
    }
}


/// A store that nothing was saved to loads as nothing.
pub proof fn lemma_fresh_store_loads_nothing()
    ensures
        loaded_state(fresh_store()) is None,
{
}

/// A save followed by a load gives back the groups exactly, in order and
/// with their apps in order, when every argument text is absent or holds
/// more than white space; the active id comes back when it is non-empty and
/// names a group.
pub proof fn lemma_round_trip_keeps_groups(s: LauncherStateView, read: StoreRowsView)
    requires
        s.groups.len() > 0,
        positions_fit(s),
        unique_group_ids(s.groups),
        args_canonical(s),
        reads_back(saved_rows(s), read),
    ensures
        loaded_state(read) is Some,
        loaded_state(read)->Some_0.groups == s.groups,
        s.active_group_id.len() > 0 && names_group(s.groups, s.active_group_id)
            ==> loaded_state(read)->Some_0.active_group_id == s.active_group_id,
{
    lemma_save_then_load(s, read);
    let loaded = loaded_state(read)->Some_0;
    assert forall|i: int| 0 <= i < s.groups.len() implies #[trigger] canonical_group(s.groups[i])
        == s.groups[i] by {
        let g = s.groups[i];
        assert(canonical_group(g).apps =~= g.apps) by {
            assert forall|j: int| 0 <= j < g.apps.len() implies #[trigger] canonical_entry(g.apps[j])
                == g.apps[j] by {
                assert(s.groups[i].apps[j] == g.apps[j]);
            }
        }
    }
    assert(loaded.groups =~= s.groups);
}

/// When the saved active id names no group, the load after the save reports
/// the first group's id instead.
pub proof fn lemma_unknown_active_falls_back(s: LauncherStateView, read: StoreRowsView)
    requires
        s.groups.len() > 0,
        positions_fit(s),
        unique_group_ids(s.groups),
        !names_group(s.groups, s.active_group_id),
        reads_back(saved_rows(s), read),
    ensures
        loaded_state(read) is Some,
        loaded_state(read)->Some_0.active_group_id == s.groups[0].id,
{
    lemma_save_then_load(s, read);
}

/// Arguments saved absent or as the empty text come back absent.
pub proof fn lemma_empty_args_read_absent(
    s: LauncherStateView,
    read: StoreRowsView,
    i: int,
    j: int,
)
    requires
        s.groups.len() > 0,
        positions_fit(s),
        unique_group_ids(s.groups),
        reads_back(saved_rows(s), read),
        0 <= i < s.groups.len(),
        0 <= j < s.groups[i].apps.len(),
        s.groups[i].apps[j].args is None || s.groups[i].apps[j].args == Some(Seq::<char>::empty()),
    ensures
        loaded_state(read) is Some,
        loaded_state(read)->Some_0.groups[i].apps[j].args is None,
{
    lemma_save_then_load(s, read);
    let g = s.groups[i];
    assert(loaded_state(read)->Some_0.groups[i] == canonical_group(g));
    assert(canonical_group(g).apps[j] == canonical_entry(g.apps[j]));
}

/// A load after a save finds nothing exactly when the snapshot saved had no
/// group: an emptied snapshot reads as "no data", not as an empty state.
pub proof fn lemma_load_none_iff_no_groups(s: LauncherStateView, read: StoreRowsView)
    requires
        reads_back(saved_rows(s), read),
    ensures
        loaded_state(read) is None <==> s.groups.len() == 0,
{
}

/// A save replaces every row, so after a second save of the same snapshot
/// the store holds the rows of one save, and whatever order the store reads
/// them back in, the load gives the same snapshot.
pub proof fn lemma_load_after_save_is_stable(
    s: LauncherStateView,
    first: StoreRowsView,
    second: StoreRowsView,
)
    requires
        reads_back(saved_rows(s), first),
        reads_back(saved_rows(s), second),
    ensures
        loaded_state(first) == loaded_state(second),
{
    if s.groups.len() > 0 {
        let a = loaded_state(first)->Some_0;
        let b = loaded_state(second)->Some_0;
        assert forall|i: int| 0 <= i < a.groups.len() implies #[trigger] a.groups[i] == b.groups[i] by {
            let gid = first.groups[i].id;
            assert(rows_of_group(first.apps, gid) == rows_of_group(saved_rows(s).apps, gid));
            assert(rows_of_group(second.apps, gid) == rows_of_group(saved_rows(s).apps, gid));
        }
        assert(a.groups =~= b.groups);
    }
}


/// A save numbers its rows so that ordering by position gives back the order
/// of writing: group `k` sits at position `k`, and the `j`-th app row
/// written for a group sits at position `j` among that group's rows.
pub proof fn lemma_saved_positions(s: LauncherStateView, k: int, j: int)
    requires
        positions_fit(s),
        unique_group_ids(s.groups),
        0 <= k < s.groups.len(),
        0 <= j < s.groups[k].apps.len(),
    ensures
        saved_rows(s).groups[k].position == k,
        rows_of_group(saved_rows(s).apps, s.groups[k].id).len() == s.groups[k].apps.len(),
        rows_of_group(saved_rows(s).apps, s.groups[k].id)[j].position == j,
{
    lemma_saved_rows_of_group(s.groups, k);
    assert(s.groups[k].apps.len() <= i64::MAX);
}

} // verus!
