use crate::actions::{
    effects_on, pending_over, relead_over, Action, ActionState, CanExecute, Effect, Execute,
    GetName, Operation,
};
use crate::files::{
    all_wf, entries_outcome, get_entries, get_meta, meta_outcome, FileEntry, IoError, Listing,
    Stat,
};
use crate::sorting::ordered;
use crate::paths::{join_path, parent_of, path_join, path_parent};
use std::collections::HashSet;
use vstd::prelude::*;
use vstd::string::*;

verus! {

broadcast use vstd::std_specs::hash::group_hash_axioms;

/// `egui::Id`, the identifier under which the interface knows a tab. The
/// library hands it on and never looks into it.
#[verifier::external_type_specification]
#[verifier::external_body]
pub struct ExId(egui::Id);

/// The rows from `first` to `i`, both included, whichever of the two is the
/// smaller.
pub open spec fn span(first: usize, i: usize) -> Set<usize> {
    Set::new(|x: usize| (first <= x <= i) || (i <= x <= first))
}

/// The selection after a click on row `i`, where `anchor` is the row clicked
/// before, if any.
///
/// With shift and an anchor the rows from the anchor to `i` are added. Else,
/// with command, row `i` alone changes sides. With neither key a click on a
/// selected row clears the selection, and a click on another row makes that
/// row the selection. Shift alone without an anchor changes nothing.
pub open spec fn clicked(
    selected: Set<usize>,
    anchor: Option<usize>,
    i: usize,
    shift: bool,
    command: bool,
) -> Set<usize> {
    if shift && anchor is Some {
        selected.union(span(anchor->Some_0, i))
    } else if command {
        if selected.contains(i) {
            selected.remove(i)
        } else {
            selected.insert(i)
        }
    } else if shift {
        selected
    } else if selected.contains(i) {
        Set::empty()
    } else {
        Set::empty().insert(i)
    }
}

/// The entries among the first `n` of `list` whose row is selected, in the
/// order of the listing.
pub open spec fn picked<'a>(list: Seq<FileEntry>, selected: Set<usize>, n: int) -> Seq<
    &'a FileEntry,
>
    decreases n,
{
    if n <= 0 {
        Seq::empty()
    } else if selected.contains((n - 1) as usize) {
        picked(list, selected, n - 1).push(&list[n - 1])
    } else {
        picked(list, selected, n - 1)
    }
}

/// The entries that an action is considered for. With nothing selected it is
/// the directory itself, if it could be read; otherwise the selected entries
/// of the listing.
pub open spec fn candidates<'a>(
    info: Result<FileEntry, IoError>,
    entries: Result<Vec<FileEntry>, IoError>,
    selected: Set<usize>,
) -> Seq<&'a FileEntry> {
    if selected.is_empty() {
        match info {
            Ok(entry) => seq![&entry],
            Err(_) => Seq::empty(),
        }
    } else {
        match entries {
            Ok(list) => picked(list@, selected, list@.len() as int),
            Err(_) => Seq::empty(),
        }
    }
}

fn candidates_of<'a>(
    info: &'a Result<FileEntry, IoError>,
    entries: &'a Result<Vec<FileEntry>, IoError>,
    selected: &HashSet<usize>,
) -> (found: Vec<&'a FileEntry>)
    ensures
        found@ == candidates(*info, *entries, selected@),
{
    let mut found: Vec<&FileEntry> = Vec::new();
    if selected.is_empty() {
        match info {
            Ok(entry) => {
                found.push(entry);
                assert(found@ =~= seq![entry]);
            },
            Err(_) => {},
        }
    } else {
        match entries {
            Ok(list) => {
                let mut i: usize = 0;
                while i < list.len()
                    invariant
                        i <= list.len(),
                        found@ == picked(list@, selected@, i as int),
                    decreases list.len() - i,
                {
                    if selected.contains(&i) {
                        found.push(&list[i]);
                    }
                    i += 1;
                }
            },
            Err(_) => {},
        }
    }
    found
}

/// One navigation context: the path it shows, what was read there, what is
/// selected, where it has been, and what the last action left behind.
#[derive(Debug)]
pub struct Tab {
    pub id: egui::Id,
    pub path: String,
    pub search: String,
    pub info: Result<FileEntry, IoError>,
    pub entries: Result<Vec<FileEntry>, IoError>,
    pub selected_entries: HashSet<usize>,
    pub last_clicked_entry: Option<usize>,
    pub previous_paths: Vec<String>,
    pub previous_paths2: Vec<String>,
    pub state: ActionState,
    /// What went wrong outside while the effects of the last action were
    /// carried out, in the order in which it was reported.
    pub failures: Vec<IoError>,
}

impl Tab {
    /// What holds of every tab that the library has made and changed: each
    /// entry on show has the final component of its path as its name, and
    /// the listing is in order.
    pub open spec fn wf(&self) -> bool {
        &&& self.info is Ok ==> self.info->Ok_0.wf()
        &&& self.entries is Ok ==> ordered(self.entries->Ok_0@) && all_wf(self.entries->Ok_0@)
    }

    /// The tab shows what was read at `path`: its own metadata from `stat`
    /// and its children from `listing`, with no search text, nothing
    /// selected, no row clicked and nothing left by an action.
    pub open spec fn shows_fresh(
        &self,
        path: Seq<char>,
        stat: Stat,
        listing: Listing,
    ) -> bool {
        &&& self.path@ == path
        &&& self.search@ == Seq::<char>::empty()
        &&& meta_outcome(path, stat, self.info)
        &&& entries_outcome(listing, self.entries)
        &&& self.selected_entries@ == Set::<usize>::empty()
        &&& self.last_clicked_entry is None
        &&& self.state.is_empty()
    }

    /// The tab is what `before` becomes when what was read at `path` takes
    /// the place of what it showed: the same identity and the same failures,
    /// the path that `before` had on top of its way back, and no way forward.
    pub open spec fn refreshed_from(
        &self,
        before: Tab,
        path: Seq<char>,
        stat: Stat,
        listing: Listing,
    ) -> bool {
        &&& self.id == before.id
        &&& self.shows_fresh(path, stat, listing)
        &&& self.previous_paths@ == before.previous_paths@.push(before.path)
        &&& self.previous_paths2@ == Seq::<String>::empty()
        &&& self.failures == before.failures
    }

    /// The tab is what `before` becomes when it goes back: `before` itself
    /// where it has no way back; otherwise a tab of the same identity that
    /// shows what was read at the top of the way back of `before`, with that
    /// path gone from the way back and the path of `before` on top of the way
    /// forward.
    pub open spec fn went_back_from(
        &self,
        before: Tab,
        stat: Stat,
        listing: Listing,
    ) -> bool {
        if before.previous_paths@.len() == 0 {
            *self == before
        } else {
            &&& self.id == before.id
            &&& self.shows_fresh(before.previous_paths@.last()@, stat, listing)
            &&& self.previous_paths@ == before.previous_paths@.drop_last()
            &&& self.previous_paths2@ == before.previous_paths2@.push(before.path)
            &&& self.failures == before.failures
        }
    }

    /// The metadata on show was read successfully at `path`.
    pub open spec fn is_at(&self, path: Seq<char>) -> bool {
        self.info is Ok && self.info->Ok_0.path@ == path
    }

    /// Nothing is selected, so an action is about the directory itself.
    pub open spec fn is_main_spec(&self) -> bool {
        self.selected_entries@.is_empty()
    }

    /// A tab on `path`, from what the filesystem gave when `path` was read. A
    /// path that could not be read makes a tab all the same: it shows the
    /// error.
    pub fn new2(
        path: &str,
        id: egui::Id,
        stat: Stat,
        listing: Listing,
    ) -> (tab: Tab)
        ensures
            tab.wf(),
            tab.id == id,
            tab.shows_fresh(path@, stat, listing),
            tab.previous_paths@ == Seq::<String>::empty(),
            tab.previous_paths2@ == Seq::<String>::empty(),
            tab.failures@ == Seq::<IoError>::empty(),
    {
        let info = get_meta(path, stat);
        let entries = get_entries(listing);
        Tab {
            id,
            path: path.to_owned(),
            search: String::new(),
            info,
            entries,
            selected_entries: HashSet::new(),
            last_clicked_entry: None,
            previous_paths: Vec::new(),
            previous_paths2: Vec::new(),
            state: ActionState::default(),
            failures: Vec::new(),
        }
    }

    /// Whether going to `path` needs a read: it does unless the tab already
    /// shows a successful read of that very path. Where the answer is yes,
    /// the owner reads `path` and hands the outcome to `refresh_hard`.
    pub fn refresh(&self, path: &str) -> (must_read: bool)
        ensures
            must_read == !self.is_at(path@),
    {
        match &self.info {
            Ok(entry) => {
                let wanted = path.to_owned();
                !(entry.path == wanted)
            },
            Err(_) => true,
        }
    }

    /// Replaces what the tab shows by what was read at `path`. The path left
    /// goes on top of the way back, the way forward is forgotten, and the tab
    /// keeps its identity and the failures reported to it.
    pub fn refresh_hard(
        &mut self,
        path: &str,
        stat: Stat,
        listing: Listing,
    )
        ensures
            final(self).wf(),
            final(self).refreshed_from(*old(self), path@, stat, listing),
    {
        let mut new = Tab::new2(path, self.id, stat, listing);
        new.previous_paths.append(&mut self.previous_paths);
        new.previous_paths.push(self.path.clone());
        std::mem::swap(&mut new.failures, &mut self.failures);
        *self = new;
    }

    /// The path that `navigate_back` would go to, if there is a way back.
    pub fn back_target(&self) -> (target: Option<String>)
        ensures
            target == if self.previous_paths@.len() == 0 {
                None::<String>
            } else {
                Some(self.previous_paths@.last())
            },
    {
        if self.previous_paths.len() == 0 {
            None
        } else {
            Some(self.previous_paths[self.previous_paths.len() - 1].clone())
        }
    }

    /// Goes back to the most recent path of the way back, which the owner has
    /// read: `stat` and `listing` are the outcome. That path leaves the way
    /// back, and the path left goes on top of the way forward. With no way
    /// back nothing changes.
    pub fn navigate_back(
        &mut self,
        stat: Stat,
        listing: Listing,
    )
        ensures
            old(self).wf() ==> final(self).wf(),
            final(self).went_back_from(*old(self), stat, listing),
    {
        if self.previous_paths.len() == 0 {
            return ;
        }
        let last = self.previous_paths.pop().unwrap();
        let mut new = Tab::new2(last.as_str(), self.id, stat, listing);
        new.previous_paths.append(&mut self.previous_paths);
        new.previous_paths2.append(&mut self.previous_paths2);
        new.previous_paths2.push(self.path.clone());
        std::mem::swap(&mut new.failures, &mut self.failures);
        *self = new;
    }

    /// What `go_up` answers when the parent of the path is `parent`: the
    /// parent, unless there is none or the tab already shows it.
    pub fn go_up_to(&self, parent: Option<String>) -> (target: Option<String>)
        ensures
            target == match parent {
                Some(p) => if self.is_at(p@) {
                    None
                } else {
                    Some(p)
                },
                None => None,
            },
    {
        match parent {
            Some(p) => {
                if self.refresh(p.as_str()) {
                    Some(p)
                } else {
                    None
                }
            },
            None => None,
        }
    }

    /// The path to read in order to go to the parent directory, or nothing
    /// where the path has no parent or the tab already shows it.
    pub fn go_up(&self) -> (target: Option<String>)
        ensures
            match target {
                Some(p) => path_parent(self.path@) == Some(p@) && !self.is_at(p@),
                None => path_parent(self.path@) is None || self.is_at(
                    path_parent(self.path@)->Some_0,
                ),
            },
    {
        self.go_up_to(parent_of(self.path.as_str()))
    }

    /// A click on row `i` of the listing with the modifier keys as given.
    /// Whatever it does to the selection, row `i` is the anchor afterwards.
    pub fn click(&mut self, i: usize, shift: bool, command: bool)
        ensures
            final(self).selected_entries@ == clicked(
                old(self).selected_entries@,
                old(self).last_clicked_entry,
                i,
                shift,
                command,
            ),
            final(self).last_clicked_entry == Some(i),
            final(self).id == old(self).id,
            final(self).path == old(self).path,
            final(self).search == old(self).search,
            final(self).info == old(self).info,
            final(self).entries == old(self).entries,
            final(self).previous_paths == old(self).previous_paths,
            final(self).previous_paths2 == old(self).previous_paths2,
            final(self).state == old(self).state,
            final(self).failures == old(self).failures,
    {
        let ghost before = self.selected_entries@;
        let anchor = self.last_clicked_entry;
        if shift && anchor.is_some() {
            let first = anchor.unwrap();
            let lo = if first <= i {
                first
            } else {
                i
            };
            let hi = if first <= i {
                i
            } else {
                first
            };
            let mut x: usize = lo;
            while x < hi
                invariant
                    lo <= x <= hi,
                    self.selected_entries@ == before.union(Set::new(|y: usize| lo <= y < x)),
                    self.last_clicked_entry == old(self).last_clicked_entry,
                    self.id == old(self).id,
                    self.path == old(self).path,
                    self.search == old(self).search,
                    self.info == old(self).info,
                    self.entries == old(self).entries,
                    self.previous_paths == old(self).previous_paths,
                    self.previous_paths2 == old(self).previous_paths2,
                    self.state == old(self).state,
                    self.failures == old(self).failures,
                decreases hi - x,
            {
                self.selected_entries.insert(x);
                proof {
                    assert(self.selected_entries@ =~= before.union(
                        Set::new(|y: usize| lo <= y < x + 1),
                    ));
                }
                x += 1;
            }
            self.selected_entries.insert(hi);
            proof {
                assert(self.selected_entries@ =~= before.union(span(first, i)));
            }
        } else if command {
            if self.selected_entries.contains(&i) {
                self.selected_entries.remove(&i);
            } else {
                self.selected_entries.insert(i);
            }
        } else if shift {
        } else if self.selected_entries.contains(&i) {
            self.selected_entries.clear();
        } else {
            self.selected_entries.clear();
            self.selected_entries.insert(i);
        }
        self.last_clicked_entry = Some(i);
    }

    /// Whether the row of `entry` is shown under the search text of the tab.
    pub fn is_visible(&self, entry: &FileEntry) -> (shown: bool)
        ensures
            shown == crate::search::passes(entry.file_name@, self.search@),
    {
        crate::search::matches_search(entry.file_name.as_str(), self.search.as_str())
    }

    /// Whether an action would be about the directory itself: nothing is
    /// selected.
    pub fn is_main(&self) -> (main: bool)
        ensures
            main == self.is_main_spec(),
    {
        self.selected_entries.is_empty()
    }

    /// The entries that an action is considered for.
    pub fn action_entries(&self) -> (found: Vec<&FileEntry>)
        ensures
            found@ == candidates(self.info, self.entries, self.selected_entries@),
    {
        candidates_of(&self.info, &self.entries, &self.selected_entries)
    }

    /// Forgets the request for a reload, as every pass over the tab begins. A
    /// new entry that waits for its name goes on waiting.
    pub fn begin_pass(&mut self)
        ensures
            !final(self).state.relead,
            final(self).state.add_entry == old(self).state.add_entry,
            final(self).id == old(self).id,
            final(self).path == old(self).path,
            final(self).search == old(self).search,
            final(self).info == old(self).info,
            final(self).entries == old(self).entries,
            final(self).selected_entries == old(self).selected_entries,
            final(self).last_clicked_entry == old(self).last_clicked_entry,
            final(self).previous_paths == old(self).previous_paths,
            final(self).previous_paths2 == old(self).previous_paths2,
            final(self).failures == old(self).failures,
    {
        self.state.relead = false;
    }

    /// Takes note of a failure that the owner met while it carried out an
    /// effect, so that it can be shown.
    pub fn note_failure(&mut self, failure: IoError)
        ensures
            final(self).failures@ == old(self).failures@.push(failure),
            final(self).id == old(self).id,
            final(self).path == old(self).path,
            final(self).search == old(self).search,
            final(self).info == old(self).info,
            final(self).entries == old(self).entries,
            final(self).selected_entries == old(self).selected_entries,
            final(self).last_clicked_entry == old(self).last_clicked_entry,
            final(self).previous_paths == old(self).previous_paths,
            final(self).previous_paths2 == old(self).previous_paths2,
            final(self).state == old(self).state,
    {
        self.failures.push(failure);
    }

    /// Invokes `action` on the entries it is considered for, if it is
    /// available for them, and hands back what is to be done outside. An
    /// action that is not available does nothing. Either way the failures of
    /// the action before are forgotten.
    pub fn invoke<N: GetName, C: CanExecute, E: Execute>(
        &mut self,
        action: &Action<N, C, E>,
    ) -> (effects: Vec<Effect>)
        ensures
            final(self).failures@ == Seq::<IoError>::empty(),
            final(self).id == old(self).id,
            final(self).path == old(self).path,
            final(self).search == old(self).search,
            final(self).info == old(self).info,
            final(self).entries == old(self).entries,
            final(self).selected_entries == old(self).selected_entries,
            final(self).last_clicked_entry == old(self).last_clicked_entry,
            final(self).previous_paths == old(self).previous_paths,
            final(self).previous_paths2 == old(self).previous_paths2,
            ({
                let targets = candidates(
                    old(self).info,
                    old(self).entries,
                    old(self).selected_entries@,
                );
                if action.can_execute.allows(targets, old(self).is_main_spec()) {
                    &&& effects@ == effects_on(action.execute, targets)
                    &&& final(self).state.relead == relead_over(
                        action.execute,
                        targets,
                        old(self).state.relead,
                    )
                    &&& final(self).state.pending() == pending_over(
                        action.execute,
                        targets,
                        old(self).state.pending(),
                    )
                    &&& targets.len() == 0 ==> final(self).state == old(self).state
                } else {
                    effects@ == Seq::<Effect>::empty() && final(self).state == old(self).state
                }
            }),
    {
        self.failures.clear();
        let is_main = self.selected_entries.is_empty();
        let targets = candidates_of(&self.info, &self.entries, &self.selected_entries);
        if action.is_available(&targets, is_main) {
            action.run(&targets, &mut self.state)
        } else {
            Vec::new()
        }
    }

    /// The path to read again after a pass, where an action has asked for a
    /// reload: always the path of the tab, whatever it shows.
    pub fn reload_target(&self) -> (target: Option<String>)
        ensures
            target == if self.state.relead {
                Some(self.path)
            } else {
                None::<String>
            },
    {
        if self.state.relead {
            Some(self.path.clone())
        } else {
            None
        }
    }

    /// Confirms the name of the new entry that waits for it. The entry is to
    /// be created below the path of the tab, a reload is asked for, and
    /// nothing waits any more. Where no entry waits, nothing changes.
    pub fn commit_entry(&mut self) -> (effect: Option<Effect>)
        ensures
            final(self).failures == old(self).failures,
            final(self).id == old(self).id,
            final(self).path == old(self).path,
            final(self).search == old(self).search,
            final(self).info == old(self).info,
            final(self).entries == old(self).entries,
            final(self).selected_entries == old(self).selected_entries,
            final(self).last_clicked_entry == old(self).last_clicked_entry,
            final(self).previous_paths == old(self).previous_paths,
            final(self).previous_paths2 == old(self).previous_paths2,
            match old(self).state.add_entry {
                None => effect is None && final(self).state == old(self).state,
                Some(request) => {
                    &&& final(self).state.relead
                    &&& final(self).state.add_entry is None
                    &&& effect is Some
                    &&& creates(
                        effect->Some_0,
                        path_join(old(self).path@, request.0@),
                        request.1,
                    )
                },
            },
    {
        match self.state.add_entry.take() {
            None => None,
            Some(request) => {
                let target = join_path(self.path.as_str(), request.0.as_str());
                self.state.relead = true;
                Some(Effect::create(target, request.1))
            },
        }
    }
}

/// `effect` creates a directory, or else an empty file, at `path`.
pub open spec fn creates(effect: Effect, path: Seq<char>, is_dir: bool) -> bool {
    match effect {
        Effect::CreateDirAll { path: target } => is_dir && target@ == path,
        Effect::CreateFile { path: target } => !is_dir && target@ == path,
        _ => false,
    }
}

/// Two plain clicks on the same row, one after the other, undo each other
/// where the row was not selected before: nothing is selected afterwards.
/// Where it was selected, the first click clears the selection and the second
/// selects the row alone.
pub proof fn click_twice(selected: Set<usize>, anchor: Option<usize>, i: usize)
    ensures
        !selected.contains(i) ==> clicked(
            clicked(selected, anchor, i, false, false),
            Some(i),
            i,
            false,
            false,
        ) == Set::<usize>::empty(),
        selected.contains(i) ==> clicked(
            clicked(selected, anchor, i, false, false),
            Some(i),
            i,
            false,
            false,
        ) == Set::<usize>::empty().insert(i),
{
}

/// A click with shift adds the rows between the anchor and the row clicked,
/// both included, and takes none away: a row is selected afterwards exactly
/// if it was before or lies in that range.
pub proof fn shift_click_adds_range(
    selected: Set<usize>,
    anchor: usize,
    i: usize,
    command: bool,
    x: usize,
)
    ensures
        clicked(selected, Some(anchor), i, true, command).contains(x) <==> selected.contains(x) || (
        anchor <= x <= i) || (i <= x <= anchor),
{
}

/// A click with command changes the side of the row clicked and of no other
/// row.
pub proof fn command_click_toggles(selected: Set<usize>, anchor: Option<usize>, i: usize, x: usize)
    ensures
        clicked(selected, anchor, i, false, true).contains(x) <==> if x == i {
            !selected.contains(x)
        } else {
            selected.contains(x)
        },
{
}

/// Going back after a hard refresh returns to the path that the refresh
/// left: the tab shows that path again, its way back is what it was before
/// the refresh, and the path that the refresh went to is the way forward.
pub proof fn back_undoes_refresh(
    start: Tab,
    there: Tab,
    back: Tab,
    path: Seq<char>,
    stat: Stat,
    listing: Listing,
    stat_back: Stat,
    listing_back: Listing,
)
    requires
        there.refreshed_from(start, path, stat, listing),
        back.went_back_from(there, stat_back, listing_back),
    ensures
        back.id == start.id,
        back.path@ == start.path@,
        back.previous_paths@ == start.previous_paths@,
        back.previous_paths2@ == seq![there.path],
        back.shows_fresh(start.path@, stat_back, listing_back),
{
    assert(there.previous_paths@.last() == start.path);
    assert(there.previous_paths@.drop_last() =~= start.previous_paths@);
    assert(back.previous_paths2@ =~= seq![there.path]);
}

/// A tab that shows a successful read of `path` needs no further read to go
/// to `path`: `refresh` answers no, whatever was read.
pub proof fn refresh_is_idle_after_read(
    before: Tab,
    tab: Tab,
    path: Seq<char>,
    stat: Stat,
    listing: Listing,
)
    requires
        tab.refreshed_from(before, path, stat, listing),
        stat is Ok,
    ensures
        tab.is_at(path),
{
}

/// `entry` is the entry of the selected row `k` of `list`.
pub open spec fn is_selected_row(
    list: Seq<FileEntry>,
    selected: Set<usize>,
    k: int,
    entry: FileEntry,
) -> bool {
    0 <= k < list.len() && k <= usize::MAX && selected.contains(k as usize) && entry == list[k]
}

/// `entry` is the entry of a selected row of `list` below row `n`.
pub open spec fn is_selected_below(
    list: Seq<FileEntry>,
    selected: Set<usize>,
    n: int,
    entry: FileEntry,
) -> bool {
    exists|k: int| k < n && #[trigger] is_selected_row(list, selected, k, entry)
}

/// With nothing selected an action is about the directory itself and about
/// nothing else. With rows selected it is about the selected entries of the
/// listing: each of them, no other, in the order of the listing.
pub proof fn candidates_are_the_selection(
    info: Result<FileEntry, IoError>,
    entries: Result<Vec<FileEntry>, IoError>,
    selected: Set<usize>,
)
    requires
        info is Ok,
        entries is Ok,
    ensures
        selected.is_empty() ==> candidates(info, entries, selected) == seq![&info->Ok_0],
        !selected.is_empty() ==> candidates(info, entries, selected) == picked(
            entries->Ok_0@,
            selected,
            entries->Ok_0@.len() as int,
        ),
        forall|j: int|
            0 <= j < picked(entries->Ok_0@, selected, entries->Ok_0@.len() as int).len()
                ==> is_selected_below(
                entries->Ok_0@,
                selected,
                entries->Ok_0@.len() as int,
                *(#[trigger] picked(entries->Ok_0@, selected, entries->Ok_0@.len() as int)[j]),
            ),
        forall|k: int|
            0 <= k < entries->Ok_0@.len() && selected.contains(k as usize) ==> picked(
                entries->Ok_0@,
                selected,
                entries->Ok_0@.len() as int,
            ).contains(&#[trigger] entries->Ok_0@[k]),
{
    assert(entries->Ok_0@.len() == entries->Ok_0.len());
    picked_members(entries->Ok_0@, selected, entries->Ok_0@.len() as int);
}

/// What `picked` holds: for each selected row below `n` its entry, and
/// nothing else.
pub proof fn picked_members(list: Seq<FileEntry>, selected: Set<usize>, n: int)
    requires
        0 <= n <= list.len(),
        n <= usize::MAX,
    ensures
        forall|j: int|
            0 <= j < picked(list, selected, n).len() ==> is_selected_below(
                list,
                selected,
                n,
                *(#[trigger] picked(list, selected, n)[j]),
            ),
        forall|k: int|
            0 <= k < n && selected.contains(k as usize) ==> picked(list, selected, n).contains(
                &#[trigger] list[k],
            ),
    decreases n,
{
    if n > 0 {
        picked_members(list, selected, n - 1);
        let before = picked(list, selected, n - 1);
        let now = picked(list, selected, n);
        assert forall|j: int| 0 <= j < now.len() implies is_selected_below(
            list,
            selected,
            n,
            *(#[trigger] now[j]),
        ) by {
            if j < before.len() {
                assert(now[j] == before[j]);
                assert(is_selected_below(list, selected, n - 1, *before[j]));
                let k = choose|k: int|
                    k < n - 1 && #[trigger] is_selected_row(list, selected, k, *before[j]);
                assert(k < n && is_selected_row(list, selected, k, *now[j]));
            } else {
                assert(is_selected_row(list, selected, n - 1, *now[j]));
            }
        }
        assert forall|k: int| 0 <= k < n && selected.contains(k as usize) implies now.contains(
            &#[trigger] list[k],
        ) by {
            if k < n - 1 {
                assert(before.contains(&list[k]));
                let j = choose|j: int| 0 <= j < before.len() && before[j] == &list[k];
                assert(now[j] == &list[k]);
            } else {
                assert(now[now.len() - 1] == &list[k]);
            }
        }
    }
}

/// The delete action asks for a reload whenever it runs on an entry, and a
/// tab that has just been read again asks for none: one run of the action is
/// followed by one reload.
pub proof fn delete_reloads_once(
    entries: Seq<&FileEntry>,
    before: bool,
    tab: Tab,
    path: Seq<char>,
    stat: Stat,
    listing: Listing,
)
    requires
        entries.len() > 0,
        tab.shows_fresh(path, stat, listing),
    ensures
        relead_over(Operation::Delete, entries, before),
        !tab.state.relead,
{
    crate::actions::built_in_settles(Operation::Delete, entries, before, None);
}

} // verus!
