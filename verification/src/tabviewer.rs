use crate::actions::{actions, is_registry, BuiltIn};
use crate::tab::Tab;
use vstd::prelude::*;
use vstd::string::*;

verus! {

/// What all tabs share: the favourite paths and the registry of actions.
#[derive(Debug)]
pub struct AppData {
    pub favorites: Vec<String>,
    pub actions: Vec<BuiltIn>,
}

/// One of `favorites` is the path `path`.
pub open spec fn holds_path(favorites: Seq<String>, path: Seq<char>) -> bool {
    exists|k: int| 0 <= k < favorites.len() && (#[trigger] favorites[k])@ == path
}

impl Default for AppData {
    /// No favourites and no actions.
    fn default() -> (data: AppData)
        ensures
            data.favorites@ == Seq::<String>::empty(),
            data.actions@ == Seq::<BuiltIn>::empty(),
    {
        AppData { favorites: Vec::new(), actions: Vec::new() }
    }
}

impl AppData {
    /// No favourites yet, and the built-in actions.
    pub fn new() -> (data: AppData)
        ensures
            data.favorites@ == Seq::<String>::empty(),
            is_registry(data.actions@),
    {
        AppData { favorites: Vec::new(), actions: actions() }
    }

    /// The title of a tab: the path that was read, or a notice where the read
    /// failed.
    pub fn title(&self, tab: &Tab) -> (text: String)
        ensures
            text@ == match tab.info {
                Ok(info) => info.path@,
                Err(_) => "invalid path"@,
            },
    {
        match &tab.info {
            Ok(info) => info.path.clone(),
            Err(_) => "invalid path".to_owned(),
        }
    }

    /// The identifier of a tab.
    pub fn id(&self, tab: &Tab) -> (id: egui::Id)
        ensures
            id == tab.id,
    {
        tab.id
    }

    /// Whether `path` is among the favourites.
    pub fn is_favorite(&self, path: &str) -> (found: bool)
        ensures
            found == holds_path(self.favorites@, path@),
    {
        let wanted = path.to_owned();
        let mut i: usize = 0;
        while i < self.favorites.len()
            invariant
                i <= self.favorites.len(),
                wanted@ == path@,
                forall|k: int| 0 <= k < i ==> (#[trigger] self.favorites@[k])@ != path@,
            decreases self.favorites.len() - i,
        {
            if self.favorites[i] == wanted {
                return true;
            }
            i += 1;
        }
        false
    }

    /// Puts `path` behind the favourites, unless it is one already.
    pub fn add_favorite(&mut self, path: &str)
        ensures
            final(self).actions == old(self).actions,
            holds_path(old(self).favorites@, path@) ==> final(self).favorites == old(
                self,
            ).favorites,
            !holds_path(old(self).favorites@, path@) ==> final(self).favorites@.len() == old(
                self,
            ).favorites@.len() + 1 && final(self).favorites@.drop_last() == old(self).favorites@
                && final(self).favorites@.last()@ == path@,
    {
        if !self.is_favorite(path) {
            self.favorites.push(path.to_owned());
            proof {
                assert(self.favorites@.drop_last() =~= old(self).favorites@);
            }
        }
    }

    /// Takes the favourite at `i` away. Where there is none at `i`, nothing
    /// changes.
    pub fn remove_favorite(&mut self, i: usize)
        ensures
            final(self).actions == old(self).actions,
            i < old(self).favorites@.len() ==> final(self).favorites@ == old(
                self,
            ).favorites@.remove(i as int),
            i >= old(self).favorites@.len() ==> final(self).favorites == old(self).favorites,
    {
        if i < self.favorites.len() {
            self.favorites.remove(i);
        }
    }

    /// The path that a new tab opens on: the first favourite, and the root
    /// where there is none.
    pub fn start_path(&self) -> (path: String)
        ensures
            path@ == if self.favorites@.len() > 0 {
                self.favorites@[0]@
            } else {
                "/"@
            },
    {
        if self.favorites.len() > 0 {
            self.favorites[0].clone()
        } else {
            "/".to_owned()
        }
    }
}

} // verus!
