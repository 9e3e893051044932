use crate::files::{FileEntry, FileType, Restriction};
use vstd::prelude::*;
use vstd::string::*;

verus! {

/// What the execution of an action leaves for the tab to react to.
#[derive(Debug, PartialEq, Eq)]
pub struct ActionState {
    /// The listing must be read again.
    pub relead: bool,
    /// A new entry waits for its name: the name typed so far, and whether it
    /// will be a directory.
    pub add_entry: Option<(String, bool)>,
}

impl ActionState {
    /// The pending new entry, its name as text.
    pub open spec fn pending(&self) -> Option<(Seq<char>, bool)> {
        match self.add_entry {
            Some(request) => Some((request.0@, request.1)),
            None => None,
        }
    }

    /// Nothing is asked for.
    pub open spec fn is_empty(&self) -> bool {
        !self.relead && self.add_entry is None
    }
}

impl Default for ActionState {
    /// The state in which nothing is asked for.
    fn default() -> (state: ActionState)
        ensures
            state.is_empty(),
    {
        ActionState { relead: false, add_entry: None }
    }
}

/// What an action asks of the world outside the library. The owner of the
/// tab carries it out.
#[derive(Debug, PartialEq, Eq)]
pub enum Effect {
    /// Start the application `app_name` on `path`.
    Launch { app_name: String, path: String },
    /// Remove the regular file at `path`.
    RemoveFile { path: String },
    /// Remove the directory at `path` with all that is in it.
    RemoveDirAll { path: String },
    /// Create an empty file at `path`.
    CreateFile { path: String },
    /// Create the directory at `path` and the directories above it.
    CreateDirAll { path: String },
}

impl Effect {
    /// The creation of a directory, or else of an empty file, at `path`.
    pub fn create(path: String, is_dir: bool) -> (effect: Effect)
        ensures
            effect == if is_dir {
                Effect::CreateDirAll { path }
            } else {
                Effect::CreateFile { path }
            },
    {
        if is_dir {
            Effect::CreateDirAll { path }
        } else {
            Effect::CreateFile { path }
        }
    }
}

/// The text under which an action is offered for a set of entries.
pub trait GetName {
    /// The name for `entries`.
    spec fn name_for(&self, entries: Seq<&FileEntry>) -> Seq<char>;

    /// The name for `entries`, as a text to show.
    fn get_name(&self, entries: &Vec<&FileEntry>) -> (name: String)
        ensures
            name@ == self.name_for(entries@),
    ;
}

/// Whether an action is offered for a set of entries. `is_main` says that the
/// set is the directory itself, nothing being selected.
pub trait CanExecute {
    /// Whether the action is offered for `entries`.
    spec fn allows(&self, entries: Seq<&FileEntry>, is_main: bool) -> bool;

    /// Decides whether the action is offered for `entries`. Nothing is kept
    /// from one call to the next.
    fn can_execute(&self, entries: &Vec<&FileEntry>, is_main: bool) -> (allowed: bool)
        ensures
            allowed == self.allows(entries@, is_main),
    ;
}

/// What an action does with one entry. It writes to the state it is handed
/// and to nothing else; what it wants done outside is its result.
pub trait Execute {
    /// What is to be done outside for `entry`, if anything.
    spec fn effect_on(&self, entry: FileEntry) -> Option<Effect>;

    /// Whether a reload is asked for after the execution on `entry`, where
    /// `before` says whether one was asked for already.
    spec fn relead_after(&self, entry: FileEntry, before: bool) -> bool;

    /// The new entry that waits for its name after the execution on `entry`,
    /// where `before` is the one that waited already.
    spec fn pending_after(&self, entry: FileEntry, before: Option<(Seq<char>, bool)>) -> Option<
        (Seq<char>, bool),
    >;

    /// Executes on one entry.
    fn execute(&self, entry: &FileEntry, state: &mut ActionState) -> (effect: Option<Effect>)
        ensures
            effect == self.effect_on(*entry),
            final(state).relead == self.relead_after(*entry, old(state).relead),
            final(state).pending() == self.pending_after(*entry, old(state).pending()),
    ;
}

impl GetName for String {
    /// A text is the name it holds, whatever the entries.
    open spec fn name_for(&self, entries: Seq<&FileEntry>) -> Seq<char> {
        self@
    }

    fn get_name(&self, entries: &Vec<&FileEntry>) -> (name: String) {
        self.clone()
    }
}

impl CanExecute for Restriction {
    /// Every entry of the set meets the restriction.
    open spec fn allows(&self, entries: Seq<&FileEntry>, is_main: bool) -> bool {
        forall|i: int|
            0 <= i < entries.len() ==> self.holds(
                (#[trigger] entries[i]).file_type == FileType::Directory,
                is_main,
            )
    }

    fn can_execute(&self, entries: &Vec<&FileEntry>, is_main: bool) -> (allowed: bool) {
        let mut i: usize = 0;
        while i < entries.len()
            invariant
                i <= entries.len(),
                forall|k: int|
                    0 <= k < i ==> self.holds(
                        (#[trigger] entries@[k]).file_type == FileType::Directory,
                        is_main,
                    ),
            decreases entries.len() - i,
        {
            if !entries[i].fullfills(self, is_main) {
                return false;
            }
            i += 1;
        }
        true
    }
}

/// The operations that the built-in actions perform.
#[derive(Debug, PartialEq, Eq)]
pub enum Operation {
    /// Ask for the name of a new file, or of a new directory.
    AddEntry { is_dir: bool },
    /// Open the entry with the application of this name.
    OpenWith { app_name: String },
    /// Remove the entry, a directory with all that is in it, and have the
    /// listing read again.
    Delete,
}

impl Execute for Operation {
    /// Adding an entry does nothing outside yet. Opening launches the
    /// application on the path of the entry. Deleting removes a regular file,
    /// or a directory with all that is in it, and leaves anything else alone.
    open spec fn effect_on(&self, entry: FileEntry) -> Option<Effect> {
        match self {
            Operation::AddEntry { is_dir } => None,
            Operation::OpenWith { app_name } => Some(
                Effect::Launch { app_name: *app_name, path: entry.path },
            ),
            Operation::Delete => match entry.file_type {
                FileType::File => Some(Effect::RemoveFile { path: entry.path }),
                FileType::Directory => Some(Effect::RemoveDirAll { path: entry.path }),
                FileType::Other => None,
            },
        }
    }

    /// Deleting asks for a reload; the others leave the request as it is.
    open spec fn relead_after(&self, entry: FileEntry, before: bool) -> bool {
        match self {
            Operation::Delete => true,
            _ => before,
        }
    }

    /// Adding an entry makes one wait with an empty name; the others leave
    /// what waits as it is.
    open spec fn pending_after(&self, entry: FileEntry, before: Option<(Seq<char>, bool)>) -> Option<
        (Seq<char>, bool),
    > {
        match self {
            Operation::AddEntry { is_dir } => Some((Seq::<char>::empty(), *is_dir)),
            _ => before,
        }
    }

    fn execute(&self, entry: &FileEntry, state: &mut ActionState) -> (effect: Option<Effect>) {
        match self {
            Operation::AddEntry { is_dir } => {
                state.add_entry = Some((String::new(), *is_dir));
                None
            },
            Operation::OpenWith { app_name } => {
                Some(Effect::Launch { app_name: app_name.clone(), path: entry.path.clone() })
            },
            Operation::Delete => {
                state.relead = true;
                match entry.file_type {
                    FileType::File => Some(Effect::RemoveFile { path: entry.path.clone() }),
                    FileType::Directory => Some(Effect::RemoveDirAll { path: entry.path.clone() }),
                    FileType::Other => None,
                }
            },
        }
    }
}

/// What is to be done outside after an execution on each entry of a set, in
/// the order of the set.
pub open spec fn effects_on<E: Execute>(execute: E, entries: Seq<&FileEntry>) -> Seq<Effect>
    decreases entries.len(),
{
    if entries.len() == 0 {
        Seq::empty()
    } else {
        let before = effects_on(execute, entries.drop_last());
        match execute.effect_on(*entries.last()) {
            Some(effect) => before.push(effect),
            None => before,
        }
    }
}

/// Whether a reload is asked for after an execution on each entry of a set,
/// in the order of the set.
pub open spec fn relead_over<E: Execute>(execute: E, entries: Seq<&FileEntry>, before: bool) -> bool
    decreases entries.len(),
{
    if entries.len() == 0 {
        before
    } else {
        execute.relead_after(*entries.last(), relead_over(execute, entries.drop_last(), before))
    }
}

/// The new entry that waits for its name after an execution on each entry of
/// a set, in the order of the set.
pub open spec fn pending_over<E: Execute>(
    execute: E,
    entries: Seq<&FileEntry>,
    before: Option<(Seq<char>, bool)>,
) -> Option<(Seq<char>, bool)>
    decreases entries.len(),
{
    if entries.len() == 0 {
        before
    } else {
        execute.pending_after(*entries.last(), pending_over(execute, entries.drop_last(), before))
    }
}

/// A built-in operation leaves the same state behind on a set of entries as
/// on one entry, however many the set holds.
pub proof fn built_in_settles(
    operation: Operation,
    entries: Seq<&FileEntry>,
    relead: bool,
    pending: Option<(Seq<char>, bool)>,
)
    requires
        entries.len() > 0,
    ensures
        relead_over(operation, entries, relead) == operation.relead_after(*entries[0], relead),
        pending_over(operation, entries, pending) == operation.pending_after(*entries[0], pending),
    decreases entries.len(),
{
    let rest = entries.drop_last();
    if entries.len() > 1 {
        built_in_settles(operation, rest, relead, pending);
        assert(rest[0] == entries[0]);
    } else {
        assert(relead_over(operation, rest, relead) == relead);
        assert(pending_over(operation, rest, pending) == pending);
    }
}

/// A named operation that is offered where its restriction holds: a name, a
/// test of availability and an execution, each behind its own interface.
#[derive(Debug, PartialEq, Eq)]
pub struct Action<N, C, E> {
    pub name: N,
    pub can_execute: C,
    pub execute: E,
}

/// An action as the registry holds it.
pub type BuiltIn = Action<String, Restriction, Operation>;

impl<N: GetName, C: CanExecute, E: Execute> Action<N, C, E> {
    /// The action with this name, this test of availability and this
    /// execution.
    pub fn new(name: N, can_execute: C, execute: E) -> (action: Self)
        ensures
            action.name == name,
            action.can_execute == can_execute,
            action.execute == execute,
    {
        Action { name, can_execute, execute }
    }

    /// The text under which the action is offered for `entries`.
    pub fn label(&self, entries: &Vec<&FileEntry>) -> (name: String)
        ensures
            name@ == self.name.name_for(entries@),
    {
        self.name.get_name(entries)
    }

    /// Whether the action is offered for `entries`.
    pub fn is_available(&self, entries: &Vec<&FileEntry>, is_main: bool) -> (allowed: bool)
        ensures
            allowed == self.can_execute.allows(entries@, is_main),
    {
        self.can_execute.can_execute(entries, is_main)
    }

    /// Executes the action once on each entry, in order, and hands back what
    /// is to be done outside, in the same order.
    pub fn run(&self, entries: &Vec<&FileEntry>, state: &mut ActionState) -> (effects: Vec<Effect>)
        ensures
            effects@ == effects_on(self.execute, entries@),
            final(state).relead == relead_over(self.execute, entries@, old(state).relead),
            final(state).pending() == pending_over(self.execute, entries@, old(state).pending()),
            entries@.len() == 0 ==> *final(state) == *old(state),
    {
        let mut effects: Vec<Effect> = Vec::new();
        let mut i: usize = 0;
        while i < entries.len()
            invariant
                i <= entries.len(),
                effects@ == effects_on(self.execute, entries@.take(i as int)),
                state.relead == relead_over(
                    self.execute,
                    entries@.take(i as int),
                    old(state).relead,
                ),
                state.pending() == pending_over(
                    self.execute,
                    entries@.take(i as int),
                    old(state).pending(),
                ),
                i == 0 ==> *state == *old(state),
            decreases entries.len() - i,
        {
            proof {
                assert(entries@.take(i + 1).drop_last() =~= entries@.take(i as int));
            }
            match self.execute.execute(entries[i], state) {
                Some(effect) => effects.push(effect),
                None => {},
            }
            i += 1;
        }
        proof {
            assert(entries@.take(i as int) =~= entries@);
        }
        effects
    }
}

impl Action<String, Restriction, Operation> {
    /// An action whose name does not depend on the entries, offered where
    /// every entry meets `restriction`.
    pub fn constant(
        display_name: &'static str,
        restriction: Restriction,
        execute: Operation,
    ) -> (action: BuiltIn)
        ensures
            action.name@ == display_name@,
            action.can_execute == restriction,
            action.execute == execute,
    {
        Action::new(display_name.to_owned(), restriction, execute)
    }

    /// An action that opens an entry with the application `app_name`.
    pub fn open_with(
        app_name: &'static str,
        display_name: &'static str,
        restriction: Restriction,
    ) -> (action: BuiltIn)
        ensures
            action.name@ == display_name@,
            action.can_execute == restriction,
            action.execute matches Operation::OpenWith { app_name: opened } && opened@ == app_name@,
    {
        Action::new(
            display_name.to_owned(),
            restriction,
            Operation::OpenWith { app_name: app_name.to_owned() },
        )
    }
}

/// `action` has the name `name` and is offered where `restriction` holds.
pub open spec fn offers(action: BuiltIn, name: Seq<char>, restriction: Restriction) -> bool {
    action.name@ == name && action.can_execute == restriction
}

/// `action` opens an entry with the application `app_name`.
pub open spec fn opens_with(action: BuiltIn, app_name: Seq<char>) -> bool {
    action.execute matches Operation::OpenWith { app_name: opened } && opened@ == app_name
}

/// `list` is the registry of the built-in actions: two that add an entry to
/// the directory itself, four that open an entry with an application, and
/// one that deletes what is selected.
pub open spec fn is_registry(list: Seq<BuiltIn>) -> bool {
    &&& list.len() == 7
    &&& offers(list[0], "add file"@, Restriction::Main)
    &&& list[0].execute == (Operation::AddEntry { is_dir: false })
    &&& offers(list[1], "add dir"@, Restriction::Main)
    &&& list[1].execute == (Operation::AddEntry { is_dir: true })
    &&& offers(list[2], "vscode"@, Restriction::Any)
    &&& opens_with(list[2], "Visual Studio Code"@)
    &&& offers(list[3], "terminal"@, Restriction::Folder)
    &&& opens_with(list[3], "Terminal"@)
    &&& offers(list[4], "finder"@, Restriction::Folder)
    &&& opens_with(list[4], "Finder"@)
    &&& offers(list[5], "zed"@, Restriction::Any)
    &&& opens_with(list[5], "Zed"@)
    &&& offers(list[6], "delete"@, Restriction::Not(Box::new(Restriction::Main)))
    &&& list[6].execute == Operation::Delete
}

/// Every entry of the set is a directory.
pub open spec fn all_folders(entries: Seq<&FileEntry>) -> bool {
    forall|i: int| 0 <= i < entries.len() ==> (#[trigger] entries[i]).file_type == FileType::Directory
}

/// For which sets the built-in actions are offered. The two that add an
/// entry are offered for the directory itself only; the one that deletes is
/// offered for anything but the directory itself; of those that open, two
/// take every entry and two take directories only.
pub proof fn registry_offers(list: Seq<BuiltIn>, entries: Seq<&FileEntry>, is_main: bool)
    requires
        is_registry(list),
        entries.len() > 0,
    ensures
        list[0].can_execute.allows(entries, is_main) <==> is_main,
        list[1].can_execute.allows(entries, is_main) <==> is_main,
        list[2].can_execute.allows(entries, is_main),
        list[3].can_execute.allows(entries, is_main) <==> all_folders(entries),
        list[4].can_execute.allows(entries, is_main) <==> all_folders(entries),
        list[5].can_execute.allows(entries, is_main),
        list[6].can_execute.allows(entries, is_main) <==> !is_main,
{
    let first = entries[0];
    let not_main = Restriction::Not(Box::new(Restriction::Main));
    assert(forall|is_dir: bool| not_main.holds(is_dir, is_main) == !Restriction::Main.holds(is_dir, is_main));
    assert(Restriction::Main.allows(entries, is_main) ==> Restriction::Main.holds(
        first.file_type == FileType::Directory,
        is_main,
    ));
    assert(not_main.allows(entries, is_main) ==> not_main.holds(
        first.file_type == FileType::Directory,
        is_main,
    ));
}

/// The built-in actions, in the order in which they are offered.
pub fn actions() -> (list: Vec<BuiltIn>)
    ensures
        is_registry(list@),
{
    let mut actions: Vec<BuiltIn> = Vec::new();
    actions.push(
        Action::constant("add file", Restriction::Main, Operation::AddEntry { is_dir: false }),
    );
    actions.push(
        Action::constant("add dir", Restriction::Main, Operation::AddEntry { is_dir: true }),
    );
    actions.push(Action::open_with("Visual Studio Code", "vscode", Restriction::Any));
    actions.push(Action::open_with("Terminal", "terminal", Restriction::Folder));
    actions.push(Action::open_with("Finder", "finder", Restriction::Folder));
    actions.push(Action::open_with("Zed", "zed", Restriction::Any));
    actions.push(
        Action::constant("delete", Restriction::Not(Box::new(Restriction::Main)), Operation::Delete),
    );
    actions
}

} // verus!
