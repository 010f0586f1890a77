//! The table of commands, looked up by canonical name or alias.
use vstd::prelude::*;
use crate::text::{lower, lower_string};

verus! {

/// The handlers this bot can run.
#[derive(Clone, Copy, Debug, PartialEq, Eq, Structural)]
pub enum Handler {
    /// Gives the invoking member a role named by the arguments.
    RoleAssignment,
}

/// A registered command.
pub struct CommandDescriptor {
    /// Canonical name.
    pub name: String,
    /// Further names the command answers to.
    pub aliases: Vec<String>,
    /// The group the command is listed under.
    pub group: String,
    pub handler: Handler,
}

/// Why a command could not be registered.
#[derive(Clone, Copy, Debug, PartialEq, Eq, Structural)]
pub enum RegistryError {
    /// One of its names, compared case-insensitively, is already taken or given twice.
    DuplicateName,
}

/// The canonical name of `d` followed by its aliases.
pub open spec fn names_of(d: CommandDescriptor) -> Seq<Seq<char>> {
    seq![d.name@] + d.aliases@.map_values(|a: String| a@)
}

/// Whether `d` answers to the already lower-cased name `key`.
pub open spec fn answers_to(d: CommandDescriptor, key: Seq<char>) -> bool {
    exists|j: int| 0 <= j < names_of(d).len() && #[trigger] lower(names_of(d)[j]) == key
}

/// Whether no two names of `d` are equal once lower-cased.
pub open spec fn names_distinct(d: CommandDescriptor) -> bool {
    forall|j1: int, j2: int|
        0 <= j1 < j2 < names_of(d).len() ==> lower(#[trigger] names_of(d)[j1]) != lower(
            #[trigger] names_of(d)[j2],
        )
}

/// Commands in order of registration; no lower-cased name belongs to two of them.
pub struct CommandRegistry {
    commands: Vec<CommandDescriptor>,
}

impl View for CommandRegistry {
    type V = Seq<CommandDescriptor>;

    closed spec fn view(&self) -> Seq<CommandDescriptor> {
        self.commands@
    }
}

/// The lower-cased names of `d`.
fn lowered_names(d: &CommandDescriptor) -> (r: Vec<String>)
    ensures
        r@.len() == names_of(*d).len(),
        forall|j: int| 0 <= j < r@.len() ==> #[trigger] r@[j]@ == lower(names_of(*d)[j]),
{
    let mut r: Vec<String> = Vec::new();
    r.push(lower_string(d.name.as_str()));
    let mut j: usize = 0;
    while j < d.aliases.len()
        invariant
            j <= d.aliases@.len(),
            r@.len() == j + 1,
            forall|k: int| 0 <= k < r@.len() ==> #[trigger] r@[k]@ == lower(names_of(*d)[k]),
        decreases d.aliases@.len() - j,
    {
        r.push(lower_string(d.aliases[j].as_str()));
        j = j + 1;
    }
    r
}

/// Whether `d` answers to the lower-cased name `key`.
fn answers(d: &CommandDescriptor, key: &String) -> (r: bool)
    ensures
        r == answers_to(*d, key@),
{
    let names = lowered_names(d);
    let mut j: usize = 0;
    while j < names.len()
        invariant
            j <= names@.len() == names_of(*d).len(),
            forall|k: int| 0 <= k < names@.len() ==> #[trigger] names@[k]@ == lower(names_of(*d)[k]),
            forall|k: int| 0 <= k < j ==> lower(names_of(*d)[k]) != key@,
        decreases names@.len() - j,
    {
        if names[j] == *key {
            assert(lower(names_of(*d)[j as int]) == key@);
            return true;
        }
        j = j + 1;
    }
    false
}

impl CommandRegistry {
    /// Whether no lower-cased name belongs to two commands.
    pub open spec fn wf(&self) -> bool {
        forall|i1: int, i2: int, key: Seq<char>|
            0 <= i1 < self@.len() && 0 <= i2 < self@.len() && i1 != i2 && #[trigger] answers_to(
                self@[i1],
                key,
            ) ==> !#[trigger] answers_to(self@[i2], key)
    }

    /// The command that answers to the lower-cased name `key`, if any.
    pub open spec fn resolve(&self, key: Seq<char>) -> Option<int> {
        if exists|i: int| 0 <= i < self@.len() && #[trigger] answers_to(self@[i], key) {
            Some(choose|i: int| 0 <= i < self@.len() && #[trigger] answers_to(self@[i], key))
        } else {
            None
        }
    }

    /// An empty registry.
    pub fn new() -> (r: CommandRegistry)
        ensures
            r.wf(),
            r@ == Seq::<CommandDescriptor>::empty(),
    {
        CommandRegistry { commands: Vec::new() }
    }

    /// Number of registered commands.
    pub fn len(&self) -> (r: usize)
        ensures
            r == self@.len(),
    {
        self.commands.len()
    }

    /// The command registered in position `i`.
    pub fn descriptor(&self, i: usize) -> (r: &CommandDescriptor)
        requires
            i < self@.len(),
        ensures
            *r == self@[i as int],
    {
        &self.commands[i]
    }

    /// Position of the command answering to the lower-cased name `key`.
    fn find_key(&self, key: &String) -> (r: Option<usize>)
        ensures
            match r {
                Some(i) => i < self@.len() && answers_to(self@[i as int], key@),
                None => forall|i: int| 0 <= i < self@.len() ==> !#[trigger] answers_to(self@[i], key@),
            },
    {
        let mut i: usize = 0;
        while i < self.commands.len()
            invariant
                i <= self@.len(),
                forall|k: int| 0 <= k < i ==> !#[trigger] answers_to(self@[k], key@),
            decreases self@.len() - i,
        {
            if answers(&self.commands[i], key) {
                return Some(i);
            }
            i = i + 1;
        }
        None
    }

    /// Finds the command that answers to `name`, compared case-insensitively.
    pub fn lookup(&self, name: &str) -> (r: Option<usize>)
        requires
            self.wf(),
        ensures
            match r {
                Some(i) => self.resolve(lower(name@)) == Some(i as int),
                None => self.resolve(lower(name@)) is None,
            },
    {
        let key = lower_string(name);
        let r = self.find_key(&key);
        proof {
            if let Some(i) = r {
                let c = choose|c: int| 0 <= c < self@.len() && #[trigger] answers_to(self@[c], key@);
                assert(answers_to(self@[i as int], key@));
                if c != i {
                    assert(!answers_to(self@[c], key@));
                }
            }
        }
        r
    }

    /// Adds `d` under its canonical name and every alias. Fails, leaving the
    /// registry as it was, when one of those names is taken or given twice.
    pub fn register(&mut self, d: CommandDescriptor) -> (r: Result<(), RegistryError>)
        requires
            old(self).wf(),
        ensures
            final(self).wf(),
            r is Ok <==> names_distinct(d) && forall|i: int, j: int|
                0 <= i < old(self)@.len() && 0 <= j < names_of(d).len() ==> !#[trigger] answers_to(
                    old(self)@[i],
                    lower(#[trigger] names_of(d)[j]),
                ),
            r is Ok ==> final(self)@ == old(self)@.push(d),
            r is Err ==> final(self)@ == old(self)@,
    {
        let names = lowered_names(&d);
        let mut j: usize = 0;
        while j < names.len()
            invariant
                self@ == old(self)@,
                self.wf(),
                j <= names@.len() == names_of(d).len(),
                forall|k: int| 0 <= k < names@.len() ==> #[trigger] names@[k]@ == lower(names_of(d)[k]),
                forall|j1: int, j2: int|
                    0 <= j1 < j2 < j ==> lower(#[trigger] names_of(d)[j1]) != lower(
                        #[trigger] names_of(d)[j2],
                    ),
                forall|i: int, k: int|
                    0 <= i < self@.len() && 0 <= k < j ==> !#[trigger] answers_to(
                        self@[i],
                        lower(#[trigger] names_of(d)[k]),
                    ),
            decreases names@.len() - j,
        {
            let found = self.find_key(&names[j]);
            if found.is_some() {
                assert(names@[j as int]@ == lower(names_of(d)[j as int]));
                return Err(RegistryError::DuplicateName);
            }
            let mut k: usize = 0;
            while k < j
                invariant
                    self@ == old(self)@,
                    self.wf(),
                    k <= j < names@.len() == names_of(d).len(),
                    forall|m: int| 0 <= m < names@.len() ==> #[trigger] names@[m]@ == lower(names_of(d)[m]),
                    forall|m: int| 0 <= m < k ==> lower(#[trigger] names_of(d)[m]) != names@[j as int]@,
                decreases j - k,
            {
                if names[k] == names[j] {
                    assert(lower(names_of(d)[k as int]) == lower(names_of(d)[j as int]));
                    return Err(RegistryError::DuplicateName);
                }
                k = k + 1;
            }
            assert(names@[j as int]@ == lower(names_of(d)[j as int]));
            j = j + 1;
        }
        let ghost before = self@;
        self.commands.push(d);
        proof {
            assert(self@ == before.push(d));
            assert forall|i1: int, i2: int, key: Seq<char>|
                0 <= i1 < self@.len() && 0 <= i2 < self@.len() && i1 != i2 && #[trigger] answers_to(
                    self@[i1],
                    key,
                ) implies !#[trigger] answers_to(self@[i2], key) by {
                if i1 == before.len() {
                    let w = choose|w: int| 0 <= w < names_of(d).len() && #[trigger] lower(names_of(d)[w]) == key;
                    assert(!answers_to(before[i2], lower(names_of(d)[w])));
                } else if i2 == before.len() {
                    if answers_to(self@[i2], key) {
                        let w = choose|w: int| 0 <= w < names_of(d).len() && #[trigger] lower(names_of(d)[w]) == key;
                        assert(!answers_to(before[i1], lower(names_of(d)[w])));
                    }
                }
            }
        }
        Ok(())
    }
}

} // verus!
