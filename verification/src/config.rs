//! The configuration of a workspace: where it lives, its environment
//! variables and its commands.
//!
//! The operations change the configuration and report what they did; they
//! print nothing and store nothing.

use vstd::prelude::*;
use crate::command::UserCommand;
use crate::table::{NameTable, Row, spec_listed};

verus! {

/// Where the workspace lives.
#[derive(Debug)]
pub struct WhirlwindWorkspace {
    /// The directory of the workspace, as text; empty until it is set.
    pub directory: String,
}

/// The value of one environment variable.
#[derive(Debug, PartialEq, Eq)]
pub struct WhirlwindEnv {
    pub value: String,
}

/// A command line kept as plain text.
#[derive(Debug, PartialEq, Eq)]
pub struct WhirlwindCommand {
    pub command: String,
}

/// What an insertion did.
#[derive(Debug, PartialEq, Eq)]
pub enum InsertOutcome<V> {
    /// The name was new.
    Inserted,
    /// The name was taken: the new value stands in the place of this one.
    Replaced(V),
}

/// What a removal did.
#[derive(Clone, Copy, Debug, PartialEq, Eq, Structural)]
pub enum RemoveOutcome {
    /// The entry is gone.
    Removed,
    /// There was no entry under the name, and nothing has changed.
    NotFound,
}

/// What inserting `value` under `name` into `mapping` reports.
pub open spec fn spec_insert_outcome<V>(mapping: Map<Seq<char>, V>, name: Seq<char>) -> InsertOutcome<
    V,
> {
    if mapping.contains_key(name) {
        InsertOutcome::Replaced(mapping[name])
    } else {
        InsertOutcome::Inserted
    }
}

/// What removing `name` from `mapping` reports.
pub open spec fn spec_remove_outcome<V>(mapping: Map<Seq<char>, V>, name: Seq<char>) -> RemoveOutcome {
    if mapping.contains_key(name) {
        RemoveOutcome::Removed
    } else {
        RemoveOutcome::NotFound
    }
}

/// The pairs that a listing of commands shows: for each row its name and the
/// name that its command carries.
pub open spec fn spec_command_listing(rows: Seq<Row<UserCommand>>) -> Seq<(Seq<char>, Seq<char>)> {
    rows.map_values(|row: Row<UserCommand>| (row.0, row.1.name@))
}

/// The pairs that a listing of environment variables shows: for each row its
/// name and its value.
pub open spec fn spec_env_listing(rows: Seq<Row<WhirlwindEnv>>) -> Seq<(Seq<char>, Seq<char>)> {
    rows.map_values(|row: Row<WhirlwindEnv>| (row.0, row.1.value@))
}

/// The pairs of a list of pairs of strings, each as a mathematical value.
pub open spec fn spec_pairs(pairs: Seq<(String, String)>) -> Seq<(Seq<char>, Seq<char>)> {
    pairs.map_values(|pair: (String, String)| (pair.0@, pair.1@))
}

/// The configuration of one workspace.
#[derive(Debug)]
pub struct WhirlwindConfig {
    pub workspace: WhirlwindWorkspace,
    /// The environment variables, by name.
    pub environment: NameTable<WhirlwindEnv>,
    /// The commands, by the name under which each is kept.
    pub commands: NameTable<UserCommand>,
}

impl WhirlwindConfig {
    /// A configuration with no directory, no variable and no command.
    pub fn new() -> (config: Self)
        ensures
            config.workspace.directory@ == Seq::<char>::empty(),
            config.environment@ == Map::<Seq<char>, WhirlwindEnv>::empty(),
            config.commands@ == Map::<Seq<char>, UserCommand>::empty(),
            config.environment.rows() == Seq::<Row<WhirlwindEnv>>::empty(),
            config.commands.rows() == Seq::<Row<UserCommand>>::empty(),
    {
        WhirlwindConfig {
            workspace: WhirlwindWorkspace { directory: String::new() },
            environment: NameTable::new(),
            commands: NameTable::new(),
        }
    }

    /// Keeps `command` under the name it carries, in the place of any
    /// command kept under that name, and reports which of the two it was.
    pub fn add_command(&mut self, command: UserCommand) -> (outcome: InsertOutcome<UserCommand>)
        ensures
            final(self).commands@ == old(self).commands@.insert(command.name@, command),
            outcome == spec_insert_outcome(old(self).commands@, command.name@),
            final(self).environment == old(self).environment,
            final(self).workspace == old(self).workspace,
    {
        let name = command.name.clone();
        match self.commands.insert(name, command) {
            Some(previous) => InsertOutcome::Replaced(previous),
            None => InsertOutcome::Inserted,
        }
    }

    /// Sets the environment variable `name` to `value`, and reports whether
    /// it had a value before, and which.
    pub fn add_env(&mut self, name: String, value: String) -> (outcome: InsertOutcome<WhirlwindEnv>)
        ensures
            final(self).environment@ == old(self).environment@.insert(
                name@,
                (WhirlwindEnv { value }),
            ),
            outcome == spec_insert_outcome(old(self).environment@, name@),
            final(self).commands == old(self).commands,
            final(self).workspace == old(self).workspace,
    {
        match self.environment.insert(name, WhirlwindEnv { value }) {
            Some(previous) => InsertOutcome::Replaced(previous),
            None => InsertOutcome::Inserted,
        }
    }

    /// Takes out the command kept under `name`, and reports whether there
    /// was one. Where there was none, nothing changes.
    pub fn remove_command(&mut self, name: String) -> (outcome: RemoveOutcome)
        ensures
            final(self).commands@ == old(self).commands@.remove(name@),
            outcome == spec_remove_outcome(old(self).commands@, name@),
            outcome == RemoveOutcome::NotFound ==> *final(self) == *old(self),
            final(self).environment == old(self).environment,
            final(self).workspace == old(self).workspace,
    {
        match self.commands.remove(&name) {
            Some(_) => RemoveOutcome::Removed,
            None => RemoveOutcome::NotFound,
        }
    }

    /// Takes out the environment variable `name`, and reports whether there
    /// was one. Where there was none, nothing changes.
    pub fn remove_env(&mut self, name: String) -> (outcome: RemoveOutcome)
        ensures
            final(self).environment@ == old(self).environment@.remove(name@),
            outcome == spec_remove_outcome(old(self).environment@, name@),
            outcome == RemoveOutcome::NotFound ==> *final(self) == *old(self),
            final(self).commands == old(self).commands,
            final(self).workspace == old(self).workspace,
    {
        match self.environment.remove(&name) {
            Some(_) => RemoveOutcome::Removed,
            None => RemoveOutcome::NotFound,
        }
    }

    /// The commands, each once: the name under which it is kept, and the
    /// name that it carries.
    pub fn list_command(&self) -> (listing: Vec<(String, String)>)
        ensures
            listing@.len() == self.commands@.len(),
            spec_pairs(listing@) == spec_command_listing(self.commands.rows()),
    {
        let mut listing: Vec<(String, String)> = Vec::new();
        let count = self.commands.len();
        let mut i: usize = 0;
        while i < count
            invariant
                i <= count,
                count == self.commands.rows().len(),
                count == self.commands@.len(),
                listing@.len() == i,
                forall|k: int|
                    0 <= k < i ==> (#[trigger] listing@[k]).0@ == self.commands.rows()[k].0
                        && listing@[k].1@ == self.commands.rows()[k].1.name@,
            decreases count - i,
        {
            let name = self.commands.name_at(i).clone();
            let carried = self.commands.value_at(i).name.clone();
            listing.push((name, carried));
            i += 1;
        }
        assert(spec_pairs(listing@) =~= spec_command_listing(self.commands.rows()));
        listing
    }

    /// The environment variables, each once: its name and its value.
    pub fn list_env(&self) -> (listing: Vec<(String, String)>)
        ensures
            listing@.len() == self.environment@.len(),
            spec_pairs(listing@) == spec_env_listing(self.environment.rows()),
    {
        let mut listing: Vec<(String, String)> = Vec::new();
        let count = self.environment.len();
        let mut i: usize = 0;
        while i < count
            invariant
                i <= count,
                count == self.environment.rows().len(),
                count == self.environment@.len(),
                listing@.len() == i,
                forall|k: int|
                    0 <= k < i ==> (#[trigger] listing@[k]).0@ == self.environment.rows()[k].0
                        && listing@[k].1@ == self.environment.rows()[k].1.value@,
            decreases count - i,
        {
            let name = self.environment.name_at(i).clone();
            let value = self.environment.value_at(i).value.clone();
            listing.push((name, value));
            i += 1;
        }
        assert(spec_pairs(listing@) =~= spec_env_listing(self.environment.rows()));
        listing
    }
}

/// Inserting under a name that is new reports an insertion; inserting under
/// the same name again reports a replacement of what the first insertion
/// put there, and leaves the second value as the only entry.
pub proof fn law_second_insert_replaces<V>(name: Seq<char>, first: V, second: V)
    ensures
        spec_insert_outcome(Map::<Seq<char>, V>::empty(), name) == InsertOutcome::<V>::Inserted,
        spec_insert_outcome(Map::<Seq<char>, V>::empty().insert(name, first), name)
            == InsertOutcome::Replaced(first),
        Map::<Seq<char>, V>::empty().insert(name, first).insert(name, second) == Map::<
            Seq<char>,
            V,
        >::empty().insert(name, second),
        Map::<Seq<char>, V>::empty().insert(name, first).insert(name, second).dom() == set![name],
        Map::<Seq<char>, V>::empty().insert(name, first).insert(name, second)[name] == second,
{
    let twice = Map::<Seq<char>, V>::empty().insert(name, first).insert(name, second);
    assert(twice =~= Map::<Seq<char>, V>::empty().insert(name, second));
    assert(twice.dom() =~= set![name]);
}

/// Removing a name that is not there reports that it was not found, and
/// leaves the mapping as it was.
pub proof fn law_remove_of_absent_name<V>(mapping: Map<Seq<char>, V>, name: Seq<char>)
    requires
        !mapping.contains_key(name),
    ensures
        spec_remove_outcome(mapping, name) == RemoveOutcome::NotFound,
        mapping.remove(name) == mapping,
{
    assert(mapping.remove(name) =~= mapping);
}

} // verus!
