//! The command registry: a table from command names to commands, built once
//! at startup, with unique names.

use vstd::prelude::*;
use crate::error::{fails_with, BridgeError, ErrorKind};

verus! {

/// The closed set of operations the host offers.
#[derive(Clone, Copy, Debug, PartialEq, Eq, Structural)]
pub enum Command {
    GetPlatform,
    GetVersion,
    ReadFile,
    WriteFile,
}

/// One row of the registry.
#[derive(Clone, Debug)]
pub struct Entry {
    pub name: String,
    pub command: Command,
}

/// The table that a list of rows describes: each name to its command.
pub open spec fn table_of(rows: Seq<(Seq<char>, Command)>) -> Map<Seq<char>, Command>
    decreases rows.len(),
{
    if rows.len() == 0 {
        Map::empty()
    } else {
        table_of(rows.drop_last()).insert(rows.last().0, rows.last().1)
    }
}

/// No name occurs in two rows.
pub open spec fn names_unique(rows: Seq<(Seq<char>, Command)>) -> bool {
    forall|i: int, j: int| 0 <= i < j < rows.len() ==> rows[i].0 != rows[j].0
}

/// A row's name is in the table, with that row's command.
proof fn lemma_table_has_row(rows: Seq<(Seq<char>, Command)>, i: int)
    requires
        names_unique(rows),
        0 <= i < rows.len(),
    ensures
        table_of(rows).contains_key(rows[i].0),
        table_of(rows)[rows[i].0] == rows[i].1,
    decreases rows.len(),
{
    if i < rows.len() - 1 {
        lemma_table_has_row(rows.drop_last(), i);
    }
}

/// The table holds exactly the names of the rows.
proof fn lemma_table_keys(rows: Seq<(Seq<char>, Command)>, name: Seq<char>)
    ensures
        table_of(rows).contains_key(name) <==> exists|i: int|
            0 <= i < rows.len() && #[trigger] rows[i].0 == name,
    decreases rows.len(),
{
    if rows.len() > 0 {
        let init = rows.drop_last();
        lemma_table_keys(init, name);
        if table_of(init).contains_key(name) {
            let i = choose|i: int| 0 <= i < init.len() && #[trigger] init[i].0 == name;
            assert(rows[i].0 == name);
        }
        if exists|i: int| 0 <= i < rows.len() && #[trigger] rows[i].0 == name {
            let i = choose|i: int| 0 <= i < rows.len() && #[trigger] rows[i].0 == name;
            if i < rows.len() - 1 {
                assert(init[i].0 == name);
            }
        }
    }
}

/// Maps command names to commands. Built at startup, read-only afterwards.
pub struct Registry {
    entries: Vec<Entry>,
}

impl Registry {
    /// The registry's rows, in the order they were registered.
    pub closed spec fn rows(&self) -> Seq<(Seq<char>, Command)> {
        self.entries@.map_values(|e: Entry| (e.name@, e.command))
    }

    /// Every registry keeps its names unique.
    pub closed spec fn wf(&self) -> bool {
        names_unique(self.rows())
    }

    pub fn new() -> (r: Registry)
        ensures
            r.wf(),
            r@ == Map::<Seq<char>, Command>::empty(),
    {
        let r = Registry { entries: Vec::new() };
        assert(r.rows() =~= Seq::<(Seq<char>, Command)>::empty());
        r
    }

    /// Adds `name` for `command`. Fails with `DuplicateCommand`, leaving the
    /// registry as it was, exactly when `name` is already registered.
    pub fn register(&mut self, name: String, command: Command) -> (r: Result<(), BridgeError>)
        requires
            old(self).wf(),
        ensures
            final(self).wf(),
            old(self)@.contains_key(name@) ==> fails_with(r, (ErrorKind::DuplicateCommand, name@))
                && final(self)@ == old(self)@,
            !old(self)@.contains_key(name@) ==> r is Ok && final(self)@ == old(self)@.insert(
                name@,
                command,
            ),
    {
        if let Some(i) = self.find(&name) {
            proof {
                lemma_table_keys(self.rows(), name@);
                assert(self.rows()[i as int].0 == name@);
            }
            return Err(BridgeError::new(ErrorKind::DuplicateCommand, name));
        }
        let ghost before = self.rows();
        proof {
            lemma_table_keys(before, name@);
        }
        self.entries.push(Entry { name, command });
        assert(self.rows() =~= before.push((name@, command)));
        assert(self.rows().drop_last() =~= before);
        Ok(())
    }

    /// The position of `name` among the rows, if it is registered.
    fn find(&self, name: &String) -> (r: Option<usize>)
        requires
            self.wf(),
        ensures
            match r {
                Some(i) => i < self.rows().len() && self.rows()[i as int].0 == name@,
                None => !self@.contains_key(name@),
            },
    {
        let mut i: usize = 0;
        while i < self.entries.len()
            invariant
                i <= self.entries.len(),
                forall|j: int| 0 <= j < i ==> self.rows()[j].0 != name@,
            decreases self.entries.len() - i,
        {
            if self.entries[i].name == *name {
                return Some(i);
            }
            i = i + 1;
        }
        proof {
            lemma_table_keys(self.rows(), name@);
        }
        None
    }

    /// The command registered under `name`; `UnknownCommand` exactly when
    /// there is none.
    pub fn resolve(&self, name: &String) -> (r: Result<Command, BridgeError>)
        requires
            self.wf(),
        ensures
            self@.contains_key(name@) ==> r == Ok::<Command, BridgeError>(self@[name@]),
            !self@.contains_key(name@) ==> fails_with(r, (ErrorKind::UnknownCommand, name@)),
    {
        match self.find(name) {
            Some(i) => {
                proof {
                    lemma_table_has_row(self.rows(), i as int);
                }
                Ok(self.entries[i].command)
            },
            None => Err(BridgeError::new(ErrorKind::UnknownCommand, name.clone())),
        }
    }

    /// The registry of the host's four commands, under their usual names.
    pub fn standard() -> (r: Registry)
        ensures
            r.wf(),
            r@ == standard_table(),
    {
        let mut r = Registry::new();
        proof {
            reveal_strlit("get_platform");
            reveal_strlit("get_version");
            reveal_strlit("read_file");
            reveal_strlit("write_file");
        }
        // The four names differ in length, hence from one another.
        assert("get_platform"@.len() == 12 && "get_version"@.len() == 11);
        assert("read_file"@.len() == 9 && "write_file"@.len() == 10);
        let _ = r.register("get_platform".to_owned(), Command::GetPlatform);
        let _ = r.register("get_version".to_owned(), Command::GetVersion);
        let _ = r.register("read_file".to_owned(), Command::ReadFile);
        let _ = r.register("write_file".to_owned(), Command::WriteFile);
        assert(r@ =~= standard_table());
        r
    }
}

impl View for Registry {
    type V = Map<Seq<char>, Command>;

    closed spec fn view(&self) -> Map<Seq<char>, Command> {
        table_of(self.rows())
    }
}

/// The host's four commands under their usual names.
pub open spec fn standard_table() -> Map<Seq<char>, Command> {
    map![
        "get_platform"@ => Command::GetPlatform,
        "get_version"@ => Command::GetVersion,
        "read_file"@ => Command::ReadFile,
        "write_file"@ => Command::WriteFile,
    ]
}

} // verus!
