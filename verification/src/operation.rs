//! The four file operations and the command names that select them.

use vstd::prelude::*;

verus! {

/// What is done with each entry of the listed directory.
#[derive(Clone, Copy, Debug, PartialEq, Eq, Structural)]
pub enum Operation {
    /// Duplicate the content of the source at the destination.
    Copy,
    /// Move the source to the destination.
    Rename,
    /// Create a symbolic link at the destination that points to the source.
    SymbolicLink,
    /// Create a second directory entry for the data of the source.
    HardLink,
}

impl Operation {
    /// The command name that selects this operation.
    pub open spec fn command_name(self) -> Seq<char> {
        match self {
            Operation::Copy => "cp"@,
            Operation::Rename => "mv"@,
            Operation::SymbolicLink => "lns"@,
            Operation::HardLink => "lnh"@,
        }
    }

    /// The operation that a command name selects, if it is one of the four.
    pub open spec fn selected_by(name: Seq<char>) -> Option<Operation> {
        if name == "cp"@ {
            Some(Operation::Copy)
        } else if name == "mv"@ {
            Some(Operation::Rename)
        } else if name == "lns"@ {
            Some(Operation::SymbolicLink)
        } else if name == "lnh"@ {
            Some(Operation::HardLink)
        } else {
            None
        }
    }

    /// The command name of this operation: `cp`, `mv`, `lns` or `lnh`.
    pub fn command(self) -> (name: &'static str)
        ensures
            name@ == self.command_name(),
    {
        match self {
            Operation::Copy => "cp",
            Operation::Rename => "mv",
            Operation::SymbolicLink => "lns",
            Operation::HardLink => "lnh",
        }
    }

    /// Looks a command name up. Any other text selects nothing.
    pub fn from_command(name: &str) -> (selected: Option<Operation>)
        ensures
            selected == Self::selected_by(name@),
    {
        let text = name.to_owned();
        if text == "cp".to_owned() {
            Some(Operation::Copy)
        } else if text == "mv".to_owned() {
            Some(Operation::Rename)
        } else if text == "lns".to_owned() {
            Some(Operation::SymbolicLink)
        } else if text == "lnh".to_owned() {
            Some(Operation::HardLink)
        } else {
            None
        }
    }
}

/// The four command names are distinct: looking up the command name of an
/// operation gives that operation back.
pub proof fn lemma_command_selects_itself(operation: Operation)
    ensures
        Operation::selected_by(operation.command_name()) == Some(operation),
{
    reveal_strlit("cp");
    reveal_strlit("mv");
    reveal_strlit("lns");
    reveal_strlit("lnh");
    assert("cp"@.len() == 2 && "lns"@.len() == 3 && "lnh"@.len() == 3);
    assert("cp"@[0] != "mv"@[0]);
    assert("lns"@[2] != "lnh"@[2]);
}

/// A command name selects an operation only if it is that operation's own
/// name.
pub proof fn lemma_selected_has_name(name: Seq<char>, operation: Operation)
    requires
        Operation::selected_by(name) == Some(operation),
    ensures
        operation.command_name() == name,
{
}

} // verus!
