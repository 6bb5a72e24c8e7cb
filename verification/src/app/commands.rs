//! Lists of commands.

use vstd::prelude::*;
use super::{views, Command, CommandView};

verus! {

/// No command.
pub fn none() -> (r: Vec<Command>)
    ensures
        views(r@) == Seq::<CommandView>::empty(),
{
    let r: Vec<Command> = Vec::new();
    r
}

/// One command.
pub fn one(command: Command) -> (r: Vec<Command>)
    ensures
        views(r@) == seq![command@],
{
    let mut r: Vec<Command> = Vec::new();
    r.push(command);
    r
}

/// Adds a command to a list.
pub fn then(commands: &mut Vec<Command>, command: Command)
    ensures
        views(final(commands)@) == views(old(commands)@).push(command@),
{
    commands.push(command);
}

/// The commands of two lists, those of the first list first.
pub fn both(first: Vec<Command>, second: Vec<Command>) -> (r: Vec<Command>)
    ensures
        views(r@) == views(first@) + views(second@),
{
    let mut r = first;
    let mut rest = second;
    r.append(&mut rest);
    r
}

} // verus!
