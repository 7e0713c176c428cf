//! The decidable half of the action executor: splitting a configured
//! command into the program to spawn and its arguments. An empty command
//! is a configured no-op. Spawning itself is process work and stays with
//! the caller.

use vstd::prelude::*;

verus! {

/// Splits a command into its program and argument list; `None` exactly
/// when the command is empty and nothing is to run.
pub fn command_parts(command: &Vec<String>) -> (r: Option<(String, Vec<String>)>)
    ensures
        r is Some <==> command@.len() > 0,
        r is Some ==> r->Some_0.0@ == command@[0]@,
        r is Some ==> r->Some_0.1@.len() + 1 == command@.len(),
        r is Some ==> forall|i: int| #![trigger r->Some_0.1@[i]]
            0 <= i < r->Some_0.1@.len() ==> r->Some_0.1@[i]@ == command@[i + 1]@,
{
    if command.len() == 0 {
        return None;
    }
    let binary = command[0].clone();
    let mut args: Vec<String> = Vec::new();
    let mut i: usize = 1;
    while i < command.len()
        invariant
            1 <= i <= command@.len(),
            args@.len() + 1 == i,
            forall|j: int| #![trigger args@[j]] 0 <= j < args@.len() ==> args@[j]@ == command@[j + 1]@,
        decreases command@.len() - i,
    {
        args.push(command[i].clone());
        i = i + 1;
    }
    Some((binary, args))
}

} // verus!
