use vstd::prelude::*;

use crate::cmd::Command;

verus! {

/// The registry entry for the version command.
pub fn version_command() -> (r: Command)
    ensures
        r.name@ == "version"@,
        r.alias@.len() == 0,
        r.help@ == "Show Bolide version"@,
{
    Command { name: "version", alias: Vec::new(), help: "Show Bolide version" }
}

} // verus!
