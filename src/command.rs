//! The command template: how each recognised fetch tool is invoked so that
//! it writes the fetched body to standard output.

use vstd::prelude::*;
use crate::text::str_eq;

verus! {

/// The invocation, with options, of the command named `cmd`; the empty
/// sequence for a command that is not recognised.
pub open spec fn command_with_options(cmd: Seq<char>) -> Seq<char> {
    if cmd == "curl"@ {
        "curl"@
    } else if cmd == "wget"@ {
        "wget -qO -"@
    } else if cmd == "fetch"@ {
        "fetch -qo -"@
    } else {
        ""@
    }
}

/// Looks up the invocation string of a command token.
pub fn lookup_cmd(cmd: &str) -> (r: &'static str)
    ensures
        r@ == command_with_options(cmd@),
{
    if str_eq(cmd, "curl") {
        "curl"
    } else if str_eq(cmd, "wget") {
        "wget -qO -"
    } else if str_eq(cmd, "fetch") {
        "fetch -qo -"
    } else {
        ""
    }
}

} // verus!
