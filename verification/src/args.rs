//! Command-line flag detection on an already-collected argument list.

use vstd::prelude::*;

verus! {

/// Whether some argument of `args` equals the flag `flag`.
pub open spec fn flag_present(args: Seq<String>, flag: Seq<char>) -> bool {
    exists|i: int| 0 <= i < args.len() && args[i]@ == flag
}

/// Scans the argument list for an argument equal to `flag`.
pub fn has_flag(args: &Vec<String>, flag: &str) -> (r: bool)
    ensures
        r == flag_present(args@, flag@),
{
    let flag_owned: String = flag.to_owned();
    let mut i: usize = 0;
    while i < args.len()
        invariant
            0 <= i <= args@.len(),
            flag_owned@ == flag@,
            forall|j: int| 0 <= j < i ==> args@[j]@ != flag@,
        decreases args@.len() - i,
    {
        if args[i].eq(&flag_owned) {
            return true;
        }
        i = i + 1;
    }
    false
}

/// Whether the overlay window mode was requested on the command line.
pub fn overlay_mode(args: &Vec<String>) -> (r: bool)
    ensures
        r == flag_present(args@, "--overlay"@),
{
    has_flag(args, "--overlay")
}

/// Whether window decorations were requested despite overlay mode.
pub fn with_decorations(args: &Vec<String>) -> (r: bool)
    ensures
        r == flag_present(args@, "--with-decorations"@),
{
    has_flag(args, "--with-decorations")
}

} // verus!
