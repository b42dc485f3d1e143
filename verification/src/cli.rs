//! The command line of an application: one flag that selects live mode.

use vstd::prelude::*;

verus! {

/// The startup mode that the command line selects.
#[derive(Debug, Clone, Copy, PartialEq, Eq, Structural)]
pub struct QuarkArgs {
    /// Whether the frontend is served over local HTTP, for live reloading.
    pub live: bool,
}

/// The flag that selects live mode.
pub open spec fn live_flag() -> Seq<char> {
    "--live"@
}

/// Whether one of `args` is the live flag.
pub open spec fn requests_live(args: Seq<String>) -> bool {
    exists|i: int| 0 <= i < args.len() && (#[trigger] args[i])@ == live_flag()
}

/// Reads the startup mode from the arguments that follow the program's name.
///
/// There is no error: arguments other than the live flag are passed over, and
/// without the flag the application starts in static mode.
pub fn parse_args(args: &Vec<String>) -> (parsed: QuarkArgs)
    ensures
        parsed.live == requests_live(args@),
{
    let flag = "--live".to_owned();
    let mut i: usize = 0;
    while i < args.len()
        invariant
            i <= args.len(),
            flag@ == live_flag(),
            forall|j: int| 0 <= j < i ==> (#[trigger] args@[j])@ != live_flag(),
        decreases args.len() - i,
    {
        if args[i] == flag {
            return QuarkArgs { live: true };
        }
        i += 1;
    }
    QuarkArgs { live: false }
}

} // verus!
