//! The command line: `--debug` turns on the debug log, `--helper` runs the
//! elevated hotkey helper; everything but `--debug` is passed on to GTK.

use vstd::prelude::*;
use crate::text::str_eq;

verus! {

/// What the command line asks for.
pub struct CliOptions {
    pub debug: bool,
    pub helper: bool,
    /// The arguments handed to the GTK application.
    pub gtk_args: Vec<String>,
}

/// Some argument is exactly `flag`.
pub open spec fn has_flag(args: Seq<Seq<char>>, flag: Seq<char>) -> bool {
    exists|i: int| 0 <= i < args.len() && #[trigger] args[i] == flag
}

/// `args` without the arguments equal to `flag`, in order.
pub open spec fn without_flag(args: Seq<Seq<char>>, flag: Seq<char>) -> Seq<Seq<char>>
    decreases args.len(),
{
    if args.len() == 0 {
        seq![]
    } else {
        let rest = without_flag(args.drop_last(), flag);
        if args.last() == flag {
            rest
        } else {
            rest.push(args.last())
        }
    }
}

/// The views of a list of strings.
pub open spec fn strings_view(v: Seq<String>) -> Seq<Seq<char>> {
    v.map_values(|s: String| s@)
}

/// Reads the command line (program name included).
pub fn parse_args(args: &Vec<String>) -> (r: CliOptions)
    ensures
        r.debug == has_flag(strings_view(args@), "--debug"@),
        r.helper == has_flag(strings_view(args@), "--helper"@),
        strings_view(r.gtk_args@) == without_flag(strings_view(args@), "--debug"@),
{
    let mut debug = false;
    let mut helper = false;
    let mut gtk_args: Vec<String> = Vec::new();
    let mut i: usize = 0;
    while i < args.len()
        invariant
            i <= args.len(),
            debug == has_flag(strings_view(args@.take(i as int)), "--debug"@),
            helper == has_flag(strings_view(args@.take(i as int)), "--helper"@),
            strings_view(gtk_args@) == without_flag(strings_view(args@.take(i as int)), "--debug"@),
        decreases args.len() - i,
    {
        let a = &args[i];
        let ghost prev = strings_view(args@.take(i as int));
        let ghost next = strings_view(args@.take(i + 1));
        proof {
            assert(next =~= prev.push(a@));
            assert(next.drop_last() =~= prev);
            assert(next[i as int] == a@);
            assert forall|f: Seq<char>| has_flag(next, f) == (has_flag(prev, f) || a@ == f) by {
                if has_flag(next, f) && a@ != f {
                    let k = choose|k: int| 0 <= k < next.len() && #[trigger] next[k] == f;
                    assert(prev[k] == f);
                }
                if has_flag(prev, f) {
                    let k = choose|k: int| 0 <= k < prev.len() && #[trigger] prev[k] == f;
                    assert(next[k] == f);
                }
            }
        }
        let is_debug = str_eq(a.as_str(), "--debug");
        if is_debug {
            debug = true;
        } else {
            gtk_args.push(a.clone());
            proof {
                assert(strings_view(gtk_args@) =~= without_flag(prev, "--debug"@).push(a@));
            }
        }
        if str_eq(a.as_str(), "--helper") {
            helper = true;
        }
        i = i + 1;
    }
    proof {
        assert(args@.take(args.len() as int) =~= args@);
    }
    CliOptions { debug, helper, gtk_args }
}

} // verus!
