//! The refresh policy and the command-line surface.
//!
//! Both are pure decisions: the refresh policy maps the force flag and the
//! current existence of the canonical output directory to a rebuild decision,
//! and the argument parser classifies the one optional command-line argument.

use vstd::prelude::*;
use vstd::string::StrSliceExecFns;

verus! {

/// What one run of the program was asked to do.
#[derive(Clone, Copy, PartialEq, Eq, Structural, Debug)]
pub enum Invocation {
    /// No argument: rebuild only if the canonical output directory is missing.
    Normal,
    /// `reload`, `--reload` or `-r`: rebuild even if the canonical output exists.
    ForceReload,
    /// `help`, `--help` or `-h`: print usage and exit successfully.
    Help,
    /// Anything else: report an error and exit with a non-zero code,
    /// touching nothing.
    Unknown,
}

/// How the one optional command-line argument is classified.
pub open spec fn classify_argument(arg: Option<Seq<char>>) -> Invocation {
    match arg {
        None => Invocation::Normal,
        Some(s) => if s == "reload"@ || s == "--reload"@ || s == "-r"@ {
            Invocation::ForceReload
        } else if s == "help"@ || s == "--help"@ || s == "-h"@ {
            Invocation::Help
        } else {
            Invocation::Unknown
        },
    }
}

/// Compares two string slices character by character.
pub fn str_eq(a: &str, b: &str) -> (r: bool)
    ensures
        r == (a@ == b@),
{
    let na = a.unicode_len();
    let nb = b.unicode_len();
    if na != nb {
        return false;
    }
    let mut i: usize = 0;
    while i < na
        invariant
            na == a@.len(),
            na == b@.len(),
            i <= na,
            forall|j: int| 0 <= j < i ==> a@[j] == b@[j],
        decreases na - i,
    {
        if a.get_char(i) != b.get_char(i) {
            return false;
        }
        i += 1;
    }
    proof {
        assert(a@ =~= b@);
    }
    true
}

/// Classifies the one optional command-line argument.
pub fn parse_argument(arg: Option<&str>) -> (r: Invocation)
    ensures
        r == classify_argument(match arg {
            Some(s) => Some(s@),
            None => None,
        }),
{
    match arg {
        None => Invocation::Normal,
        Some(s) => {
            if str_eq(s, "reload") || str_eq(s, "--reload") || str_eq(s, "-r") {
                Invocation::ForceReload
            } else if str_eq(s, "help") || str_eq(s, "--help") || str_eq(s, "-h") {
                Invocation::Help
            } else {
                Invocation::Unknown
            }
        },
    }
}

/// The refresh policy: rebuild when forced, or when the canonical output
/// directory does not exist.  Evaluated once per run, before any side effect.
pub fn should_rebuild(force_reload: bool, output_exists: bool) -> (r: bool)
    ensures
        r == (force_reload || !output_exists),
{
    force_reload || !output_exists
}

} // verus!
