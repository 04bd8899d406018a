//! The log filter chosen from the command-line flags.

use vstd::prelude::*;

verus! {

/// The filter directive for `-q` and the number of `-v`: `error` when quiet,
/// `debug` from two `-v` on, `info` for one; `None` means the environment's
/// `RUST_LOG` decides.
pub fn log_filter_directive(verbose: u8, quiet: bool) -> (r: Option<&'static str>)
    ensures
        match r {
            Some(d) => if quiet {
                d@ == "error"@
            } else if verbose >= 2 {
                d@ == "debug"@
            } else {
                verbose == 1 && d@ == "info"@
            },
            None => !quiet && verbose == 0,
        },
{
    if quiet {
        Some("error")
    } else if verbose >= 2 {
        Some("debug")
    } else if verbose == 1 {
        Some("info")
    } else {
        None
    }
}

} // verus!
