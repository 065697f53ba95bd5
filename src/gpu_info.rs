//! What startup decides from the search for a GPU adapter.
use vstd::prelude::*;

verus! {

/// What startup does once the adapter search is done.
#[derive(Clone, Copy, Debug, PartialEq, Eq, Structural)]
pub enum Startup {
    /// Create the event loop and open the window.
    OpenWindow,
    /// No adapter: terminate before any window is shown.
    Abort,
}

/// The message reported when no adapter is found.
pub open spec fn no_adapter_message() -> Seq<char> {
    "No suitable GPU adapter found"@
}

/// The report of the adapter search: `Ok` exactly when an adapter was found.
pub fn adapter_report(adapter_found: bool) -> (r: Result<(), String>)
    ensures
        r is Ok <==> adapter_found,
        r matches Err(m) ==> m@ == no_adapter_message(),
{
    if adapter_found {
        Ok(())
    } else {
        proof {
            reveal_strlit("No suitable GPU adapter found");
        }
        Err("No suitable GPU adapter found".to_owned())
    }
}

/// Startup goes on to open a window only after an adapter was found.
pub fn startup(report: &Result<(), String>) -> (r: Startup)
    ensures
        r == Startup::Abort <==> report is Err,
        r == Startup::OpenWindow <==> report is Ok,
{
    match report {
        Ok(()) => Startup::OpenWindow,
        Err(_) => Startup::Abort,
    }
}

} // verus!
