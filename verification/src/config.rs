//! Service configuration decisions.

use vstd::prelude::*;

verus! {

/// The address the server listens on when none is configured: any free port
/// on the loopback interface.
pub const DEFAULT_ADDR: &'static str = "127.0.0.1:0";

/// The address to listen on: the configured one, or `DEFAULT_ADDR` when none
/// is configured.
pub fn listen_addr(configured: Option<String>) -> (r: String)
    ensures
        match configured {
            Some(addr) => r@ == addr@,
            None => r@ == DEFAULT_ADDR@,
        },
{
    match configured {
        Some(addr) => addr,
        None => DEFAULT_ADDR.to_owned(),
    }
}

} // verus!
