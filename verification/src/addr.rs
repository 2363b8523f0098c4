//! Formatting of socket bind addresses for the connection-accepting layer.

use vstd::prelude::*;
use vstd::string::StringExecFns;

verus! {

/// Joins a host address and a port into the `host:port` form that a
/// listener binds to.
pub fn get_bind_address(addr: &str, port: &str) -> (r: String)
    ensures
        r@ == addr@ + ":"@ + port@,
{
    let mut s: String = addr.to_owned();
    s.append(":");
    s.append(port);
    proof {
        assert(s@ =~= addr@ + ":"@ + port@);
    }
    s
}

} // verus!
