//! A network endpoint as configured: a host and a port.
use vstd::prelude::*;
use vstd::string::StringExecFns;

verus! {

/// A host (a name or an IP literal) and a port: a listening address or an
/// upstream resolver.
#[derive(Debug, Clone)]
pub struct Address {
    pub address: String,
    pub port: u16,
}

/// The decimal digit for `d`, below ten.
pub open spec fn digit_char(d: nat) -> char {
    (48 + d) as char
}

/// The decimal notation of `n`, without leading zeros.
pub open spec fn decimal(n: nat) -> Seq<char>
    decreases n,
{
    if n < 10 {
        seq![digit_char(n)]
    } else {
        decimal(n / 10).push(digit_char(n % 10))
    }
}

/// Relies on std's `ToString` for `u16`, which writes the number in decimal
/// without leading zeros.
#[verifier::external_body]
fn port_text(port: u16) -> (r: String)
    ensures
        r@ == decimal(port as nat),
{
    port.to_string()
}

impl Address {
    /// The `host:port` form of the address.
    pub fn to_canonical(&self) -> (r: String)
        ensures
            r@ == self.address@ + ":"@ + decimal(self.port as nat),
    {
        let p = port_text(self.port);
        let r = self.address.clone().concat(":").concat(p.as_str());
        r
    }
}

} // verus!
