use vstd::prelude::*;

use crate::configuration::ApplicaionSettings;
use crate::text::{decimal, push_decimal};

verus! {

/// `host:port`.
pub open spec fn host_and_port(host: Seq<char>, port: u16) -> Seq<char> {
    host + ":"@ + decimal(port as nat)
}

/// An address holds the host whole, then `:`, then the port in decimal.
pub proof fn host_and_port_holds_both(host: Seq<char>, port: u16)
    ensures
        ({
            let address = host_and_port(host, port);
            let h: int = host.len() as int;
            &&& address.len() == h + 1 + decimal(port as nat).len()
            &&& address.subrange(0, h) == host
            &&& address[h] == ':'
            &&& address.subrange(h + 1, address.len() as int) == decimal(port as nat)
        }),
{
    reveal_strlit(":");
    let address = host_and_port(host, port);
    let h: int = host.len() as int;
    assert(address.subrange(0, h) =~= host);
    assert(address.subrange(h + 1, address.len() as int) =~= decimal(port as nat));
}

/// The address to bind the server to: the configured host and port.
pub fn bind_address(application: &ApplicaionSettings) -> (address: String)
    ensures
        address@ == host_and_port(application.host@, application.port),
{
    let mut address = application.host.clone();
    address.append(":");
    push_decimal(&mut address, application.port as u64);
    address
}

/// The address on which the server listens once bound to `bound_port`: the configured one,
/// unless the configured port is 0 (any free port), in which case the port it was given.
pub fn listen_address(application: &ApplicaionSettings, bound_port: u16) -> (address: String)
    ensures
        address@ == host_and_port(
            application.host@,
            if application.port == 0 {
                bound_port
            } else {
                application.port
            },
        ),
{
    if application.port == 0 {
        let mut address = application.host.clone();
        address.append(":");
        push_decimal(&mut address, bound_port as u64);
        address
    } else {
        bind_address(application)
    }
}

} // verus!
