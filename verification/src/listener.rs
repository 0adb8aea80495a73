//! Where the service listens.

use vstd::prelude::*;

verus! {

/// The port of the listener.
pub const PORT: u16 = 8080;

/// An IPv4 socket address as plain numbers.
#[derive(Clone, Copy, Debug)]
pub struct BindAddress {
    pub octets: [u8; 4],
    pub port: u16,
}

impl BindAddress {
    /// Whether the address is `0.0.0.0`, which stands for every interface of
    /// the host.
    pub open spec fn all_interfaces(self) -> bool {
        self.octets@ == seq![0u8, 0u8, 0u8, 0u8]
    }
}

/// The address of the listener: every interface, port 8080. It is fixed;
/// nothing is read to find it.
pub fn bind_address() -> (address: BindAddress)
    ensures
        address.all_interfaces(),
        address.port == 8080,
{
    let address = BindAddress { octets: [0, 0, 0, 0], port: PORT };
    proof {
        assert(address.octets@ =~= seq![0u8, 0u8, 0u8, 0u8]);
    }
    address
}

} // verus!
