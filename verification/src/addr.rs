//! Endpoint identity: the transport names a MIDI endpoint by a client number
//! and a port number. The pair is packed into one integer so it can key a
//! hash map.

use vstd::prelude::*;
use vstd::arithmetic::div_mod::lemma_fundamental_div_mod_converse;

verus! {

/// One MIDI endpoint of the transport's current session.
#[derive(Clone, Copy, PartialEq, Eq, Structural, Debug)]
pub struct Addr {
    /// The transport's client number.
    pub client: i32,
    /// The port number within that client.
    pub port: i32,
}

/// The endpoint identity packed into one integer: each signed number is
/// shifted into `[0, 2^32)` and the two halves are placed side by side.
pub open spec fn addr_key(a: Addr) -> u64 {
    ((a.client + 0x80000000) * 0x100000000 + (a.port + 0x80000000)) as u64
}

/// Packs an endpoint identity into its map key.
pub fn addr_key_exec(a: Addr) -> (k: u64)
    ensures
        k == addr_key(a),
{
    let hi: u64 = (a.client as i64 + 0x80000000) as u64;
    let lo: u64 = (a.port as i64 + 0x80000000) as u64;
    hi * 0x100000000 + lo
}

/// Packing is injective: distinct endpoints get distinct keys.
pub proof fn lemma_addr_key_injective(a: Addr, b: Addr)
    ensures
        addr_key(a) == addr_key(b) ==> a == b,
{
    if addr_key(a) == addr_key(b) {
        lemma_fundamental_div_mod_converse(
            addr_key(a) as int,
            0x100000000,
            a.client + 0x80000000,
            a.port + 0x80000000,
        );
        lemma_fundamental_div_mod_converse(
            addr_key(b) as int,
            0x100000000,
            b.client + 0x80000000,
            b.port + 0x80000000,
        );
    }
}

} // verus!
