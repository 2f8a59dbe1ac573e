//! Client-side codec and dispatch layer for a virtual-world simulator's
//! datagram protocol: packet headers, zerocoding, payload dispatch, and the
//! bookkeeping for reliable sends.

use vstd::prelude::*;

pub mod client_update_data;
pub mod complete_agent_movement;
pub mod error;
pub mod header;
pub mod packet;
pub mod packet_types;
pub mod reliability;
pub mod simulator_login_protocol;
pub mod unique_id;
pub mod wire;
pub mod zerocode;

verus! {

/// A fixed greeting value, handy as a check that the crate links.
pub fn hello() -> (r: i64)
    ensures
        r == 4,
{
    2 + 2
}

} // verus!
