use vstd::prelude::*;

verus! {

/// Number of sockets the network stack's resource arena holds.
pub const SOCKET_CAPACITY: usize = 3;

/// The network stack's random seed, made of two 32-bit random words: `low` gives the low
/// half, `high` the high half.
pub fn stack_seed(low: u32, high: u32) -> (r: u64)
    ensures
        r == low as int + high as int * 0x1_0000_0000,
{
    let l: u64 = low as u64;
    let h: u64 = high as u64;
    let r: u64 = l | (h << 32u64);
    assert(r == l + h * 0x1_0000_0000u64 && h * 0x1_0000_0000u64 <= u64::MAX) by (bit_vector)
        requires
            l < 0x1_0000_0000u64,
            h < 0x1_0000_0000u64,
            r == l | (h << 32u64),
    ;
    r
}

} // verus!
