use vstd::prelude::*;

verus! {

/// The minimal big-endian byte encoding of a non-negative integer: no leading
/// zero bytes, and the empty sequence for zero.
pub open spec fn be_bytes_of(n: nat) -> Seq<u8>
    decreases n,
{
    if n == 0 {
        Seq::empty()
    } else {
        be_bytes_of(n / 256).push((n % 256) as u8)
    }
}

/// Appends the minimal big-endian encoding of `n` to `out`.
pub fn push_be_bytes(n: u64, out: &mut Vec<u8>)
    ensures
        final(out)@ == old(out)@ + be_bytes_of(n as nat),
    decreases n,
{
    if n == 0 {
        proof {
            assert(out@ =~= out@ + be_bytes_of(0));
        }
    } else {
        push_be_bytes(n / 256, out);
        out.push((n % 256) as u8);
        proof {
            assert(out@ =~= old(out)@ + be_bytes_of(n as nat));
        }
    }
}

/// The minimal big-endian encoding of `n` as a fresh buffer.
pub fn be_bytes(n: u64) -> (r: Vec<u8>)
    ensures
        r@ == be_bytes_of(n as nat),
{
    let mut out: Vec<u8> = Vec::new();
    push_be_bytes(n, &mut out);
    proof {
        assert(out@ =~= be_bytes_of(n as nat));
    }
    out
}

} // verus!
