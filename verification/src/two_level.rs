use vstd::prelude::*;

verus! {

/// What the two-step dereference yields on a bucket table `upper` and a leaf
/// table `lower`: the entry at bucket `cp / 32` is a base offset into `lower`
/// (0 when no code point of the whole bucket is mapped), and slot `cp % 32`
/// picks the byte for `cp` within the bucket's run of 32 leaf entries.
pub open spec fn two_level_spec(upper: Seq<u16>, lower: Seq<u8>, cp: int) -> u8 {
    let bucket = cp / 32;
    if cp < 0 || bucket >= upper.len() {
        0
    } else if upper[bucket] == 0 {
        0
    } else {
        lower[upper[bucket] + cp % 32]
    }
}

/// A non-zero bucket entry must leave room for a full run of 32 leaf entries,
/// so that the second dereference never reads past the leaf table.
pub open spec fn tables_wf(upper: Seq<u16>, lower: Seq<u8>) -> bool {
    forall|b: int| 0 <= b < upper.len() ==> upper[b] == 0 || upper[b] + 32 <= lower.len()
}

/// Resolves `code` through the two-level backward table: bucket lookup by
/// `code >> 5`, then a leaf lookup at the bucket's base offset plus
/// `code & 31`. Total over all of `u32`: a bucket beyond the table, an empty
/// bucket, and an unmapped slot all resolve to the sentinel 0.
pub fn two_level_lookup<const NU: usize, const NL: usize>(
    upper: &[u16; NU],
    lower: &[u8; NL],
    code: u32,
) -> (r: u8)
    requires
        tables_wf(upper@, lower@),
    ensures
        r == two_level_spec(upper@, lower@, code as int),
{
    proof {
        assert(code >> 5 == code / 32) by (bit_vector);
        assert(code & 31 == code % 32) by (bit_vector);
    }
    let bucket = (code >> 5) as usize;
    if bucket >= NU {
        return 0;
    }
    let base = upper[bucket];
    if base == 0 {
        return 0;
    }
    let slot = (code & 31) as usize;
    lower[base as usize + slot]
}

} // verus!
