use vstd::prelude::*;
use crate::entry::VarType;

verus! {

/// Byte lane `i` of `v`, little-endian.
pub open spec fn lane(v: u64, i: u64) -> u64 {
    (v >> (8 * i)) & 0xff
}

/// Every lane at or above `width` is zero.
pub open spec fn lanes_zero_from(v: u64, width: u64) -> bool {
    forall|i: u64| width <= i < 8 ==> #[trigger] lane(v, i) == 0
}

/// The exclusive bound of a value of `width` bytes; none for eight bytes.
pub open spec fn fits_width(v: u64, width: u64) -> bool {
    if width == 1 {
        v < 0x100
    } else if width == 2 {
        v < 0x1_0000
    } else if width == 4 {
        v < 0x1_0000_0000
    } else {
        true
    }
}

/// The width class of a value type as three nested flags.
#[derive(Clone, Copy, Debug, PartialEq, Eq, Structural)]
pub struct WidthFlags {
    pub ge_two_bytes: bool,
    pub ge_four_bytes: bool,
    pub ge_eight_bytes: bool,
}

impl WidthFlags {
    pub open spec fn of_width(width: u64) -> WidthFlags {
        WidthFlags { ge_two_bytes: width >= 2, ge_four_bytes: width >= 4, ge_eight_bytes: width >= 8 }
    }

    pub open spec fn is_nested_spec(self) -> bool {
        (self.ge_eight_bytes ==> self.ge_four_bytes) && (self.ge_four_bytes ==> self.ge_two_bytes)
    }

    /// The flags of a value type. They are always nested.
    pub fn of_vtype(vtype: &VarType) -> (r: WidthFlags)
        ensures
            r == WidthFlags::of_width(vtype.byte_width_spec()),
            r.is_nested_spec(),
    {
        let w = vtype.byte_width();
        WidthFlags { ge_two_bytes: w >= 2, ge_four_bytes: w >= 4, ge_eight_bytes: w >= 8 }
    }
}

/// The eight byte lanes of `v`, least significant first.
pub fn byte_lanes(v: u64) -> (r: Vec<u8>)
    ensures
        r@.len() == 8,
        forall|i: int| 0 <= i < 8 ==> r@[i] as u64 == lane(v, i as u64),
{
    let mut r: Vec<u8> = Vec::new();
    let mut i: u64 = 0;
    while i < 8
        invariant
            i <= 8,
            r@.len() == i,
            forall|j: int| 0 <= j < i ==> r@[j] as u64 == lane(v, j as u64),
        decreases 8 - i,
    {
        let b = (v >> (8 * i)) & 0xff;
        assert(b < 0x100) by (bit_vector)
            requires
                b == (v >> (8 * i)) & 0xff,
        ;
        r.push(b as u8);
        i = i + 1;
    }
    r
}

proof fn lemma_lanes_fit(v: u64)
    ensures
        lanes_zero_from(v, 1) == (v < 0x100),
        lanes_zero_from(v, 2) == (v < 0x1_0000),
        lanes_zero_from(v, 4) == (v < 0x1_0000_0000),
        lanes_zero_from(v, 8),
{
    assert(v < 0x100 <==> ((v >> 8) & 0xff == 0 && (v >> 16) & 0xff == 0 && (v >> 24) & 0xff == 0
        && (v >> 32) & 0xff == 0 && (v >> 40) & 0xff == 0 && (v >> 48) & 0xff == 0 && (v >> 56)
        & 0xff == 0)) by (bit_vector);
    assert(v < 0x1_0000 <==> ((v >> 16) & 0xff == 0 && (v >> 24) & 0xff == 0 && (v >> 32) & 0xff
        == 0 && (v >> 40) & 0xff == 0 && (v >> 48) & 0xff == 0 && (v >> 56) & 0xff == 0))
        by (bit_vector);
    assert(v < 0x1_0000_0000 <==> ((v >> 32) & 0xff == 0 && (v >> 40) & 0xff == 0 && (v >> 48)
        & 0xff == 0 && (v >> 56) & 0xff == 0)) by (bit_vector);
    assert(lane(v, 1) == (v >> 8) & 0xff);
    assert(lane(v, 2) == (v >> 16) & 0xff);
    assert(lane(v, 3) == (v >> 24) & 0xff);
    assert(lane(v, 4) == (v >> 32) & 0xff);
    assert(lane(v, 5) == (v >> 40) & 0xff);
    assert(lane(v, 6) == (v >> 48) & 0xff);
    assert(lane(v, 7) == (v >> 56) & 0xff);
    assert forall|i: u64| 1 <= i < 8 implies (#[trigger] lane(v, i) == 0) == (if i == 1 {
        (v >> 8) & 0xff == 0
    } else if i == 2 {
        (v >> 16) & 0xff == 0
    } else if i == 3 {
        (v >> 24) & 0xff == 0
    } else if i == 4 {
        (v >> 32) & 0xff == 0
    } else if i == 5 {
        (v >> 40) & 0xff == 0
    } else if i == 6 {
        (v >> 48) & 0xff == 0
    } else {
        (v >> 56) & 0xff == 0
    }) by {}
}

/// A value fits its declared width exactly when every byte lane above that
/// width is zero; an eight-byte value always fits.
pub proof fn lemma_width_containment(v: u64, vtype: VarType)
    ensures
        fits_width(v, vtype.byte_width_spec()) == lanes_zero_from(v, vtype.byte_width_spec()),
        WidthFlags::of_width(vtype.byte_width_spec()).is_nested_spec(),
{
    lemma_lanes_fit(v);
}

/// Checks the lanes of `value` against the width flags of `vtype`: the
/// lanes above the declared width must be zero.
pub fn width_fits(value: u64, vtype: &VarType) -> (r: bool)
    ensures
        r == fits_width(value, vtype.byte_width_spec()),
        r == lanes_zero_from(value, vtype.byte_width_spec()),
{
    let flags = WidthFlags::of_vtype(vtype);
    let b = byte_lanes(value);
    let ok = (flags.ge_two_bytes || b[1] == 0) && (flags.ge_four_bytes || (b[2] == 0 && b[3] == 0))
        && (flags.ge_eight_bytes || (b[4] == 0 && b[5] == 0 && b[6] == 0 && b[7] == 0));
    proof {
        lemma_lanes_fit(value);
        assert(b@[1] as u64 == lane(value, 1));
        assert(b@[2] as u64 == lane(value, 2));
        assert(b@[3] as u64 == lane(value, 3));
        assert(b@[4] as u64 == lane(value, 4));
        assert(b@[5] as u64 == lane(value, 5));
        assert(b@[6] as u64 == lane(value, 6));
        assert(b@[7] as u64 == lane(value, 7));
    }
    ok
}

} // verus!
