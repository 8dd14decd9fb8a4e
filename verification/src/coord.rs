use vstd::prelude::*;

verus! {

/// A tile position packed into one integer: z in bits 0..14, x in bits 14..28
/// and the level (y) in bits 28..30.
#[derive(Clone, Copy, Debug, PartialEq, Eq, Structural)]
pub struct CoordGrid {
    pub packed: u32,
}

/// The packed form of the tile at `x`, `z` on level `y`; each component is
/// cut to the width of its field.
pub open spec fn pack(x: u16, y: u8, z: u16) -> u32 {
    ((z as u32) & 0x3fff) | (((x as u32) & 0x3fff) << 14u32) | (((y as u32) & 0x3) << 28u32)
}

/// The zone (8 by 8 block of tiles) that an x or z component falls in.
pub open spec fn zone_of(coord: u16) -> u16 {
    coord / 8
}

/// Whether an entity that moves from `from` to `to` leaves its zone: the
/// position changed and the zone column, zone row or level differs.
pub open spec fn zone_changed(from: CoordGrid, to: CoordGrid) -> bool {
    &&& from.packed != to.packed
    &&& (zone_of(to.spec_x()) != zone_of(from.spec_x()) || zone_of(to.spec_z()) != zone_of(
        from.spec_z(),
    ) || to.spec_y() != from.spec_y())
}

impl CoordGrid {
    pub open spec fn spec_x(&self) -> u16 {
        ((self.packed >> 14u32) & 0x3fff) as u16
    }

    pub open spec fn spec_y(&self) -> u8 {
        ((self.packed >> 28u32) & 0x3) as u8
    }

    pub open spec fn spec_z(&self) -> u16 {
        (self.packed & 0x3fff) as u16
    }

    /// Packs the tile at `x`, `z` on level `y`.
    pub fn from(x: u16, y: u8, z: u16) -> (c: CoordGrid)
        ensures
            c.packed == pack(x, y, z),
    {
        CoordGrid {
            packed: ((z as u32) & 0x3fff) | (((x as u32) & 0x3fff) << 14u32) | (((y as u32) & 0x3)
                << 28u32),
        }
    }

    /// The x component.
    #[verifier::when_used_as_spec(spec_x)]
    pub fn x(&self) -> (r: u16)
        ensures
            r == self.spec_x(),
    {
        let p: u32 = self.packed;
        assert(((p >> 14u32) & 0x3fff) <= 0x3fff) by (bit_vector);
        ((p >> 14u32) & 0x3fff) as u16
    }

    /// The level.
    #[verifier::when_used_as_spec(spec_y)]
    pub fn y(&self) -> (r: u8)
        ensures
            r == self.spec_y(),
    {
        let p: u32 = self.packed;
        assert(((p >> 28u32) & 0x3) <= 0x3) by (bit_vector);
        ((p >> 28u32) & 0x3) as u8
    }

    /// The z component.
    #[verifier::when_used_as_spec(spec_z)]
    pub fn z(&self) -> (r: u16)
        ensures
            r == self.spec_z(),
    {
        let p: u32 = self.packed;
        assert((p & 0x3fff) <= 0x3fff) by (bit_vector);
        (p & 0x3fff) as u16
    }

    /// The zone that the x or z component `coord` falls in.
    pub fn zone(coord: u16) -> (r: u16)
        ensures
            r == zone_of(coord),
    {
        assert(coord >> 3u16 == coord / 8) by (bit_vector);
        coord >> 3u16
    }
}

/// Decides whether moving from `from` to `to` takes an entity into another zone.
pub fn changes_zone(from: &CoordGrid, to: &CoordGrid) -> (r: bool)
    ensures
        r == zone_changed(*from, *to),
{
    to.packed != from.packed && (CoordGrid::zone(to.x()) != CoordGrid::zone(from.x())
        || CoordGrid::zone(to.z()) != CoordGrid::zone(from.z()) || to.y() != from.y())
}

/// Packing keeps each component, cut to the width of its field: x and z to
/// 14 bits, the level to 2 bits.
pub proof fn lemma_pack_components(x: u16, y: u8, z: u16)
    ensures
        (CoordGrid { packed: pack(x, y, z) }).spec_x() == x % 0x4000,
        (CoordGrid { packed: pack(x, y, z) }).spec_y() == y % 4,
        (CoordGrid { packed: pack(x, y, z) }).spec_z() == z % 0x4000,
{
    let p = pack(x, y, z);
    assert(((p >> 14u32) & 0x3fff) == (x as u32) % 0x4000) by (bit_vector)
        requires
            p == ((z as u32) & 0x3fff) | (((x as u32) & 0x3fff) << 14u32) | (((y as u32) & 0x3)
                << 28u32),
    ;
    assert(((p >> 28u32) & 0x3) == (y as u32) % 4) by (bit_vector)
        requires
            p == ((z as u32) & 0x3fff) | (((x as u32) & 0x3fff) << 14u32) | (((y as u32) & 0x3)
                << 28u32),
    ;
    assert((p & 0x3fff) == (z as u32) % 0x4000) by (bit_vector)
        requires
            p == ((z as u32) & 0x3fff) | (((x as u32) & 0x3fff) << 14u32) | (((y as u32) & 0x3)
                << 28u32),
    ;
}

/// Two packings are equal exactly when their components agree within the
/// field widths.
pub proof fn lemma_pack_injective(x1: u16, y1: u8, z1: u16, x2: u16, y2: u8, z2: u16)
    ensures
        pack(x1, y1, z1) == pack(x2, y2, z2) <==> (x1 % 0x4000 == x2 % 0x4000 && y1 % 4 == y2 % 4
            && z1 % 0x4000 == z2 % 0x4000),
{
    assert((((z1 as u32) & 0x3fff) | (((x1 as u32) & 0x3fff) << 14u32) | (((y1 as u32) & 0x3)
        << 28u32)) == (((z2 as u32) & 0x3fff) | (((x2 as u32) & 0x3fff) << 14u32) | (((y2 as u32)
        & 0x3) << 28u32)) <==> ((x1 as u32) % 0x4000 == (x2 as u32) % 0x4000 && (y1 as u32) % 4
        == (y2 as u32) % 4 && (z1 as u32) % 0x4000 == (z2 as u32) % 0x4000)) by (bit_vector);
}

/// The comparison of packed values is only a shortcut: an entity changes zone
/// exactly when its zone column, zone row or level changes.
pub proof fn lemma_zone_changed_iff_zone_differs(from: CoordGrid, to: CoordGrid)
    ensures
        zone_changed(from, to) <==> (zone_of(to.spec_x()) != zone_of(from.spec_x()) || zone_of(
            to.spec_z(),
        ) != zone_of(from.spec_z()) || to.spec_y() != from.spec_y()),
{
}

/// Leaving a zone is symmetric, and staying in place never leaves one.
pub proof fn lemma_zone_changed_symmetric(a: CoordGrid, b: CoordGrid)
    ensures
        zone_changed(a, b) == zone_changed(b, a),
        !zone_changed(a, a),
{
}

/// Packing in arithmetic terms: z fills the lowest 14 bits, x the next 14
/// and the level the 2 above them.
pub proof fn lemma_pack_arithmetic(x: u16, y: u8, z: u16)
    ensures
        pack(x, y, z) == (z as int) % 0x4000 + ((x as int) % 0x4000) * 0x4000 + ((y as int) % 4)
            * 0x1000_0000,
{
    assert((((z as u32) & 0x3fff) | (((x as u32) & 0x3fff) << 14u32) | (((y as u32) & 0x3) << 28u32))
        == (z as u32) % 0x4000 + ((x as u32) % 0x4000) * 0x4000 + ((y as u32) % 4) * 0x1000_0000)
        by (bit_vector);
}

/// Reading a coordinate back in arithmetic terms: z is the packed value
/// modulo 2^14, x the next 14 bits and the level the 2 bits above them.
pub proof fn lemma_components_arithmetic(c: CoordGrid)
    ensures
        c.spec_z() == (c.packed as int) % 0x4000,
        c.spec_x() == ((c.packed as int) / 0x4000) % 0x4000,
        c.spec_y() == ((c.packed as int) / 0x1000_0000) % 4,
{
    let p = c.packed;
    assert((p & 0x3fff) == p % 0x4000) by (bit_vector);
    assert(((p >> 14u32) & 0x3fff) == (p / 0x4000) % 0x4000) by (bit_vector);
    assert(((p >> 28u32) & 0x3) == (p / 0x1000_0000) % 4) by (bit_vector);
}

} // verus!
