//! Blade instances and the generator that grows them from placement records.

use crate::ground::{sampled_height, GroundSurface, Point3};
use crate::jitter::{advance, draw, scaled, state_after, Jitter};
use crate::jitter::{lemma_scaled_below_bound, lemma_state_after_add};
use crate::placement::PlacementRecord;
use crate::units::ONE;
use vstd::prelude::*;

verus! {

/// A colour with its channels in fixed-point steps: [`ONE`] is full.
#[derive(Clone, Copy, Debug, PartialEq, Eq, Structural)]
pub struct Color {
    pub r: u32,
    pub g: u32,
    pub b: u32,
    pub a: u32,
}

/// A point of the world, in fixed-point steps.
#[derive(Clone, Copy, Debug, PartialEq, Eq, Structural)]
pub struct WorldPoint {
    pub x: i64,
    pub y: i64,
    pub z: i64,
}

/// One blade: where it stands, how tall it is drawn, and its colour.
#[derive(Clone, Copy, Debug, PartialEq, Eq, Structural)]
pub struct GrassInstanceData {
    pub position: WorldPoint,
    pub scale: u32,
    pub color: Color,
}

/// Smallest scale of a generated blade.
pub const SCALE_FLOOR: u32 = 200;

/// Largest scale of a generated blade.
pub const SCALE_CEILING: u32 = 700;

/// The dark green of a blade that nothing tints.
pub open spec fn grass_color() -> Color {
    Color { r: 100, g: 200, b: 10, a: ONE }
}

/// The colour of a blade on a sample: the dark green, dimmed to the
/// sample's coverage and left opaque.
pub open spec fn tinted(coverage: u32) -> Color {
    let share = if coverage <= ONE {
        coverage as int
    } else {
        ONE as int
    };
    Color {
        r: ((grass_color().r * share) / (ONE as int)) as u32,
        g: ((grass_color().g * share) / (ONE as int)) as u32,
        b: ((grass_color().b * share) / (ONE as int)) as u32,
        a: grass_color().a,
    }
}

/// The scale of a blade on a sample: the floor plus half the height hint.
pub open spec fn hinted_scale(height_hint: u32) -> int {
    SCALE_FLOOR + (if height_hint <= ONE {
        height_hint as int
    } else {
        ONE as int
    }) / 2
}

/// The scale of a blade on a region: a draw spread over `0 .. ONE`, halved
/// and lifted by the floor.
pub open spec fn jittered_scale(value: u64) -> int {
    SCALE_FLOOR + scaled(value, ONE as u64) / 2
}

impl Color {
    /// The colour of a blade that nothing tints.
    pub fn grass() -> (color: Color)
        ensures
            color == grass_color(),
    {
        Color { r: 100, g: 200, b: 10, a: ONE }
    }

    /// The colour of a blade on a sample with the given coverage.
    pub fn tint(coverage: u32) -> (color: Color)
        ensures
            color == tinted(coverage),
    {
        let share: u32 = if coverage <= ONE {
            coverage
        } else {
            ONE
        };
        Color { r: (100 * share) / ONE, g: (200 * share) / ONE, b: (10 * share) / ONE, a: ONE }
    }
}

impl GrassInstanceData {
    /// A blade at `(x, y, z)` at full scale and in the untinted green.
    pub fn new(x: i64, y: i64, z: i64) -> (blade: GrassInstanceData)
        ensures
            blade.position == (WorldPoint { x, y, z }),
            blade.scale == ONE,
            blade.color == grass_color(),
    {
        GrassInstanceData { position: WorldPoint { x, y, z }, scale: ONE, color: Color::grass() }
    }

    /// The same blade drawn at another scale.
    pub fn with_scale(self, scale: u32) -> (blade: GrassInstanceData)
        ensures
            blade.position == self.position,
            blade.color == self.color,
            blade.scale == scale,
    {
        GrassInstanceData { position: self.position, scale, color: self.color }
    }
}

/// World x of the corner where a record's rectangle starts.
pub open spec fn origin_x(record: PlacementRecord, translation: Point3, scale_x: u32) -> int {
    translation.x + record.cell_x() * scale_x
}

/// World z of the corner where a record's rectangle starts.
pub open spec fn origin_z(record: PlacementRecord, translation: Point3, scale_z: u32) -> int {
    translation.z + record.cell_z() * scale_z
}

/// How far a record's rectangle reaches along x.
pub open spec fn extent_x(record: PlacementRecord, scale_x: u32) -> int {
    record.cells_wide() * scale_x
}

/// How far a record's rectangle reaches along z.
pub open spec fn extent_z(record: PlacementRecord, scale_z: u32) -> int {
    record.cells_deep() * scale_z
}

/// The height every blade of a record stands at: the ground height sampled
/// once, at the centre of the record's rectangle, plus the ground's own
/// height.
pub open spec fn anchor_y(
    record: PlacementRecord,
    translation: Point3,
    positions: Seq<Point3>,
    scale_x: u32,
    scale_z: u32,
) -> int {
    sampled_height(
        positions,
        origin_x(record, translation, scale_x) + extent_x(record, scale_x) / 2,
        origin_z(record, translation, scale_z) + extent_z(record, scale_z) / 2,
    ) + translation.y
}

/// Draws that one blade takes from the generator: x, z and scale.
pub const DRAWS_PER_BLADE: u32 = 3;

/// The `k`-th blade of a record, for a generator that is in `state` when
/// the record begins.
pub open spec fn blade(
    record: PlacementRecord,
    translation: Point3,
    positions: Seq<Point3>,
    scale_x: u32,
    scale_z: u32,
    state: u64,
    k: int,
) -> GrassInstanceData {
    let first = (DRAWS_PER_BLADE * k) as nat;
    GrassInstanceData {
        position: WorldPoint {
            x: (origin_x(record, translation, scale_x) + scaled(
                draw(state, first),
                extent_x(record, scale_x) as u64,
            )) as i64,
            y: anchor_y(record, translation, positions, scale_x, scale_z) as i64,
            z: (origin_z(record, translation, scale_z) + scaled(
                draw(state, first + 1),
                extent_z(record, scale_z) as u64,
            )) as i64,
        },
        scale: match record {
            PlacementRecord::Region { .. } => jittered_scale(draw(state, first + 2)) as u32,
            PlacementRecord::Sample { height_hint, .. } => hinted_scale(height_hint) as u32,
        },
        color: match record {
            PlacementRecord::Region { .. } => grass_color(),
            PlacementRecord::Sample { coverage, .. } => tinted(coverage),
        },
    }
}

/// All blades of one record, in the order they are generated.
pub open spec fn region_blades(
    record: PlacementRecord,
    translation: Point3,
    positions: Seq<Point3>,
    scale_x: u32,
    scale_z: u32,
    state: u64,
) -> Seq<GrassInstanceData> {
    Seq::new(
        record.blade_count(),
        |k: int| blade(record, translation, positions, scale_x, scale_z, state, k),
    )
}

/// The generator's state once a record's blades are drawn.
pub open spec fn state_after_region(record: PlacementRecord, state: u64) -> u64 {
    state_after(state, DRAWS_PER_BLADE as nat * record.blade_count())
}

/// The generator's state once all of `records` are expanded.
pub open spec fn state_after_field(records: Seq<PlacementRecord>, seed: u64) -> u64
    decreases records.len(),
{
    if records.len() == 0 {
        seed
    } else {
        state_after_region(records.last(), state_after_field(records.drop_last(), seed))
    }
}

/// All blades of a placement map: those of each record in turn, the
/// generator running on from one record to the next.
pub open spec fn field_blades(
    records: Seq<PlacementRecord>,
    translation: Point3,
    positions: Seq<Point3>,
    scale_x: u32,
    scale_z: u32,
    seed: u64,
) -> Seq<GrassInstanceData>
    decreases records.len(),
{
    if records.len() == 0 {
        Seq::empty()
    } else {
        field_blades(records.drop_last(), translation, positions, scale_x, scale_z, seed)
            + region_blades(
            records.last(),
            translation,
            positions,
            scale_x,
            scale_z,
            state_after_field(records.drop_last(), seed),
        )
    }
}

/// The number of blades that a placement map grows.
pub open spec fn field_blade_count(records: Seq<PlacementRecord>) -> nat
    decreases records.len(),
{
    if records.len() == 0 {
        0
    } else {
        field_blade_count(records.drop_last()) + records.last().blade_count()
    }
}

/// Whether `p` lies in the rectangle of `record`: from the origin up to,
/// and not on, the far edge. A rectangle without extent holds its origin only.
pub open spec fn region_contains(
    record: PlacementRecord,
    translation: Point3,
    scale_x: u32,
    scale_z: u32,
    p: WorldPoint,
) -> bool {
    let ox = origin_x(record, translation, scale_x);
    let oz = origin_z(record, translation, scale_z);
    let ex = extent_x(record, scale_x);
    let ez = extent_z(record, scale_z);
    &&& ox <= p.x
    &&& p.x < ox + ex || (ex == 0 && p.x == ox)
    &&& oz <= p.z
    &&& p.z < oz + ez || (ez == 0 && p.z == oz)
}

/// A record's rectangle in the world, worked out once per record.
struct RegionFrame {
    origin_x: i64,
    origin_z: i64,
    extent_x: u64,
    extent_z: u64,
    y: i64,
}

impl RegionFrame {
    /// Whether the frame is that of `record` on `ground`. Its numbers are
    /// small enough that a blade's place never leaves 64 bits.
    spec fn frames(
        self,
        record: PlacementRecord,
        ground: GroundSurface,
        scale_x: u32,
        scale_z: u32,
    ) -> bool {
        &&& self.origin_x == origin_x(record, ground.translation, scale_x)
        &&& self.origin_z == origin_z(record, ground.translation, scale_z)
        &&& self.extent_x == extent_x(record, scale_x)
        &&& self.extent_z == extent_z(record, scale_z)
        &&& self.y == anchor_y(record, ground.translation, ground.positions(), scale_x, scale_z)
        &&& self.extent_x <= 0xFFFF * 0xFFFF_FFFF
        &&& self.extent_z <= 0xFFFF * 0xFFFF_FFFF
        &&& -0x8000_0000 <= self.origin_x <= 0x7FFF_FFFF + 0xFFFF * 0xFFFF_FFFF
        &&& -0x8000_0000 <= self.origin_z <= 0x7FFF_FFFF + 0xFFFF * 0xFFFF_FFFF
    }
}

fn region_frame(
    record: &PlacementRecord,
    ground: &GroundSurface,
    scale_x: u32,
    scale_z: u32,
) -> (frame: RegionFrame)
    ensures
        frame.frames(*record, *ground, scale_x, scale_z),
{
    let (cx, cz, cw, ch): (u64, u64, u64, u64) = match record {
        PlacementRecord::Region { x, z, w, h, .. } => (*x as u64, *z as u64, *w as u64, *h as u64),
        PlacementRecord::Sample { x, z, .. } => (*x as u64, *z as u64, 1, 1),
    };
    let sx: u64 = scale_x as u64;
    let sz: u64 = scale_z as u64;
    proof {
        lemma_cells_times_scale(cx, sx);
        lemma_cells_times_scale(cz, sz);
        lemma_cells_times_scale(cw, sx);
        lemma_cells_times_scale(ch, sz);
    }
    let origin_x: i64 = ground.translation.x as i64 + (cx * sx) as i64;
    let origin_z: i64 = ground.translation.z as i64 + (cz * sz) as i64;
    let extent_x: u64 = cw * sx;
    let extent_z: u64 = ch * sz;
    let anchor: i32 = ground.height_at(
        origin_x + (extent_x / 2) as i64,
        origin_z + (extent_z / 2) as i64,
    );
    RegionFrame {
        origin_x,
        origin_z,
        extent_x,
        extent_z,
        y: anchor as i64 + ground.translation.y as i64,
    }
}

proof fn lemma_cells_times_scale(cells: u64, scale: u64)
    requires
        cells <= 0xFFFF,
        scale <= 0xFFFF_FFFF,
    ensures
        0 <= cells * scale <= 0xFFFF * 0xFFFF_FFFF,
{
    assert(0 <= cells * scale <= 0xFFFF * 0xFFFF_FFFF) by (nonlinear_arith)
        requires
            0 <= cells <= 0xFFFF,
            0 <= scale <= 0xFFFF_FFFF,
    ;
}

/// The state after `n + 1` draws follows the state after `n`.
proof fn lemma_state_after_next(state: u64, n: nat)
    ensures
        state_after(state, n + 1) == advance(state_after(state, n)),
{
}

fn emit_region(
    record: &PlacementRecord,
    ground: &GroundSurface,
    scale_x: u32,
    scale_z: u32,
    rng: &mut Jitter,
    out: &mut Vec<GrassInstanceData>,
)
    ensures
        final(out)@ == old(out)@ + region_blades(
            *record,
            ground.translation,
            ground.positions(),
            scale_x,
            scale_z,
            old(rng).state,
        ),
        final(rng).state == state_after_region(*record, old(rng).state),
{
    let count: u32 = record.blades();
    if count == 0 {
        return ;
    }
    let frame = region_frame(record, ground, scale_x, scale_z);
    let ghost start: u64 = rng.state;
    let ghost before: Seq<GrassInstanceData> = out@;
    let mut k: u32 = 0;
    while k < count
        invariant
            k <= count,
            count == record.blade_count(),
            start == old(rng).state,
            before == old(out)@,
            rng.state == state_after(start, (DRAWS_PER_BLADE * k) as nat),
            out@ == before + Seq::new(
                k as nat,
                |i: int|
                    blade(
                        *record,
                        ground.translation,
                        ground.positions(),
                        scale_x,
                        scale_z,
                        start,
                        i,
                    ),
            ),
            frame.frames(*record, *ground, scale_x, scale_z),
        decreases count - k,
    {
        let ghost first: nat = (DRAWS_PER_BLADE * k) as nat;
        proof {
            lemma_state_after_next(start, first);
            lemma_state_after_next(start, first + 1);
            lemma_state_after_next(start, first + 2);
        }
        let dx: u64 = rng.next_below(frame.extent_x);
        let dz: u64 = rng.next_below(frame.extent_z);
        let spread: u64 = rng.next_below(ONE as u64);
        let scale: u32 = match record {
            PlacementRecord::Region { .. } => SCALE_FLOOR + (spread / 2) as u32,
            PlacementRecord::Sample { height_hint, .. } => {
                let hint: u32 = if *height_hint <= ONE {
                    *height_hint
                } else {
                    ONE
                };
                SCALE_FLOOR + hint / 2
            },
        };
        let color: Color = match record {
            PlacementRecord::Region { .. } => Color::grass(),
            PlacementRecord::Sample { coverage, .. } => Color::tint(*coverage),
        };
        let made = GrassInstanceData {
            position: WorldPoint {
                x: frame.origin_x + dx as i64,
                y: frame.y,
                z: frame.origin_z + dz as i64,
            },
            scale,
            color,
        };
        out.push(made);
        k += 1;
    }
}

/// Grows the blades of one record: none for a bare record, else
/// [`PlacementRecord::blade_count`] of them. Each stands at the record's
/// anchor height, at a jittered place inside the record's rectangle.
pub fn generate_region(
    record: &PlacementRecord,
    ground: &GroundSurface,
    scale_x: u32,
    scale_z: u32,
    rng: &mut Jitter,
) -> (out: Vec<GrassInstanceData>)
    ensures
        out@ == region_blades(
            *record,
            ground.translation,
            ground.positions(),
            scale_x,
            scale_z,
            old(rng).state,
        ),
        out@.len() == record.blade_count(),
        !record.active() ==> out@.len() == 0,
        final(rng).state == state_after_region(*record, old(rng).state),
{
    let mut out: Vec<GrassInstanceData> = Vec::new();
    emit_region(record, ground, scale_x, scale_z, rng, &mut out);
    out
}

/// Grows the grass of a whole placement map on one ground region.
///
/// The records are expanded in order from a generator seeded with `seed`,
/// so the same inputs always give the same blades in the same order.
pub fn generate(
    records: &Vec<PlacementRecord>,
    ground: &GroundSurface,
    scale_x: u32,
    scale_z: u32,
    seed: u64,
) -> (out: Vec<GrassInstanceData>)
    ensures
        out@ == field_blades(
            records@,
            ground.translation,
            ground.positions(),
            scale_x,
            scale_z,
            seed,
        ),
        out@.len() == field_blade_count(records@),
{
    let mut rng = Jitter::from_seed(seed);
    let mut out: Vec<GrassInstanceData> = Vec::new();
    let n: usize = records.len();
    let mut i: usize = 0;
    while i < n
        invariant
            n == records@.len(),
            i <= n,
            rng.state == state_after_field(records@.take(i as int), seed),
            out@ == field_blades(
                records@.take(i as int),
                ground.translation,
                ground.positions(),
                scale_x,
                scale_z,
                seed,
            ),
        decreases n - i,
    {
        proof {
            let next = records@.take(i + 1);
            assert(next.drop_last() =~= records@.take(i as int));
        }
        emit_region(&records[i], ground, scale_x, scale_z, &mut rng, &mut out);
        i += 1;
    }
    proof {
        assert(records@.take(n as int) =~= records@);
        lemma_field_blade_count(
            records@,
            ground.translation,
            ground.positions(),
            scale_x,
            scale_z,
            seed,
        );
    }
    out
}

/// A placement map grows as many blades as its records grow together.
pub proof fn lemma_field_blade_count(
    records: Seq<PlacementRecord>,
    translation: Point3,
    positions: Seq<Point3>,
    scale_x: u32,
    scale_z: u32,
    seed: u64,
)
    ensures
        field_blades(records, translation, positions, scale_x, scale_z, seed).len()
            == field_blade_count(records),
    decreases records.len(),
{
    if records.len() > 0 {
        lemma_field_blade_count(
            records.drop_last(),
            translation,
            positions,
            scale_x,
            scale_z,
            seed,
        );
    }
}

/// A record that is not active, such as a region with id 0, grows no blade.
pub proof fn lemma_bare_record_grows_nothing(
    record: PlacementRecord,
    translation: Point3,
    positions: Seq<Point3>,
    scale_x: u32,
    scale_z: u32,
    state: u64,
)
    requires
        !record.active(),
    ensures
        region_blades(record, translation, positions, scale_x, scale_z, state)
            == Seq::<GrassInstanceData>::empty(),
        state_after_region(record, state) == state,
{
}

/// An active region of `w` by `h` cells grows `w * h / 4` blades, rounded
/// down.
pub proof fn lemma_active_region_blade_count(
    id: u16,
    x: u16,
    z: u16,
    w: u16,
    h: u16,
    translation: Point3,
    positions: Seq<Point3>,
    scale_x: u32,
    scale_z: u32,
    state: u64,
)
    requires
        id != 0,
    ensures
        region_blades(
            PlacementRecord::Region { id, x, z, w, h },
            translation,
            positions,
            scale_x,
            scale_z,
            state,
        ).len() == (w * h) / 4,
{
}

/// Every blade of a record stands inside the record's rectangle, at the
/// record's anchor height, with a scale between the floor and the ceiling.
pub proof fn lemma_blade_stays_in_region(
    record: PlacementRecord,
    translation: Point3,
    positions: Seq<Point3>,
    scale_x: u32,
    scale_z: u32,
    state: u64,
    k: int,
)
    requires
        0 <= k < record.blade_count(),
    ensures
        region_contains(
            record,
            translation,
            scale_x,
            scale_z,
            blade(record, translation, positions, scale_x, scale_z, state, k).position,
        ),
        blade(record, translation, positions, scale_x, scale_z, state, k).position.y == anchor_y(
            record,
            translation,
            positions,
            scale_x,
            scale_z,
        ),
        SCALE_FLOOR <= blade(record, translation, positions, scale_x, scale_z, state, k).scale
            <= SCALE_CEILING,
{
    let first = (DRAWS_PER_BLADE * k) as nat;
    let ex = extent_x(record, scale_x);
    let ez = extent_z(record, scale_z);
    lemma_cells_times_scale(record.cell_x() as u64, scale_x as u64);
    lemma_cells_times_scale(record.cell_z() as u64, scale_z as u64);
    lemma_cells_times_scale(record.cells_wide() as u64, scale_x as u64);
    lemma_cells_times_scale(record.cells_deep() as u64, scale_z as u64);
    lemma_scaled_below_bound(draw(state, first), ex as u64);
    lemma_scaled_below_bound(draw(state, first + 1), ez as u64);
    lemma_scaled_below_bound(draw(state, first + 2), ONE as u64);
}

/// Every blade of a placement map stands inside the rectangle of one of the
/// map's active records.
pub proof fn lemma_field_blades_stay_in_regions(
    records: Seq<PlacementRecord>,
    translation: Point3,
    positions: Seq<Point3>,
    scale_x: u32,
    scale_z: u32,
    seed: u64,
    i: int,
) -> (r: int)
    requires
        0 <= i < field_blades(records, translation, positions, scale_x, scale_z, seed).len(),
    ensures
        0 <= r < records.len(),
        records[r].active(),
        region_contains(
            records[r],
            translation,
            scale_x,
            scale_z,
            field_blades(records, translation, positions, scale_x, scale_z, seed)[i].position,
        ),
    decreases records.len(),
{
    let earlier = field_blades(
        records.drop_last(),
        translation,
        positions,
        scale_x,
        scale_z,
        seed,
    );
    if i < earlier.len() {
        lemma_field_blades_stay_in_regions(
            records.drop_last(),
            translation,
            positions,
            scale_x,
            scale_z,
            seed,
            i,
        )
    } else {
        lemma_blade_stays_in_region(
            records.last(),
            translation,
            positions,
            scale_x,
            scale_z,
            state_after_field(records.drop_last(), seed),
            i - earlier.len(),
        );
        records.len() - 1
    }
}

/// Growing a map twice from the same seed, on grounds that agree in their
/// translation and in their mesh, gives the same blades in the same order.
pub proof fn lemma_same_seed_same_blades(
    records: Seq<PlacementRecord>,
    first: GroundSurface,
    second: GroundSurface,
    scale_x: u32,
    scale_z: u32,
    seed: u64,
)
    requires
        first.translation == second.translation,
        first.positions() == second.positions(),
    ensures
        field_blades(records, first.translation, first.positions(), scale_x, scale_z, seed)
            == field_blades(
            records,
            second.translation,
            second.positions(),
            scale_x,
            scale_z,
            seed,
        ),
{
}

/// Expanding a placement map takes three draws for each blade it grows, so
/// the generator ends where that many draws from the seed lead.
pub proof fn lemma_field_draws(records: Seq<PlacementRecord>, seed: u64)
    ensures
        state_after_field(records, seed) == state_after(
            seed,
            DRAWS_PER_BLADE as nat * field_blade_count(records),
        ),
    decreases records.len(),
{
    if records.len() > 0 {
        lemma_field_draws(records.drop_last(), seed);
        let earlier = DRAWS_PER_BLADE as nat * field_blade_count(records.drop_last());
        let last = DRAWS_PER_BLADE as nat * records.last().blade_count();
        lemma_state_after_add(seed, earlier, last);
        assert(earlier + last == DRAWS_PER_BLADE as nat * field_blade_count(records))
            by (nonlinear_arith)
            requires
                earlier == DRAWS_PER_BLADE as nat * field_blade_count(records.drop_last()),
                last == DRAWS_PER_BLADE as nat * records.last().blade_count(),
                field_blade_count(records) == field_blade_count(records.drop_last())
                    + records.last().blade_count(),
        ;
    }
}

} // verus!
