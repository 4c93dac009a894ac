//! The demonstration scene: a cube that rides a cubic Bezier curve, plus a
//! ground plane, a point light and a camera, stored as a plain table of
//! entities. `setup` builds the scene once; `animate_cube` is the per-frame
//! step, driven by a scaled sine sample of the elapsed time.

use crate::curve::{valid_param, CubicBezier, Point3, SAMPLE_COUNT};
use vstd::prelude::*;

verus! {

/// Denominator of the oscillation parameter: a scaled sine sample is an
/// integer in `[-OSC_DEN, OSC_DEN]` standing for a real in `[-1, 1]`.
pub const OSC_DEN: u64 = 1_000_000;

/// What an entity is in the scene, with the data that distinguishes it.
#[derive(Clone, Copy, Debug)]
pub enum EntityKind {
    /// The visual cube that the curve moves.
    Cube,
    /// A point light.
    PointLight { shadows_enabled: bool, intensity: u64, range: u64 },
    /// A static square ground plane with the given side length.
    GroundPlane { size: u64 },
    /// A camera looking at a fixed target.
    Camera { target: Point3 },
}

/// One scene entity: its kind, its translation, and the curve attached to
/// it, if any.
#[derive(Clone, Copy, Debug)]
pub struct Entity {
    pub kind: EntityKind,
    pub translation: Point3,
    pub curve: Option<CubicBezier>,
}

/// An append-only table of entities.
#[derive(Debug)]
pub struct Scene {
    pub entities: Vec<Entity>,
}

impl Scene {
    /// Every attached curve is well-formed.
    pub open spec fn wf(self) -> bool {
        forall|i: int|
            0 <= i < self.entities@.len() ==> match (#[trigger] self.entities@[i]).curve {
                Some(c) => c.wf(),
                None => true,
            }
    }
}

/// The fixed control points of the demonstration curve.
pub open spec fn demo_curve_spec() -> CubicBezier {
    CubicBezier {
        p0: Point3 { x: -6i64, y: 2, z: 0 },
        p1: Point3 { x: 12, y: 8, z: 0 },
        p2: Point3 { x: -12i64, y: 8, z: 0 },
        p3: Point3 { x: 6, y: 2, z: 0 },
    }
}

/// Builds the scene exactly once, before any per-frame logic: a cube
/// carrying the demonstration curve and positioned at its first control
/// point, a point light with shadows enabled, a ground plane, and a camera
/// looking at a fixed target. Construction always succeeds.
pub fn setup() -> (scene: Scene)
    ensures
        scene.wf(),
        scene.entities@.len() == 4,
        scene.entities@[0].kind is Cube,
        scene.entities@[0].curve == Some(demo_curve_spec()),
        scene.entities@[0].translation == demo_curve_spec().p0,
        scene.entities@[1].kind == (EntityKind::PointLight {
            shadows_enabled: true,
            intensity: 10_000_000,
            range: 100,
        }),
        scene.entities@[1].translation == (Point3 { x: 8, y: 16, z: 8 }),
        scene.entities@[1].curve is None,
        scene.entities@[2].kind == (EntityKind::GroundPlane { size: 50 }),
        scene.entities@[2].translation == (Point3 { x: 0, y: 0, z: 0 }),
        scene.entities@[2].curve is None,
        scene.entities@[3].kind == (EntityKind::Camera { target: Point3 { x: 0, y: 3, z: 0 } }),
        scene.entities@[3].translation == (Point3 { x: 0, y: 6, z: 12 }),
        scene.entities@[3].curve is None,
{
    let p0 = Point3::new(-6, 2, 0);
    let p1 = Point3::new(12, 8, 0);
    let p2 = Point3::new(-12, 8, 0);
    let p3 = Point3::new(6, 2, 0);
    let bezier = CubicBezier::new(p0, p1, p2, p3);
    let mut entities: Vec<Entity> = Vec::new();
    entities.push(
        Entity { kind: EntityKind::Cube, translation: p0, curve: Some(bezier) },
    );
    entities.push(
        Entity {
            kind: EntityKind::PointLight { shadows_enabled: true, intensity: 10_000_000, range: 100 },
            translation: Point3::new(8, 16, 8),
            curve: None,
        },
    );
    entities.push(
        Entity {
            kind: EntityKind::GroundPlane { size: 50 },
            translation: Point3::new(0, 0, 0),
            curve: None,
        },
    );
    entities.push(
        Entity {
            kind: EntityKind::Camera { target: Point3::new(0, 3, 0) },
            translation: Point3::new(0, 6, 12),
            curve: None,
        },
    );
    Scene { entities }
}

/// Maps a scaled sine sample of the elapsed time to the oscillation
/// parameter `t = (sin + 1) / 2`, held as a numerator over `OSC_DEN`. For
/// every sample in `[-OSC_DEN, OSC_DEN]` the result lies in `[0, OSC_DEN]`,
/// that is, `t` lies in `[0, 1]`.
pub fn oscillation_param(sine_scaled: i64) -> (t_num: u64)
    requires
        -(OSC_DEN as i64) <= sine_scaled <= OSC_DEN as i64,
    ensures
        t_num == (sine_scaled + OSC_DEN) / 2,
        t_num <= OSC_DEN,
        valid_param(t_num, OSC_DEN),
{
    ((sine_scaled + 1_000_000) as u64) / 2
}

/// The oscillation parameter lies in `[0, 1]` for every sine sample in
/// `[-1, 1]`: its numerator over `OSC_DEN` lies in `[0, OSC_DEN]`.
pub proof fn lemma_oscillation_in_range(sine_scaled: int)
    requires
        -(OSC_DEN as int) <= sine_scaled <= OSC_DEN as int,
    ensures
        0 <= (sine_scaled + OSC_DEN) / 2 <= OSC_DEN,
{
}

/// How one entity changes in a frame at parameter `num / den`: kind and
/// curve are kept, and the translation moves to the curve's position, or
/// stays where it was if the entity has no curve.
pub open spec fn frame_updated(e_old: Entity, e_new: Entity, num: int, den: int) -> bool {
    &&& e_new.kind == e_old.kind
    &&& e_new.curve == e_old.curve
    &&& match e_old.curve {
        Some(c) => e_new.translation == c.position_spec(num, den),
        None => e_new.translation == e_old.translation,
    }
}

/// The frame step is deterministic: from one starting entity and one
/// parameter there is exactly one updated entity.
pub proof fn lemma_frame_update_deterministic(
    e0: Entity,
    e1: Entity,
    e2: Entity,
    num: int,
    den: int,
)
    requires
        frame_updated(e0, e1, num, den),
        frame_updated(e0, e2, num, den),
    ensures
        e1 == e2,
{
}

/// The frame step is idempotent: re-running it at the same parameter
/// leaves the entity where the first run put it.
pub proof fn lemma_frame_update_idempotent(e0: Entity, e1: Entity, e2: Entity, num: int, den: int)
    requires
        frame_updated(e0, e1, num, den),
        frame_updated(e1, e2, num, den),
    ensures
        e2 == e1,
{
}

/// The polylines a frame draws: one full-curve polyline for each entity
/// holding a curve, in entity order.
pub open spec fn traces_of(entities: Seq<Entity>) -> Seq<Seq<Point3>>
    decreases entities.len(),
{
    if entities.len() == 0 {
        Seq::empty()
    } else {
        traces_of(entities.drop_last()) + (match entities.last().curve {
            Some(c) => seq![c.polyline_spec()],
            None => Seq::empty(),
        })
    }
}

/// The per-frame step: computes the oscillation parameter from the scaled
/// sine sample of the elapsed time, moves every entity holding a curve to
/// the curve's position at that parameter, and returns the polylines to
/// draw, each holding exactly `SAMPLE_COUNT` points. The step is a pure
/// function of the sample and the fixed control points: it never fails, and
/// re-running it with the same sample leaves the scene unchanged.
pub fn animate_cube(scene: &mut Scene, sine_scaled: i64) -> (traces: Vec<Vec<Point3>>)
    requires
        old(scene).wf(),
        -(OSC_DEN as i64) <= sine_scaled <= OSC_DEN as i64,
    ensures
        final(scene).wf(),
        final(scene).entities@.len() == old(scene).entities@.len(),
        forall|i: int|
            0 <= i < old(scene).entities@.len() ==> frame_updated(
                old(scene).entities@[i],
                final(scene).entities@[i],
                (sine_scaled + OSC_DEN) / 2,
                OSC_DEN as int,
            ),
        traces@.map_values(|v: Vec<Point3>| v@) == traces_of(old(scene).entities@),
        forall|k: int| 0 <= k < traces@.len() ==> (#[trigger] traces@[k])@.len() == SAMPLE_COUNT,
{
    let t_num: u64 = oscillation_param(sine_scaled);
    let n: usize = scene.entities.len();
    let mut traces: Vec<Vec<Point3>> = Vec::new();
    let mut idx: usize = 0;
    while idx < n
        invariant
            old(scene).wf(),
            n == scene.entities@.len(),
            n == old(scene).entities@.len(),
            idx <= n,
            t_num == (sine_scaled + OSC_DEN) / 2,
            valid_param(t_num, OSC_DEN),
            forall|i: int|
                0 <= i < idx ==> frame_updated(
                    old(scene).entities@[i],
                    #[trigger] scene.entities@[i],
                    (sine_scaled + OSC_DEN) / 2,
                    OSC_DEN as int,
                ),
            forall|i: int| idx <= i < n ==> scene.entities@[i] == old(scene).entities@[i],
            traces@.map_values(|v: Vec<Point3>| v@) == traces_of(
                old(scene).entities@.take(idx as int),
            ),
            forall|k: int| 0 <= k < traces@.len() ==> (#[trigger] traces@[k])@.len() == SAMPLE_COUNT,
        decreases n - idx,
    {
        let ghost pre_entities = scene.entities@;
        let ghost pre_traces = traces@;
        let e = scene.entities[idx];
        match e.curve {
            Some(c) => {
                let pts = c.sample_polyline();
                traces.push(pts);
                let pos = c.position(t_num, OSC_DEN);
                scene.entities[idx] = Entity { kind: e.kind, translation: pos, curve: e.curve };
            },
            None => {},
        }
        proof {
            assert(old(scene).entities@.take(idx + 1).drop_last() =~= old(
                scene,
            ).entities@.take(idx as int));
            assert(old(scene).entities@.take(idx + 1).last() == old(scene).entities@[idx as int]);
            assert(traces@.map_values(|v: Vec<Point3>| v@) =~= traces_of(
                old(scene).entities@.take(idx + 1),
            ));
        }
        idx += 1;
    }
    proof {
        assert(old(scene).entities@.take(n as int) =~= old(scene).entities@);
    }
    traces
}

} // verus!
