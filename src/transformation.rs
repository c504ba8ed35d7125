//! Moving control from a pilot into a mech and back.
use vstd::prelude::*;
use crate::geometry::{length, sqrt_floor, Color, Vec2};
use crate::mech::{active_tint, idle_tint, Mech, EXIT_OFFSET};

verus! {

/// A pilot as the protocol sees it: where it stands and whether it is drawn
/// and collides. Body and transform are never touched by the protocol.
#[derive(Clone, Copy, Debug, PartialEq, Eq, Structural)]
pub struct Pilot {
    pub position: Vec2,
    pub has_sprite: bool,
    pub has_collider: bool,
}

/// A mech placed in the world, with the tint it is drawn in.
#[derive(Clone, Copy, Debug)]
pub struct MechUnit {
    pub mech: Mech,
    pub position: Vec2,
    pub tint: Color,
}

/// Outcome of a transformation request, with a readable reason.
#[derive(Clone, Debug)]
pub struct TransformationResult {
    pub success: bool,
    pub message: String,
}

/// All mechs are well formed and placed within the coordinate limit.
pub open spec fn fleet_ok(mechs: Seq<MechUnit>) -> bool {
    forall|i: int| 0 <= i < mechs.len() ==> (#[trigger] mechs[i]).mech.wf() && mechs[i].position.in_limit()
}

/// Whether entering succeeds: the mech exists and is empty, the pilot
/// exists.
pub open spec fn can_enter(mechs: Seq<MechUnit>, pilots: Seq<Pilot>, pilot: int, mech: int) -> bool {
    0 <= mech < mechs.len() && !mechs[mech].mech.is_occupied && 0 <= pilot < pilots.len()
}

/// Mechs after a successful entry.
pub open spec fn mechs_entered(mechs: Seq<MechUnit>, pilot: int, mech: int) -> Seq<MechUnit> {
    mechs.update(
        mech,
        MechUnit {
            mech: Mech { is_occupied: true, pilot_entity: Some(pilot as usize), ..mechs[mech].mech },
            tint: active_tint(),
            ..mechs[mech]
        },
    )
}

/// Pilots after a successful entry: the pilot is hidden and does not collide.
pub open spec fn pilots_entered(pilots: Seq<Pilot>, pilot: int) -> Seq<Pilot> {
    pilots.update(pilot, Pilot { has_sprite: false, has_collider: false, ..pilots[pilot] })
}

/// Whether exiting succeeds: the mech exists and is occupied.
pub open spec fn can_exit(mechs: Seq<MechUnit>, mech: int) -> bool {
    0 <= mech < mechs.len() && mechs[mech].mech.is_occupied
}

/// Mechs after a successful exit.
pub open spec fn mechs_exited(mechs: Seq<MechUnit>, mech: int) -> Seq<MechUnit> {
    mechs.update(
        mech,
        MechUnit {
            mech: Mech { is_occupied: false, pilot_entity: None, ..mechs[mech].mech },
            tint: idle_tint(),
            ..mechs[mech]
        },
    )
}

/// Pilots after a successful exit: the pilot is drawn and collides again,
/// beside the mech.
pub open spec fn pilots_exited(pilots: Seq<Pilot>, pilot: int, at: Vec2) -> Seq<Pilot> {
    if 0 <= pilot < pilots.len() {
        pilots.update(
            pilot,
            Pilot {
                position: Vec2 { x: (at.x + EXIT_OFFSET) as i64, y: at.y },
                has_sprite: true,
                has_collider: true,
            },
        )
    } else {
        pilots
    }
}

/// Puts `player_entity` into `mech_entity`. Fails, changing nothing, when
/// the mech does not exist, is occupied, or the pilot does not exist.
pub fn enter_mech(
    mechs: &mut Vec<MechUnit>,
    pilots: &mut Vec<Pilot>,
    player_entity: usize,
    mech_entity: usize,
) -> (r: TransformationResult)
    requires
        fleet_ok(old(mechs)@),
    ensures
        fleet_ok(final(mechs)@),
        r.success == can_enter(old(mechs)@, old(pilots)@, player_entity as int, mech_entity as int),
        r.success ==> final(mechs)@ == mechs_entered(old(mechs)@, player_entity as int, mech_entity as int)
            && final(pilots)@ == pilots_entered(old(pilots)@, player_entity as int)
            && r.message@ == "Entered Titan mech"@,
        !r.success ==> final(mechs)@ == old(mechs)@ && final(pilots)@ == old(pilots)@,
        mech_entity >= old(mechs)@.len() ==> r.message@ == "Invalid mech entity"@,
        mech_entity < old(mechs)@.len() && old(mechs)@[mech_entity as int].mech.is_occupied
            ==> r.message@ == "Mech is already occupied"@,
        mech_entity < old(mechs)@.len() && !old(mechs)@[mech_entity as int].mech.is_occupied
            && player_entity >= old(pilots)@.len() ==> r.message@ == "Player has no transform"@,
{
    if mech_entity >= mechs.len() {
        return TransformationResult { success: false, message: "Invalid mech entity".to_owned() };
    }
    if mechs[mech_entity].mech.is_occupied {
        return TransformationResult {
            success: false,
            message: "Mech is already occupied".to_owned(),
        };
    }
    if player_entity >= pilots.len() {
        return TransformationResult {
            success: false,
            message: "Player has no transform".to_owned(),
        };
    }
    let mut unit = mechs[mech_entity];
    unit.mech.is_occupied = true;
    unit.mech.pilot_entity = Some(player_entity);
    unit.tint = unit.mech.get_color();
    mechs.set(mech_entity, unit);
    let mut p = pilots[player_entity];
    p.has_sprite = false;
    p.has_collider = false;
    pilots.set(player_entity, p);
    proof {
        assert(mechs@ =~= mechs_entered(old(mechs)@, player_entity as int, mech_entity as int));
        assert(pilots@ =~= pilots_entered(old(pilots)@, player_entity as int));
    }
    TransformationResult { success: true, message: "Entered Titan mech".to_owned() }
}

/// Takes the pilot out of `mech_entity`: the mech becomes empty and the
/// pilot, if it still exists, is drawn and collides again beside the mech.
/// Fails, changing nothing, when the mech does not exist or is empty.
pub fn exit_mech(mechs: &mut Vec<MechUnit>, pilots: &mut Vec<Pilot>, mech_entity: usize) -> (r:
    TransformationResult)
    requires
        fleet_ok(old(mechs)@),
    ensures
        fleet_ok(final(mechs)@),
        r.success == can_exit(old(mechs)@, mech_entity as int),
        r.success ==> ({
            let unit = old(mechs)@[mech_entity as int];
            &&& final(mechs)@ == mechs_exited(old(mechs)@, mech_entity as int)
            &&& final(pilots)@ == pilots_exited(
                old(pilots)@,
                unit.mech.pilot_entity.unwrap() as int,
                unit.position,
            )
            &&& r.message@ == "Exited Titan mech"@
        }),
        !r.success ==> final(mechs)@ == old(mechs)@ && final(pilots)@ == old(pilots)@,
        mech_entity >= old(mechs)@.len() ==> r.message@ == "Invalid mech entity"@,
        mech_entity < old(mechs)@.len() && !old(mechs)@[mech_entity as int].mech.is_occupied
            ==> r.message@ == "Mech is not occupied"@,
{
    if mech_entity >= mechs.len() {
        return TransformationResult { success: false, message: "Invalid mech entity".to_owned() };
    }
    let mut unit = mechs[mech_entity];
    let pilot = match unit.mech.pilot_entity {
        Some(p) => p,
        None => {
            return TransformationResult {
                success: false,
                message: "Mech is not occupied".to_owned(),
            };
        },
    };
    let at = unit.position;
    unit.mech.is_occupied = false;
    unit.mech.pilot_entity = None;
    unit.tint = unit.mech.get_color();
    mechs.set(mech_entity, unit);
    if pilot < pilots.len() {
        let p = Pilot {
            position: Vec2::new(at.x + EXIT_OFFSET, at.y),
            has_sprite: true,
            has_collider: true,
        };
        pilots.set(pilot, p);
    }
    proof {
        assert(mechs@ =~= mechs_exited(old(mechs)@, mech_entity as int));
        assert(pilots@ =~= pilots_exited(old(pilots)@, pilot as int, at));
    }
    TransformationResult { success: true, message: "Exited Titan mech".to_owned() }
}

/// Entering and then leaving a mech gives the pilot back its sprite and
/// collider and leaves the mech empty, naming no pilot.
pub proof fn lemma_enter_exit_round_trip(
    mechs: Seq<MechUnit>,
    pilots: Seq<Pilot>,
    pilot: usize,
    mech: usize,
)
    requires
        can_enter(mechs, pilots, pilot as int, mech as int),
    ensures
        ({
            let taken = mechs_entered(mechs, pilot as int, mech as int);
            let inside = pilots_entered(pilots, pilot as int);
            let freed = mechs_exited(taken, mech as int);
            let outside = pilots_exited(
                inside,
                taken[mech as int].mech.pilot_entity.unwrap() as int,
                taken[mech as int].position,
            );
            &&& can_exit(taken, mech as int)
            &&& outside[pilot as int].has_sprite
            &&& outside[pilot as int].has_collider
            &&& !freed[mech as int].mech.is_occupied
            &&& freed[mech as int].mech.pilot_entity is None
            &&& freed[mech as int].tint == idle_tint()
        }),
{
}

/// Distance, rounded down, from a mech to `pos`.
pub open spec fn distance_to(unit: MechUnit, pos: Vec2) -> int {
    sqrt_floor(
        Vec2 { x: (unit.position.x - pos.x) as i64, y: (unit.position.y - pos.y) as i64 }.len_sq(),
    )
}

/// Whether mech `i` is empty and nearer `pos` than `limit`.
pub open spec fn candidate(mechs: Seq<MechUnit>, pos: Vec2, limit: int, i: int) -> bool {
    !mechs[i].mech.is_occupied && distance_to(mechs[i], pos) < limit
}

/// The nearest empty mech strictly within `max_distance` of `player_pos`;
/// among equally near ones, the first.
pub fn find_nearest_mech(mechs: &Vec<MechUnit>, player_pos: Vec2, max_distance: i64) -> (r: Option<
    usize,
>)
    requires
        fleet_ok(mechs@),
        player_pos.in_limit(),
    ensures
        r is None <==> forall|i: int|
            0 <= i < mechs@.len() ==> !#[trigger] candidate(mechs@, player_pos, max_distance as int, i),
        r matches Some(k) ==> {
            &&& k < mechs@.len()
            &&& candidate(mechs@, player_pos, max_distance as int, k as int)
            &&& forall|j: int|
                0 <= j < mechs@.len() && !mechs@[j].mech.is_occupied ==> distance_to(mechs@[j], player_pos)
                    >= #[trigger] distance_to(mechs@[k as int], player_pos)
            &&& forall|j: int|
                0 <= j < k && !mechs@[j].mech.is_occupied ==> #[trigger] distance_to(mechs@[j], player_pos)
                    > distance_to(mechs@[k as int], player_pos)
        },
{
    let mut best: Option<usize> = None;
    let mut best_d: i64 = max_distance;
    let mut i: usize = 0;
    while i < mechs.len()
        invariant
            fleet_ok(mechs@),
            player_pos.in_limit(),
            i <= mechs@.len(),
            best is None ==> best_d == max_distance && forall|j: int|
                0 <= j < i ==> !#[trigger] candidate(mechs@, player_pos, max_distance as int, j),
            best matches Some(k) ==> {
                &&& k < i
                &&& candidate(mechs@, player_pos, max_distance as int, k as int)
                &&& best_d == distance_to(mechs@[k as int], player_pos)
                &&& forall|j: int|
                    0 <= j < i && !mechs@[j].mech.is_occupied ==> #[trigger] distance_to(mechs@[j], player_pos)
                        >= best_d
                &&& forall|j: int|
                    0 <= j < k && !mechs@[j].mech.is_occupied ==> #[trigger] distance_to(mechs@[j], player_pos)
                        > best_d
            },
            best is None ==> forall|j: int|
                0 <= j < i && !mechs@[j].mech.is_occupied ==> #[trigger] distance_to(mechs@[j], player_pos)
                    >= max_distance,
        decreases mechs.len() - i,
    {
        let unit = &mechs[i];
        if !unit.mech.is_occupied {
            let d = length(unit.position.x - player_pos.x, unit.position.y - player_pos.y);
            if (d as i128) < (best_d as i128) {
                best_d = d as i64;
                best = Some(i);
            }
        }
        i += 1;
    }
    best
}

/// Places a new, empty mech at `position`; returns its index.
pub fn spawn_mech(mechs: &mut Vec<MechUnit>, position: Vec2) -> (r: usize)
    ensures
        r == old(mechs)@.len(),
        final(mechs)@ == old(mechs)@.push(
            MechUnit { mech: Mech::new_spec(), position, tint: idle_tint() },
        ),
{
    let mech = Mech::new();
    let tint = mech.get_color();
    let r = mechs.len();
    mechs.push(MechUnit { mech, position, tint });
    r
}

} // verus!
