//! The five levels: time limits, ammunition, start and goal positions, the
//! planets, and the hint shown while playing. Positions are world units with
//! the origin at the centre of the 320 by 320 view.
use vstd::prelude::*;

verus! {

/// A planet: its centre, the radius within which it pulls the ship, the radius
/// of its surface, and the strength of its pull.
#[derive(Debug, Clone, Copy, PartialEq, Eq, Structural)]
pub struct PlanetSpec {
    pub x: i32,
    pub y: i32,
    pub pull_radius: u32,
    pub body_radius: u32,
    pub gravity_force: u32,
}

/// Everything a level is set up from.
#[derive(Debug)]
pub struct LevelLayout {
    /// Seconds on the countdown.
    pub time_limit_secs: u32,
    /// Blasts the ship starts with (and can hold).
    pub ammo: u32,
    /// Where the ship starts.
    pub start: (i32, i32),
    /// The planets, in the order they are spawned.
    pub planets: Vec<PlanetSpec>,
    /// The centre of the goal zone.
    pub goal: (i32, i32),
}

/// Ship clearance: the ship crashes within this distance of a planet's surface.
pub const SHIP_CLEARANCE: u32 = 10;

/// The countdown of a level, in seconds; levels past the fourth use the fifth's.
pub open spec fn level_time_limit(level: u32) -> u32 {
    match level {
        1 => 12,
        2 => 14,
        3 => 12,
        4 => 14,
        _ => 16,
    }
}

/// The blasts a level starts with.
pub open spec fn level_ammo_spec(level: u32) -> u32 {
    match level {
        1 => 5,
        2 => 6,
        3 => 6,
        4 => 7,
        _ => 8,
    }
}

/// Where the ship starts in a level.
pub open spec fn level_start(level: u32) -> (i32, i32) {
    match level {
        1 => (-120i32, -120i32),
        2 => (-140i32, 0),
        3 => (0, -140i32),
        4 => (-140i32, -140i32),
        _ => (-150i32, -150i32),
    }
}

pub open spec fn planet(x: i32, y: i32, pull_radius: u32, body_radius: u32, gravity_force: u32) -> PlanetSpec {
    PlanetSpec { x, y, pull_radius, body_radius, gravity_force }
}

/// The planets of a level.
pub open spec fn level_planets(level: u32) -> Seq<PlanetSpec> {
    match level {
        1 => seq![planet(40, -40i32, 50, 16, 16)],
        2 => seq![planet(20, 0, 60, 18, 18)],
        3 => seq![planet(0, 0, 70, 20, 20)],
        4 => seq![planet(40, 40, 80, 24, 22)],
        _ => seq![
            planet(-50i32, -30i32, 55, 16, 14),
            planet(50, 55, 60, 18, 12),
            planet(155, 140, 55, 16, 14),
        ],
    }
}

/// The centre of a level's goal zone.
pub open spec fn level_goal(level: u32) -> (i32, i32) {
    match level {
        1 => (150, 150),
        2 => (190, 0),
        3 => (-160i32, 160),
        4 => (180, 180),
        _ => (235, 215),
    }
}

/// A planet leaves room to orbit it: the band between the crash distance
/// and the edge of its pull is not empty.
pub open spec fn orbitable(p: PlanetSpec) -> bool {
    p.body_radius + SHIP_CLEARANCE <= p.pull_radius
}

/// The blasts a level starts with.
pub fn level_ammo(level: u32) -> (ammo: u32)
    ensures
        ammo == level_ammo_spec(level),
{
    match level {
        1 => 5,
        2 => 6,
        3 => 6,
        4 => 7,
        _ => 8,
    }
}

/// The layout of a level; any level number past the fourth (or zero) gives
/// the final challenge level.
pub fn level_layout(level: u32) -> (layout: LevelLayout)
    ensures
        layout.time_limit_secs == level_time_limit(level),
        layout.ammo == level_ammo_spec(level),
        layout.start == level_start(level),
        layout.planets@ == level_planets(level),
        layout.goal == level_goal(level),
        forall|i: int| 0 <= i < layout.planets@.len() ==> orbitable(#[trigger] layout.planets@[i]),
{
    let ammo = level_ammo(level);
    let mut planets: Vec<PlanetSpec> = Vec::new();
    let (time_limit_secs, start, goal) = match level {
        1 => {
            planets.push(PlanetSpec { x: 40, y: -40i32, pull_radius: 50, body_radius: 16, gravity_force: 16 });
            (12, (-120i32, -120i32), (150, 150))
        },
        2 => {
            planets.push(PlanetSpec { x: 20, y: 0, pull_radius: 60, body_radius: 18, gravity_force: 18 });
            (14, (-140i32, 0), (190, 0))
        },
        3 => {
            planets.push(PlanetSpec { x: 0, y: 0, pull_radius: 70, body_radius: 20, gravity_force: 20 });
            (12, (0, -140i32), (-160i32, 160))
        },
        4 => {
            planets.push(PlanetSpec { x: 40, y: 40, pull_radius: 80, body_radius: 24, gravity_force: 22 });
            (14, (-140i32, -140i32), (180, 180))
        },
        _ => {
            planets.push(PlanetSpec { x: -50i32, y: -30i32, pull_radius: 55, body_radius: 16, gravity_force: 14 });
            planets.push(PlanetSpec { x: 50, y: 55, pull_radius: 60, body_radius: 18, gravity_force: 12 });
            planets.push(PlanetSpec { x: 155, y: 140, pull_radius: 55, body_radius: 16, gravity_force: 14 });
            (16, (-150i32, -150i32), (235, 215))
        },
    };
    assert(planets@ =~= level_planets(level));
    LevelLayout { time_limit_secs, ammo, start, planets, goal }
}

/// The hint shown at the bottom of the screen while playing a level.
pub open spec fn hint_text(level: u32) -> Seq<char> {
    match level {
        1 => "TUTORIAL 1: Press [A/D] to steer. Left-click to blast away and thrust forward!"@,
        2 => "TUTORIAL 2: Fly near planets to capture into orbit and slingshot at high speed!"@,
        3 => "TUTORIAL 3: Blast when aligned with orbit direction for a 2.2x speed boost!"@,
        4 => "TUTORIAL 4: Blasting near a planet temporarily stuns its gravitational pull!"@,
        _ => "CHALLENGE: Chain multiple planet orbits for maximum momentum & speed!"@,
    }
}

/// The hint of each of the four tutorial levels is headed with that level's
/// number, as in `TUTORIAL 2:`; every other level shows the challenge hint.
pub proof fn lemma_hint_names_its_level(level: u32)
    ensures
        1 <= level <= 4 ==> hint_text(level).len() > 11 && hint_text(level).subrange(0, 9)
            == "TUTORIAL "@ && hint_text(level)[9] == ((48 + level) as char) && hint_text(level)[10]
            == ':',
        !(1 <= level <= 4) ==> hint_text(level).len() > 10 && hint_text(level).subrange(0, 10)
            == "CHALLENGE:"@,
{
    reveal_strlit("TUTORIAL ");
    reveal_strlit("CHALLENGE:");
    reveal_strlit(
        "TUTORIAL 1: Press [A/D] to steer. Left-click to blast away and thrust forward!",
    );
    reveal_strlit(
        "TUTORIAL 2: Fly near planets to capture into orbit and slingshot at high speed!",
    );
    reveal_strlit("TUTORIAL 3: Blast when aligned with orbit direction for a 2.2x speed boost!");
    reveal_strlit("TUTORIAL 4: Blasting near a planet temporarily stuns its gravitational pull!");
    reveal_strlit("CHALLENGE: Chain multiple planet orbits for maximum momentum & speed!");
    if 1 <= level <= 4 {
        assert(hint_text(level).subrange(0, 9) =~= "TUTORIAL "@);
    } else {
        assert(hint_text(level).subrange(0, 10) =~= "CHALLENGE:"@);
    }
}

/// The hint shown at the bottom of the screen while playing a level.
pub fn tutorial_hint(level: u32) -> (hint: &'static str)
    ensures
        hint@ == hint_text(level),
{
    match level {
        1 => "TUTORIAL 1: Press [A/D] to steer. Left-click to blast away and thrust forward!",
        2 => "TUTORIAL 2: Fly near planets to capture into orbit and slingshot at high speed!",
        3 => "TUTORIAL 3: Blast when aligned with orbit direction for a 2.2x speed boost!",
        4 => "TUTORIAL 4: Blasting near a planet temporarily stuns its gravitational pull!",
        _ => "CHALLENGE: Chain multiple planet orbits for maximum momentum & speed!",
    }
}

} // verus!
