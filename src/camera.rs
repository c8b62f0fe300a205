//! The orientation model: a camera that stands in a grid cell, turns by
//! quarter turns and steps a whole cell at a time, driven by discrete
//! commands.
use vstd::prelude::*;

use crate::level::GridCoord;

verus! {

/// A vector of the integer lattice.
#[derive(Clone, Copy, Debug, PartialEq, Eq, Structural)]
pub struct Vec3i {
    pub x: i64,
    pub y: i64,
    pub z: i64,
}

/// A vector of integers, as mathematics has it.
pub struct IntVec3 {
    pub x: int,
    pub y: int,
    pub z: int,
}

impl View for Vec3i {
    type V = IntVec3;

    open spec fn view(&self) -> IntVec3 {
        IntVec3 { x: self.x as int, y: self.y as int, z: self.z as int }
    }
}

pub open spec fn vec3(x: int, y: int, z: int) -> IntVec3 {
    IntVec3 { x, y, z }
}

pub open spec fn dot(a: IntVec3, b: IntVec3) -> int {
    a.x * b.x + a.y * b.y + a.z * b.z
}

pub open spec fn cross(a: IntVec3, b: IntVec3) -> IntVec3 {
    IntVec3 { x: a.y * b.z - a.z * b.y, y: a.z * b.x - a.x * b.z, z: a.x * b.y - a.y * b.x }
}

/// The largest magnitude of a component that `cross` takes.
pub const CROSS_LIMIT: i64 = 0x4000_0000;

impl Vec3i {
    /// Each component lies within `-limit ..= limit`.
    pub open spec fn within(self, limit: int) -> bool {
        -limit <= self.x <= limit && -limit <= self.y <= limit && -limit <= self.z <= limit
    }

    /// The cross product `self × o`.
    pub fn cross(&self, o: &Vec3i) -> (r: Vec3i)
        requires
            self.within(CROSS_LIMIT as int),
            o.within(CROSS_LIMIT as int),
        ensures
            r@ == cross(self@, o@),
    {
        proof {
            assert(-CROSS_LIMIT * CROSS_LIMIT <= self.y * o.z <= CROSS_LIMIT * CROSS_LIMIT)
                by (nonlinear_arith)
                requires
                    self.within(CROSS_LIMIT as int),
                    o.within(CROSS_LIMIT as int),
            ;
            assert(-CROSS_LIMIT * CROSS_LIMIT <= self.z * o.y <= CROSS_LIMIT * CROSS_LIMIT)
                by (nonlinear_arith)
                requires
                    self.within(CROSS_LIMIT as int),
                    o.within(CROSS_LIMIT as int),
            ;
            assert(-CROSS_LIMIT * CROSS_LIMIT <= self.z * o.x <= CROSS_LIMIT * CROSS_LIMIT)
                by (nonlinear_arith)
                requires
                    self.within(CROSS_LIMIT as int),
                    o.within(CROSS_LIMIT as int),
            ;
            assert(-CROSS_LIMIT * CROSS_LIMIT <= self.x * o.z <= CROSS_LIMIT * CROSS_LIMIT)
                by (nonlinear_arith)
                requires
                    self.within(CROSS_LIMIT as int),
                    o.within(CROSS_LIMIT as int),
            ;
            assert(-CROSS_LIMIT * CROSS_LIMIT <= self.x * o.y <= CROSS_LIMIT * CROSS_LIMIT)
                by (nonlinear_arith)
                requires
                    self.within(CROSS_LIMIT as int),
                    o.within(CROSS_LIMIT as int),
            ;
            assert(-CROSS_LIMIT * CROSS_LIMIT <= self.y * o.x <= CROSS_LIMIT * CROSS_LIMIT)
                by (nonlinear_arith)
                requires
                    self.within(CROSS_LIMIT as int),
                    o.within(CROSS_LIMIT as int),
            ;
        }
        Vec3i {
            x: self.y * o.z - self.z * o.y,
            y: self.z * o.x - self.x * o.z,
            z: self.x * o.y - self.y * o.x,
        }
    }
}

/// The world's up direction.
pub fn world_up() -> (r: Vec3i)
    ensures
        r@ == vec3(0, 1, 0),
{
    Vec3i { x: 0, y: 1, z: 0 }
}

/// How far one move command carries the camera, in cells.
pub const MOVE_SPEED: i64 = 1;

/// The largest tilt of the camera, up or down, in milliradians.
pub const PITCH_LIMIT: i64 = 1500;

/// One discrete input.
#[derive(Clone, Copy, Debug, PartialEq, Eq, Structural)]
pub enum Command {
    Quit,
    MoveForward,
    MoveBackward,
    TurnLeft,
    TurnRight,
}

/// The commands pressed during one frame.
#[derive(Clone, Copy, Debug, PartialEq, Eq, Structural)]
pub struct FrameInput {
    pub quit: bool,
    pub forward: bool,
    pub backward: bool,
    pub turn_left: bool,
    pub turn_right: bool,
}

/// What the frame loop does after a frame's input.
#[derive(Clone, Copy, Debug, PartialEq, Eq, Structural)]
pub enum FrameAction {
    Quit,
    Draw,
}

/// A compass direction on the floor plane; north is toward lower rows.
#[derive(Clone, Copy, Debug, PartialEq, Eq, Structural)]
pub enum Heading {
    North,
    East,
    South,
    West,
}

/// The camera's front, right and up directions.
#[derive(Clone, Copy, Debug, PartialEq, Eq, Structural)]
pub struct Basis {
    pub front: Vec3i,
    pub right: Vec3i,
    pub up: Vec3i,
}

/// The camera state: the cell it stands in (at eye height, half a cell above
/// the floor), its yaw in quarter turns and its pitch in milliradians.
///
/// A yaw of 0 looks along +x (east); each quarter turn to the right adds one
/// and turns the view toward +z (south). Only `yaw % 4` matters.
#[derive(Clone, Copy, Debug, PartialEq, Eq, Structural)]
pub struct Camera {
    pub column: i64,
    pub row: i64,
    pub yaw: u8,
    pub pitch: i64,
}

/// The horizontal direction that yaw `q` (in quarter turns) looks along:
/// `(cos(q·π/2), 0, sin(q·π/2))`.
pub open spec fn heading_vector(q: int) -> IntVec3 {
    let q = q % 4;
    if q == 0 {
        vec3(1, 0, 0)
    } else if q == 1 {
        vec3(0, 0, 1)
    } else if q == 2 {
        vec3(-1, 0, 0)
    } else {
        vec3(0, 0, -1)
    }
}

pub open spec fn heading_of(q: int) -> Heading {
    let q = q % 4;
    if q == 0 {
        Heading::East
    } else if q == 1 {
        Heading::South
    } else if q == 2 {
        Heading::West
    } else {
        Heading::North
    }
}

/// The basis derived from a front vector and the world's up.
pub open spec fn is_basis_from(b: Basis, front: IntVec3) -> bool {
    &&& b.front@ == front
    &&& b.right@ == cross(front, vec3(0, 1, 0))
    &&& b.up@ == cross(b.right@, front)
}

pub open spec fn clamp_pitch(p: int) -> int {
    if p > PITCH_LIMIT {
        PITCH_LIMIT as int
    } else if p < -PITCH_LIMIT {
        -PITCH_LIMIT as int
    } else {
        p
    }
}

/// Clamps a pitch, in milliradians, to the closed range of ±`PITCH_LIMIT`.
pub fn clamp_pitch_value(p: i64) -> (r: i64)
    ensures
        r == clamp_pitch(p as int),
{
    if p > PITCH_LIMIT {
        PITCH_LIMIT
    } else if p < -PITCH_LIMIT {
        -PITCH_LIMIT
    } else {
        p
    }
}

impl Camera {
    /// The camera's state is well formed: its pitch lies within the limit.
    pub open spec fn wf(self) -> bool {
        -PITCH_LIMIT <= self.pitch <= PITCH_LIMIT
    }

    /// Any `n` steps of one cell stay representable.
    pub open spec fn has_room(self, n: int) -> bool {
        i64::MIN + n <= self.column <= i64::MAX - n && i64::MIN + n <= self.row <= i64::MAX - n
    }

    /// The state after moving `dir` times the heading (`dir` is 1 or -1).
    pub open spec fn moved(self, dir: int) -> Camera {
        let h = heading_vector(self.yaw as int);
        Camera {
            column: (self.column + dir * h.x) as i64,
            row: (self.row + dir * h.z) as i64,
            ..self
        }
    }

    /// The state after one command; the pitch is clamped afterwards.
    pub open spec fn after(self, cmd: Command) -> Camera {
        let c = match cmd {
            Command::Quit => self,
            Command::MoveForward => self.moved(1),
            Command::MoveBackward => self.moved(-1),
            Command::TurnLeft => Camera { yaw: ((self.yaw % 4 + 3) % 4) as u8, ..self },
            Command::TurnRight => Camera { yaw: ((self.yaw % 4 + 1) % 4) as u8, ..self },
        };
        Camera { pitch: clamp_pitch(c.pitch as int) as i64, ..c }
    }

    /// The state after a sequence of commands, applied in order.
    pub open spec fn after_all(self, cmds: Seq<Command>) -> Camera
        decreases cmds.len(),
    {
        if cmds.len() == 0 {
            self
        } else {
            self.after_all(cmds.drop_last()).after(cmds.last())
        }
    }

    /// The state after one frame's input that does not quit: the moves
    /// forward, then backward, then the turns left, then right.
    pub open spec fn after_frame(self, input: FrameInput) -> Camera {
        let c1 = if input.forward { self.after(Command::MoveForward) } else { self };
        let c2 = if input.backward { c1.after(Command::MoveBackward) } else { c1 };
        let c3 = if input.turn_left { c2.after(Command::TurnLeft) } else { c2 };
        let c4 = if input.turn_right { c3.after(Command::TurnRight) } else { c3 };
        Camera { pitch: clamp_pitch(c4.pitch as int) as i64, ..c4 }
    }

    /// A camera standing at `start`, looking east, level.
    pub fn new(start: GridCoord) -> (c: Camera)
        ensures
            c == (Camera { column: start.column, row: start.row, yaw: 0, pitch: 0 }),
            c.wf(),
    {
        Camera { column: start.column, row: start.row, yaw: 0, pitch: 0 }
    }

    /// The direction the camera looks along on the floor plane, a unit
    /// vector of the lattice. With the camera level this is its front.
    pub fn front(&self) -> (r: Vec3i)
        ensures
            r@ == heading_vector(self.yaw as int),
    {
        let q = self.yaw % 4;
        if q == 0 {
            Vec3i { x: 1, y: 0, z: 0 }
        } else if q == 1 {
            Vec3i { x: 0, y: 0, z: 1 }
        } else if q == 2 {
            Vec3i { x: -1, y: 0, z: 0 }
        } else {
            Vec3i { x: 0, y: 0, z: -1 }
        }
    }

    /// The level basis: the front, `right = front × up_world` and
    /// `up = right × front`.
    pub fn basis(&self) -> (b: Basis)
        ensures
            is_basis_from(b, heading_vector(self.yaw as int)),
    {
        let front = self.front();
        let right = front.cross(&world_up());
        assert(right.within(1)) by {
            let q = self.yaw as int % 4;
            if q == 0 {
                assert(right@ == vec3(0, 0, 1));
            } else if q == 1 {
                assert(right@ == vec3(-1, 0, 0));
            } else if q == 2 {
                assert(right@ == vec3(0, 0, -1));
            } else {
                assert(right@ == vec3(1, 0, 0));
            }
        }
        let up = right.cross(&front);
        Basis { front, right, up }
    }

    /// The compass direction of the front.
    pub fn heading(&self) -> (h: Heading)
        ensures
            h == heading_of(self.yaw as int),
    {
        let q = self.yaw % 4;
        if q == 0 {
            Heading::East
        } else if q == 1 {
            Heading::South
        } else if q == 2 {
            Heading::West
        } else {
            Heading::North
        }
    }

    /// Applies one command: a move steps one cell along the front (no wall
    /// stops it), a turn changes the yaw by a quarter turn, and quit changes
    /// nothing. The pitch is clamped afterwards.
    pub fn apply(&mut self, cmd: Command)
        requires
            cmd == Command::MoveForward || cmd == Command::MoveBackward ==> old(self).has_room(1),
        ensures
            *final(self) == old(self).after(cmd),
            final(self).wf(),
    {
        match cmd {
            Command::Quit => {},
            Command::MoveForward => {
                let f = self.front();
                self.column = self.column + MOVE_SPEED * f.x;
                self.row = self.row + MOVE_SPEED * f.z;
            },
            Command::MoveBackward => {
                let f = self.front();
                self.column = self.column - MOVE_SPEED * f.x;
                self.row = self.row - MOVE_SPEED * f.z;
            },
            Command::TurnLeft => {
                self.yaw = (self.yaw % 4 + 3) % 4;
            },
            Command::TurnRight => {
                self.yaw = (self.yaw % 4 + 1) % 4;
            },
        }
        self.pitch = clamp_pitch_value(self.pitch);
    }

    /// Runs one frame's input: quit leaves the state as it is and asks to
    /// stop; otherwise the moves and turns are applied in the order forward,
    /// backward, left, right, the pitch is clamped, and a redraw is asked for.
    pub fn frame(&mut self, input: FrameInput) -> (action: FrameAction)
        requires
            old(self).has_room(2),
        ensures
            input.quit ==> action == FrameAction::Quit && *final(self) == *old(self),
            !input.quit ==> action == FrameAction::Draw && *final(self) == old(self).after_frame(
                input,
            ),
            !input.quit ==> final(self).wf(),
    {
        if input.quit {
            return FrameAction::Quit;
        }
        if input.forward {
            self.apply(Command::MoveForward);
        }
        if input.backward {
            self.apply(Command::MoveBackward);
        }
        if input.turn_left {
            self.apply(Command::TurnLeft);
        }
        if input.turn_right {
            self.apply(Command::TurnRight);
        }
        self.pitch = clamp_pitch_value(self.pitch);
        FrameAction::Draw
    }
}

impl Heading {
    /// The compass direction's name.
    pub fn name(&self) -> (r: &'static str)
        ensures
            *self == Heading::North ==> r@ == "North"@,
            *self == Heading::East ==> r@ == "East"@,
            *self == Heading::South ==> r@ == "South"@,
            *self == Heading::West ==> r@ == "West"@,
    {
        match self {
            Heading::North => "North",
            Heading::East => "East",
            Heading::South => "South",
            Heading::West => "West",
        }
    }
}

/// After any sequence of commands the pitch lies within the limit (for an
/// empty sequence, where it started there); and no command tilts a level
/// camera.
pub proof fn lemma_pitch_stays_clamped(cam: Camera, cmds: Seq<Command>)
    requires
        cam.wf() || cmds.len() > 0,
    ensures
        cam.after_all(cmds).wf(),
        cam.pitch == 0 ==> cam.after_all(cmds).pitch == 0,
    decreases cmds.len(),
{
    if cmds.len() > 1 || (cmds.len() == 1 && cam.wf()) {
        lemma_pitch_stays_clamped(cam, cmds.drop_last());
    }
}

/// For every yaw, the derived front, right and up are unit vectors, pairwise
/// orthogonal, with `front × up == right`; up is the world's up.
pub proof fn lemma_basis_orthonormal(q: int)
    ensures
        ({
            let front = heading_vector(q);
            let right = cross(front, vec3(0, 1, 0));
            let up = cross(right, front);
            &&& dot(front, front) == 1
            &&& dot(right, right) == 1
            &&& dot(up, up) == 1
            &&& dot(front, right) == 0
            &&& dot(front, up) == 0
            &&& dot(right, up) == 0
            &&& cross(front, up) == right
            &&& up == vec3(0, 1, 0)
        }),
{
    let r = q % 4;
    let front = heading_vector(q);
    let right = cross(front, vec3(0, 1, 0));
    if r == 0 {
        assert(front == vec3(1, 0, 0));
        assert(right == vec3(0, 0, 1));
    } else if r == 1 {
        assert(front == vec3(0, 0, 1));
        assert(right == vec3(-1, 0, 0));
    } else if r == 2 {
        assert(front == vec3(-1, 0, 0));
        assert(right == vec3(0, 0, -1));
    } else {
        assert(front == vec3(0, 0, -1));
        assert(right == vec3(1, 0, 0));
    }
    assert(cross(right, front) == vec3(0, 1, 0));
}

} // verus!
