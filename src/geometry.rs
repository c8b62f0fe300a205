//! The tile-to-geometry mapper: each tile becomes one unit quad, an anchor
//! corner and two span vectors, oriented by its kind and facing.
use vstd::prelude::*;

use crate::camera::{cross, heading_vector, vec3, IntVec3, Vec3i};
use crate::level::{Tile, TileType};

verus! {

/// One drawable unit quad: the corner it is anchored at, the two unit spans
/// that reach from there along its edges, and the material of its tile.
///
/// Cells are centred on integer coordinates, so quad corners lie half a unit
/// off them on the floor plane: the anchor's `x` and `z` are corner indices,
/// `i` standing for the world coordinate `i - ½`. Its `y` is a world height.
#[derive(Clone, Copy, Debug, PartialEq, Eq, Structural)]
pub struct Quad {
    pub material: TileType,
    pub anchor: Vec3i,
    pub span_u: Vec3i,
    pub span_v: Vec3i,
}

/// The quad's anchor, spans and material, as mathematics has them.
pub struct QuadModel {
    pub material: TileType,
    pub anchor: IntVec3,
    pub span_u: IntVec3,
    pub span_v: IntVec3,
}

impl View for Quad {
    type V = QuadModel;

    open spec fn view(&self) -> QuadModel {
        QuadModel {
            material: self.material,
            anchor: self.anchor@,
            span_u: self.span_u@,
            span_v: self.span_v@,
        }
    }
}

/// The quad of a tile, where it has one. A floor or ceiling lies flat,
/// anchored at the cell's (−½, −½) corner at the tile's height and spanning
/// +x and +z. A wall hangs from a top corner one unit above the tile and spans
/// down and along its edge:
///
/// | facing | anchor offset     | span_u | span_v |
/// |--------|-------------------|--------|--------|
/// | 0      | (+½, +1, −½)      | −y     | −x     |
/// | 1      | (+½, +1, +½)      | −y     | −z     |
/// | 2      | (−½, +1, +½)      | −y     | +x     |
/// | 3      | (−½, +1, −½)      | −y     | +z     |
///
/// A wall with any other facing has no quad.
pub open spec fn quad_of(t: Tile) -> Option<QuadModel> {
    let (x, y, z) = (t.x as int, t.y as int, t.z as int);
    match t.kind {
        TileType::Floor | TileType::Ceiling => Some(
            QuadModel {
                material: t.kind,
                anchor: vec3(x, y, z),
                span_u: vec3(1, 0, 0),
                span_v: vec3(0, 0, 1),
            },
        ),
        TileType::Wall => if t.facing == 0 {
            Some(wall_quad(vec3(x + 1, y + 1, z), vec3(-1, 0, 0)))
        } else if t.facing == 1 {
            Some(wall_quad(vec3(x + 1, y + 1, z + 1), vec3(0, 0, -1)))
        } else if t.facing == 2 {
            Some(wall_quad(vec3(x, y + 1, z + 1), vec3(1, 0, 0)))
        } else if t.facing == 3 {
            Some(wall_quad(vec3(x, y + 1, z), vec3(0, 0, 1)))
        } else {
            None
        },
    }
}

pub open spec fn wall_quad(anchor: IntVec3, span_v: IntVec3) -> QuadModel {
    QuadModel { material: TileType::Wall, anchor, span_u: vec3(0, -1, 0), span_v }
}

/// Maps a tile to the quad that draws it; `None` for a wall whose facing is
/// not one of the four sides.
pub fn quad_for(t: &Tile) -> (r: Option<Quad>)
    requires
        t.x < i64::MAX,
        t.y < i64::MAX,
        t.z < i64::MAX,
    ensures
        r matches Some(q) ==> quad_of(*t) == Some(q@),
        r is None <==> quad_of(*t) is None,
{
    let down = Vec3i { x: 0, y: -1, z: 0 };
    match t.kind {
        TileType::Floor | TileType::Ceiling => Some(
            Quad {
                material: t.kind,
                anchor: Vec3i { x: t.x, y: t.y, z: t.z },
                span_u: Vec3i { x: 1, y: 0, z: 0 },
                span_v: Vec3i { x: 0, y: 0, z: 1 },
            },
        ),
        TileType::Wall => {
            let top = t.y + 1;
            if t.facing == 0 {
                Some(
                    Quad {
                        material: TileType::Wall,
                        anchor: Vec3i { x: t.x + 1, y: top, z: t.z },
                        span_u: down,
                        span_v: Vec3i { x: -1, y: 0, z: 0 },
                    },
                )
            } else if t.facing == 1 {
                Some(
                    Quad {
                        material: TileType::Wall,
                        anchor: Vec3i { x: t.x + 1, y: top, z: t.z + 1 },
                        span_u: down,
                        span_v: Vec3i { x: 0, y: 0, z: -1 },
                    },
                )
            } else if t.facing == 2 {
                Some(
                    Quad {
                        material: TileType::Wall,
                        anchor: Vec3i { x: t.x, y: top, z: t.z + 1 },
                        span_u: down,
                        span_v: Vec3i { x: 1, y: 0, z: 0 },
                    },
                )
            } else if t.facing == 3 {
                Some(
                    Quad {
                        material: TileType::Wall,
                        anchor: Vec3i { x: t.x, y: top, z: t.z },
                        span_u: down,
                        span_v: Vec3i { x: 0, y: 0, z: 1 },
                    },
                )
            } else {
                None
            }
        },
    }
}

/// A wall quad's normal, `span_u × span_v`, points out of its cell toward
/// the side its facing names: north for 0, east for 1, south for 2, west for
/// 3 (the headings of yaw `facing + 3`).
pub proof fn lemma_wall_faces_outward(t: Tile)
    requires
        t.kind == TileType::Wall,
        0 <= t.facing <= 3,
    ensures
        quad_of(t) matches Some(q) && cross(q.span_u, q.span_v) == heading_vector(t.facing + 3),
{
}

} // verus!
