//! Whether, and on which side, two axis-aligned rectangles overlap.

use vstd::prelude::*;
use crate::fixed::Vec2;

verus! {

/// How far from the origin a rectangle's centre may lie, in thousandths.
pub const POSITION_LIMIT: i64 = 2_000_000_000;

/// The side of the second rectangle that the first one overlaps.
#[derive(Clone, Copy, Debug, PartialEq, Eq, Structural)]
pub enum Collision {
    Left,
    Right,
    Top,
    Bottom,
    Inside,
}

/// How the first rectangle sits against the second along one axis. Edges are
/// given doubled, so that half a thousandth never has to be written.
#[derive(Clone, Copy, Debug, PartialEq, Eq, Structural)]
pub enum AxisHit {
    /// It reaches across the second rectangle's lower edge only, and this much
    /// of it (doubled) lies past that edge.
    Low(i64),
    /// It reaches across the second rectangle's upper edge only.
    High(i64),
    /// It reaches across neither edge alone.
    Within,
}

/// Twice the lowest coordinate of a span centred on `centre`.
pub open spec fn low_edge(centre: int, extent: int) -> int {
    2 * centre - extent
}

/// Twice the highest coordinate of a span centred on `centre`.
pub open spec fn high_edge(centre: int, extent: int) -> int {
    2 * centre + extent
}

/// Whether two spans, given by their doubled edges, share more than a point.
pub open spec fn spans_overlap(a_low: int, a_high: int, b_low: int, b_high: int) -> bool {
    a_low < b_high && a_high > b_low
}

/// How span `a` sits against span `b`, both given by their doubled edges.
pub open spec fn axis_hit_spec(a_low: int, a_high: int, b_low: int, b_high: int) -> AxisHit {
    if a_low < b_low && a_high > b_low && a_high < b_high {
        AxisHit::Low((a_high - b_low) as i64)
    } else if a_low > b_low && a_low < b_high && a_high > b_high {
        AxisHit::High((b_high - a_low) as i64)
    } else {
        AxisHit::Within
    }
}

/// Whether the vertical hit goes strictly less deep than the horizontal one.
/// A span that crosses no single edge counts as infinitely deep.
pub open spec fn vertical_is_primary(horizontal: AxisHit, vertical: AxisHit) -> bool {
    match vertical {
        AxisHit::Within => false,
        AxisHit::Low(y_depth) | AxisHit::High(y_depth) => match horizontal {
            AxisHit::Within => true,
            AxisHit::Low(x_depth) | AxisHit::High(x_depth) => y_depth < x_depth,
        },
    }
}

/// The side of rectangle `b` that rectangle `a` overlaps, if they overlap at all.
/// Positions are centres, sizes are full widths and heights. Where `a` crosses
/// an edge of `b` on both axes, the axis with the shallower overlap decides, and
/// the horizontal one on a tie. `Inside` is the answer where no single edge is
/// crossed on the deciding axis.
pub open spec fn collide_spec(a_pos: Vec2, a_size: Vec2, b_pos: Vec2, b_size: Vec2) -> Option<
    Collision,
> {
    let a_left = low_edge(a_pos.x as int, a_size.x as int);
    let a_right = high_edge(a_pos.x as int, a_size.x as int);
    let a_bottom = low_edge(a_pos.y as int, a_size.y as int);
    let a_top = high_edge(a_pos.y as int, a_size.y as int);
    let b_left = low_edge(b_pos.x as int, b_size.x as int);
    let b_right = high_edge(b_pos.x as int, b_size.x as int);
    let b_bottom = low_edge(b_pos.y as int, b_size.y as int);
    let b_top = high_edge(b_pos.y as int, b_size.y as int);
    if spans_overlap(a_left, a_right, b_left, b_right) && spans_overlap(
        a_bottom,
        a_top,
        b_bottom,
        b_top,
    ) {
        let horizontal = axis_hit_spec(a_left, a_right, b_left, b_right);
        let vertical = axis_hit_spec(a_bottom, a_top, b_bottom, b_top);
        if vertical_is_primary(horizontal, vertical) {
            Some(
                match vertical {
                    AxisHit::Low(_) => Collision::Bottom,
                    AxisHit::High(_) => Collision::Top,
                    AxisHit::Within => Collision::Inside,
                },
            )
        } else {
            Some(
                match horizontal {
                    AxisHit::Low(_) => Collision::Left,
                    AxisHit::High(_) => Collision::Right,
                    AxisHit::Within => Collision::Inside,
                },
            )
        }
    } else {
        None
    }
}

/// Whether a rectangle lies where `collide` can take it.
pub open spec fn in_reach(pos: Vec2, size: Vec2) -> bool {
    &&& -POSITION_LIMIT <= pos.x <= POSITION_LIMIT
    &&& -POSITION_LIMIT <= pos.y <= POSITION_LIMIT
    &&& 0 <= size.x <= POSITION_LIMIT
    &&& 0 <= size.y <= POSITION_LIMIT
}

fn axis_hit(a_low: i64, a_high: i64, b_low: i64, b_high: i64) -> (hit: AxisHit)
    requires
        -6_000_000_000 <= a_low <= 6_000_000_000,
        -6_000_000_000 <= a_high <= 6_000_000_000,
        -6_000_000_000 <= b_low <= 6_000_000_000,
        -6_000_000_000 <= b_high <= 6_000_000_000,
    ensures
        hit == axis_hit_spec(a_low as int, a_high as int, b_low as int, b_high as int),
{
    if a_low < b_low && a_high > b_low && a_high < b_high {
        AxisHit::Low(a_high - b_low)
    } else if a_low > b_low && a_low < b_high && a_high > b_high {
        AxisHit::High(b_high - a_low)
    } else {
        AxisHit::Within
    }
}

fn vertical_wins(horizontal: AxisHit, vertical: AxisHit) -> (wins: bool)
    ensures
        wins == vertical_is_primary(horizontal, vertical),
{
    match vertical {
        AxisHit::Within => false,
        AxisHit::Low(y_depth) | AxisHit::High(y_depth) => match horizontal {
            AxisHit::Within => true,
            AxisHit::Low(x_depth) | AxisHit::High(x_depth) => y_depth < x_depth,
        },
    }
}

/// Finds the side of rectangle `b` that rectangle `a` overlaps.
pub fn collide(a_pos: Vec2, a_size: Vec2, b_pos: Vec2, b_size: Vec2) -> (hit: Option<Collision>)
    requires
        in_reach(a_pos, a_size),
        in_reach(b_pos, b_size),
    ensures
        hit == collide_spec(a_pos, a_size, b_pos, b_size),
{
    let a_left: i64 = 2 * a_pos.x - a_size.x;
    let a_right: i64 = 2 * a_pos.x + a_size.x;
    let a_bottom: i64 = 2 * a_pos.y - a_size.y;
    let a_top: i64 = 2 * a_pos.y + a_size.y;
    let b_left: i64 = 2 * b_pos.x - b_size.x;
    let b_right: i64 = 2 * b_pos.x + b_size.x;
    let b_bottom: i64 = 2 * b_pos.y - b_size.y;
    let b_top: i64 = 2 * b_pos.y + b_size.y;
    if a_left < b_right && a_right > b_left && a_bottom < b_top && a_top > b_bottom {
        let horizontal = axis_hit(a_left, a_right, b_left, b_right);
        let vertical = axis_hit(a_bottom, a_top, b_bottom, b_top);
        if vertical_wins(horizontal, vertical) {
            match vertical {
                AxisHit::Low(_) => Some(Collision::Bottom),
                AxisHit::High(_) => Some(Collision::Top),
                AxisHit::Within => Some(Collision::Inside),
            }
        } else {
            match horizontal {
                AxisHit::Low(_) => Some(Collision::Left),
                AxisHit::High(_) => Some(Collision::Right),
                AxisHit::Within => Some(Collision::Inside),
            }
        }
    } else {
        None
    }
}

} // verus!
