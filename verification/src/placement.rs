//! Where the panel goes: a target for its top-left corner, computed from the
//! monitor's rectangle, the panel's outer size, a margin and an anchor, and
//! kept inside the monitor whatever the margin.
//!
//! Each axis is placed on its own. `available` is the room left on an axis
//! once the panel is on it (negative when the panel is larger than the
//! monitor); the panel's coordinate is aimed at a desired spot and then
//! clamped to `[origin, origin + available]`.

use vstd::prelude::*;
use crate::geometry::{clamp, clamp_to, half_toward_zero, halve, Point, Size};

verus! {

/// Margin used when a caller names none.
pub const DEFAULT_MARGIN: i32 = 40;

/// The screen edge an edge-centred panel is offset from.
#[derive(Clone, Copy, Debug, PartialEq, Eq, Structural)]
pub enum Side {
    Left,
    Right,
}

/// A named placement target.
#[derive(Clone, Copy, Debug, PartialEq, Eq, Structural)]
pub enum Anchor {
    /// Horizontally centred, `margin` away from the visual top.
    TopCenter,
    /// Vertically centred, `margin` away from the left edge.
    LeftCenter,
    /// Vertically centred, `margin` away from the right edge.
    RightCenter,
    /// Centred on both axes; the margin plays no part.
    Center,
}

/// Room left on an axis once the panel is on it.
pub open spec fn available(monitor_extent: u32, window_extent: u32) -> int {
    monitor_extent - window_extent
}

/// Coordinate that centres the panel on an axis.
pub open spec fn centered(origin: int, available: int) -> int {
    clamp_to(origin + half_toward_zero(available), origin, origin + available)
}

/// Coordinate `margin` past the start of an axis (the left or upper edge).
pub open spec fn from_start(origin: int, available: int, margin: int) -> int {
    clamp_to(origin + margin, origin, origin + available)
}

/// Coordinate that leaves `margin` before the end of an axis (the right or
/// lower edge).
pub open spec fn from_end(origin: int, available: int, margin: int) -> int {
    clamp_to(origin + available - margin, origin, origin + available)
}

/// Whether every coordinate a placement on this axis can yield is an `i32`.
pub open spec fn axis_representable(origin: int, available: int) -> bool {
    available >= 0 ==> origin + available <= i32::MAX
}

/// Whether the panel's possible positions on this monitor are all `i32`
/// coordinates: on each axis where the panel is no larger than the monitor,
/// the farthest position `origin + available` does not exceed `i32::MAX`.
pub open spec fn placeable(monitor_position: Point, monitor_size: Size, window_size: Size) -> bool {
    &&& axis_representable(
        monitor_position.x as int,
        available(monitor_size.width, window_size.width),
    )
    &&& axis_representable(
        monitor_position.y as int,
        available(monitor_size.height, window_size.height),
    )
}

/// Top-centre target: horizontally centred; vertically `vertical_margin` from
/// the monitor's origin edge, or, where the host counts rows from the bottom
/// (`origin_bottom_left`), `vertical_margin` short of the far edge.
pub open spec fn top_center_position(
    monitor_position: Point,
    monitor_size: Size,
    window_size: Size,
    vertical_margin: int,
    origin_bottom_left: bool,
) -> (int, int) {
    let room_x = available(monitor_size.width, window_size.width);
    let room_y = available(monitor_size.height, window_size.height);
    (
        centered(monitor_position.x as int, room_x),
        if origin_bottom_left {
            from_end(monitor_position.y as int, room_y, vertical_margin)
        } else {
            from_start(monitor_position.y as int, room_y, vertical_margin)
        },
    )
}

/// Edge-centre target: `margin` in from the chosen side, vertically centred.
pub open spec fn edge_center_position(
    monitor_position: Point,
    monitor_size: Size,
    window_size: Size,
    margin: int,
    side: Side,
) -> (int, int) {
    let room_x = available(monitor_size.width, window_size.width);
    let room_y = available(monitor_size.height, window_size.height);
    (
        match side {
            Side::Left => from_start(monitor_position.x as int, room_x, margin),
            Side::Right => from_end(monitor_position.x as int, room_x, margin),
        },
        centered(monitor_position.y as int, room_y),
    )
}

/// Centre target: centred on both axes.
pub open spec fn center_position(
    monitor_position: Point,
    monitor_size: Size,
    window_size: Size,
) -> (int, int) {
    (
        centered(monitor_position.x as int, available(monitor_size.width, window_size.width)),
        centered(monitor_position.y as int, available(monitor_size.height, window_size.height)),
    )
}

/// The target for any anchor.
pub open spec fn anchored_position(
    anchor: Anchor,
    monitor_position: Point,
    monitor_size: Size,
    window_size: Size,
    margin: int,
    origin_bottom_left: bool,
) -> (int, int) {
    match anchor {
        Anchor::TopCenter => top_center_position(
            monitor_position,
            monitor_size,
            window_size,
            margin,
            origin_bottom_left,
        ),
        Anchor::LeftCenter => edge_center_position(
            monitor_position,
            monitor_size,
            window_size,
            margin,
            Side::Left,
        ),
        Anchor::RightCenter => edge_center_position(
            monitor_position,
            monitor_size,
            window_size,
            margin,
            Side::Right,
        ),
        Anchor::Center => center_position(monitor_position, monitor_size, window_size),
    }
}

/// Whether `position` keeps a panel of `window_size` inside the monitor, on
/// the axes where it can be: `origin <= coordinate <= origin + available`.
pub open spec fn within_monitor(
    position: (int, int),
    monitor_position: Point,
    monitor_size: Size,
    window_size: Size,
) -> bool {
    &&& window_size.width <= monitor_size.width ==> monitor_position.x <= position.0
        <= monitor_position.x + monitor_size.width - window_size.width
    &&& window_size.height <= monitor_size.height ==> monitor_position.y <= position.1
        <= monitor_position.y + monitor_size.height - window_size.height
}

/// Whether `position` falls back to the monitor's origin on each axis where
/// the panel is larger than the monitor.
pub open spec fn collapsed_where_oversized(
    position: (int, int),
    monitor_position: Point,
    monitor_size: Size,
    window_size: Size,
) -> bool {
    &&& window_size.width > monitor_size.width ==> position.0 == monitor_position.x
    &&& window_size.height > monitor_size.height ==> position.1 == monitor_position.y
}

/// Room left on an axis, computed wide enough that it cannot overflow.
fn room(monitor_extent: u32, window_extent: u32) -> (left: i64)
    ensures
        left == available(monitor_extent, window_extent),
{
    monitor_extent as i64 - window_extent as i64
}

/// Clamps a desired coordinate onto the axis that starts at `origin` and has
/// `left` pixels of room.
fn settle(desired: i64, origin: i32, left: i64) -> (coordinate: i32)
    requires
        -(u32::MAX as int) <= left <= u32::MAX,
        axis_representable(origin as int, left as int),
    ensures
        coordinate == clamp_to(desired as int, origin as int, origin + left),
{
    let kept = clamp(desired, origin as i64, origin as i64 + left);
    kept as i32
}

/// Centres the panel on one axis.
fn place_centered(origin: i32, monitor_extent: u32, window_extent: u32) -> (coordinate: i32)
    requires
        axis_representable(origin as int, available(monitor_extent, window_extent)),
    ensures
        coordinate == centered(origin as int, available(monitor_extent, window_extent)),
{
    let left = room(monitor_extent, window_extent);
    settle(origin as i64 + halve(left), origin, left)
}

/// Puts the panel `margin` past the start of one axis.
fn place_from_start(
    origin: i32,
    monitor_extent: u32,
    window_extent: u32,
    margin: i32,
) -> (coordinate: i32)
    requires
        axis_representable(origin as int, available(monitor_extent, window_extent)),
    ensures
        coordinate == from_start(
            origin as int,
            available(monitor_extent, window_extent),
            margin as int,
        ),
{
    let left = room(monitor_extent, window_extent);
    settle(origin as i64 + margin as i64, origin, left)
}

/// Puts the panel so that `margin` is left before the end of one axis.
fn place_from_end(
    origin: i32,
    monitor_extent: u32,
    window_extent: u32,
    margin: i32,
) -> (coordinate: i32)
    requires
        axis_representable(origin as int, available(monitor_extent, window_extent)),
    ensures
        coordinate == from_end(
            origin as int,
            available(monitor_extent, window_extent),
            margin as int,
        ),
{
    let left = room(monitor_extent, window_extent);
    settle(origin as i64 + left - margin as i64, origin, left)
}

/// The margin a caller asked for, or [`DEFAULT_MARGIN`] when it named none.
pub fn margin_or_default(margin: Option<i32>) -> (chosen: i32)
    ensures
        chosen == match margin {
            Some(m) => m,
            None => DEFAULT_MARGIN,
        },
{
    match margin {
        Some(m) => m,
        None => DEFAULT_MARGIN,
    }
}

/// Tells whether the placement functions accept this monitor and panel.
pub fn is_placeable(monitor_position: Point, monitor_size: Size, window_size: Size) -> (ok: bool)
    ensures
        ok == placeable(monitor_position, monitor_size, window_size),
{
    let room_x = room(monitor_size.width, window_size.width);
    let room_y = room(monitor_size.height, window_size.height);
    (room_x < 0 || monitor_position.x as i64 + room_x <= i32::MAX as i64) && (room_y < 0
        || monitor_position.y as i64 + room_y <= i32::MAX as i64)
}

/// Computes the top-centre target for the panel.
///
/// The panel is centred horizontally (halving rounds toward zero) and set
/// `vertical_margin` from the top. With `origin_bottom_left` the margin is
/// taken from the far end of the vertical axis instead. Both coordinates are
/// then clamped into the monitor; on an axis where the panel is larger than
/// the monitor the coordinate is the monitor's origin.
pub fn calculate_top_center_position(
    monitor_position: Point,
    monitor_size: Size,
    window_size: Size,
    vertical_margin: i32,
    origin_bottom_left: bool,
) -> (position: (i32, i32))
    requires
        placeable(monitor_position, monitor_size, window_size),
    ensures
        (position.0 as int, position.1 as int) == top_center_position(
            monitor_position,
            monitor_size,
            window_size,
            vertical_margin as int,
            origin_bottom_left,
        ),
        within_monitor(
            (position.0 as int, position.1 as int),
            monitor_position,
            monitor_size,
            window_size,
        ),
        collapsed_where_oversized(
            (position.0 as int, position.1 as int),
            monitor_position,
            monitor_size,
            window_size,
        ),
{
    let x = place_centered(monitor_position.x, monitor_size.width, window_size.width);
    let y = if origin_bottom_left {
        place_from_end(monitor_position.y, monitor_size.height, window_size.height, vertical_margin)
    } else {
        place_from_start(
            monitor_position.y,
            monitor_size.height,
            window_size.height,
            vertical_margin,
        )
    };
    (x, y)
}

/// Computes the target for a panel that hugs the left or right edge: `margin`
/// in from that edge, centred vertically (halving rounds toward zero), each
/// coordinate clamped into the monitor.
pub fn calculate_edge_center_position(
    monitor_position: Point,
    monitor_size: Size,
    window_size: Size,
    margin: i32,
    side: Side,
) -> (position: (i32, i32))
    requires
        placeable(monitor_position, monitor_size, window_size),
    ensures
        (position.0 as int, position.1 as int) == edge_center_position(
            monitor_position,
            monitor_size,
            window_size,
            margin as int,
            side,
        ),
        within_monitor(
            (position.0 as int, position.1 as int),
            monitor_position,
            monitor_size,
            window_size,
        ),
        collapsed_where_oversized(
            (position.0 as int, position.1 as int),
            monitor_position,
            monitor_size,
            window_size,
        ),
{
    let x = match side {
        Side::Left => place_from_start(
            monitor_position.x,
            monitor_size.width,
            window_size.width,
            margin,
        ),
        Side::Right => place_from_end(
            monitor_position.x,
            monitor_size.width,
            window_size.width,
            margin,
        ),
    };
    let y = place_centered(monitor_position.y, monitor_size.height, window_size.height);
    (x, y)
}

/// Computes the target that centres the panel on the monitor, for hosts that
/// offer no centring of their own.
pub fn calculate_center_position(
    monitor_position: Point,
    monitor_size: Size,
    window_size: Size,
) -> (position: (i32, i32))
    requires
        placeable(monitor_position, monitor_size, window_size),
    ensures
        (position.0 as int, position.1 as int) == center_position(
            monitor_position,
            monitor_size,
            window_size,
        ),
        within_monitor(
            (position.0 as int, position.1 as int),
            monitor_position,
            monitor_size,
            window_size,
        ),
        collapsed_where_oversized(
            (position.0 as int, position.1 as int),
            monitor_position,
            monitor_size,
            window_size,
        ),
{
    let x = place_centered(monitor_position.x, monitor_size.width, window_size.width);
    let y = place_centered(monitor_position.y, monitor_size.height, window_size.height);
    (x, y)
}

/// Computes the target for `anchor`. `margin` is read by the three edge
/// anchors and `origin_bottom_left` by [`Anchor::TopCenter`] alone.
pub fn calculate_position(
    anchor: Anchor,
    monitor_position: Point,
    monitor_size: Size,
    window_size: Size,
    margin: i32,
    origin_bottom_left: bool,
) -> (position: (i32, i32))
    requires
        placeable(monitor_position, monitor_size, window_size),
    ensures
        (position.0 as int, position.1 as int) == anchored_position(
            anchor,
            monitor_position,
            monitor_size,
            window_size,
            margin as int,
            origin_bottom_left,
        ),
        within_monitor(
            (position.0 as int, position.1 as int),
            monitor_position,
            monitor_size,
            window_size,
        ),
        collapsed_where_oversized(
            (position.0 as int, position.1 as int),
            monitor_position,
            monitor_size,
            window_size,
        ),
{
    match anchor {
        Anchor::TopCenter => calculate_top_center_position(
            monitor_position,
            monitor_size,
            window_size,
            margin,
            origin_bottom_left,
        ),
        Anchor::LeftCenter => calculate_edge_center_position(
            monitor_position,
            monitor_size,
            window_size,
            margin,
            Side::Left,
        ),
        Anchor::RightCenter => calculate_edge_center_position(
            monitor_position,
            monitor_size,
            window_size,
            margin,
            Side::Right,
        ),
        Anchor::Center => calculate_center_position(monitor_position, monitor_size, window_size),
    }
}

/// Computes the target for `anchor` for any monitor and panel, answering
/// `None` exactly when some position of the panel on this monitor has no
/// `i32` coordinate.
pub fn try_calculate_position(
    anchor: Anchor,
    monitor_position: Point,
    monitor_size: Size,
    window_size: Size,
    margin: i32,
    origin_bottom_left: bool,
) -> (outcome: Option<(i32, i32)>)
    ensures
        outcome.is_some() == placeable(monitor_position, monitor_size, window_size),
        outcome matches Some(position) ==> (position.0 as int, position.1 as int)
            == anchored_position(
            anchor,
            monitor_position,
            monitor_size,
            window_size,
            margin as int,
            origin_bottom_left,
        ),
{
    if is_placeable(monitor_position, monitor_size, window_size) {
        Some(
            calculate_position(
                anchor,
                monitor_position,
                monitor_size,
                window_size,
                margin,
                origin_bottom_left,
            ),
        )
    } else {
        None
    }
}

/// A panel that fits the monitor is placed inside it: for every anchor, every
/// margin and either origin convention, the target lies between the monitor's
/// origin and the last position at which the panel still ends on the monitor.
pub proof fn lemma_fitting_panel_stays_on_monitor(
    anchor: Anchor,
    monitor_position: Point,
    monitor_size: Size,
    window_size: Size,
    margin: int,
    origin_bottom_left: bool,
)
    requires
        window_size.width <= monitor_size.width,
        window_size.height <= monitor_size.height,
    ensures
        ({
            let position = anchored_position(
                anchor,
                monitor_position,
                monitor_size,
                window_size,
                margin,
                origin_bottom_left,
            );
            &&& monitor_position.x <= position.0 <= monitor_position.x + monitor_size.width
                - window_size.width
            &&& monitor_position.y <= position.1 <= monitor_position.y + monitor_size.height
                - window_size.height
        }),
{
}

/// A panel larger than the monitor on an axis is put at the monitor's origin
/// on that axis, for every anchor, margin and origin convention.
pub proof fn lemma_oversized_panel_sits_at_origin(
    anchor: Anchor,
    monitor_position: Point,
    monitor_size: Size,
    window_size: Size,
    margin: int,
    origin_bottom_left: bool,
)
    ensures
        ({
            let position = anchored_position(
                anchor,
                monitor_position,
                monitor_size,
                window_size,
                margin,
                origin_bottom_left,
            );
            &&& window_size.width > monitor_size.width ==> position.0 == monitor_position.x
            &&& window_size.height > monitor_size.height ==> position.1 == monitor_position.y
        }),
{
}

/// Two calls of [`calculate_top_center_position`] on the same arguments return
/// the same position: whatever `first` and `second` the function may return
/// for these arguments, they are equal.
pub proof fn lemma_top_center_is_repeatable(
    monitor_position: Point,
    monitor_size: Size,
    window_size: Size,
    vertical_margin: i32,
    origin_bottom_left: bool,
    first: (i32, i32),
    second: (i32, i32),
)
    requires
        call_ensures(
            calculate_top_center_position,
            (monitor_position, monitor_size, window_size, vertical_margin, origin_bottom_left),
            first,
        ),
        call_ensures(
            calculate_top_center_position,
            (monitor_position, monitor_size, window_size, vertical_margin, origin_bottom_left),
            second,
        ),
    ensures
        first == second,
{
}

/// The horizontal target of an edge-centred panel is monotone in the margin:
/// a larger margin never moves the panel right on the right side, and never
/// moves it left on the left side. This holds for any two margins, so in
/// particular for those between zero and the available width.
pub proof fn lemma_edge_center_monotone_in_margin(
    monitor_position: Point,
    monitor_size: Size,
    window_size: Size,
    smaller: int,
    larger: int,
)
    requires
        smaller <= larger,
    ensures
        edge_center_position(monitor_position, monitor_size, window_size, larger, Side::Right).0
            <= edge_center_position(
            monitor_position,
            monitor_size,
            window_size,
            smaller,
            Side::Right,
        ).0,
        edge_center_position(monitor_position, monitor_size, window_size, smaller, Side::Left).0
            <= edge_center_position(
            monitor_position,
            monitor_size,
            window_size,
            larger,
            Side::Left,
        ).0,
{
}

} // verus!
