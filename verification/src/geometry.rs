//! Displays, the pointer, and where a window goes.
//!
//! Logical coordinates are whole points. A display's scale factor is held in
//! thousandths, so physical pixels are `points * thousandths / 1000`, cut
//! towards zero and kept inside the range of the pixel type.

use vstd::prelude::*;

verus! {

/// Thousandths in a scale factor of one.
pub const SCALE_UNIT: u32 = 1000;

/// A location in logical points.
#[derive(Clone, Copy, Debug, PartialEq, Eq, Structural)]
pub struct Point {
    pub x: i64,
    pub y: i64,
}

/// An extent in logical points.
#[derive(Clone, Copy, Debug, PartialEq, Eq, Structural)]
pub struct Size {
    pub width: u32,
    pub height: u32,
}

/// A rectangle in logical points, with its origin at the corner of least x and y.
#[derive(Clone, Copy, Debug, PartialEq, Eq, Structural)]
pub struct Rect {
    pub origin: Point,
    pub size: Size,
}

/// A location in physical pixels.
#[derive(Clone, Copy, Debug, PartialEq, Eq, Structural)]
pub struct PhysicalPosition {
    pub x: i32,
    pub y: i32,
}

/// An extent in physical pixels.
#[derive(Clone, Copy, Debug, PartialEq, Eq, Structural)]
pub struct PhysicalSize {
    pub width: u32,
    pub height: u32,
}

/// Physical pixels per logical point, in thousandths. Never zero.
#[derive(Clone, Copy, Debug, PartialEq, Eq)]
pub struct ScaleFactor {
    thousandths: u32,
}

/// A display as the window system reports it: its frame in logical points.
#[derive(Clone, Debug, PartialEq, Eq)]
pub struct Screen {
    pub name: Option<String>,
    pub frame: Rect,
    pub scale_factor: ScaleFactor,
}

/// A display in physical pixels.
#[derive(Clone, Debug, PartialEq, Eq)]
pub struct Monitor {
    pub name: Option<String>,
    pub position: PhysicalPosition,
    pub size: PhysicalSize,
    pub scale_factor: ScaleFactor,
}

/// `n / d` cut towards zero.
pub open spec fn quotient_towards_zero(n: int, d: int) -> int {
    if n >= 0 {
        n / d
    } else {
        -((-n) / d)
    }
}

/// `v` kept inside `lo..=hi`.
pub open spec fn kept_within(v: int, lo: int, hi: int) -> int {
    if v < lo {
        lo
    } else if v > hi {
        hi
    } else {
        v
    }
}

impl ScaleFactor {
    #[verifier::type_invariant]
    spec fn nonzero(self) -> bool {
        self.thousandths > 0
    }

    /// The factor in thousandths.
    pub closed spec fn spec_thousandths(self) -> int {
        self.thousandths as int
    }

    /// The factor of `t` thousandths. There is no factor of zero.
    pub fn from_thousandths(t: u32) -> (r: Option<ScaleFactor>)
        ensures
            t == 0 ==> r is None,
            t > 0 ==> r is Some && r->0.spec_thousandths() == t,
    {
        if t == 0 {
            None
        } else {
            Some(ScaleFactor { thousandths: t })
        }
    }

    /// One pixel per point.
    pub fn identity() -> (r: ScaleFactor)
        ensures
            r.spec_thousandths() == SCALE_UNIT,
    {
        ScaleFactor { thousandths: SCALE_UNIT }
    }

    /// The factor in thousandths.
    pub fn thousandths(&self) -> (t: u32)
        ensures
            t == self.spec_thousandths(),
            t > 0,
    {
        proof {
            use_type_invariant(self);
        }
        self.thousandths
    }

    /// Pixels that `points` cover, before they are fitted to a pixel type.
    pub open spec fn spec_to_physical(self, points: int) -> int {
        quotient_towards_zero(points * self.spec_thousandths(), SCALE_UNIT as int)
    }

    /// Points that `pixels` cover.
    pub open spec fn spec_to_logical(self, pixels: int) -> int {
        quotient_towards_zero(pixels * SCALE_UNIT, self.spec_thousandths())
    }

    /// A coordinate in points as a pixel coordinate.
    pub fn position_to_physical(&self, points: i64) -> (r: i32)
        ensures
            r == kept_within(self.spec_to_physical(points as int), i32::MIN as int, i32::MAX as int),
    {
        let t: u128 = self.thousandths() as u128;
        if points >= 0 {
            let p: u128 = points as u128;
            assert(p * t <= 0x7fff_ffff_ffff_ffff * 0xffff_ffff) by (nonlinear_arith)
                requires
                    0 <= p <= 0x7fff_ffff_ffff_ffff,
                    0 <= t <= 0xffff_ffff,
            ;
            let q: u128 = p * t / 1000;
            if q > 0x7fff_ffff {
                i32::MAX
            } else {
                q as i32
            }
        } else {
            let p: u128 = (-(points as i128)) as u128;
            assert(p * t <= 0x8000_0000_0000_0000 * 0xffff_ffff) by (nonlinear_arith)
                requires
                    0 <= p <= 0x8000_0000_0000_0000,
                    0 <= t <= 0xffff_ffff,
            ;
            assert((points as int) * (t as int) == -(p * t)) by (nonlinear_arith)
                requires
                    points as int == -(p as int),
            ;
            assert((points as int) * (t as int) <= 0) by (nonlinear_arith)
                requires
                    points < 0,
                    t >= 0,
            ;
            let q: u128 = p * t / 1000;
            if q > 0x8000_0000 {
                i32::MIN
            } else {
                let neg: i64 = -(q as i64);
                neg as i32
            }
        }
    }

    /// An extent in points as an extent in pixels.
    pub fn extent_to_physical(&self, points: u32) -> (r: u32)
        ensures
            r == kept_within(self.spec_to_physical(points as int), 0, u32::MAX as int),
    {
        let t: u64 = self.thousandths() as u64;
        let p: u64 = points as u64;
        assert(p * t <= 0xffff_ffff * 0xffff_ffff) by (nonlinear_arith)
            requires
                0 <= p <= 0xffff_ffff,
                0 <= t <= 0xffff_ffff,
        ;
        let q: u64 = p * t / 1000;
        if q > 0xffff_ffff {
            u32::MAX
        } else {
            q as u32
        }
    }

    /// A pixel coordinate as a coordinate in points.
    pub fn position_to_logical(&self, pixels: i32) -> (r: i64)
        ensures
            r == self.spec_to_logical(pixels as int),
            i32::MIN * SCALE_UNIT <= r <= i32::MAX * SCALE_UNIT,
    {
        let t: i64 = self.thousandths() as i64;
        let n: i64 = (pixels as i64) * 1000;
        if n >= 0 {
            proof {
                lemma_quotient_bounds(n as int, t as int);
            }
            n / t
        } else {
            proof {
                lemma_quotient_bounds(-n as int, t as int);
            }
            -((-n) / t)
        }
    }

    /// An extent in pixels as an extent in points.
    pub fn extent_to_logical(&self, pixels: u32) -> (r: u64)
        ensures
            r == self.spec_to_logical(pixels as int),
            r <= u32::MAX * SCALE_UNIT,
    {
        let t: u64 = self.thousandths() as u64;
        proof {
            lemma_quotient_bounds(pixels * 1000, t as int);
        }
        (pixels as u64) * 1000 / t
    }
}

impl Rect {
    /// Whether the pointer at `p` is over this rectangle. The y axis points up
    /// and the pointer occupies the point below and to the right of its
    /// location, so the left and the upper edge belong to the rectangle and
    /// the right and the lower edge do not.
    pub open spec fn spec_contains(self, p: Point) -> bool {
        &&& self.origin.x <= p.x < self.origin.x + self.size.width
        &&& self.origin.y < p.y <= self.origin.y + self.size.height
    }

    /// Whether the pointer at `p` is over this rectangle.
    pub fn contains(&self, p: Point) -> (r: bool)
        ensures
            r == self.spec_contains(p),
    {
        let left: i128 = self.origin.x as i128;
        let low: i128 = self.origin.y as i128;
        let x: i128 = p.x as i128;
        let y: i128 = p.y as i128;
        let right: i128 = left + (self.size.width as i128);
        let high: i128 = low + (self.size.height as i128);
        left <= x && x < right && low < y && y <= high
    }
}

impl Screen {
    /// This display in physical pixels.
    pub open spec fn spec_to_monitor(self) -> Monitor {
        Monitor {
            name: self.name,
            position: PhysicalPosition {
                x: kept_within(
                    self.scale_factor.spec_to_physical(self.frame.origin.x as int),
                    i32::MIN as int,
                    i32::MAX as int,
                ) as i32,
                y: kept_within(
                    self.scale_factor.spec_to_physical(self.frame.origin.y as int),
                    i32::MIN as int,
                    i32::MAX as int,
                ) as i32,
            },
            size: PhysicalSize {
                width: kept_within(
                    self.scale_factor.spec_to_physical(self.frame.size.width as int),
                    0,
                    u32::MAX as int,
                ) as u32,
                height: kept_within(
                    self.scale_factor.spec_to_physical(self.frame.size.height as int),
                    0,
                    u32::MAX as int,
                ) as u32,
            },
            scale_factor: self.scale_factor,
        }
    }

    /// This display in physical pixels: origin and extent are multiplied by
    /// the scale factor.
    pub fn to_monitor(&self) -> (m: Monitor)
        ensures
            m == self.spec_to_monitor(),
    {
        let name = match &self.name {
            Some(n) => Some(n.clone()),
            None => None,
        };
        Monitor {
            name,
            position: PhysicalPosition {
                x: self.scale_factor.position_to_physical(self.frame.origin.x),
                y: self.scale_factor.position_to_physical(self.frame.origin.y),
            },
            size: PhysicalSize {
                width: self.scale_factor.extent_to_physical(self.frame.size.width),
                height: self.scale_factor.extent_to_physical(self.frame.size.height),
            },
            scale_factor: self.scale_factor,
        }
    }
}

/// The index of the first display in `screens` whose frame holds `cursor`.
pub open spec fn spec_screen_under_cursor(cursor: Point, screens: Seq<Screen>) -> Option<int>
    decreases screens.len(),
{
    if screens.len() == 0 {
        None
    } else if screens[0].frame.spec_contains(cursor) {
        Some(0)
    } else {
        match spec_screen_under_cursor(cursor, screens.drop_first()) {
            Some(i) => Some(i + 1),
            None => None,
        }
    }
}

/// The display under the pointer, in physical pixels.
pub open spec fn spec_monitor_under_cursor(cursor: Point, screens: Seq<Screen>) -> Option<Monitor> {
    match spec_screen_under_cursor(cursor, screens) {
        Some(i) => Some(screens[i].spec_to_monitor()),
        None => None,
    }
}

/// `spec_screen_under_cursor` finds the least index whose frame holds the
/// pointer, and finds none exactly when no frame holds it.
pub proof fn lemma_screen_under_cursor(cursor: Point, screens: Seq<Screen>)
    ensures
        match spec_screen_under_cursor(cursor, screens) {
            Some(i) => {
                &&& 0 <= i < screens.len()
                &&& screens[i].frame.spec_contains(cursor)
                &&& forall|j: int| 0 <= j < i ==> !(#[trigger] screens[j]).frame.spec_contains(cursor)
            },
            None => forall|j: int|
                0 <= j < screens.len() ==> !(#[trigger] screens[j]).frame.spec_contains(cursor),
        },
    decreases screens.len(),
{
    if screens.len() > 0 && !screens[0].frame.spec_contains(cursor) {
        let rest = screens.drop_first();
        lemma_screen_under_cursor(cursor, rest);
        assert forall|j: int| 0 <= j < rest.len() implies rest[j] == screens[j + 1] by {}
        match spec_screen_under_cursor(cursor, rest) {
            Some(i) => {
                assert forall|j: int| 0 <= j < i + 1 implies !(#[trigger] screens[j]).frame.spec_contains(
                    cursor,
                ) by {
                    if j > 0 {
                        assert(screens[j] == rest[j - 1]);
                    }
                }
            },
            None => {
                assert forall|j: int| 0 <= j < screens.len() implies !(#[trigger] screens[j]).frame.spec_contains(
                    cursor,
                ) by {
                    if j > 0 {
                        assert(screens[j] == rest[j - 1]);
                    }
                }
            },
        }
    }
}

/// A least index whose frame holds the pointer is what `spec_screen_under_cursor` finds.
pub proof fn lemma_first_screen_is_found(cursor: Point, screens: Seq<Screen>, i: int)
    requires
        0 <= i < screens.len(),
        screens[i].frame.spec_contains(cursor),
        forall|j: int| 0 <= j < i ==> !(#[trigger] screens[j]).frame.spec_contains(cursor),
    ensures
        spec_screen_under_cursor(cursor, screens) == Some(i),
{
    lemma_screen_under_cursor(cursor, screens);
}

/// No frame holds the pointer: `spec_screen_under_cursor` finds none.
pub proof fn lemma_no_screen_is_found(cursor: Point, screens: Seq<Screen>)
    requires
        forall|j: int| 0 <= j < screens.len() ==> !(#[trigger] screens[j]).frame.spec_contains(cursor),
    ensures
        spec_screen_under_cursor(cursor, screens) is None,
{
    lemma_screen_under_cursor(cursor, screens);
}

/// The index of the first display whose frame holds the pointer, or `None`
/// where the pointer is over no display.
pub fn screen_under_cursor(cursor: Point, screens: &Vec<Screen>) -> (r: Option<usize>)
    ensures
        match r {
            Some(i) => spec_screen_under_cursor(cursor, screens@) == Some(i as int),
            None => spec_screen_under_cursor(cursor, screens@) is None,
        },
{
    let mut i: usize = 0;
    while i < screens.len()
        invariant
            i <= screens.len(),
            forall|j: int| 0 <= j < i ==> !(#[trigger] screens@[j]).frame.spec_contains(cursor),
        decreases screens.len() - i,
    {
        if screens[i].frame.contains(cursor) {
            proof {
                lemma_first_screen_is_found(cursor, screens@, i as int);
            }
            return Some(i);
        }
        i += 1;
    }
    proof {
        lemma_no_screen_is_found(cursor, screens@);
    }
    None
}

/// The display under the pointer: the first of `screens` whose frame holds
/// `cursor`, in physical pixels. `None` where the pointer is over no display.
pub fn monitor_under_cursor(cursor: Point, screens: &Vec<Screen>) -> (r: Option<Monitor>)
    ensures
        r == spec_monitor_under_cursor(cursor, screens@),
{
    match screen_under_cursor(cursor, screens) {
        Some(i) => {
            proof {
                lemma_screen_under_cursor(cursor, screens@);
            }
            Some(screens[i].to_monitor())
        },
        None => None,
    }
}

impl Monitor {
    /// The x at which a window `width` points wide is centred on this display:
    /// the display's origin plus half of what the display has left over.
    pub open spec fn spec_centered_x(self, width: u32) -> int {
        let origin = self.scale_factor.spec_to_logical(self.position.x as int);
        let extent = self.scale_factor.spec_to_logical(self.size.width as int);
        origin + (extent - width) / 2
    }

    /// The y at which a window `height` points high is centred on this display.
    pub open spec fn spec_centered_y(self, height: u32) -> int {
        let origin = self.scale_factor.spec_to_logical(self.position.y as int);
        let extent = self.scale_factor.spec_to_logical(self.size.height as int);
        origin + (extent - height) / 2
    }

    /// `frame` moved to the centre of this display, its size kept.
    pub open spec fn spec_center(self, frame: Rect) -> Rect {
        Rect {
            origin: Point {
                x: self.spec_centered_x(frame.size.width) as i64,
                y: self.spec_centered_y(frame.size.height) as i64,
            },
            size: frame.size,
        }
    }

    /// `frame` moved to the centre of this display: in each axis the new
    /// origin is `display_origin + (display_size - window_size) / 2` in
    /// logical points, halves rounded down. The size is kept.
    pub fn center(&self, frame: Rect) -> (r: Rect)
        ensures
            r == self.spec_center(frame),
            r.size == frame.size,
            r.origin.x == self.spec_centered_x(frame.size.width),
            r.origin.y == self.spec_centered_y(frame.size.height),
    {
        Rect {
            origin: Point {
                x: centered_coordinate(
                    self.scale_factor.position_to_logical(self.position.x),
                    self.scale_factor.extent_to_logical(self.size.width),
                    frame.size.width,
                ),
                y: centered_coordinate(
                    self.scale_factor.position_to_logical(self.position.y),
                    self.scale_factor.extent_to_logical(self.size.height),
                    frame.size.height,
                ),
            },
            size: frame.size,
        }
    }
}

/// `origin + (extent - window) / 2`, the half rounded down.
fn centered_coordinate(origin: i64, extent: u64, window: u32) -> (r: i64)
    requires
        -2_147_483_648_000 <= origin <= 2_147_483_647_000,
        extent <= 4_294_967_295_000,
    ensures
        r == origin + (extent - window) / 2,
{
    let spare: i64 = (extent as i64) - (window as i64);
    let half: i64 = if spare >= 0 {
        spare / 2
    } else {
        -((1 - spare) / 2)
    };
    origin + half
}

/// Where the window goes when it is shown without a position of its own: to
/// the centre of the display under the pointer, its size kept. Where the
/// pointer is over no display the frame is returned as it came.
pub fn position_window_at_the_center_of_the_monitor_with_cursor(
    cursor: Point,
    screens: &Vec<Screen>,
    frame: Rect,
) -> (r: Rect)
    ensures
        r == spec_position_at_center(cursor, screens@, frame),
        r.size == frame.size,
{
    match monitor_under_cursor(cursor, screens) {
        Some(monitor) => monitor.center(frame),
        None => frame,
    }
}

/// The frame of a window after it was centred on the display under the pointer.
pub open spec fn spec_position_at_center(cursor: Point, screens: Seq<Screen>, frame: Rect) -> Rect {
    match spec_monitor_under_cursor(cursor, screens) {
        Some(monitor) => monitor.spec_center(frame),
        None => frame,
    }
}

/// Centring is idempotent: a window centred on a display and centred on it
/// again stands where the first centring put it.
pub proof fn lemma_center_idempotent(monitor: Monitor, frame: Rect)
    ensures
        monitor.spec_center(monitor.spec_center(frame)) == monitor.spec_center(frame),
        monitor.spec_center(frame).size == frame.size,
{
}

/// Centring on the display under the pointer is idempotent as long as the
/// pointer and the displays stay as they are.
pub proof fn lemma_position_at_center_idempotent(cursor: Point, screens: Seq<Screen>, frame: Rect)
    ensures
        spec_position_at_center(cursor, screens, spec_position_at_center(cursor, screens, frame))
            == spec_position_at_center(cursor, screens, frame),
{
}

/// A centred window has the same room on both sides, up to the one point
/// that cannot be halved, and a window that is no larger than the display
/// lies inside it.
pub proof fn lemma_centered_window_has_even_margins(monitor: Monitor, frame: Rect)
    ensures
        ({
            let left = monitor.scale_factor.spec_to_logical(monitor.position.x as int);
            let width = monitor.scale_factor.spec_to_logical(monitor.size.width as int);
            let x = monitor.spec_centered_x(frame.size.width);
            let before = x - left;
            let after = (left + width) - (x + frame.size.width);
            &&& before <= after <= before + 1
            &&& frame.size.width <= width ==> 0 <= before
        }),
        ({
            let low = monitor.scale_factor.spec_to_logical(monitor.position.y as int);
            let height = monitor.scale_factor.spec_to_logical(monitor.size.height as int);
            let y = monitor.spec_centered_y(frame.size.height);
            let below = y - low;
            let above = (low + height) - (y + frame.size.height);
            &&& below <= above <= below + 1
            &&& frame.size.height <= height ==> 0 <= below
        }),
{
}

/// With the pointer on the display `screens[i]`, and on none before it, the
/// monitor found is that display with its frame multiplied by its scale
/// factor: each extent and each coordinate is the product with the factor's
/// thousandths, divided by a thousand, as far as the pixel type reaches. For
/// a whole factor `k` that is `k` times the logical value.
pub proof fn lemma_monitor_under_cursor_scales(cursor: Point, screens: Seq<Screen>, i: int, k: int)
    requires
        0 <= i < screens.len(),
        screens[i].frame.spec_contains(cursor),
        forall|j: int| 0 <= j < i ==> !(#[trigger] screens[j]).frame.spec_contains(cursor),
    ensures
        spec_monitor_under_cursor(cursor, screens) == Some(screens[i].spec_to_monitor()),
        screens[i].spec_to_monitor().scale_factor == screens[i].scale_factor,
        screens[i].spec_to_monitor().name == screens[i].name,
        ({
            let b = screens[i].frame;
            let t = screens[i].scale_factor.spec_thousandths();
            let m = screens[i].spec_to_monitor();
            &&& b.size.width * t <= u32::MAX * SCALE_UNIT ==> m.size.width == b.size.width * t
                / (SCALE_UNIT as int)
            &&& b.size.height * t <= u32::MAX * SCALE_UNIT ==> m.size.height == b.size.height * t
                / (SCALE_UNIT as int)
            &&& 0 <= b.origin.x * t <= i32::MAX * SCALE_UNIT ==> m.position.x == b.origin.x * t
                / (SCALE_UNIT as int)
            &&& 0 <= b.origin.y * t <= i32::MAX * SCALE_UNIT ==> m.position.y == b.origin.y * t
                / (SCALE_UNIT as int)
            &&& t == k * SCALE_UNIT && k > 0 ==> {
                &&& b.size.width * k <= u32::MAX ==> m.size.width == b.size.width * k
                &&& b.size.height * k <= u32::MAX ==> m.size.height == b.size.height * k
                &&& i32::MIN <= b.origin.x * k <= i32::MAX ==> m.position.x == b.origin.x * k
                &&& i32::MIN <= b.origin.y * k <= i32::MAX ==> m.position.y == b.origin.y * k
            }
        }),
{
    lemma_first_screen_is_found(cursor, screens, i);
    let b = screens[i].frame;
    let t = screens[i].scale_factor.spec_thousandths();
    if b.size.width * t <= u32::MAX * SCALE_UNIT {
        assert(0 <= b.size.width * t) by (nonlinear_arith)
            requires
                b.size.width >= 0,
                t >= 0,
        ;
        lemma_scaled_in_range(b.size.width as int, t, 0, u32::MAX as int);
    }
    if b.size.height * t <= u32::MAX * SCALE_UNIT {
        assert(0 <= b.size.height * t) by (nonlinear_arith)
            requires
                b.size.height >= 0,
                t >= 0,
        ;
        lemma_scaled_in_range(b.size.height as int, t, 0, u32::MAX as int);
    }
    if 0 <= b.origin.x * t <= i32::MAX * SCALE_UNIT {
        lemma_scaled_in_range(b.origin.x as int, t, i32::MIN as int, i32::MAX as int);
    }
    if 0 <= b.origin.y * t <= i32::MAX * SCALE_UNIT {
        lemma_scaled_in_range(b.origin.y as int, t, i32::MIN as int, i32::MAX as int);
    }
    if t == k * SCALE_UNIT && k > 0 {
        lemma_scaled_whole(b.size.width as int, k);
        lemma_scaled_whole(b.size.height as int, k);
        lemma_scaled_whole(b.origin.x as int, k);
        lemma_scaled_whole(b.origin.y as int, k);
    }
}

/// A quotient of a number that is not negative, by one or more, lies between zero and the number.
proof fn lemma_quotient_bounds(n: int, d: int)
    requires
        0 <= n,
        1 <= d,
    ensures
        0 <= n / d <= n,
{
    vstd::arithmetic::div_mod::lemma_div_pos_is_pos(n, d);
    vstd::arithmetic::div_mod::lemma_div_is_ordered_by_denominator(n, 1, d);
}

/// A product inside `0..=hi * 1000` has its thousandth inside `0..=hi`.
proof fn lemma_scaled_in_range(v: int, t: int, lo: int, hi: int)
    requires
        lo <= 0,
        0 <= v * t <= hi * 1000,
    ensures
        kept_within(quotient_towards_zero(v * t, 1000), lo, hi) == v * t / 1000,
{
}

/// A value times `k * 1000`, divided by a thousand towards zero, is the value times `k`.
proof fn lemma_scaled_whole(v: int, k: int)
    ensures
        quotient_towards_zero(v * (k * 1000), 1000) == v * k,
{
    assert(v * (k * 1000) == (v * k) * 1000) by (nonlinear_arith);
    assert(-(v * (k * 1000)) == (-(v * k)) * 1000) by (nonlinear_arith);
}

} // verus!
