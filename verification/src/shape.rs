//! Shape requests and the geometry generated from them.
//!
//! A request names a shape by its parameters. A generator reads the request
//! together with the style and the transform that are current at the moment
//! of the call and produces the description that a rasterizer consumes, or
//! nothing where the request is degenerate:
//!
//! * a radius that is zero or negative draws nothing;
//! * a rectangle with a side that is zero or negative draws nothing;
//! * a polygon with fewer than three sides draws nothing;
//! * an arc that sweeps no angle draws nothing;
//! * a negative thickness is passed on as zero.

use vstd::prelude::*;
use crate::color::Color;
use crate::fixed::{Fixed, UNIT};
use crate::transform::Transform;
use crate::trig::TAU;
use crate::vector::{Vec2, Vec3, Vec4};

verus! {

/// How the ends of an open path are finished.
#[derive(Clone, Copy, Debug, PartialEq, Eq, Structural)]
pub enum Cap {
    /// The path stops at its end points.
    Butt,
    /// The path is extended by half its thickness, squared off.
    Square,
    /// A half disc is attached to each end.
    Round,
}

/// The style attributes that a draw call reads.
#[derive(Clone, Copy, Debug, PartialEq, Eq, Structural)]
pub struct Style {
    pub color: Color,
    pub thickness: Fixed,
    pub hollow: bool,
    pub cap: Cap,
    pub corner_radii: Vec4,
    pub roundness: Fixed,
}

/// A shape to draw, by its own parameters.
#[derive(Clone, Copy, Debug, PartialEq, Eq, Structural)]
pub enum ShapeRequest {
    Line { start: Vec3, end: Vec3 },
    Rect { size: Vec2 },
    Circle { radius: Fixed },
    Arc { radius: Fixed, start_angle: Fixed, end_angle: Fixed },
    Ngon { sides: Fixed, radius: Fixed },
}

/// A regular polygon, with the measures that follow from its side count.
#[derive(Clone, Copy, Debug, PartialEq, Eq, Structural)]
pub struct Polygon {
    /// Number of sides; it need not be whole.
    pub sides: Fixed,
    /// Distance from the centre to the tip of a corner.
    pub radius: Fixed,
    /// Number of corners: the side count rounded up.
    pub corners: i64,
    /// Angle at the centre between two neighbouring corners.
    pub central_angle: Fixed,
    /// Distance from the centre to the middle of a side.
    pub apothem: Fixed,
    /// Radius of the arc that replaces each corner.
    pub corner_radius: Fixed,
}

/// What a generator hands to the rasterizer, in the painter's local space.
#[derive(Clone, Copy, Debug, PartialEq, Eq, Structural)]
pub enum Geometry {
    /// A straight stroke from `start` to `end`.
    Segment { start: Vec3, end: Vec3, cap: Cap },
    /// A rectangle centred on the origin. Each corner radius lies between
    /// zero and half the shorter side.
    Quad { size: Vec2, corner_radii: Vec4 },
    /// Part of a disc: from `start_angle`, which lies within one turn,
    /// through `sweep`, which is at most one turn either way.
    Sector { radius: Fixed, start_angle: Fixed, sweep: Fixed, cap: Cap },
    /// A regular polygon centred on the origin.
    Polygon(Polygon),
}

/// One finished shape: where it goes, how it is painted, and what it is.
#[derive(Clone, Copy, Debug, PartialEq, Eq, Structural)]
pub struct DrawCommand {
    pub transform: Transform,
    pub color: Color,
    /// Width of the stroke; never negative.
    pub thickness: Fixed,
    /// Whether only the outline is painted.
    pub hollow: bool,
    pub geometry: Geometry,
}

impl Polygon {
    /// What holds of every polygon that a generator produces.
    pub open spec fn well_formed(self) -> bool {
        &&& self.sides@ >= 3 * UNIT
        &&& self.radius@ > 0
        &&& self.corners >= 3
        &&& (self.corners - 1) * UNIT < self.sides@ <= self.corners * UNIT
        &&& 0 <= self.central_angle@ <= TAU / 3
        &&& 0 <= self.apothem@ <= self.radius@
        &&& 0 <= self.corner_radius@ <= self.apothem@
    }
}

impl Geometry {
    /// What holds of every geometry that a generator produces: sizes and
    /// radii are positive, angles lie within one turn, and roundings fit
    /// into the shape they round.
    pub open spec fn well_formed(self) -> bool {
        match self {
            Geometry::Segment { start, end, cap } => true,
            Geometry::Quad { size, corner_radii } => {
                &&& size.x@ > 0
                &&& size.y@ > 0
                &&& 0 <= 2 * corner_radii.x@ <= size.x@
                &&& 0 <= 2 * corner_radii.x@ <= size.y@
                &&& 0 <= 2 * corner_radii.y@ <= size.x@
                &&& 0 <= 2 * corner_radii.y@ <= size.y@
                &&& 0 <= 2 * corner_radii.z@ <= size.x@
                &&& 0 <= 2 * corner_radii.z@ <= size.y@
                &&& 0 <= 2 * corner_radii.w@ <= size.x@
                &&& 0 <= 2 * corner_radii.w@ <= size.y@
            },
            Geometry::Sector { radius, start_angle, sweep, cap } => {
                &&& radius@ > 0
                &&& 0 <= start_angle@ < TAU
                &&& sweep@ != 0
                &&& -TAU <= sweep@ <= TAU
                &&& cap != Cap::Square
                &&& cap == Cap::Round ==> -TAU < sweep@ < TAU
            },
            Geometry::Polygon(polygon) => polygon.well_formed(),
        }
    }
}

impl DrawCommand {
    /// What holds of every command that a generator produces: the
    /// thickness is not negative and the geometry is well-formed.
    pub open spec fn well_formed(self) -> bool {
        self.thickness@ >= 0 && self.geometry.well_formed()
    }
}

impl Style {
    pub open spec fn spec_initial() -> Style {
        Style {
            color: Color::white(),
            thickness: Fixed::from_millis(100),
            hollow: false,
            cap: Cap::Butt,
            corner_radii: Vec4::splat(Fixed { raw: 0 }),
            roundness: Fixed { raw: 0 },
        }
    }

    /// The style a painter starts with and returns to on reset: white,
    /// a tenth thick, filled, without caps or rounding.
    #[verifier::when_used_as_spec(spec_initial)]
    pub fn initial() -> (s: Style)
        ensures
            s == Style::spec_initial(),
    {
        Style {
            color: Color::white(),
            thickness: Fixed::from_millis(100),
            hollow: false,
            cap: Cap::Butt,
            corner_radii: Vec4::splat(Fixed { raw: 0 }),
            roundness: Fixed { raw: 0 },
        }
    }

    pub open spec fn spec_stroke(self) -> Fixed {
        self.thickness.larger(Fixed { raw: 0 })
    }

    /// The thickness that reaches the rasterizer: never negative.
    #[verifier::when_used_as_spec(spec_stroke)]
    pub fn stroke(self) -> (t: Fixed)
        ensures
            t == self.spec_stroke(),
            t@ >= 0,
    {
        self.thickness.larger(Fixed { raw: 0 })
    }
}

pub open spec fn spec_unit_clamped(v: Fixed) -> Fixed {
    v.larger(Fixed { raw: 0 }).smaller(Fixed { raw: UNIT })
}

/// `v` pinned between zero and one.
#[verifier::when_used_as_spec(spec_unit_clamped)]
pub fn unit_clamped(v: Fixed) -> (r: Fixed)
    ensures
        r == spec_unit_clamped(v),
        0 <= r@ <= UNIT,
{
    v.larger(Fixed { raw: 0 }).smaller(Fixed { raw: UNIT })
}

pub open spec fn spec_line_geometry(style: Style, start: Vec3, end: Vec3) -> Geometry {
    Geometry::Segment { start, end, cap: style.cap }
}

/// A line is the segment between its two points, finished with the
/// current cap.
#[verifier::when_used_as_spec(spec_line_geometry)]
pub fn line_geometry(style: Style, start: Vec3, end: Vec3) -> (g: Geometry)
    ensures
        g == spec_line_geometry(style, start, end),
        g.well_formed(),
{
    Geometry::Segment { start, end, cap: style.cap }
}

pub open spec fn spec_corner(radius: Fixed, limit: Fixed) -> Fixed {
    radius.larger(Fixed { raw: 0 }).smaller(limit)
}

/// A corner radius pinned between zero and `limit`.
#[verifier::when_used_as_spec(spec_corner)]
pub fn corner(radius: Fixed, limit: Fixed) -> (r: Fixed)
    ensures
        r == spec_corner(radius, limit),
        limit@ >= 0 ==> 0 <= r@ <= limit@,
{
    radius.larger(Fixed { raw: 0 }).smaller(limit)
}

pub open spec fn spec_rect_geometry(style: Style, size: Vec2) -> Option<Geometry> {
    if size.x@ <= 0 || size.y@ <= 0 {
        None
    } else {
        let limit = size.x.smaller(size.y).over(Fixed::from_int(2));
        Some(
            Geometry::Quad {
                size,
                corner_radii: Vec4 {
                    x: corner(style.corner_radii.x, limit),
                    y: corner(style.corner_radii.y, limit),
                    z: corner(style.corner_radii.z, limit),
                    w: corner(style.corner_radii.w, limit),
                },
            },
        )
    }
}

/// A rectangle of the given size. Each corner is rounded by its own
/// radius, which is cut down to half the shorter side.
#[verifier::when_used_as_spec(spec_rect_geometry)]
pub fn rect_geometry(style: Style, size: Vec2) -> (g: Option<Geometry>)
    ensures
        g == spec_rect_geometry(style, size),
        g.is_some() ==> g.unwrap().well_formed(),
{
    if size.x.raw <= 0 || size.y.raw <= 0 {
        None
    } else {
        let limit = size.x.smaller(size.y).over(Fixed::from_int(2));
        assert(0 <= 2 * limit@ <= size.x@ && 2 * limit@ <= size.y@) by {
            let shorter = size.x.smaller(size.y)@;
            assert(limit@ == shorter * 1_000_000 / 2_000_000);
        }
        Some(
            Geometry::Quad {
                size,
                corner_radii: Vec4 {
                    x: corner(style.corner_radii.x, limit),
                    y: corner(style.corner_radii.y, limit),
                    z: corner(style.corner_radii.z, limit),
                    w: corner(style.corner_radii.w, limit),
                },
            },
        )
    }
}

/// The sweep from `start_angle` to `end_angle`, cut down to one turn
/// either way.
pub open spec fn spec_sweep(start_angle: Fixed, end_angle: Fixed) -> Fixed {
    end_angle.minus(start_angle).larger(Fixed { raw: TAU }.negated()).smaller(Fixed { raw: TAU })
}

pub open spec fn spec_arc_geometry(
    style: Style,
    radius: Fixed,
    start_angle: Fixed,
    end_angle: Fixed,
) -> Option<Geometry> {
    let sweep = spec_sweep(start_angle, end_angle);
    if radius@ <= 0 || sweep@ == 0 {
        None
    } else {
        Some(
            Geometry::Sector {
                radius,
                start_angle: start_angle.wrapped(),
                sweep,
                cap: if style.cap == Cap::Round && style.hollow && -TAU < sweep@ < TAU {
                    Cap::Round
                } else {
                    Cap::Butt
                },
            },
        )
    }
}

/// An arc from `start_angle` to `end_angle`, both in radians. The sweep
/// may run either way; beyond a full turn it closes the circle. The
/// start angle is reduced to one turn. Round caps are kept only on a
/// hollow arc that leaves a gap.
#[verifier::when_used_as_spec(spec_arc_geometry)]
pub fn arc_geometry(style: Style, radius: Fixed, start_angle: Fixed, end_angle: Fixed) -> (g:
    Option<Geometry>)
    ensures
        g == spec_arc_geometry(style, radius, start_angle, end_angle),
        g.is_some() ==> g.unwrap().well_formed(),
{
    let sweep = end_angle.minus(start_angle).larger(Fixed { raw: TAU }.negated()).smaller(
        Fixed { raw: TAU },
    );
    if radius.raw <= 0 || sweep.raw == 0 {
        None
    } else {
        let round = match style.cap {
            Cap::Round => style.hollow && -TAU < sweep.raw && sweep.raw < TAU,
            _ => false,
        };
        Some(
            Geometry::Sector {
                radius,
                start_angle: start_angle.wrapped(),
                sweep,
                cap: if round {
                    Cap::Round
                } else {
                    Cap::Butt
                },
            },
        )
    }
}

pub open spec fn spec_circle_geometry(style: Style, radius: Fixed) -> Option<Geometry> {
    spec_arc_geometry(style, radius, Fixed { raw: 0 }, Fixed { raw: TAU })
}

/// A circle is the arc that sweeps one full turn from angle zero.
#[verifier::when_used_as_spec(spec_circle_geometry)]
pub fn circle_geometry(style: Style, radius: Fixed) -> (g: Option<Geometry>)
    ensures
        g == spec_circle_geometry(style, radius),
        g.is_some() ==> g.unwrap().well_formed(),
{
    arc_geometry(style, radius, Fixed { raw: 0 }, Fixed { raw: TAU })
}

/// The number of corners of a polygon with `sides` sides: `sides`
/// rounded up.
pub open spec fn spec_corner_count(sides: Fixed) -> int {
    (sides@ - 1) / (UNIT as int) + 1
}

pub open spec fn spec_polygon(style: Style, sides: Fixed, radius: Fixed) -> Polygon {
    let central_angle = Fixed { raw: TAU }.over(sides);
    let apothem = radius.times(central_angle.over(Fixed::from_int(2)).cos());
    Polygon {
        sides,
        radius,
        corners: spec_corner_count(sides) as i64,
        central_angle,
        apothem,
        corner_radius: unit_clamped(style.roundness).times(apothem),
    }
}

pub open spec fn spec_ngon_geometry(style: Style, sides: Fixed, radius: Fixed) -> Option<
    Geometry,
> {
    if sides@ < 3 * UNIT || radius@ <= 0 {
        None
    } else {
        Some(Geometry::Polygon(spec_polygon(style, sides, radius)))
    }
}

/// A regular polygon with `sides` sides, which need not be a whole
/// number: the corners stand one central angle `TAU / sides` apart,
/// starting from the top, and the last side closes what is left of the
/// turn. The roundness, taken between zero and one, is the share of the
/// apothem that each corner is rounded with.
#[verifier::when_used_as_spec(spec_ngon_geometry)]
pub fn ngon_geometry(style: Style, sides: Fixed, radius: Fixed) -> (g: Option<Geometry>)
    ensures
        g == spec_ngon_geometry(style, sides, radius),
        g.is_some() ==> g.unwrap().well_formed(),
{
    if sides.raw < 3 * UNIT || radius.raw <= 0 {
        None
    } else {
        let central_angle = Fixed { raw: TAU }.over(sides);
        let half_angle = central_angle.over(Fixed::from_int(2));
        let apothem = radius.times(half_angle.cos());
        proof {
            lemma_polygon_measures(style, sides, radius);
        }
        Some(
            Geometry::Polygon(
                Polygon {
                    sides,
                    radius,
                    corners: (sides.raw - 1) / UNIT + 1,
                    central_angle,
                    apothem,
                    corner_radius: unit_clamped(style.roundness).times(apothem),
                },
            ),
        )
    }
}

pub open spec fn spec_arc_span(start_angle: Fixed, sweep: Fixed) -> (Fixed, Fixed) {
    if sweep@ >= 0 {
        (start_angle, start_angle.plus(sweep))
    } else {
        (start_angle.plus(sweep), start_angle)
    }
}

/// The two angles between which a sector lies, the smaller first.
#[verifier::when_used_as_spec(spec_arc_span)]
pub fn arc_span(start_angle: Fixed, sweep: Fixed) -> (span: (Fixed, Fixed))
    ensures
        span == spec_arc_span(start_angle, sweep),
        span.0@ <= span.1@,
{
    if sweep.raw >= 0 {
        (start_angle, start_angle.plus(sweep))
    } else {
        (start_angle.plus(sweep), start_angle)
    }
}

/// The measures of a polygon fit together: the central angle is at most a
/// third of a turn, the apothem is no longer than the radius, and the
/// corner radius no longer than the apothem.
pub proof fn lemma_polygon_measures(style: Style, sides: Fixed, radius: Fixed)
    requires
        sides@ >= 3 * UNIT,
        radius@ > 0,
    ensures
        spec_polygon(style, sides, radius).well_formed(),
{
    let polygon = spec_polygon(style, sides, radius);
    let n = TAU as int * UNIT as int;
    let central = n / sides@;
    assert(n == 6_283_188_000_000);
    assert(0 <= central <= 2_094_396) by (nonlinear_arith)
        requires
            3_000_000 <= sides@ <= 0x7fff_ffff_ffff_ffff,
            central == 6_283_188_000_000int / sides@,
    ;
    assert(polygon.central_angle@ == central);
    let half = polygon.central_angle.over(Fixed::from_int(2));
    assert(half@ == central * 1_000_000 / 2_000_000);
    assert(0 <= half@ <= 1_047_198);
    assert(crate::trig::wrap(half@) == half@);
    let fold = if half@ <= crate::trig::OCTANT {
        half@
    } else {
        crate::trig::HALF_PI - half@
    };
    crate::trig::lemma_series_bounds(fold);
    let c = half.cos()@;
    assert(0 <= c <= 1_000_000);
    assert(0 <= radius@ * c <= radius@ * 1_000_000) by (nonlinear_arith)
        requires
            radius@ > 0,
            0 <= c <= 1_000_000,
    ;
    assert(polygon.apothem@ == radius@ * c / 1_000_000);
    let share = unit_clamped(style.roundness)@;
    assert(0 <= share <= 1_000_000);
    assert(0 <= share * polygon.apothem@ <= 1_000_000 * polygon.apothem@) by (nonlinear_arith)
        requires
            0 <= share <= 1_000_000,
            0 <= polygon.apothem@,
    ;
    assert(polygon.corner_radius@ == share * polygon.apothem@ / 1_000_000);
}

/// A geometry as a renderer is asked for it that draws lines,
/// rectangles, circles, arcs from a smaller to a larger angle, and
/// polygons whose corners are rounded with a radius.
#[derive(Clone, Copy, Debug, PartialEq, Eq, Structural)]
pub enum RenderCall {
    Line { start: Vec3, end: Vec3, cap: Cap },
    Rect { size: Vec2, corner_radii: Vec4 },
    Circle { radius: Fixed },
    Arc { radius: Fixed, start_angle: Fixed, end_angle: Fixed, cap: Cap },
    Ngon { sides: Fixed, radius: Fixed, roundness: Fixed },
}

impl Geometry {
    pub open spec fn spec_render_call(self) -> RenderCall {
        match self {
            Geometry::Segment { start, end, cap } => RenderCall::Line { start, end, cap },
            Geometry::Quad { size, corner_radii } => RenderCall::Rect { size, corner_radii },
            Geometry::Sector { radius, start_angle, sweep, cap } => {
                if sweep@ >= TAU || sweep@ <= -TAU {
                    RenderCall::Circle { radius }
                } else {
                    RenderCall::Arc {
                        radius,
                        start_angle: arc_span(start_angle, sweep).0,
                        end_angle: arc_span(start_angle, sweep).1,
                        cap,
                    }
                }
            },
            Geometry::Polygon(polygon) => RenderCall::Ngon {
                sides: polygon.sides,
                radius: polygon.radius,
                roundness: polygon.corner_radius,
            },
        }
    }

    /// The call that draws this geometry. A sector that closes the circle
    /// is a circle; any other is the arc between its two angles, the
    /// smaller first, whichever way it was swept. A polygon hands on the
    /// radius that its corners are rounded with.
    #[verifier::when_used_as_spec(spec_render_call)]
    pub fn render_call(self) -> (call: RenderCall)
        ensures
            call == self.spec_render_call(),
            call matches RenderCall::Arc { start_angle, end_angle, .. } ==> start_angle@
                <= end_angle@,
    {
        match self {
            Geometry::Segment { start, end, cap } => RenderCall::Line { start, end, cap },
            Geometry::Quad { size, corner_radii } => RenderCall::Rect { size, corner_radii },
            Geometry::Sector { radius, start_angle, sweep, cap } => {
                if sweep.raw >= TAU || sweep.raw <= -TAU {
                    RenderCall::Circle { radius }
                } else {
                    let (from, to) = arc_span(start_angle, sweep);
                    RenderCall::Arc { radius, start_angle: from, end_angle: to, cap }
                }
            },
            Geometry::Polygon(polygon) => RenderCall::Ngon {
                sides: polygon.sides,
                radius: polygon.radius,
                roundness: polygon.corner_radius,
            },
        }
    }
}

impl Polygon {
    /// The angle, clockwise from the top, at which corner `k` stands.
    pub open spec fn vertex_angle(self, k: i32) -> Fixed {
        self.central_angle.times(Fixed::from_int(k))
    }

    pub open spec fn spec_vertex(self, k: i32) -> Vec2 {
        let angle = self.vertex_angle(k);
        Vec2 { x: self.radius.times(angle.sin()), y: self.radius.times(angle.cos()) }
    }

    /// The tip of corner `k`, counted clockwise from the top.
    #[verifier::when_used_as_spec(spec_vertex)]
    pub fn vertex(self, k: i32) -> (v: Vec2)
        ensures
            v == self.spec_vertex(k),
    {
        let angle = self.central_angle.times(Fixed::from_int(k));
        Vec2 { x: self.radius.times(angle.sin()), y: self.radius.times(angle.cos()) }
    }
}

pub open spec fn spec_geometry(style: Style, request: ShapeRequest) -> Option<Geometry> {
    match request {
        ShapeRequest::Line { start, end } => Some(line_geometry(style, start, end)),
        ShapeRequest::Rect { size } => rect_geometry(style, size),
        ShapeRequest::Circle { radius } => circle_geometry(style, radius),
        ShapeRequest::Arc { radius, start_angle, end_angle } => arc_geometry(
            style,
            radius,
            start_angle,
            end_angle,
        ),
        ShapeRequest::Ngon { sides, radius } => ngon_geometry(style, sides, radius),
    }
}

pub open spec fn spec_generate(transform: Transform, style: Style, request: ShapeRequest)
    -> Option<DrawCommand> {
    match spec_geometry(style, request) {
        Some(geometry) => Some(
            DrawCommand {
                transform,
                color: style.color,
                thickness: style.stroke(),
                hollow: request is Line || style.hollow,
                geometry,
            },
        ),
        None => None,
    }
}

/// Whatever is generated is well-formed.
pub proof fn lemma_generate_well_formed(transform: Transform, style: Style, request: ShapeRequest)
    ensures
        spec_generate(transform, style, request).is_some() ==> spec_generate(
            transform,
            style,
            request,
        ).unwrap().well_formed(),
{
    match request {
        ShapeRequest::Line { start, end } => {},
        ShapeRequest::Rect { size } => {
            if size.x@ > 0 && size.y@ > 0 {
                let shorter = size.x.smaller(size.y)@;
                let limit = size.x.smaller(size.y).over(Fixed::from_int(2));
                assert(limit@ == shorter * 1_000_000 / 2_000_000);
            }
        },
        ShapeRequest::Circle { radius } => {},
        ShapeRequest::Arc { radius, start_angle, end_angle } => {},
        ShapeRequest::Ngon { sides, radius } => {
            if sides@ >= 3 * UNIT && radius@ > 0 {
                lemma_polygon_measures(style, sides, radius);
            }
        },
    }
}

/// Generates the draw command for `request` under the given transform and
/// style, or nothing where the request is degenerate. A line is always
/// an outline.
#[verifier::when_used_as_spec(spec_generate)]
pub fn generate(transform: Transform, style: Style, request: ShapeRequest) -> (out: Option<
    DrawCommand,
>)
    ensures
        out == spec_generate(transform, style, request),
        out.is_some() ==> out.unwrap().well_formed(),
{
    let (geometry, stroked) = match request {
        ShapeRequest::Line { start, end } => (Some(line_geometry(style, start, end)), true),
        ShapeRequest::Rect { size } => (rect_geometry(style, size), style.hollow),
        ShapeRequest::Circle { radius } => (circle_geometry(style, radius), style.hollow),
        ShapeRequest::Arc { radius, start_angle, end_angle } => (
            arc_geometry(style, radius, start_angle, end_angle),
            style.hollow,
        ),
        ShapeRequest::Ngon { sides, radius } => (ngon_geometry(style, sides, radius), style.hollow),
    };
    match geometry {
        Some(geometry) => Some(
            DrawCommand {
                transform,
                color: style.color,
                thickness: style.stroke(),
                hollow: stroked,
                geometry,
            },
        ),
        None => None,
    }
}

} // verus!
