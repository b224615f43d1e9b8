//! The rectangle builder and the choice of its tessellation path.
use vstd::prelude::*;
use notan_graphics::color::Color;
use notan_graphics::pipeline::BlendMode;
use notan_math::Mat3;

verus! {

/// Whether a shape is filled or outlined.
#[derive(Clone, Copy, Debug, PartialEq, Eq, Structural)]
pub enum TessMode {
    Fill,
    Stroke,
}

/// The values that a new builder starts from.
pub struct Defaults<N> {
    /// The radius of a square corner.
    pub zero: N,
    /// The initial stroke width and alpha multiplier.
    pub one: N,
    /// The initial curve-flattening tolerance.
    pub tolerance: N,
    /// The initial color of all four corners (white, by convention).
    pub color: Color,
}

/// A rectangle under construction.
///
/// `N` is the scalar type of positions, lengths, radii and the alpha
/// multiplier.
pub struct Rectangle<N> {
    pub(crate) colors: [Color; 4],
    pub(crate) pos: (N, N),
    pub(crate) size: (N, N),
    pub(crate) mode: TessMode,
    pub(crate) stroke_width: N,
    pub(crate) alpha: N,
    pub(crate) matrix: Option<Mat3>,
    pub(crate) rounded_corners: Option<[N; 4]>,
    pub(crate) corner_tolerance: N,
    pub(crate) blend_mode: Option<BlendMode>,
    pub(crate) zero: N,
}

/// The tessellation work that a finished rectangle asks for.
pub enum Tessellation<N> {
    /// Two triangles over the four corners, each corner with its own color.
    Quad { x: N, y: N, width: N, height: N, colors: [Color; 4] },
    /// The filled interior of a rounded rectangle, in one color.
    RoundedFill { x: N, y: N, width: N, height: N, radii: [N; 4], tolerance: N, color: Color },
    /// The outline of a rectangle, rounded when `radii` is set, in one color.
    Stroke {
        x: N,
        y: N,
        width: N,
        height: N,
        corners: Option<[N; 4]>,
        line_width: N,
        tolerance: N,
        color: Color,
    },
}

/// A finished shape: what to tessellate and how to draw the result.
pub struct DrawJob<N> {
    pub tessellation: Tessellation<N>,
    /// The multiplier for the alpha of every emitted vertex color.
    pub alpha: N,
    pub transform: Option<Mat3>,
    pub blend_mode: Option<BlendMode>,
}

/// The tessellation that a rectangle in state `v` asks for.
pub open spec fn tessellation_of<N>(v: RectangleView<N>) -> Tessellation<N> {
    match v.mode {
        TessMode::Fill => match v.rounded_corners {
            Some(radii) => Tessellation::RoundedFill {
                x: v.pos.0,
                y: v.pos.1,
                width: v.size.0,
                height: v.size.1,
                radii,
                tolerance: v.corner_tolerance,
                color: v.colors[0],
            },
            None => Tessellation::Quad {
                x: v.pos.0,
                y: v.pos.1,
                width: v.size.0,
                height: v.size.1,
                colors: v.colors,
            },
        },
        TessMode::Stroke => Tessellation::Stroke {
            x: v.pos.0,
            y: v.pos.1,
            width: v.size.0,
            height: v.size.1,
            corners: v.rounded_corners,
            line_width: v.stroke_width,
            tolerance: v.corner_tolerance,
            color: v.colors[0],
        },
    }
}

/// The job that a rectangle in state `v` finishes into.
pub open spec fn job_of<N>(v: RectangleView<N>) -> DrawJob<N> {
    DrawJob {
        tessellation: tessellation_of(v),
        alpha: v.alpha,
        transform: v.matrix,
        blend_mode: v.blend_mode,
    }
}

/// The corner radii after one corner is set: the current radii, or all
/// square corners when none were set, with entry `index` replaced.
pub open spec fn with_corner<N>(current: Option<[N; 4]>, zero: N, index: int, radius: N) -> [N; 4] {
    let base = match current {
        Some(c) => c,
        None => [zero, zero, zero, zero],
    };
    let s = base@.update(index, radius);
    [s[0], s[1], s[2], s[3]]
}

/// The state of a [`Rectangle`], as the contracts speak of it.
pub struct RectangleView<N> {
    pub colors: [Color; 4],
    pub pos: (N, N),
    pub size: (N, N),
    pub mode: TessMode,
    pub stroke_width: N,
    pub alpha: N,
    pub matrix: Option<Mat3>,
    pub rounded_corners: Option<[N; 4]>,
    pub corner_tolerance: N,
    pub blend_mode: Option<BlendMode>,
    pub zero: N,
}

impl<N> View for Rectangle<N> {
    type V = RectangleView<N>;

    closed spec fn view(&self) -> RectangleView<N> {
        RectangleView {
            colors: self.colors,
            pos: self.pos,
            size: self.size,
            mode: self.mode,
            stroke_width: self.stroke_width,
            alpha: self.alpha,
            matrix: self.matrix,
            rounded_corners: self.rounded_corners,
            corner_tolerance: self.corner_tolerance,
            blend_mode: self.blend_mode,
            zero: self.zero,
        }
    }
}

impl<N: Copy> Rectangle<N> {
    /// A filled rectangle at `position` of `size`, with all four corners in
    /// the default color, the alpha multiplier and stroke width at one,
    /// square corners, no transform and no blend mode of its own.
    pub fn new(position: (N, N), size: (N, N), defaults: Defaults<N>) -> (r: Self)
        ensures
            r@.colors == [defaults.color, defaults.color, defaults.color, defaults.color],
            r@.pos == position,
            r@.size == size,
            r@.mode == TessMode::Fill,
            r@.stroke_width == defaults.one,
            r@.alpha == defaults.one,
            r@.matrix.is_none(),
            r@.rounded_corners.is_none(),
            r@.corner_tolerance == defaults.tolerance,
            r@.blend_mode.is_none(),
            r@.zero == defaults.zero,
    {
        let w = defaults.color;
        Rectangle {
            colors: [w, w, w, w],
            pos: position,
            size,
            mode: TessMode::Fill,
            stroke_width: defaults.one,
            alpha: defaults.one,
            matrix: None,
            rounded_corners: None,
            corner_tolerance: defaults.tolerance,
            blend_mode: None,
            zero: defaults.zero,
        }
    }

    /// Rounds all four corners with `radius`.
    pub fn corner_radius(&mut self, radius: N) -> (r: &mut Self)
        ensures
            r@ == (RectangleView { rounded_corners: Some([radius, radius, radius, radius]), ..old(self)@ }),
            final(self)@ == final(r)@,
    {
        self.rounded_corners = Some([radius, radius, radius, radius]);
        self
    }

    /// Sets the curve-flattening tolerance of rounded corners.
    pub fn corner_tolerance(&mut self, tolerance: N) -> (r: &mut Self)
        ensures
            r@ == (RectangleView { corner_tolerance: tolerance, ..old(self)@ }),
            final(self)@ == final(r)@,
    {
        self.corner_tolerance = tolerance;
        self
    }

    /// Sets the radius of one corner (0 top-left, 1 top-right, 2 bottom-left,
    /// 3 bottom-right) and keeps the others; corners never set stay square.
    fn set_corner(&mut self, index: usize, radius: N)
        requires
            index < 4,
        ensures
            final(self)@ == (RectangleView {
                rounded_corners: Some(with_corner(old(self)@.rounded_corners, old(self)@.zero, index as int, radius)),
                ..old(self)@
            }),
    {
        let z = self.zero;
        let mut corners: [N; 4] = match self.rounded_corners {
            Some(c) => c,
            None => [z, z, z, z],
        };
        if index == 0 {
            corners = [radius, corners[1], corners[2], corners[3]];
        } else if index == 1 {
            corners = [corners[0], radius, corners[2], corners[3]];
        } else if index == 2 {
            corners = [corners[0], corners[1], radius, corners[3]];
        } else {
            corners = [corners[0], corners[1], corners[2], radius];
        }
        proof {
            let w = with_corner(old(self)@.rounded_corners, old(self)@.zero, index as int, radius);
            assert(corners@ =~= w@);
        }
        self.rounded_corners = Some(corners);
    }

    /// Sets the radius of the top-left corner.
    pub fn top_left_radius(&mut self, radius: N) -> (r: &mut Self)
        ensures
            r@ == (RectangleView {
                rounded_corners: Some(with_corner(old(self)@.rounded_corners, old(self)@.zero, 0, radius)),
                ..old(self)@
            }),
            final(self)@ == final(r)@,
    {
        self.set_corner(0, radius);
        self
    }

    /// Sets the radius of the top-right corner.
    pub fn top_right_radius(&mut self, radius: N) -> (r: &mut Self)
        ensures
            r@ == (RectangleView {
                rounded_corners: Some(with_corner(old(self)@.rounded_corners, old(self)@.zero, 1, radius)),
                ..old(self)@
            }),
            final(self)@ == final(r)@,
    {
        self.set_corner(1, radius);
        self
    }

    /// Sets the radius of the bottom-left corner.
    pub fn bottom_left_radius(&mut self, radius: N) -> (r: &mut Self)
        ensures
            r@ == (RectangleView {
                rounded_corners: Some(with_corner(old(self)@.rounded_corners, old(self)@.zero, 2, radius)),
                ..old(self)@
            }),
            final(self)@ == final(r)@,
    {
        self.set_corner(2, radius);
        self
    }

    /// Sets the radius of the bottom-right corner.
    pub fn bottom_right_radius(&mut self, radius: N) -> (r: &mut Self)
        ensures
            r@ == (RectangleView {
                rounded_corners: Some(with_corner(old(self)@.rounded_corners, old(self)@.zero, 3, radius)),
                ..old(self)@
            }),
            final(self)@ == final(r)@,
    {
        self.set_corner(3, radius);
        self
    }

    /// Paints all four corners with `color`.
    pub fn color(&mut self, color: Color) -> (r: &mut Self)
        ensures
            r@ == (RectangleView { colors: [color, color, color, color], ..old(self)@ }),
            final(self)@ == final(r)@,
    {
        self.colors = [color, color, color, color];
        self
    }

    /// Paints each corner with its own color, in the order of the quad's
    /// vertices `(x1, y1)`, `(x1, y2)`, `(x2, y2)`, `(x2, y1)`.
    pub fn color_vertex(&mut self, a: Color, b: Color, c: Color, d: Color) -> (r: &mut Self)
        ensures
            r@ == (RectangleView { colors: [a, b, c, d], ..old(self)@ }),
            final(self)@ == final(r)@,
    {
        self.colors = [a, b, c, d];
        self
    }

    /// Sets the multiplier applied to the alpha of every corner color.
    pub fn alpha(&mut self, alpha: N) -> (r: &mut Self)
        ensures
            r@ == (RectangleView { alpha, ..old(self)@ }),
            final(self)@ == final(r)@,
    {
        self.alpha = alpha;
        self
    }

    /// Fills the rectangle.
    pub fn fill(&mut self) -> (r: &mut Self)
        ensures
            r@ == (RectangleView { mode: TessMode::Fill, ..old(self)@ }),
            final(self)@ == final(r)@,
    {
        self.mode = TessMode::Fill;
        self
    }

    /// Outlines the rectangle with a line of `width`.
    pub fn stroke(&mut self, width: N) -> (r: &mut Self)
        ensures
            r@ == (RectangleView { mode: TessMode::Stroke, stroke_width: width, ..old(self)@ }),
            final(self)@ == final(r)@,
    {
        self.mode = TessMode::Stroke;
        self.stroke_width = width;
        self
    }

    /// Overrides the blend mode of the drawing target for this shape.
    pub fn blend_mode(&mut self, mode: BlendMode) -> (r: &mut Self)
        ensures
            r@ == (RectangleView { blend_mode: Some(mode), ..old(self)@ }),
            final(self)@ == final(r)@,
    {
        self.blend_mode = Some(mode);
        self
    }

    /// The transform of the shape, to be read or replaced.
    pub fn matrix(&mut self) -> (r: &mut Option<Mat3>)
        ensures
            *r == old(self)@.matrix,
            final(self)@ == (RectangleView { matrix: *final(r), ..old(self)@ }),
    {
        &mut self.matrix
    }

    /// Finishes the rectangle: a filled one with rounded corners goes through
    /// the general fill, one without through the quad, and an outlined one
    /// through the stroke with the first corner's color.
    pub fn draw_process(self) -> (r: DrawJob<N>)
        ensures
            r == job_of(self@),
    {
        let tessellation = match self.mode {
            TessMode::Fill => match self.rounded_corners {
                Some(radii) => Tessellation::RoundedFill {
                    x: self.pos.0,
                    y: self.pos.1,
                    width: self.size.0,
                    height: self.size.1,
                    radii,
                    tolerance: self.corner_tolerance,
                    color: self.colors[0],
                },
                None => Tessellation::Quad {
                    x: self.pos.0,
                    y: self.pos.1,
                    width: self.size.0,
                    height: self.size.1,
                    colors: self.colors,
                },
            },
            TessMode::Stroke => Tessellation::Stroke {
                x: self.pos.0,
                y: self.pos.1,
                width: self.size.0,
                height: self.size.1,
                corners: self.rounded_corners,
                line_width: self.stroke_width,
                tolerance: self.corner_tolerance,
                color: self.colors[0],
            },
        };
        DrawJob {
            tessellation,
            alpha: self.alpha,
            transform: self.matrix,
            blend_mode: self.blend_mode,
        }
    }
}

/// A filled rectangle without rounded corners finishes into the quad, with
/// the corner colors in the order they were given.
pub proof fn lemma_unrounded_fill_is_quad<N>(v: RectangleView<N>)
    requires
        v.mode == TessMode::Fill,
        v.rounded_corners.is_none(),
    ensures
        job_of(v).tessellation == (Tessellation::Quad {
            x: v.pos.0,
            y: v.pos.1,
            width: v.size.0,
            height: v.size.1,
            colors: v.colors,
        }),
{
}

/// Whatever path a rectangle finishes into, the alpha multiplier handed on
/// for its vertices is the builder's, and the base colors are its corner
/// colors unchanged: the quad takes all four, the other paths the first.
pub proof fn lemma_alpha_reaches_every_path<N>(v: RectangleView<N>)
    ensures
        job_of(v).alpha == v.alpha,
        match job_of(v).tessellation {
            Tessellation::Quad { colors, .. } => colors == v.colors,
            Tessellation::RoundedFill { color, .. } => color == v.colors[0],
            Tessellation::Stroke { color, .. } => color == v.colors[0],
        },
{
}

/// A rectangle with rounded corners never finishes into the quad, whatever
/// the radii, and a filled one goes through the rounded fill.
pub proof fn lemma_rounded_never_quad<N>(v: RectangleView<N>)
    requires
        v.rounded_corners.is_some(),
    ensures
        !(job_of(v).tessellation is Quad),
        v.mode == TessMode::Fill ==> job_of(v).tessellation is RoundedFill,
{
}

/// Setting one corner on a rectangle without rounded corners sets that
/// corner alone and leaves the other three square.
pub proof fn lemma_first_corner_written_back<N>(zero: N, index: int, radius: N)
    requires
        0 <= index < 4,
    ensures
        with_corner(None, zero, index, radius)@ == seq![zero, zero, zero, zero].update(index, radius),
{
    assert(with_corner(None, zero, index, radius)@ =~= seq![zero, zero, zero, zero].update(index, radius));
}

} // verus!
