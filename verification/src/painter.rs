//! The painter: a transform, a style, and the shapes drawn so far.
//!
//! Transform and style persist from one call to the next until they are
//! changed. Every draw call reads both as they are at that moment and
//! appends at most one command; nothing that was drawn is ever changed or
//! reordered afterwards.

use vstd::prelude::*;
use crate::color::Color;
use crate::fixed::Fixed;
use crate::shape::{
    generate, lemma_generate_well_formed, Cap, DrawCommand, ShapeRequest, Style,
};
use crate::transform::Transform;
use crate::vector::{Vec2, Vec3, Vec4};

verus! {

/// The drawing context that is handed from call to call.
pub struct Painter {
    pub transform: Transform,
    pub color: Color,
    pub thickness: Fixed,
    pub hollow: bool,
    pub cap: Cap,
    pub corner_radii: Vec4,
    pub roundness: Fixed,
    /// The commands emitted so far, oldest first.
    pub commands: Vec<DrawCommand>,
}

/// A painter as a mathematical value.
pub struct PainterState {
    pub transform: Transform,
    pub style: Style,
    pub commands: Seq<DrawCommand>,
}

impl View for Painter {
    type V = PainterState;

    open spec fn view(&self) -> PainterState {
        PainterState {
            transform: self.transform,
            style: Style {
                color: self.color,
                thickness: self.thickness,
                hollow: self.hollow,
                cap: self.cap,
                corner_radii: self.corner_radii,
                roundness: self.roundness,
            },
            commands: self.commands@,
        }
    }
}

impl PainterState {
    /// A fresh painter: identity transform, initial style, nothing drawn.
    pub open spec fn fresh() -> PainterState {
        PainterState {
            transform: Transform::identity(),
            style: Style::initial(),
            commands: Seq::empty(),
        }
    }

    pub open spec fn color(self, color: Color) -> PainterState {
        PainterState { style: Style { color, ..self.style }, ..self }
    }

    pub open spec fn thickness(self, thickness: Fixed) -> PainterState {
        PainterState { style: Style { thickness, ..self.style }, ..self }
    }

    pub open spec fn hollow(self, hollow: bool) -> PainterState {
        PainterState { style: Style { hollow, ..self.style }, ..self }
    }

    pub open spec fn cap(self, cap: Cap) -> PainterState {
        PainterState { style: Style { cap, ..self.style }, ..self }
    }

    pub open spec fn corner_radii(self, corner_radii: Vec4) -> PainterState {
        PainterState { style: Style { corner_radii, ..self.style }, ..self }
    }

    pub open spec fn roundness(self, roundness: Fixed) -> PainterState {
        PainterState { style: Style { roundness, ..self.style }, ..self }
    }

    /// The transform replaced by `transform`.
    pub open spec fn restore(self, transform: Transform) -> PainterState {
        PainterState { transform, ..self }
    }

    pub open spec fn translate(self, delta: Vec3) -> PainterState {
        PainterState { transform: self.transform.translated(delta), ..self }
    }

    pub open spec fn rotate_z(self, angle: Fixed) -> PainterState {
        PainterState { transform: self.transform.rotated_z(angle), ..self }
    }

    pub open spec fn scale(self, factor: Vec3) -> PainterState {
        PainterState { transform: self.transform.scaled(factor), ..self }
    }

    /// Every command drawn so far is well-formed.
    pub open spec fn sound(self) -> bool {
        forall|i: int| 0 <= i < self.commands.len() ==> (#[trigger] self.commands[i]).well_formed()
    }

    /// `self` may have come from `earlier` by drawing: what `earlier` had
    /// drawn still stands first, unchanged and in the same order, and
    /// every command behind it is well-formed, whatever `earlier` held.
    pub open spec fn continues(self, earlier: PainterState) -> bool {
        &&& earlier.commands.is_prefix_of(self.commands)
        &&& forall|i: int|
            earlier.commands.len() <= i < self.commands.len() ==> (
            #[trigger] self.commands[i]).well_formed()
    }

    /// `self` may have come from `earlier` by drawing at most `count`
    /// shapes.
    pub open spec fn drew_at_most(self, earlier: PainterState, count: nat) -> bool {
        self.continues(earlier) && self.commands.len() <= earlier.commands.len() + count
    }

    /// Transform and style back at their initial values; what was drawn
    /// stays.
    pub open spec fn reset(self) -> PainterState {
        PainterState {
            transform: Transform::identity(),
            style: Style::initial(),
            commands: self.commands,
        }
    }

    /// The command that `request` generates, if any, appended.
    pub open spec fn draw(self, request: ShapeRequest) -> PainterState {
        match generate(self.transform, self.style, request) {
            Some(command) => PainterState { commands: self.commands.push(command), ..self },
            None => self,
        }
    }

    pub open spec fn line(self, start: Vec3, end: Vec3) -> PainterState {
        self.draw(ShapeRequest::Line { start, end })
    }

    pub open spec fn rect(self, size: Vec2) -> PainterState {
        self.draw(ShapeRequest::Rect { size })
    }

    pub open spec fn circle(self, radius: Fixed) -> PainterState {
        self.draw(ShapeRequest::Circle { radius })
    }

    pub open spec fn arc(self, radius: Fixed, start_angle: Fixed, end_angle: Fixed)
        -> PainterState {
        self.draw(ShapeRequest::Arc { radius, start_angle, end_angle })
    }

    pub open spec fn ngon(self, sides: Fixed, radius: Fixed) -> PainterState {
        self.draw(ShapeRequest::Ngon { sides, radius })
    }
}

/// A painter that continues one whose commands were all well-formed
/// holds none but well-formed commands.
pub proof fn lemma_continues_sound(later: PainterState, earlier: PainterState)
    requires
        later.continues(earlier),
        earlier.sound(),
    ensures
        later.sound(),
{
    assert forall|i: int| 0 <= i < later.commands.len() implies (
    #[trigger] later.commands[i]).well_formed() by {
        if i < earlier.commands.len() {
            assert(earlier.commands[i].well_formed());
        }
    }
}

/// Drawing after drawing is drawing: a painter that continues one that
/// continues a third continues the third, and the counts add up.
pub proof fn lemma_drew_more(
    later: PainterState,
    middle: PainterState,
    earlier: PainterState,
    first: nat,
    second: nat,
)
    requires
        middle.drew_at_most(earlier, first),
        later.drew_at_most(middle, second),
    ensures
        later.drew_at_most(earlier, first + second),
{
    assert forall|i: int| earlier.commands.len() <= i < later.commands.len() implies (
    #[trigger] later.commands[i]).well_formed() by {
        if i < middle.commands.len() {
            assert(middle.commands[i].well_formed());
            assert(later.commands[i] == middle.commands[i]);
        }
    }
}

/// Drawing only appends, and what it appends is well-formed.
pub proof fn lemma_draw_continues(p: PainterState, request: ShapeRequest)
    ensures
        p.draw(request).continues(p),
        p.draw(request).transform == p.transform,
        p.draw(request).style == p.style,
        p.commands.len() <= p.draw(request).commands.len() <= p.commands.len() + 1,
{
    lemma_generate_well_formed(p.transform, p.style, request);
}

impl Painter {
    /// A fresh painter: identity transform, initial style, nothing drawn.
    pub fn new() -> (p: Painter)
        ensures
            p@ == PainterState::fresh(),
    {
        let style = Style::initial();
        Painter {
            transform: Transform::identity(),
            color: style.color,
            thickness: style.thickness,
            hollow: style.hollow,
            cap: style.cap,
            corner_radii: style.corner_radii,
            roundness: style.roundness,
            commands: Vec::new(),
        }
    }

    /// The current style as one value.
    pub fn style(&self) -> (s: Style)
        ensures
            s == self@.style,
    {
        Style {
            color: self.color,
            thickness: self.thickness,
            hollow: self.hollow,
            cap: self.cap,
            corner_radii: self.corner_radii,
            roundness: self.roundness,
        }
    }

    /// A copy of the current transform, to come back to with `restore`.
    pub fn snapshot(&self) -> (t: Transform)
        ensures
            t == self@.transform,
    {
        self.transform
    }

    /// Replaces the whole transform by `transform`.
    pub fn restore(&mut self, transform: Transform)
        ensures
            final(self)@ == old(self)@.restore(transform),
            final(self)@.transform == transform,
    {
        self.transform = transform;
    }

    /// Moves the painter by `delta` along its own axes.
    pub fn translate(&mut self, delta: Vec3)
        ensures
            final(self)@ == old(self)@.translate(delta),
    {
        self.transform = self.transform.translated(delta);
    }

    /// Turns the painter by `angle` radians about its own z axis.
    pub fn rotate_z(&mut self, angle: Fixed)
        ensures
            final(self)@ == old(self)@.rotate_z(angle),
    {
        self.transform = self.transform.rotated_z(angle);
    }

    /// Stretches the painter by `factor` along each of its own axes.
    pub fn scale(&mut self, factor: Vec3)
        ensures
            final(self)@ == old(self)@.scale(factor),
    {
        self.transform = self.transform.scaled(factor);
    }

    /// Puts transform and style back to their initial values, whatever
    /// they were. The commands drawn so far are kept.
    pub fn reset(&mut self)
        ensures
            final(self)@ == old(self)@.reset(),
            final(self)@.transform == Transform::identity(),
            final(self)@.style == Style::initial(),
            final(self)@.commands == old(self)@.commands,
    {
        let style = Style::initial();
        self.transform = Transform::identity();
        self.color = style.color;
        self.thickness = style.thickness;
        self.hollow = style.hollow;
        self.cap = style.cap;
        self.corner_radii = style.corner_radii;
        self.roundness = style.roundness;
    }

    /// Draws `request` with the current transform and style: appends the
    /// command it generates, or nothing where it is degenerate.
    pub fn draw(&mut self, request: ShapeRequest)
        ensures
            final(self)@ == old(self)@.draw(request),
            final(self)@.drew_at_most(old(self)@, 1),
    {
        match generate(self.transform, self.style(), request) {
            Some(command) => {
                self.commands.push(command);
            },
            None => {},
        }
        proof {
            lemma_draw_continues(old(self)@, request);
        }
    }

    /// Draws the segment from `start` to `end`.
    pub fn line(&mut self, start: Vec3, end: Vec3)
        ensures
            final(self)@ == old(self)@.line(start, end),
            final(self)@.drew_at_most(old(self)@, 1),
    {
        self.draw(ShapeRequest::Line { start, end });
    }

    /// Draws a rectangle of the given size about the painter's position.
    pub fn rect(&mut self, size: Vec2)
        ensures
            final(self)@ == old(self)@.rect(size),
            final(self)@.drew_at_most(old(self)@, 1),
    {
        self.draw(ShapeRequest::Rect { size });
    }

    /// Draws a circle or a disc of the given radius.
    pub fn circle(&mut self, radius: Fixed)
        ensures
            final(self)@ == old(self)@.circle(radius),
            final(self)@.drew_at_most(old(self)@, 1),
    {
        self.draw(ShapeRequest::Circle { radius });
    }

    /// Draws an arc or a sector from `start_angle` to `end_angle`.
    pub fn arc(&mut self, radius: Fixed, start_angle: Fixed, end_angle: Fixed)
        ensures
            final(self)@ == old(self)@.arc(radius, start_angle, end_angle),
            final(self)@.drew_at_most(old(self)@, 1),
    {
        self.draw(ShapeRequest::Arc { radius, start_angle, end_angle });
    }

    /// Draws a regular polygon with `sides` sides.
    pub fn ngon(&mut self, sides: Fixed, radius: Fixed)
        ensures
            final(self)@ == old(self)@.ngon(sides, radius),
            final(self)@.drew_at_most(old(self)@, 1),
    {
        self.draw(ShapeRequest::Ngon { sides, radius });
    }
}

} // verus!
