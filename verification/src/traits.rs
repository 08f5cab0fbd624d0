use crate::fixed::Fixed;
use crate::random::gen_range;
use crate::text::{decimal, fixed_text, push_decimal, push_fixed};
use crate::unit::point2d::Point2d;
use rand::rngs::ThreadRng;
use std::ops::Range;
use vstd::prelude::*;

verus! {

/// A scalar that can be the coordinate of a unit: it has a place on the
/// number line, can be drawn at random from a range, and can be written out.
pub trait Coordinate: Copy {
    /// The number that the coordinate stands for; coordinates are ordered by
    /// it.
    spec fn value(self) -> int;

    /// The coordinate written out.
    spec fn text(self) -> Seq<char>;

    /// A coordinate drawn from the half-open range from `low` to `high`.
    fn sample(rng: &mut ThreadRng, low: Self, high: Self) -> (drawn: Self)
        requires
            low.value() < high.value(),
        ensures
            low.value() <= drawn.value() < high.value(),
    ;

    /// The coordinate as text.
    fn render(self) -> (out: String)
        ensures
            out@ == self.text(),
    ;
}

impl Coordinate for u16 {
    open spec fn value(self) -> int {
        self as int
    }

    open spec fn text(self) -> Seq<char> {
        decimal(self as nat)
    }

    fn sample(rng: &mut ThreadRng, low: u16, high: u16) -> (drawn: u16) {
        gen_range(rng, low as i64, high as i64) as u16
    }

    fn render(self) -> (out: String) {
        let mut out = String::new();
        push_decimal(&mut out, self as u64);
        out
    }
}

impl Coordinate for Fixed {
    open spec fn value(self) -> int {
        self.raw as int
    }

    open spec fn text(self) -> Seq<char> {
        fixed_text(self.raw as int)
    }

    fn sample(rng: &mut ThreadRng, low: Fixed, high: Fixed) -> (drawn: Fixed) {
        Fixed { raw: gen_range(rng, low.raw as i64, high.raw as i64) as i32 }
    }

    fn render(self) -> (out: String) {
        let mut out = String::new();
        push_fixed(&mut out, self);
        out
    }
}

/// A unit that stands at a point and can be put elsewhere.
pub trait Position<T: Coordinate> {
    /// Where the unit stands.
    spec fn spec_position(&self) -> Point2d<T>;

    /// Where the unit stands.
    fn position(&self) -> (p: Point2d<T>)
        ensures
            p == self.spec_position(),
    ;

    /// Puts the unit at `position`.
    fn set_position(&mut self, position: Point2d<T>)
        ensures
            final(self).spec_position() == position,
    ;

    /// Puts the unit at a point drawn at random, `x` from `x_range` and `y`
    /// from `y_range`, each taken as half-open.
    fn set_rand_position(&mut self, rng: &mut ThreadRng, x_range: Range<T>, y_range: Range<T>)
        requires
            x_range.start.value() < x_range.end.value(),
            y_range.start.value() < y_range.end.value(),
        ensures
            x_range.start.value() <= final(self).spec_position().x.value() < x_range.end.value(),
            y_range.start.value() <= final(self).spec_position().y.value() < y_range.end.value(),
    ;
}

/// A unit that can be shown: it stands somewhere and has a text that is drawn
/// there.
pub trait Draw<T: Coordinate>: Position<T> {
    /// What is drawn for the unit.
    spec fn text(&self) -> Seq<char>;

    /// What is drawn for the unit.
    fn render(&self) -> (out: String)
        ensures
            out@ == self.text(),
    ;
}

} // verus!
