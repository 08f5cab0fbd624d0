use crate::fixed::{Fixed, UNIT};
use crate::traits::{Coordinate, Draw, Position};
use crate::unit::player::Player;
use crate::unit::point2d::Point2d;
use rand::rngs::ThreadRng;
use std::ops::Range;
use vstd::prelude::*;
use vstd::string::StringExecFns;

verus! {

/// What an enemy is made of: the view that its contracts speak of.
pub struct EnemyState {
    pub position: Point2d<Fixed>,
    pub speed: Fixed,
}

impl EnemyState {
    /// Where one step toward `target` leads: the unit vector from the
    /// position to the target, scaled by the speed, added to the position.
    pub open spec fn toward(self, target: Point2d<Fixed>) -> Point2d<Fixed> {
        self.position.plus(target.minus(self.position).normalize().scaled(self.speed))
    }

    /// An enemy that has reached its target stays where it is.
    pub proof fn lemma_rest_at_the_target(self)
        ensures
            self.toward(self.position) == self.position,
    {
        let none = self.position.minus(self.position);
        assert(none.x.raw == 0 && none.y.raw == 0);
        assert(none.normalize() == none);
        assert(none.x.raw * self.speed.raw == 0 && none.y.raw * self.speed.raw == 0)
            by (nonlinear_arith)
            requires
                none.x.raw == 0,
                none.y.raw == 0,
        ;
        assert(crate::fixed::round_div(0, UNIT as int) == 0) by (nonlinear_arith)
            requires
                UNIT == 10_000,
        ;
        let step = none.scaled(self.speed);
        assert(step.x.raw == 0 && step.y.raw == 0);
    }
}

/// A unit that runs after the player at a speed of its own.
pub struct Enemy {
    position: Point2d<Fixed>,
    speed: Fixed,
}

impl View for Enemy {
    type V = EnemyState;

    closed spec fn view(&self) -> EnemyState {
        EnemyState { position: self.position, speed: self.speed }
    }
}

impl Default for Enemy {
    /// An enemy at rest at the origin.
    fn default() -> (enemy: Self)
        ensures
            enemy@ == (EnemyState {
                position: Point2d { x: Fixed { raw: 0 }, y: Fixed { raw: 0 } },
                speed: Fixed { raw: 0 },
            }),
    {
        Enemy::with_speed(Fixed { raw: 0 })
    }
}

impl Enemy {
    /// An enemy at the origin that covers `s` cells in one step.
    pub fn with_speed(s: Fixed) -> (enemy: Self)
        ensures
            enemy@ == (EnemyState {
                position: Point2d { x: Fixed { raw: 0 }, y: Fixed { raw: 0 } },
                speed: s,
            }),
    {
        Enemy { position: Point2d { x: Fixed { raw: 0 }, y: Fixed { raw: 0 } }, speed: s }
    }

    /// Moves one step straight toward the player. An enemy that stands where
    /// the player stands does not move.
    pub fn move_towards_player(&mut self, player: &Player)
        ensures
            final(self)@ == (EnemyState {
                position: old(self)@.toward(player@.position),
                ..old(self)@
            }),
            player@.position == old(self)@.position ==> final(self)@ == old(self)@,
    {
        proof {
            self@.lemma_rest_at_the_target();
        }
        let direction = (player.position() - self.position).normalize();
        self.position = self.position + direction * self.speed;
    }
}

impl Position<Fixed> for Enemy {
    open spec fn spec_position(&self) -> Point2d<Fixed> {
        self@.position
    }

    fn position(&self) -> (p: Point2d<Fixed>) {
        self.position
    }

    fn set_position(&mut self, position: Point2d<Fixed>)
        ensures
            final(self)@ == (EnemyState { position, ..old(self)@ }),
    {
        self.position = position;
    }

    fn set_rand_position(
        &mut self,
        rng: &mut ThreadRng,
        x_range: Range<Fixed>,
        y_range: Range<Fixed>,
    )
        ensures
            final(self)@.speed == old(self)@.speed,
    {
        let x = Fixed::sample(rng, x_range.start, x_range.end);
        let y = Fixed::sample(rng, y_range.start, y_range.end);
        self.set_position(Point2d::new(x, y));
    }
}

impl Draw<Fixed> for Enemy {
    /// A monster.
    open spec fn text(&self) -> Seq<char> {
        "👾"@
    }

    fn render(&self) -> (out: String) {
        String::from_str("👾")
    }
}

} // verus!
