use crate::text::{decimal, fixed_text, push_decimal, push_fixed};
use crate::traits::{Coordinate, Draw, Position};
use crate::unit::player::{Player, PlayerState};
use crate::unit::point2d::Point2d;
use rand::rngs::ThreadRng;
use std::ops::Range;
use vstd::prelude::*;
use vstd::string::StringExecFns;

verus! {

/// What a display shows and where it is pinned: the view that its contracts
/// speak of, with the player seen by its own view.
pub struct HudState {
    pub score: u32,
    pub player: PlayerState,
    pub position: Point2d<u16>,
}

/// The line that reports the score and how the player fares. It looks at the
/// player and owns nothing of it.
pub struct Hud<'a> {
    score: u32,
    player: &'a Player,
    position: Point2d<u16>,
}

impl<'a> View for Hud<'a> {
    type V = HudState;

    closed spec fn view(&self) -> HudState {
        HudState { score: self.score, player: self.player@, position: self.position }
    }
}

impl<'a> Hud<'a> {
    /// A display of `score` and of `player`, pinned to the start of the row
    /// `y_position`.
    pub fn new(score: u32, player: &'a Player, y_position: u16) -> (hud: Self)
        ensures
            hud@ == (HudState {
                score,
                player: player@,
                position: Point2d { x: 0u16, y: y_position },
            }),
    {
        Hud { score, player, position: Point2d { x: 0, y: y_position } }
    }
}

impl<'a> Position<u16> for Hud<'a> {
    open spec fn spec_position(&self) -> Point2d<u16> {
        self@.position
    }

    fn position(&self) -> (p: Point2d<u16>) {
        self.position
    }

    fn set_position(&mut self, position: Point2d<u16>)
        ensures
            final(self)@ == (HudState { position, ..old(self)@ }),
    {
        self.position = position;
    }

    fn set_rand_position(&mut self, rng: &mut ThreadRng, x_range: Range<u16>, y_range: Range<u16>)
        ensures
            final(self)@ == (HudState { position: final(self)@.position, ..old(self)@ }),
    {
        let x = u16::sample(rng, x_range.start, x_range.end);
        let y = u16::sample(rng, y_range.start, y_range.end);
        self.set_position(Point2d::new(x, y));
    }
}

impl<'a> Draw<u16> for Hud<'a> {
    /// The score, the player's health and the player's speed, each after its
    /// label.
    open spec fn text(&self) -> Seq<char> {
        "Score: "@ + decimal(self@.score as nat) + " Health: "@ + decimal(
            self@.player.health as nat,
        ) + " Speed: "@ + fixed_text(self@.player.speed.raw as int)
    }

    fn render(&self) -> (out: String) {
        let mut out = String::from_str("Score: ");
        push_decimal(&mut out, self.score as u64);
        out.append(" Health: ");
        push_decimal(&mut out, self.player.health() as u64);
        out.append(" Speed: ");
        push_fixed(&mut out, self.player.speed());
        out
    }
}

} // verus!
