use crate::fixed::{Fixed, UNIT};
use crate::traits::{Coordinate, Draw, Position};
use crate::unit::direction::Direction;
use crate::unit::point2d::Point2d;
use rand::rngs::ThreadRng;
use std::ops::Range;
use vstd::prelude::*;
use vstd::string::StringExecFns;

verus! {

/// Raw amount by which one command changes the speed: a tenth of a cell per
/// step.
pub const CHANGE_IN_SPEED: i32 = 1_000;

/// The speed after a command to go faster: one [`CHANGE_IN_SPEED`] more where
/// that stays below a whole cell per step, else the speed as it was.
pub open spec fn accelerated(speed: int) -> int {
    if speed + CHANGE_IN_SPEED < UNIT {
        speed + CHANGE_IN_SPEED
    } else {
        speed
    }
}

/// The speed after a command to go slower: one [`CHANGE_IN_SPEED`] less where
/// that stays above zero, else the speed as it was.
pub open spec fn decelerated(speed: int) -> int {
    if speed - CHANGE_IN_SPEED > 0 {
        speed - CHANGE_IN_SPEED
    } else {
        speed
    }
}

/// The speed after `times` commands to go faster.
pub open spec fn accelerated_repeatedly(speed: int, times: nat) -> int
    decreases times,
{
    if times == 0 {
        speed
    } else {
        accelerated(accelerated_repeatedly(speed, (times - 1) as nat))
    }
}

/// The speed after `times` commands to go slower.
pub open spec fn decelerated_repeatedly(speed: int, times: nat) -> int
    decreases times,
{
    if times == 0 {
        speed
    } else {
        decelerated(decelerated_repeatedly(speed, (times - 1) as nat))
    }
}

/// However often the player speeds up, the speed never reaches a whole cell
/// per step: below it the speed stays below, and a speed that is not below is
/// left alone.
pub proof fn lemma_acceleration_stays_below_one(speed: int, times: nat)
    ensures
        speed < UNIT ==> accelerated_repeatedly(speed, times) < UNIT,
        speed >= UNIT ==> accelerated_repeatedly(speed, times) == speed,
        accelerated_repeatedly(speed, times) >= speed,
    decreases times,
{
    if times > 0 {
        lemma_acceleration_stays_below_one(speed, (times - 1) as nat);
    }
}

/// However often the player slows down, the speed never reaches zero: above
/// it the speed stays above, and a speed that is not above is left alone.
pub proof fn lemma_deceleration_stays_above_zero(speed: int, times: nat)
    ensures
        speed > 0 ==> decelerated_repeatedly(speed, times) > 0,
        speed <= 0 ==> decelerated_repeatedly(speed, times) == speed,
        decelerated_repeatedly(speed, times) <= speed,
    decreases times,
{
    if times > 0 {
        lemma_deceleration_stays_above_zero(speed, (times - 1) as nat);
    }
}

/// The arrow that shows a heading.
pub open spec fn arrow(heading: Direction) -> Seq<char> {
    match heading {
        Direction::NORTH => "↑"@,
        Direction::NORTHEAST => "↗"@,
        Direction::EAST => "→"@,
        Direction::SOUTHEAST => "↘"@,
        Direction::SOUTH => "↓"@,
        Direction::SOUTHWEST => "↙"@,
        Direction::WEST => "←"@,
        Direction::NORTHWEST => "↖"@,
    }
}

/// What a player is made of, and a builder while it is filled in: the view
/// that the contracts of both speak of.
pub struct PlayerState {
    pub position: Point2d<Fixed>,
    pub speed: Fixed,
    pub health: u8,
    pub direction: Direction,
}

impl PlayerState {
    /// The state that a builder starts from: at the origin, at rest, without
    /// health, facing north.
    pub open spec fn initial() -> PlayerState {
        PlayerState {
            position: Point2d { x: Fixed { raw: 0 }, y: Fixed { raw: 0 } },
            speed: Fixed { raw: 0 },
            health: 0,
            direction: Direction::NORTH,
        }
    }

    /// Where one step forward leads: the heading's vector, scaled by the
    /// speed, added to the position.
    pub open spec fn ahead(self) -> Point2d<Fixed> {
        self.position.plus(self.direction.as_coordinates().scaled(self.speed))
    }
}

/// The unit that the user steers.
pub struct Player {
    position: Point2d<Fixed>,
    speed: Fixed,
    health: u8,
    direction: Direction,
}

impl View for Player {
    type V = PlayerState;

    closed spec fn view(&self) -> PlayerState {
        PlayerState {
            position: self.position,
            speed: self.speed,
            health: self.health,
            direction: self.direction,
        }
    }
}

impl Default for Player {
    fn default() -> (player: Self)
        ensures
            player@ == PlayerState::initial(),
    {
        Player {
            position: Point2d { x: Fixed { raw: 0 }, y: Fixed { raw: 0 } },
            speed: Fixed { raw: 0 },
            health: 0,
            direction: Direction::NORTH,
        }
    }
}

impl Player {
    /// A builder in its initial state.
    pub fn builder() -> (builder: PlayerBuilder)
        ensures
            builder@ == PlayerState::initial(),
    {
        PlayerBuilder::new()
    }

    /// Whether any health is left.
    pub fn is_alive(&self) -> (alive: bool)
        ensures
            alive == (self@.health > 0),
    {
        self.health > 0
    }

    /// Takes `damage` off the health, which stops at zero.
    pub fn take_damage(&mut self, damage: u8)
        ensures
            final(self)@.health == if damage >= old(self)@.health {
                0
            } else {
                old(self)@.health - damage
            },
            final(self)@ == (PlayerState { health: final(self)@.health, ..old(self)@ }),
    {
        self.health = if damage >= self.health {
            0
        } else {
            self.health - damage
        };
    }

    /// The health that is left.
    pub fn health(&self) -> (health: u8)
        ensures
            health == self@.health,
    {
        self.health
    }

    /// The distance covered in one step, in cells.
    pub fn speed(&self) -> (speed: Fixed)
        ensures
            speed == self@.speed,
    {
        self.speed
    }

    /// The heading that the player faces.
    pub fn direction(&self) -> (direction: Direction)
        ensures
            direction == self@.direction,
    {
        self.direction
    }

    /// Goes faster by one [`CHANGE_IN_SPEED`], unless the speed would then
    /// reach a whole cell per step.
    pub fn accelerate(&mut self)
        ensures
            final(self)@.speed.raw == accelerated(old(self)@.speed.raw as int),
            final(self)@ == (PlayerState { speed: final(self)@.speed, ..old(self)@ }),
    {
        if self.speed.raw < UNIT - CHANGE_IN_SPEED {
            self.speed = Fixed { raw: self.speed.raw + CHANGE_IN_SPEED };
        }
    }

    /// Goes slower by one [`CHANGE_IN_SPEED`], unless the speed would then
    /// reach zero.
    pub fn decelerate(&mut self)
        ensures
            final(self)@.speed.raw == decelerated(old(self)@.speed.raw as int),
            final(self)@ == (PlayerState { speed: final(self)@.speed, ..old(self)@ }),
    {
        if self.speed.raw > CHANGE_IN_SPEED {
            self.speed = Fixed { raw: self.speed.raw - CHANGE_IN_SPEED };
        }
    }

    /// Moves one step the way the player faces.
    pub fn move_forward(&mut self)
        ensures
            final(self)@ == (PlayerState { position: old(self)@.ahead(), ..old(self)@ }),
    {
        self.position = self.position + self.direction.as_coordinates() * self.speed;
    }

    /// The grid cell that one step forward would lead to. The player stays
    /// where it is.
    pub fn forward_position(&self) -> (cell: Point2d<u16>)
        ensures
            cell == self@.ahead().round().to_u16(),
    {
        (self.position + self.direction.as_coordinates() * self.speed).round().to_u16()
    }

    /// Turns to the next heading counter-clockwise.
    pub fn turn_left(&mut self)
        ensures
            final(self)@ == (PlayerState {
                direction: old(self)@.direction.counterclockwise(),
                ..old(self)@
            }),
    {
        self.direction = match self.direction {
            Direction::NORTH => Direction::NORTHWEST,
            Direction::NORTHEAST => Direction::NORTH,
            Direction::EAST => Direction::NORTHEAST,
            Direction::SOUTHEAST => Direction::EAST,
            Direction::SOUTH => Direction::SOUTHEAST,
            Direction::SOUTHWEST => Direction::SOUTH,
            Direction::WEST => Direction::SOUTHWEST,
            Direction::NORTHWEST => Direction::WEST,
        };
    }

    /// Turns to the next heading clockwise.
    pub fn turn_right(&mut self)
        ensures
            final(self)@ == (PlayerState {
                direction: old(self)@.direction.clockwise(),
                ..old(self)@
            }),
    {
        self.direction = match self.direction {
            Direction::NORTH => Direction::NORTHEAST,
            Direction::NORTHEAST => Direction::EAST,
            Direction::EAST => Direction::SOUTHEAST,
            Direction::SOUTHEAST => Direction::SOUTH,
            Direction::SOUTH => Direction::SOUTHWEST,
            Direction::SOUTHWEST => Direction::WEST,
            Direction::WEST => Direction::NORTHWEST,
            Direction::NORTHWEST => Direction::NORTH,
        };
    }
}

impl Position<Fixed> for Player {
    open spec fn spec_position(&self) -> Point2d<Fixed> {
        self@.position
    }

    fn position(&self) -> (p: Point2d<Fixed>) {
        self.position
    }

    fn set_position(&mut self, position: Point2d<Fixed>)
        ensures
            final(self)@ == (PlayerState { position, ..old(self)@ }),
    {
        self.position = position;
    }

    fn set_rand_position(
        &mut self,
        rng: &mut ThreadRng,
        x_range: Range<Fixed>,
        y_range: Range<Fixed>,
    )
        ensures
            final(self)@ == (PlayerState { position: final(self)@.position, ..old(self)@ }),
    {
        let x = Fixed::sample(rng, x_range.start, x_range.end);
        let y = Fixed::sample(rng, y_range.start, y_range.end);
        self.set_position(Point2d::new(x, y));
    }
}

impl Draw<Fixed> for Player {
    /// The arrow of the heading that the player faces.
    open spec fn text(&self) -> Seq<char> {
        arrow(self@.direction)
    }

    fn render(&self) -> (out: String) {
        match self.direction {
            Direction::NORTH => String::from_str("↑"),
            Direction::NORTHEAST => String::from_str("↗"),
            Direction::EAST => String::from_str("→"),
            Direction::SOUTHEAST => String::from_str("↘"),
            Direction::SOUTH => String::from_str("↓"),
            Direction::SOUTHWEST => String::from_str("↙"),
            Direction::WEST => String::from_str("←"),
            Direction::NORTHWEST => String::from_str("↖"),
        }
    }
}

/// Collects what a [`Player`] is made of before the player is built.
pub struct PlayerBuilder {
    position: Point2d<Fixed>,
    speed: Fixed,
    health: u8,
    direction: Direction,
}

impl View for PlayerBuilder {
    type V = PlayerState;

    closed spec fn view(&self) -> PlayerState {
        PlayerState {
            position: self.position,
            speed: self.speed,
            health: self.health,
            direction: self.direction,
        }
    }
}

impl Default for PlayerBuilder {
    fn default() -> (builder: Self)
        ensures
            builder@ == PlayerState::initial(),
    {
        PlayerBuilder::new()
    }
}

impl PlayerBuilder {
    /// A builder in its initial state: at the origin, at rest, without
    /// health, facing north.
    pub fn new() -> (builder: PlayerBuilder)
        ensures
            builder@ == PlayerState::initial(),
    {
        PlayerBuilder {
            position: Point2d { x: Fixed { raw: 0 }, y: Fixed { raw: 0 } },
            speed: Fixed { raw: 0 },
            health: 0,
            direction: Direction::NORTH,
        }
    }

    /// Sets the speed.
    pub fn speed(self, s: Fixed) -> (builder: PlayerBuilder)
        ensures
            builder@ == (PlayerState { speed: s, ..self@ }),
    {
        let mut builder = self;
        builder.speed = s;
        builder
    }

    /// Sets the health.
    pub fn health(self, h: u8) -> (builder: PlayerBuilder)
        ensures
            builder@ == (PlayerState { health: h, ..self@ }),
    {
        let mut builder = self;
        builder.health = h;
        builder
    }

    /// Sets the heading to the one whose vector is `(x, y)`, or to north if
    /// there is none.
    pub fn direction(self, x: Fixed, y: Fixed) -> (builder: PlayerBuilder)
        ensures
            builder@ == (PlayerState { direction: Direction::from_xy(x, y), ..self@ }),
    {
        let mut builder = self;
        builder.direction = Direction::from_xy(x, y);
        builder
    }

    /// The player that has been described.
    pub fn build(self) -> (player: Player)
        ensures
            player@ == self@,
    {
        Player {
            position: self.position,
            speed: self.speed,
            health: self.health,
            direction: self.direction,
        }
    }
}

} // verus!
