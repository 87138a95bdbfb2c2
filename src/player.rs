use vstd::prelude::*;

use crate::animation::Animated;
use crate::double_jumping::DoubleJumping;
use crate::geometry::{max, min, Vector2};
use crate::ledge_grabbing::LedgeGrabbing;
use crate::aabb::AABB;
use crate::behavior::Idle;
use crate::geometry::MAX_COORD;
use crate::state::{State, StateMachine};
use crate::moving_object::{MovingObject, PLATFORM_THRESHOLD};
use crate::terrain::Terrain;

verus! {

/// What the player wants this frame. `jump`, `attack` and `slide` are
/// one-shot: the state machine clears them once read. The others hold
/// until released.
#[derive(Clone, Copy, Debug, PartialEq, Eq, Structural)]
pub struct PlayerInput {
    pub up: bool,
    pub down: bool,
    pub left: bool,
    pub right: bool,
    pub slide: bool,
    pub jump: bool,
    pub attack: bool,
}

} // verus!

verus! {

/// Downward acceleration of an airborne actor.
pub const GRAVITY: i64 = -3000;

/// Fastest an actor falls.
pub const MAX_FALLING_SPEED: i64 = -4000;

/// Upward speed given by a jump.
pub const JUMP_SPEED: i64 = 1600;

/// Fastest an actor walks.
pub const WALK_SPEED: i64 = 1100;

/// Acceleration of a walking actor.
pub const WALK_ACCEL: i64 = 700;

/// Fixed ticks after leaving the ground during which a jump press still
/// counts as the first jump.
pub const JUMP_FRAMES_THRESHOLD: i64 = 4;

impl PlayerInput {
    pub open spec fn idle() -> PlayerInput {
        PlayerInput {
            up: false,
            down: false,
            left: false,
            right: false,
            slide: false,
            jump: false,
            attack: false,
        }
    }

    /// No intent at all.
    pub fn new() -> (r: PlayerInput)
        ensures
            r == PlayerInput::idle(),
    {
        PlayerInput {
            up: false,
            down: false,
            left: false,
            right: false,
            slide: false,
            jump: false,
            attack: false,
        }
    }

    /// The input with its one-shot intents cleared.
    pub open spec fn reset(self) -> PlayerInput {
        PlayerInput { attack: false, slide: false, jump: false, ..self }
    }

    /// Clears the one-shot intents: jump, attack and slide.
    pub fn reset_actions(&mut self)
        ensures
            *final(self) == old(self).reset(),
    {
        self.attack = false;
        self.slide = false;
        self.jump = false;
    }
}

impl Default for PlayerInput {
    fn default() -> (r: PlayerInput)
        ensures
            r == PlayerInput::idle(),
    {
        PlayerInput::new()
    }
}

} // verus!

verus! {

/// The way an actor faces.
#[derive(Clone, Copy, Debug, PartialEq, Eq, Structural)]
pub enum Direction {
    Left,
    Right,
}

/// Animation cursors of an actor, one per behaviour.
#[derive(Clone, Copy, Debug, PartialEq, Eq, Structural)]
pub struct PlayerData {
    pub idle: Animated,
    pub running: Animated,
    pub jumping: Animated,
    pub attacking: Animated,
    pub sliding: Animated,
}

impl PlayerData {
    pub open spec fn wf(&self) -> bool {
        self.idle.wf() && self.running.wf() && self.jumping.wf() && self.attacking.wf()
            && self.sliding.wf()
    }

    /// Cursors for animations of the given numbers of frames.
    pub fn new(idle: usize, running: usize, jumping: usize, attacking: usize, sliding: usize) -> (r:
        PlayerData)
        requires
            idle >= 1,
            running >= 1,
            jumping >= 1,
            attacking >= 1,
            sliding >= 1,
        ensures
            r.wf(),
            r.idle == Animated::new_spec(idle),
            r.running == Animated::new_spec(running),
            r.jumping == Animated::new_spec(jumping),
            r.attacking == Animated::new_spec(attacking),
            r.sliding == Animated::new_spec(sliding),
    {
        PlayerData {
            idle: Animated::new(idle),
            running: Animated::new(running),
            jumping: Animated::new(jumping),
            attacking: Animated::new(attacking),
            sliding: Animated::new(sliding),
        }
    }
}

/// An actor: its intents, facing, body, ledge sensor, double-jump permission and
/// animation cursors.
#[derive(Clone, Copy, Debug)]
pub struct Player {
    pub data: PlayerData,
    pub input: PlayerInput,
    pub direction: Direction,
    pub mv: MovingObject,
    pub lg: LedgeGrabbing,
    pub dj: DoubleJumping,
}

/// Where an actor spawns.
pub const SPAWN_X: i64 = 300;

pub const SPAWN_Y: i64 = 800;

/// Logical width and height of an actor's box.
pub const PLAYER_WIDTH: i64 = 116;

pub const PLAYER_HEIGHT: i64 = 200;

/// Collision scale of an actor's box, in thousandths.
pub const PLAYER_SCALE_X: i64 = 700;

pub const PLAYER_SCALE_Y: i64 = 800;

impl Player {
    pub open spec fn wf(&self) -> bool {
        self.data.wf() && self.mv.wf() && self.lg.wf()
    }

    /// Facing follows the one horizontal intent held, if exactly one is.
    pub open spec fn directed(self) -> Player {
        if self.input.left != self.input.right {
            Player { direction: if self.input.left { Direction::Left } else { Direction::Right }, ..self }
        } else {
            self
        }
    }

    /// No horizontal motion.
    pub open spec fn halted(self) -> Player {
        Player {
            mv: MovingObject {
                accel: Vector2 { x: 0, ..self.mv.accel },
                velocity: Vector2 { x: 0, ..self.mv.velocity },
                ..self.mv
            },
            ..self
        }
    }

    /// Walking the way the actor faces: halted against a wall that way;
    /// otherwise accelerating that way with the speed that way held between
    /// half the walking speed and the walking speed.
    pub open spec fn moved(self) -> Player {
        match self.direction {
            Direction::Left => if self.mv.pushes_left_wall {
                self.halted()
            } else {
                Player {
                    mv: MovingObject {
                        accel: Vector2 { x: (-WALK_ACCEL) as i64, ..self.mv.accel },
                        velocity: Vector2 {
                            x: max(min(-WALK_SPEED / 2, self.mv.velocity.x as int), -WALK_SPEED as int) as i64,
                            ..self.mv.velocity
                        },
                        ..self.mv
                    },
                    ..self
                }
            },
            Direction::Right => if self.mv.pushes_right_wall {
                self.halted()
            } else {
                Player {
                    mv: MovingObject {
                        accel: Vector2 { x: WALK_ACCEL, ..self.mv.accel },
                        velocity: Vector2 {
                            x: min(max(WALK_SPEED / 2, self.mv.velocity.x as int), WALK_SPEED as int) as i64,
                            ..self.mv.velocity
                        },
                        ..self.mv
                    },
                    ..self
                }
            },
        }
    }

    /// Braking. Fast: a strong acceleration against the motion, or a stop
    /// once slower than half the walking acceleration. Otherwise an
    /// acceleration of a third of the speed against it.
    pub open spec fn slowed(self, fast: bool) -> Player {
        let vx = self.mv.velocity.x as int;
        if fast && -WALK_ACCEL / 2 <= vx <= WALK_ACCEL / 2 {
            self.halted()
        } else {
            let ax = if !fast {
                -third_toward_zero(vx)
            } else if vx > WALK_ACCEL / 2 {
                -WALK_ACCEL * 5
            } else {
                WALK_ACCEL * 5
            };
            Player { mv: MovingObject { accel: Vector2 { x: ax as i64, ..self.mv.accel }, ..self.mv }, ..self }
        }
    }

    /// The actor with upward jump speed.
    pub open spec fn jumped(self) -> Player {
        Player {
            mv: MovingObject { velocity: Vector2 { y: JUMP_SPEED, ..self.mv.velocity }, ..self.mv },
            ..self
        }
    }

    /// The actor moved down by twice `PLATFORM_THRESHOLD`, enough to leave
    /// a one-way platform (held within the world's bound).
    pub open spec fn lowered(self) -> Player {
        Player {
            mv: MovingObject {
                position: Vector2 {
                    y: max(self.mv.position.y - 2 * PLATFORM_THRESHOLD, -MAX_COORD as int) as i64,
                    ..self.mv.position
                },
                ..self.mv
            },
            ..self
        }
    }

    /// The actor with its one-shot intents cleared.
    pub open spec fn consumed_input(self) -> Player {
        Player { input: self.input.reset(), ..self }
    }

    /// The actor after one physics step.
    pub open spec fn simulated(self, dt: int, t: &Terrain) -> Player {
        Player { mv: self.mv.stepped(dt, t), ..self }
    }

    /// An actor at the spawn point, facing right with no intent, and its
    /// state machine started in `Idle`.
    pub fn new(data: PlayerData) -> (r: (Player, StateMachine))
        requires
            data.wf(),
        ensures
            r.0.wf(),
            r.1.wf(),
            r.1.running,
            r.1.state_stack@ == seq![State::Idle(Idle)],
            r.0.input == PlayerInput::idle(),
            r.0.direction == Direction::Right,
            r.0.mv == MovingObject::at_rest(
                Vector2::new_spec(SPAWN_X, SPAWN_Y),
                AABB::from_full(
                    Vector2::new_spec(SPAWN_X, SPAWN_Y),
                    Vector2::new_spec(PLAYER_WIDTH, PLAYER_HEIGHT),
                    Vector2::new_spec(PLAYER_SCALE_X, PLAYER_SCALE_Y),
                ),
            ),
            r.0.lg.ledge_tile == (0i64, 0i64),
            r.0.dj.available,
            r.0.data == (PlayerData { idle: data.idle.at(0), ..data }),
    {
        let spawn = Vector2 { x: SPAWN_X, y: SPAWN_Y };
        let aabb = AABB::new_full(
            spawn,
            Vector2 { x: PLAYER_WIDTH, y: PLAYER_HEIGHT },
            Vector2 { x: PLAYER_SCALE_X, y: PLAYER_SCALE_Y },
        );
        let mut p = Player {
            data,
            input: PlayerInput::new(),
            direction: Direction::Right,
            mv: MovingObject::new(spawn, aabb),
            lg: LedgeGrabbing::new(),
            dj: DoubleJumping::new(),
        };
        let mut sm = StateMachine::new(State::Idle(Idle));
        sm.start(&mut p);
        (p, sm)
    }

    pub fn jump(&mut self)
        requires
            old(self).wf(),
        ensures
            *final(self) == old(self).jumped(),
            final(self).wf(),
    {
        self.mv.velocity.y = JUMP_SPEED;
    }

    /// Drops the actor through the one-way platform it stands on.
    pub fn drop_down(&mut self)
        requires
            old(self).wf(),
        ensures
            *final(self) == old(self).lowered(),
            final(self).wf(),
    {
        let y = self.mv.position.y;
        self.mv.position.y = if y - 2 * PLATFORM_THRESHOLD >= -MAX_COORD {
            y - 2 * PLATFORM_THRESHOLD
        } else {
            -MAX_COORD
        };
    }

    pub fn direct(&mut self)
        ensures
            *final(self) == old(self).directed(),
    {
        if self.input.left != self.input.right {
            if self.input.left {
                self.direction = Direction::Left;
            } else {
                self.direction = Direction::Right;
            }
        }
    }

    pub fn movement(&mut self)
        requires
            old(self).wf(),
        ensures
            *final(self) == old(self).moved(),
            final(self).wf(),
    {
        match self.direction {
            Direction::Left => {
                if self.mv.pushes_left_wall {
                    self.stop();
                } else {
                    self.mv.accel.x = -WALK_ACCEL;
                    let v = self.mv.velocity.x;
                    let capped = if v < -WALK_SPEED / 2 { v } else { -WALK_SPEED / 2 };
                    self.mv.velocity.x = if capped > -WALK_SPEED { capped } else { -WALK_SPEED };
                }
            },
            Direction::Right => {
                if self.mv.pushes_right_wall {
                    self.stop();
                } else {
                    self.mv.accel.x = WALK_ACCEL;
                    let v = self.mv.velocity.x;
                    let floor = if v > WALK_SPEED / 2 { v } else { WALK_SPEED / 2 };
                    self.mv.velocity.x = if floor < WALK_SPEED { floor } else { WALK_SPEED };
                }
            },
        }
    }

    pub fn stop(&mut self)
        requires
            old(self).wf(),
        ensures
            *final(self) == old(self).halted(),
            final(self).wf(),
    {
        self.mv.accel.x = 0;
        self.mv.velocity.x = 0;
    }

    pub fn slow_down(&mut self, fast: bool)
        requires
            old(self).wf(),
        ensures
            *final(self) == old(self).slowed(fast),
            final(self).wf(),
    {
        let vx = self.mv.velocity.x;
        if fast {
            if vx > WALK_ACCEL / 2 {
                self.mv.accel.x = -WALK_ACCEL * 5;
            } else if vx < -WALK_ACCEL / 2 {
                self.mv.accel.x = WALK_ACCEL * 5;
            } else {
                self.stop();
            }
        } else {
            let third = if vx >= 0 { vx / 3 } else { -((-vx) / 3) };
            self.mv.accel.x = -third;
        }
    }
}

/// A third of `v`, rounded toward zero.
pub open spec fn third_toward_zero(v: int) -> int {
    if v >= 0 { v / 3 } else { -((-v) / 3) }
}

} // verus!
