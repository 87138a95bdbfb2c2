use vstd::prelude::*;

use crate::double_jumping::DoubleJumping;
use crate::geometry::{max, per_dt, scale_by_dt, Vector2, MAX_DT_MICROS};
use crate::moving_object::MovingObject;
use crate::player::{Player, PlayerData, PlayerInput, GRAVITY, JUMP_FRAMES_THRESHOLD, MAX_FALLING_SPEED};
use crate::state::{State, Trans};
use crate::terrain::Terrain;

verus! {

/// Standing still on the ground.
#[derive(Clone, Copy, Debug, PartialEq, Eq, Structural)]
pub struct Idle;

/// Walking on the ground.
#[derive(Clone, Copy, Debug, PartialEq, Eq, Structural)]
pub struct Running;

/// In the air, going up or falling.
#[derive(Clone, Copy, Debug, PartialEq, Eq, Structural)]
pub struct Jumping;

/// Sliding along the ground for the length of its animation.
#[derive(Clone, Copy, Debug, PartialEq, Eq, Structural)]
pub struct Sliding;

/// Attacking for the length of its animation.
#[derive(Clone, Copy, Debug, PartialEq, Eq, Structural)]
pub struct Attacking;

/// Hanging from a ledge.
#[derive(Clone, Copy, Debug, PartialEq, Eq, Structural)]
pub struct LedgeGrab;

/// Frames of the attack animation after which an attack can be cancelled.
pub const ATTACK_CANCEL_FRAME: usize = 5;

/// Fixed ticks during which input toward a released ledge is ignored.
pub const LEDGE_RELEASE_FRAMES: usize = 3;

/// The actor with its idle animation restarted and the double jump armed.
pub open spec fn idle_started(p: Player) -> Player {
    Player {
        data: PlayerData { idle: p.data.idle.at(0), ..p.data },
        dj: DoubleJumping { available: true },
        ..p
    }
}

/// What a ground state does with the intents shared by `Idle` and
/// `Running`, before the horizontal ones: leaving the ground, attack, jump,
/// and drop (through a one-way platform if standing on one).
pub open spec fn ground_intents(q: Player) -> Option<(Player, Trans)> {
    if !q.mv.on_ground {
        Some((q, Trans::Push(State::Jumping(Jumping))))
    } else if q.input.attack {
        Some((q, Trans::Push(State::Attacking(Attacking))))
    } else if q.input.jump {
        Some((q.jumped(), Trans::Push(State::Jumping(Jumping))))
    } else if q.input.down {
        Some((if q.mv.on_platform { q.lowered() } else { q }, Trans::Push(State::Jumping(Jumping))))
    } else {
        None
    }
}

fn apply_ground_intents(player: &mut Player) -> (r: Option<Trans>)
    requires
        old(player).wf(),
    ensures
        final(player).wf(),
        r is None <==> ground_intents(*old(player)) is None,
        r matches Some(t) ==> ground_intents(*old(player)) == Some((*final(player), t)),
        r is None ==> *final(player) == *old(player),
{
    if !player.mv.on_ground {
        Some(Trans::Push(State::Jumping(Jumping)))
    } else if player.input.attack {
        Some(Trans::Push(State::Attacking(Attacking)))
    } else if player.input.jump {
        player.jump();
        Some(Trans::Push(State::Jumping(Jumping)))
    } else if player.input.down {
        if player.mv.on_platform {
            player.drop_down();
        }
        Some(Trans::Push(State::Jumping(Jumping)))
    } else {
        None
    }
}

impl Idle {
    pub open spec fn events(p: Player) -> (Player, Trans) {
        let q = p.directed();
        let (r, t) = match ground_intents(q) {
            Some(x) => x,
            None => if q.input.left != q.input.right {
                (q, Trans::Push(State::Running(Running)))
            } else if q.input.slide {
                (q, Trans::Push(State::Sliding(Sliding)))
            } else {
                (q, Trans::Stay)
            },
        };
        (r.consumed_input(), t)
    }

    pub open spec fn updated(p: Player, dt: int, t: &Terrain) -> Player {
        p.slowed(true).simulated(dt, t)
    }

    pub open spec fn ticked(p: Player) -> Player {
        Player { data: PlayerData { idle: p.data.idle.rolled(), ..p.data }, ..p }
    }

    pub fn on_start(&self, player: &mut Player)
        requires
            old(player).wf(),
        ensures
            *final(player) == idle_started(*old(player)),
            final(player).wf(),
    {
        player.data.idle.reset();
        player.dj.enable();
    }

    /// Reacts to the intents: face the held way, then leave the ground,
    /// attack, jump, drop, run or slide, by priority; clears the one-shot
    /// intents.
    pub fn handle_events(&self, player: &mut Player) -> (r: Trans)
        requires
            old(player).wf(),
        ensures
            (*final(player), r) == Idle::events(*old(player)),
            final(player).wf(),
    {
        player.direct();
        let t = match apply_ground_intents(player) {
            Some(t) => t,
            None => {
                if player.input.left != player.input.right {
                    Trans::Push(State::Running(Running))
                } else if player.input.slide {
                    Trans::Push(State::Sliding(Sliding))
                } else {
                    Trans::Stay
                }
            },
        };
        player.input.reset_actions();
        t
    }

    /// Brakes hard and advances the physics.
    pub fn update(&self, player: &mut Player, dt: u64, terrain: &Terrain) -> (r: Trans)
        requires
            old(player).wf(),
            terrain.wf(),
            dt <= MAX_DT_MICROS,
        ensures
            *final(player) == Idle::updated(*old(player), dt as int, terrain),
            r == Trans::Stay,
            final(player).wf(),
    {
        player.slow_down(true);
        player.mv.update_physics(dt, terrain);
        Trans::Stay
    }

    pub fn fixed_update(&self, player: &mut Player) -> (r: Trans)
        requires
            old(player).wf(),
        ensures
            *final(player) == Idle::ticked(*old(player)),
            r == Trans::Stay,
            final(player).wf(),
    {
        player.data.idle.roll_frames();
        Trans::Stay
    }
}

impl Running {
    pub open spec fn started(p: Player) -> Player {
        Player {
            data: PlayerData { running: p.data.running.at(0), ..p.data },
            dj: DoubleJumping { available: true },
            ..p
        }
    }

    /// Whether the actor stops running: no attack, jump or drop intent and
    /// no single horizontal intent, on the ground or not.
    pub open spec fn stops(q: Player) -> bool {
        !q.input.attack && !q.input.jump && !q.input.down && q.input.left == q.input.right
    }

    pub open spec fn events(p: Player) -> (Player, Trans) {
        let q = p.directed();
        let (r, t) = if Running::stops(q) {
            (q, Trans::Switch(State::Idle(Idle)))
        } else {
            match ground_intents(q) {
            Some(x) => x,
            None => if q.input.left == q.input.right {
                (q, Trans::Switch(State::Idle(Idle)))
            } else if q.input.slide {
                (q, Trans::Push(State::Sliding(Sliding)))
            } else {
                (q, Trans::Stay)
            },
            }
        };
        (r.consumed_input(), t)
    }

    pub open spec fn updated(p: Player, dt: int, t: &Terrain) -> Player {
        p.moved().simulated(dt, t)
    }

    pub open spec fn ticked(p: Player) -> Player {
        Player { data: PlayerData { running: p.data.running.cycled(), ..p.data }, ..p }
    }

    pub fn on_start(&self, player: &mut Player)
        requires
            old(player).wf(),
        ensures
            *final(player) == Running::started(*old(player)),
            final(player).wf(),
    {
        player.data.running.reset();
        player.dj.enable();
    }

    /// Reacts to the intents: face the held way; stop running when no
    /// attack, jump, drop or single horizontal intent is held; otherwise
    /// leave the ground, attack, jump, drop or slide, by priority; clears
    /// the one-shot intents.
    pub fn handle_events(&self, player: &mut Player) -> (r: Trans)
        requires
            old(player).wf(),
        ensures
            (*final(player), r) == Running::events(*old(player)),
            final(player).wf(),
    {
        player.direct();
        let stop = !player.input.attack && !player.input.jump && !player.input.down
            && player.input.left == player.input.right;
        let t = if stop {
            Trans::Switch(State::Idle(Idle))
        } else {
            match apply_ground_intents(player) {
            Some(t) => t,
            None => {
                if player.input.left == player.input.right {
                    Trans::Switch(State::Idle(Idle))
                } else if player.input.slide {
                    Trans::Push(State::Sliding(Sliding))
                } else {
                    Trans::Stay
                }
            },
            }
        };
        player.input.reset_actions();
        t
    }

    /// Walks the way the actor faces and advances the physics.
    pub fn update(&self, player: &mut Player, dt: u64, terrain: &Terrain) -> (r: Trans)
        requires
            old(player).wf(),
            terrain.wf(),
            dt <= MAX_DT_MICROS,
        ensures
            *final(player) == Running::updated(*old(player), dt as int, terrain),
            r == Trans::Stay,
            final(player).wf(),
    {
        player.movement();
        player.mv.update_physics(dt, terrain);
        Trans::Stay
    }

    pub fn fixed_update(&self, player: &mut Player) -> (r: Trans)
        requires
            old(player).wf(),
        ensures
            *final(player) == Running::ticked(*old(player)),
            r == Trans::Stay,
            final(player).wf(),
    {
        player.data.running.cycle_frames();
        Trans::Stay
    }
}

impl Jumping {
    /// The jump animation starts over, and so does the late-jump tick count
    /// when the actor stands on the ground (a jump about to leave it) or
    /// has just left it.
    pub open spec fn started(p: Player) -> Player {
        let q = Player { data: PlayerData { jumping: p.data.jumping.at(0), ..p.data }, ..p };
        if p.mv.on_ground || p.mv.was_on_ground {
            Player { mv: MovingObject { frames_from_jump_start: 0, ..q.mv }, ..q }
        } else {
            q
        }
    }

    /// Leftward input is ignored while its counter runs down.
    pub open spec fn left_suppressed(p: Player) -> Player {
        if p.mv.cannot_go_left_frames > 0 {
            Player {
                mv: MovingObject {
                    cannot_go_left_frames: (p.mv.cannot_go_left_frames - 1) as usize,
                    ..p.mv
                },
                input: PlayerInput { left: false, ..p.input },
                ..p
            }
        } else {
            p
        }
    }

    /// Rightward input is ignored while its counter runs down.
    pub open spec fn right_suppressed(p: Player) -> Player {
        if p.mv.cannot_go_right_frames > 0 {
            Player {
                mv: MovingObject {
                    cannot_go_right_frames: (p.mv.cannot_go_right_frames - 1) as usize,
                    ..p.mv
                },
                input: PlayerInput { right: false, ..p.input },
                ..p
            }
        } else {
            p
        }
    }

    /// Input toward a released ledge is ignored while its counter runs.
    pub open spec fn suppressed(p: Player) -> Player {
        Jumping::right_suppressed(Jumping::left_suppressed(p))
    }

    /// Whether a jump press now still counts as the first jump: within the
    /// tick budget after leaving the ground, still going up, not at a ceiling.
    pub open spec fn late_jump(p: Player) -> bool {
        p.mv.frames_from_jump_start <= JUMP_FRAMES_THRESHOLD && p.mv.velocity.y > 0
            && !p.mv.at_ceiling
    }

    /// Steering: walking the way the actor faces while exactly one
    /// horizontal intent is held.
    pub open spec fn steered(q: Player) -> Player {
        if q.input.left != q.input.right { q.moved() } else { q }
    }

    /// The jump and attack intents, once the actor has been steered.
    pub open spec fn acted(m: Player) -> (Player, Trans) {
        if m.input.attack {
            (m, Trans::Switch(State::Attacking(Attacking)))
        } else if m.input.jump {
            if Jumping::late_jump(m) {
                (m.jumped(), Trans::Stay)
            } else {
                let (permission, jumped) = m.dj.consumed();
                (Player { dj: permission, ..if jumped { m.jumped() } else { m } }, Trans::Stay)
            }
        } else {
            (m, Trans::Stay)
        }
    }

    pub open spec fn events(p: Player) -> (Player, Trans) {
        let (r, t) = Jumping::acted(Jumping::steered(Jumping::suppressed(p.directed())));
        (r.consumed_input(), t)
    }

    /// Gravity, capped at the falling speed, then physics, then a grab.
    pub open spec fn moved_and_grabbed(p: Player, dt: int, t: &Terrain) -> (Player, bool) {
        let vy = max(p.mv.velocity.y + per_dt(GRAVITY as int, dt), MAX_FALLING_SPEED as int);
        let fallen = Player {
            mv: MovingObject { velocity: Vector2 { y: vy as i64, ..p.mv.velocity }, ..p.mv },
            ..p
        }.simulated(dt, t);
        let (lg, mv, grabbed) = fallen.lg.grabbed(fallen.mv, fallen.input, t);
        (Player { lg, mv, ..fallen }, grabbed)
    }

    pub open spec fn updated(p: Player, dt: int, t: &Terrain) -> (Player, Trans) {
        let (q, grabbed) = Jumping::moved_and_grabbed(p, dt, t);
        if q.mv.on_ground {
            (q, Trans::Pop)
        } else if grabbed {
            (q, Trans::Switch(State::LedgeGrab(LedgeGrab)))
        } else if q.input.left == q.input.right {
            (q.slowed(false), Trans::Stay)
        } else {
            (q, Trans::Stay)
        }
    }

    pub open spec fn ticked(p: Player) -> Player {
        let f = p.mv.frames_from_jump_start;
        let g = if f <= JUMP_FRAMES_THRESHOLD && p.mv.at_ceiling {
            JUMP_FRAMES_THRESHOLD + 1
        } else {
            f as int
        };
        Player {
            data: PlayerData { jumping: p.data.jumping.rolled(), ..p.data },
            mv: MovingObject {
                frames_from_jump_start: if g < i64::MAX { (g + 1) as i64 } else { g as i64 },
                ..p.mv
            },
            ..p
        }
    }

    pub fn on_start(&self, player: &mut Player)
        requires
            old(player).wf(),
        ensures
            *final(player) == Jumping::started(*old(player)),
            final(player).wf(),
    {
        player.data.jumping.reset();
        if player.mv.on_ground || player.mv.was_on_ground {
            player.mv.frames_from_jump_start = 0;
        }
    }

    proof fn lemma_suppressed_wf(p: Player)
        requires
            p.wf(),
        ensures
            Jumping::left_suppressed(p).wf(),
            Jumping::right_suppressed(p).wf(),
    {
    }

    fn suppress_left(player: &mut Player)
        requires
            old(player).wf(),
        ensures
            *final(player) == Jumping::left_suppressed(*old(player)),
            final(player).wf(),
    {
        proof {
            Jumping::lemma_suppressed_wf(*player);
        }
        if player.mv.cannot_go_left_frames > 0 {
            let n = player.mv.cannot_go_left_frames - 1;
            player.mv.cannot_go_left_frames = n;
            player.input.left = false;
        }
    }

    fn suppress_right(player: &mut Player)
        requires
            old(player).wf(),
        ensures
            *final(player) == Jumping::right_suppressed(*old(player)),
            final(player).wf(),
    {
        proof {
            Jumping::lemma_suppressed_wf(*player);
        }
        if player.mv.cannot_go_right_frames > 0 {
            let n = player.mv.cannot_go_right_frames - 1;
            player.mv.cannot_go_right_frames = n;
            player.input.right = false;
        }
    }

    fn steer(player: &mut Player)
        requires
            old(player).wf(),
        ensures
            *final(player) == Jumping::steered(*old(player)),
            final(player).wf(),
    {
        if player.input.left != player.input.right {
            player.movement();
        }
    }

    fn act(player: &mut Player) -> (r: Trans)
        requires
            old(player).wf(),
        ensures
            (*final(player), r) == Jumping::acted(*old(player)),
            final(player).wf(),
    {
        if player.input.attack {
            Trans::Switch(State::Attacking(Attacking))
        } else if player.input.jump {
            if player.mv.frames_from_jump_start <= JUMP_FRAMES_THRESHOLD && player.mv.velocity.y > 0
                && !player.mv.at_ceiling {
                player.jump();
            } else {
                player.dj.double_jump(&mut player.mv);
            }
            Trans::Stay
        } else {
            Trans::Stay
        }
    }

    fn fall_and_grab(player: &mut Player, dt: u64, terrain: &Terrain) -> (r: bool)
        requires
            old(player).wf(),
            terrain.wf(),
            dt <= MAX_DT_MICROS,
        ensures
            (*final(player), r) == Jumping::moved_and_grabbed(*old(player), dt as int, terrain),
            final(player).wf(),
    {
        let fall = player.mv.velocity.y + scale_by_dt(GRAVITY, dt);
        player.mv.velocity.y = if fall > MAX_FALLING_SPEED { fall } else { MAX_FALLING_SPEED };
        player.mv.update_physics(dt, terrain);
        player.lg.grab_ledge(&mut player.mv, &player.input, terrain)
    }

    /// Reacts to the intents: face the held way, drop suppressed input,
    /// steer, then attack, or jump late, or jump again through the
    /// double-jump permission; clears the one-shot intents.
    pub fn handle_events(&self, player: &mut Player) -> (r: Trans)
        requires
            old(player).wf(),
        ensures
            (*final(player), r) == Jumping::events(*old(player)),
            final(player).wf(),
    {
        player.direct();
        Jumping::suppress_left(player);
        Jumping::suppress_right(player);
        Jumping::steer(player);
        let t = Jumping::act(player);
        player.input.reset_actions();
        t
    }

    /// Falls, advances the physics and tries to grab a ledge; lands (pop),
    /// hangs (switch to `LedgeGrab`), or drifts to a stop without
    /// horizontal intent.
    pub fn update(&self, player: &mut Player, dt: u64, terrain: &Terrain) -> (r: Trans)
        requires
            old(player).wf(),
            terrain.wf(),
            dt <= MAX_DT_MICROS,
        ensures
            (*final(player), r) == Jumping::updated(*old(player), dt as int, terrain),
            final(player).wf(),
    {
        let grabbed = Jumping::fall_and_grab(player, dt, terrain);
        if player.mv.on_ground {
            Trans::Pop
        } else if grabbed {
            Trans::Switch(State::LedgeGrab(LedgeGrab))
        } else if player.input.left == player.input.right {
            player.slow_down(false);
            Trans::Stay
        } else {
            Trans::Stay
        }
    }

    /// Rolls the animation and counts ticks since the jump started;
    /// touching a ceiling ends the late-jump window.
    pub fn fixed_update(&self, player: &mut Player) -> (r: Trans)
        requires
            old(player).wf(),
        ensures
            *final(player) == Jumping::ticked(*old(player)),
            r == Trans::Stay,
            final(player).wf(),
    {
        player.data.jumping.roll_frames();
        let f = player.mv.frames_from_jump_start;
        let g = if f <= JUMP_FRAMES_THRESHOLD && player.mv.at_ceiling {
            JUMP_FRAMES_THRESHOLD + 1
        } else {
            f
        };
        player.mv.frames_from_jump_start = if g < i64::MAX { g + 1 } else { g };
        Trans::Stay
    }
}

impl Sliding {
    pub open spec fn started(p: Player) -> Player {
        Player { data: PlayerData { sliding: p.data.sliding.at(0), ..p.data }, ..p }
    }

    pub open spec fn events(p: Player) -> (Player, Trans) {
        (
            p.consumed_input(),
            if p.input.jump { Trans::Switch(State::Jumping(Jumping)) } else { Trans::Stay },
        )
    }

    pub open spec fn ticked(p: Player) -> (Player, Trans) {
        if p.data.sliding.current_frame + 1 >= p.data.sliding.length {
            (p, Trans::Pop)
        } else {
            (Player { data: PlayerData { sliding: p.data.sliding.advanced(), ..p.data }, ..p }, Trans::Stay)
        }
    }

    pub fn on_start(&self, player: &mut Player)
        requires
            old(player).wf(),
        ensures
            *final(player) == Sliding::started(*old(player)),
            final(player).wf(),
    {
        player.data.sliding.reset();
    }

    /// A jump ends the slide; clears the one-shot intents.
    pub fn handle_events(&self, player: &mut Player) -> (r: Trans)
        requires
            old(player).wf(),
        ensures
            (*final(player), r) == Sliding::events(*old(player)),
            final(player).wf(),
    {
        let t = if player.input.jump {
            Trans::Switch(State::Jumping(Jumping))
        } else {
            Trans::Stay
        };
        player.input.reset_actions();
        t
    }

    pub fn update(&self, player: &mut Player, dt: u64, terrain: &Terrain) -> (r: Trans)
        requires
            old(player).wf(),
            terrain.wf(),
            dt <= MAX_DT_MICROS,
        ensures
            *final(player) == old(player).simulated(dt as int, terrain),
            r == Trans::Stay,
            final(player).wf(),
    {
        player.mv.update_physics(dt, terrain);
        Trans::Stay
    }

    /// Plays the slide animation once, then pops.
    pub fn fixed_update(&self, player: &mut Player) -> (r: Trans)
        requires
            old(player).wf(),
        ensures
            (*final(player), r) == Sliding::ticked(*old(player)),
            final(player).wf(),
    {
        if player.data.sliding.is_over() {
            Trans::Pop
        } else {
            player.data.sliding.next_frame();
            Trans::Stay
        }
    }
}

impl Attacking {
    pub open spec fn started(p: Player) -> Player {
        Player { data: PlayerData { attacking: p.data.attacking.at(0), ..p.data }, ..p }
    }

    /// Whether the attack has gone far enough to be cancelled.
    pub open spec fn cancellable(p: Player) -> bool {
        p.data.attacking.current_frame > ATTACK_CANCEL_FRAME
    }

    pub open spec fn events(p: Player) -> (Player, Trans) {
        let q = p.directed();
        let t = if !Attacking::cancellable(q) {
            Trans::Stay
        } else if q.input.attack {
            Trans::Switch(State::Attacking(Attacking))
        } else if q.input.jump {
            Trans::Switch(State::Jumping(Jumping))
        } else if q.input.slide {
            Trans::Switch(State::Sliding(Sliding))
        } else {
            Trans::Stay
        };
        (q.consumed_input(), t)
    }

    pub open spec fn ticked(p: Player) -> (Player, Trans) {
        if p.data.attacking.current_frame + 1 >= p.data.attacking.length {
            (p, Trans::Pop)
        } else {
            (
                Player { data: PlayerData { attacking: p.data.attacking.advanced(), ..p.data }, ..p },
                Trans::Stay,
            )
        }
    }

    fn can_cancel(&self, player: &Player) -> (r: bool)
        ensures
            r == Attacking::cancellable(*player),
    {
        player.data.attacking.current_frame > ATTACK_CANCEL_FRAME
    }

    pub fn on_start(&self, player: &mut Player)
        requires
            old(player).wf(),
        ensures
            *final(player) == Attacking::started(*old(player)),
            final(player).wf(),
    {
        player.data.attacking.reset();
    }

    /// Faces the held way; once the attack can be cancelled, a new attack,
    /// a jump or a slide replaces it; clears the one-shot intents.
    pub fn handle_events(&self, player: &mut Player) -> (r: Trans)
        requires
            old(player).wf(),
        ensures
            (*final(player), r) == Attacking::events(*old(player)),
            final(player).wf(),
    {
        player.direct();
        let t = if !self.can_cancel(player) {
            Trans::Stay
        } else if player.input.attack {
            Trans::Switch(State::Attacking(Attacking))
        } else if player.input.jump {
            Trans::Switch(State::Jumping(Jumping))
        } else if player.input.slide {
            Trans::Switch(State::Sliding(Sliding))
        } else {
            Trans::Stay
        };
        player.input.reset_actions();
        t
    }

    pub fn update(&self, player: &mut Player, dt: u64, terrain: &Terrain) -> (r: Trans)
        requires
            old(player).wf(),
            terrain.wf(),
            dt <= MAX_DT_MICROS,
        ensures
            *final(player) == old(player).simulated(dt as int, terrain),
            r == Trans::Stay,
            final(player).wf(),
    {
        player.mv.update_physics(dt, terrain);
        Trans::Stay
    }

    /// Plays the attack animation once, then pops.
    pub fn fixed_update(&self, player: &mut Player) -> (r: Trans)
        requires
            old(player).wf(),
        ensures
            (*final(player), r) == Attacking::ticked(*old(player)),
            final(player).wf(),
    {
        if player.data.attacking.is_over() {
            Trans::Pop
        } else {
            player.data.attacking.next_frame();
            Trans::Stay
        }
    }
}

impl LedgeGrab {
    /// Whether the grabbed ledge lies left of the actor.
    pub open spec fn ledge_on_left(p: Player, t: &Terrain) -> bool {
        p.lg.ledge_tile.0 * t.tile_size + t.position.x < p.mv.position.x
    }

    /// Input toward the ledge is ignored for a few ticks.
    pub open spec fn turned_away(q: Player, t: &Terrain) -> Player {
        if LedgeGrab::ledge_on_left(q, t) {
            Player { mv: MovingObject { cannot_go_left_frames: LEDGE_RELEASE_FRAMES, ..q.mv }, ..q }
        } else {
            Player { mv: MovingObject { cannot_go_right_frames: LEDGE_RELEASE_FRAMES, ..q.mv }, ..q }
        }
    }

    /// Letting go: by the drop intent, or by pushing away from the ledge.
    pub open spec fn lets_go(p: Player, t: &Terrain) -> bool {
        let left = LedgeGrab::ledge_on_left(p, t);
        p.input.down || (p.input.right && left) || (p.input.left && !left)
    }

    pub open spec fn updated(p: Player, dt: int, t: &Terrain) -> (Player, Trans) {
        LedgeGrab::updated_after_physics(p.simulated(dt, t), t)
    }

    pub open spec fn ticked(p: Player) -> Player {
        Player { data: PlayerData { idle: p.data.idle.rolled(), ..p.data }, ..p }
    }

    pub fn on_start(&self, player: &mut Player)
        requires
            old(player).wf(),
        ensures
            *final(player) == idle_started(*old(player)),
            final(player).wf(),
    {
        player.data.idle.reset();
        player.dj.enable();
    }

    pub fn handle_events(&self, player: &mut Player) -> (r: Trans)
        ensures
            *final(player) == *old(player),
            r == Trans::Stay,
    {
        Trans::Stay
    }

    fn ledge_is_left(player: &Player, terrain: &Terrain) -> (r: bool)
        requires
            player.wf(),
            terrain.wf(),
        ensures
            r == LedgeGrab::ledge_on_left(*player, terrain),
    {
        assert(-8_000_000_000_001_000_000 <= player.lg.ledge_tile.0 * terrain.tile_size
            <= 8_000_000_000_001_000_000) by (nonlinear_arith)
            requires
                -8_000_000_000_001 <= player.lg.ledge_tile.0 <= 8_000_000_000_001,
                1 <= terrain.tile_size <= 1_000_000,
        ;
        player.lg.ledge_tile.0 * terrain.tile_size + terrain.position.x < player.mv.position.x
    }

    proof fn lemma_turned_away_wf(p: Player, t: &Terrain)
        requires
            p.wf(),
        ensures
            LedgeGrab::turned_away(p, t).wf(),
    {
    }

    fn turn_away(player: &mut Player, terrain: &Terrain)
        requires
            old(player).wf(),
            terrain.wf(),
        ensures
            *final(player) == LedgeGrab::turned_away(*old(player), terrain),
            final(player).wf(),
    {
        proof {
            LedgeGrab::lemma_turned_away_wf(*player, terrain);
        }
        if LedgeGrab::ledge_is_left(player, terrain) {
            player.mv.cannot_go_left_frames = LEDGE_RELEASE_FRAMES;
        } else {
            player.mv.cannot_go_right_frames = LEDGE_RELEASE_FRAMES;
        }
    }

    fn release(&self, player: &mut Player, terrain: &Terrain) -> (r: Trans)
        requires
            old(player).wf(),
            terrain.wf(),
        ensures
            ({
                let (q, t) = LedgeGrab::updated_after_physics(*old(player), terrain);
                *final(player) == q && r == t
            }),
            final(player).wf(),
    {
        let on_left = LedgeGrab::ledge_is_left(player, terrain);
        let lets_go = player.input.down || (player.input.right && on_left) || (player.input.left
            && !on_left);
        let t = if lets_go || player.input.jump {
            LedgeGrab::turn_away(player, terrain);
            if !lets_go {
                player.jump();
            }
            Trans::Switch(State::Jumping(Jumping))
        } else {
            Trans::Stay
        };
        player.input.reset_actions();
        t
    }

    /// What follows the physics step of `updated`.
    pub open spec fn updated_after_physics(q: Player, t: &Terrain) -> (Player, Trans) {
        let (r, tr) = if LedgeGrab::lets_go(q, t) {
            (LedgeGrab::turned_away(q, t), Trans::Switch(State::Jumping(Jumping)))
        } else if q.input.jump {
            (LedgeGrab::turned_away(q, t).jumped(), Trans::Switch(State::Jumping(Jumping)))
        } else {
            (q, Trans::Stay)
        };
        (r.consumed_input(), tr)
    }

    /// Advances the physics, then lets go of the ledge (by the drop intent
    /// or by pushing away from it) or jumps off it; either way input toward
    /// the ledge is then ignored for a few ticks. Clears the one-shot
    /// intents.
    pub fn update(&self, player: &mut Player, dt: u64, terrain: &Terrain) -> (r: Trans)
        requires
            old(player).wf(),
            terrain.wf(),
            dt <= MAX_DT_MICROS,
        ensures
            (*final(player), r) == LedgeGrab::updated(*old(player), dt as int, terrain),
            final(player).wf(),
    {
        player.mv.update_physics(dt, terrain);
        self.release(player, terrain)
    }

    pub fn fixed_update(&self, player: &mut Player) -> (r: Trans)
        requires
            old(player).wf(),
        ensures
            *final(player) == LedgeGrab::ticked(*old(player)),
            r == Trans::Stay,
            final(player).wf(),
    {
        player.data.idle.roll_frames();
        Trans::Stay
    }
}

} // verus!
