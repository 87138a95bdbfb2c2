use vstd::prelude::*;

use crate::behavior::{idle_started, Attacking, Idle, Jumping, LedgeGrab, Running, Sliding};
use crate::geometry::{Vector2, MAX_DT_MICROS};
use crate::player::{Direction, Player};
use crate::terrain::Terrain;

verus! {

/// A behaviour state of an actor.
#[derive(Clone, Copy, Debug, PartialEq, Eq, Structural)]
pub enum State {
    Idle(Idle),
    Running(Running),
    Jumping(Jumping),
    Sliding(Sliding),
    Attacking(Attacking),
    LedgeGrab(LedgeGrab),
}

/// A change of the state stack that a state asks for.
#[derive(Clone, Copy, Debug, PartialEq, Eq, Structural)]
pub enum Trans {
    Stay,
    Pop,
    Push(State),
    Switch(State),
    Quit,
}

/// A lifecycle hook invoked on a state.
#[derive(Clone, Copy, Debug, PartialEq, Eq, Structural)]
pub enum Hook {
    Start(State),
    Stop(State),
    Pause(State),
    Resume(State),
}

impl State {
    pub open spec fn started(self, p: Player) -> Player {
        match self {
            State::Idle(_) => idle_started(p),
            State::Running(_) => Running::started(p),
            State::Jumping(_) => Jumping::started(p),
            State::Sliding(_) => Sliding::started(p),
            State::Attacking(_) => Attacking::started(p),
            State::LedgeGrab(_) => idle_started(p),
        }
    }

    /// Sliding and attacking do nothing on resume; the others start over.
    pub open spec fn resumed(self, p: Player) -> Player {
        match self {
            State::Sliding(_) => p,
            State::Attacking(_) => p,
            _ => self.started(p),
        }
    }

    pub open spec fn events(self, p: Player) -> (Player, Trans) {
        match self {
            State::Idle(_) => Idle::events(p),
            State::Running(_) => Running::events(p),
            State::Jumping(_) => Jumping::events(p),
            State::Sliding(_) => Sliding::events(p),
            State::Attacking(_) => Attacking::events(p),
            State::LedgeGrab(_) => (p, Trans::Stay),
        }
    }

    pub open spec fn updated(self, p: Player, dt: int, t: &Terrain) -> (Player, Trans) {
        match self {
            State::Idle(_) => (Idle::updated(p, dt, t), Trans::Stay),
            State::Running(_) => (Running::updated(p, dt, t), Trans::Stay),
            State::Jumping(_) => Jumping::updated(p, dt, t),
            State::Sliding(_) => (p.simulated(dt, t), Trans::Stay),
            State::Attacking(_) => (p.simulated(dt, t), Trans::Stay),
            State::LedgeGrab(_) => LedgeGrab::updated(p, dt, t),
        }
    }

    pub open spec fn ticked(self, p: Player) -> (Player, Trans) {
        match self {
            State::Idle(_) => (Idle::ticked(p), Trans::Stay),
            State::Running(_) => (Running::ticked(p), Trans::Stay),
            State::Jumping(_) => (Jumping::ticked(p), Trans::Stay),
            State::Sliding(_) => Sliding::ticked(p),
            State::Attacking(_) => Attacking::ticked(p),
            State::LedgeGrab(_) => (LedgeGrab::ticked(p), Trans::Stay),
        }
    }

    pub fn on_start(&self, player: &mut Player)
        requires
            old(player).wf(),
        ensures
            *final(player) == self.started(*old(player)),
            final(player).wf(),
    {
        match self {
            State::Idle(s) => s.on_start(player),
            State::Running(s) => s.on_start(player),
            State::Jumping(s) => s.on_start(player),
            State::Sliding(s) => s.on_start(player),
            State::Attacking(s) => s.on_start(player),
            State::LedgeGrab(s) => s.on_start(player),
        }
    }

    /// No state does anything when stopped.
    pub fn on_stop(&self, player: &mut Player)
        ensures
            *final(player) == *old(player),
    {
    }

    /// No state does anything when paused.
    pub fn on_pause(&self, player: &mut Player)
        ensures
            *final(player) == *old(player),
    {
    }

    pub fn on_resume(&self, player: &mut Player)
        requires
            old(player).wf(),
        ensures
            *final(player) == self.resumed(*old(player)),
            final(player).wf(),
    {
        match self {
            State::Sliding(_) => {},
            State::Attacking(_) => {},
            _ => self.on_start(player),
        }
    }

    pub fn handle_events(&self, player: &mut Player) -> (r: Trans)
        requires
            old(player).wf(),
        ensures
            (*final(player), r) == self.events(*old(player)),
            final(player).wf(),
    {
        match self {
            State::Idle(s) => s.handle_events(player),
            State::Running(s) => s.handle_events(player),
            State::Jumping(s) => s.handle_events(player),
            State::Sliding(s) => s.handle_events(player),
            State::Attacking(s) => s.handle_events(player),
            State::LedgeGrab(s) => s.handle_events(player),
        }
    }

    pub fn update(&self, player: &mut Player, dt: u64, terrain: &Terrain) -> (r: Trans)
        requires
            old(player).wf(),
            terrain.wf(),
            dt <= MAX_DT_MICROS,
        ensures
            (*final(player), r) == self.updated(*old(player), dt as int, terrain),
            final(player).wf(),
    {
        match self {
            State::Idle(s) => s.update(player, dt, terrain),
            State::Running(s) => s.update(player, dt, terrain),
            State::Jumping(s) => s.update(player, dt, terrain),
            State::Sliding(s) => s.update(player, dt, terrain),
            State::Attacking(s) => s.update(player, dt, terrain),
            State::LedgeGrab(s) => s.update(player, dt, terrain),
        }
    }

    pub fn fixed_update(&self, player: &mut Player) -> (r: Trans)
        requires
            old(player).wf(),
        ensures
            (*final(player), r) == self.ticked(*old(player)),
            final(player).wf(),
    {
        match self {
            State::Idle(s) => s.fixed_update(player),
            State::Running(s) => s.fixed_update(player),
            State::Jumping(s) => s.fixed_update(player),
            State::Sliding(s) => s.fixed_update(player),
            State::Attacking(s) => s.fixed_update(player),
            State::LedgeGrab(s) => s.fixed_update(player),
        }
    }
}

impl Hook {
    /// What the hook does to the actor.
    pub open spec fn applied(self, p: Player) -> Player {
        match self {
            Hook::Start(s) => s.started(p),
            Hook::Resume(s) => s.resumed(p),
            Hook::Stop(_) => p,
            Hook::Pause(_) => p,
        }
    }
}

/// The actor after the hooks, first to last.
pub open spec fn run_hooks(p: Player, hooks: Seq<Hook>) -> Player
    decreases hooks.len(),
{
    if hooks.len() == 0 {
        p
    } else {
        hooks.last().applied(run_hooks(p, hooks.drop_last()))
    }
}

/// Running flag, stack and invoked hooks after a transition request.
///
/// `Push` pauses the top and starts the new state above it; `Switch` stops
/// the top and starts the new state in its place; `Pop` stops the top and
/// resumes the one below, or halts when none is left; `Quit` stops every
/// state, top first, and halts. A halted machine ignores every request.
pub open spec fn transitioned(running: bool, stack: Seq<State>, t: Trans) -> (bool, Seq<State>, Seq<Hook>) {
    if !running {
        (running, stack, seq![])
    } else {
        match t {
            Trans::Stay => (running, stack, seq![]),
            Trans::Pop => if stack.len() == 0 {
                (false, stack, seq![])
            } else if stack.len() == 1 {
                (false, stack.drop_last(), seq![Hook::Stop(stack.last())])
            } else {
                (
                    true,
                    stack.drop_last(),
                    seq![Hook::Stop(stack.last()), Hook::Resume(stack.drop_last().last())],
                )
            },
            Trans::Push(s) => if stack.len() == 0 {
                (true, seq![s], seq![Hook::Start(s)])
            } else {
                (true, stack.push(s), seq![Hook::Pause(stack.last()), Hook::Start(s)])
            },
            Trans::Switch(s) => if stack.len() == 0 {
                (true, seq![s], seq![Hook::Start(s)])
            } else {
                (true, stack.drop_last().push(s), seq![Hook::Stop(stack.last()), Hook::Start(s)])
            },
            Trans::Quit => (
                false,
                seq![],
                Seq::new(stack.len(), |i: int| Hook::Stop(stack[stack.len() - 1 - i])),
            ),
        }
    }
}

/// What the active state hands to the renderer: which animation at which
/// frame, where and facing which way.
#[derive(Clone, Copy, Debug, PartialEq, Eq, Structural)]
pub struct DrawCall {
    pub state: State,
    pub frame: usize,
    pub position: Vector2,
    pub direction: Direction,
}

/// A stack of behaviour states; the top one is active. `hooks` lists the
/// lifecycle hooks that the last operation invoked, in order.
pub struct StateMachine {
    pub running: bool,
    pub state_stack: Vec<State>,
    pub hooks: Vec<Hook>,
}

impl StateMachine {
    pub open spec fn wf(&self) -> bool {
        self.running ==> self.state_stack@.len() > 0
    }

    pub open spec fn top(&self) -> State {
        self.state_stack@.last()
    }

    /// A stopped machine holding `initial_state` alone.
    pub fn new(initial_state: State) -> (r: StateMachine)
        ensures
            r.wf(),
            !r.running,
            r.state_stack@ == seq![initial_state],
            r.hooks@ == Seq::<Hook>::empty(),
    {
        let mut state_stack: Vec<State> = Vec::new();
        state_stack.push(initial_state);
        StateMachine { running: false, state_stack, hooks: Vec::new() }
    }

    /// The active state, if any.
    pub fn top_state(&self) -> (r: Option<State>)
        ensures
            self.state_stack@.len() == 0 ==> r is None,
            self.state_stack@.len() > 0 ==> r == Some(self.top()),
    {
        if self.state_stack.len() == 0 {
            None
        } else {
            Some(self.state_stack[self.state_stack.len() - 1])
        }
    }

    pub fn is_running(&self) -> (r: bool)
        ensures
            r == self.running,
    {
        self.running
    }

    /// Starts a stopped machine: the top state starts. A running machine, or
    /// one whose stack is empty, is left as it is.
    pub fn start(&mut self, player: &mut Player)
        requires
            old(self).wf(),
            old(player).wf(),
        ensures
            final(self).wf(),
            final(player).wf(),
            final(self).state_stack@ == old(self).state_stack@,
            !old(self).running && old(self).state_stack@.len() > 0 ==> final(self).running
                && final(self).hooks@ == seq![Hook::Start(old(self).top())]
                && *final(player) == old(self).top().started(*old(player)),
            old(self).running || old(self).state_stack@.len() == 0 ==> final(self).running
                == old(self).running && final(self).hooks@ == Seq::<Hook>::empty() && *final(player)
                == *old(player),
    {
        self.hooks = Vec::new();
        if !self.running && self.state_stack.len() > 0 {
            let top = self.state_stack[self.state_stack.len() - 1];
            top.on_start(player);
            self.hooks.push(Hook::Start(top));
            self.running = true;
        }
    }

    fn push(&mut self, state: State, player: &mut Player)
        requires
            old(self).running,
            old(self).state_stack@.len() > 0,
            old(self).hooks@ == Seq::<Hook>::empty(),
            old(player).wf(),
        ensures
            (final(self).running, final(self).state_stack@, final(self).hooks@) == transitioned(
                true,
                old(self).state_stack@,
                Trans::Push(state),
            ),
            *final(player) == run_hooks(*old(player), final(self).hooks@),
            final(player).wf(),
    {
        let ghost entry = *player;
        proof {
            reveal_with_fuel(run_hooks, 3);
        }
        let top = self.state_stack[self.state_stack.len() - 1];
        top.on_pause(player);
        self.hooks.push(Hook::Pause(top));
        self.state_stack.push(state);
        state.on_start(player);
        self.hooks.push(Hook::Start(state));
        assert(self.hooks@ =~= seq![Hook::Pause(top), Hook::Start(state)]);
        assert(self.hooks@.drop_last() =~= seq![Hook::Pause(top)]);
        assert(self.hooks@.drop_last().drop_last() =~= Seq::<Hook>::empty());
        assert(run_hooks(entry, self.hooks@.drop_last()) == entry);
    }

    fn switch(&mut self, state: State, player: &mut Player)
        requires
            old(self).running,
            old(self).state_stack@.len() > 0,
            old(self).hooks@ == Seq::<Hook>::empty(),
            old(player).wf(),
        ensures
            (final(self).running, final(self).state_stack@, final(self).hooks@) == transitioned(
                true,
                old(self).state_stack@,
                Trans::Switch(state),
            ),
            *final(player) == run_hooks(*old(player), final(self).hooks@),
            final(player).wf(),
    {
        let ghost entry = *player;
        proof {
            reveal_with_fuel(run_hooks, 3);
        }
        let top = match self.state_stack.pop() {
            Some(t) => t,
            None => state,
        };
        top.on_stop(player);
        self.hooks.push(Hook::Stop(top));
        self.state_stack.push(state);
        state.on_start(player);
        self.hooks.push(Hook::Start(state));
        assert(self.hooks@ =~= seq![Hook::Stop(top), Hook::Start(state)]);
        assert(self.hooks@.drop_last() =~= seq![Hook::Stop(top)]);
        assert(self.hooks@.drop_last().drop_last() =~= Seq::<Hook>::empty());
        assert(run_hooks(entry, self.hooks@.drop_last()) == entry);
    }

    fn pop(&mut self, player: &mut Player)
        requires
            old(self).running,
            old(self).state_stack@.len() > 0,
            old(self).hooks@ == Seq::<Hook>::empty(),
            old(player).wf(),
        ensures
            (final(self).running, final(self).state_stack@, final(self).hooks@) == transitioned(
                true,
                old(self).state_stack@,
                Trans::Pop,
            ),
            *final(player) == run_hooks(*old(player), final(self).hooks@),
            final(player).wf(),
    {
        let ghost entry = *player;
        proof {
            reveal_with_fuel(run_hooks, 3);
        }
        let ghost s0 = self.state_stack@;
        let top = match self.state_stack.pop() {
            Some(t) => t,
            None => State::Idle(Idle),
        };
        top.on_stop(player);
        self.hooks.push(Hook::Stop(top));
        assert(self.hooks@.drop_last() =~= Seq::<Hook>::empty());
        assert(run_hooks(entry, self.hooks@) == entry);
        if self.state_stack.len() > 0 {
            let below = self.state_stack[self.state_stack.len() - 1];
            below.on_resume(player);
            self.hooks.push(Hook::Resume(below));
            assert(self.hooks@ =~= seq![Hook::Stop(top), Hook::Resume(below)]);
            assert(self.hooks@.drop_last() =~= seq![Hook::Stop(top)]);
        } else {
            self.running = false;
            assert(self.hooks@ =~= seq![Hook::Stop(top)]);
        }
    }

    fn stop(&mut self, player: &mut Player)
        requires
            old(self).running,
            old(self).hooks@ == Seq::<Hook>::empty(),
        ensures
            (final(self).running, final(self).state_stack@, final(self).hooks@) == transitioned(
                true,
                old(self).state_stack@,
                Trans::Quit,
            ),
            *final(player) == run_hooks(*old(player), final(self).hooks@),
            *final(player) == *old(player),
    {
        let ghost orig = self.state_stack@;
        let ghost n = orig.len();
        while self.state_stack.len() > 0
            invariant
                n == orig.len(),
                self.state_stack@.len() <= n,
                self.state_stack@ == orig.subrange(0, self.state_stack@.len() as int),
                self.hooks@ == Seq::new(
                    (n - self.state_stack@.len()) as nat,
                    |i: int| Hook::Stop(orig[n - 1 - i]),
                ),
                *player == *old(player),
                run_hooks(*old(player), self.hooks@) == *old(player),
            decreases self.state_stack@.len(),
        {
            let ghost before = self.hooks@;
            let top = match self.state_stack.pop() {
                Some(t) => t,
                None => State::Idle(Idle),
            };
            top.on_stop(player);
            self.hooks.push(Hook::Stop(top));
            assert(self.hooks@.drop_last() == before);
            assert(self.hooks@ =~= Seq::new(
                (n - self.state_stack@.len()) as nat,
                |i: int| Hook::Stop(orig[n - 1 - i]),
            ));
        }
        self.running = false;
        assert(self.state_stack@ =~= seq![]);
    }

    /// Applies a transition request: see `transitioned`. The hooks run on
    /// the actor in the order listed.
    pub fn transition(&mut self, request: Trans, player: &mut Player)
        requires
            old(self).wf(),
            old(player).wf(),
        ensures
            (final(self).running, final(self).state_stack@, final(self).hooks@) == transitioned(
                old(self).running,
                old(self).state_stack@,
                request,
            ),
            *final(player) == run_hooks(*old(player), final(self).hooks@),
            final(self).wf(),
            final(player).wf(),
    {
        self.hooks = Vec::new();
        if !self.running {
            return ;
        }
        match request {
            Trans::Stay => {},
            Trans::Pop => self.pop(player),
            Trans::Push(s) => self.push(s, player),
            Trans::Switch(s) => self.switch(s, player),
            Trans::Quit => self.stop(player),
        }
    }

    /// The machine and actor after the active state reacted with `reaction`
    /// (the actor it left and the transition it asked for).
    pub open spec fn settled(
        self,
        after: StateMachine,
        p_after: Player,
        reaction: (Player, Trans),
    ) -> bool {
        let (reacted, t) = reaction;
        &&& (after.running, after.state_stack@, after.hooks@) == transitioned(
            true,
            self.state_stack@,
            t,
        )
        &&& p_after == run_hooks(reacted, after.hooks@)
    }

    /// A halted machine does nothing and invokes no hook.
    pub open spec fn idle_dispatch(self, after: StateMachine, p_before: Player, p_after: Player) -> bool {
        &&& !after.running
        &&& after.state_stack@ == self.state_stack@
        &&& after.hooks@ == Seq::<Hook>::empty()
        &&& p_after == p_before
    }

    /// Lets the active state react to the intents, then applies the
    /// transition it asks for.
    pub fn handle_events(&mut self, player: &mut Player)
        requires
            old(self).wf(),
            old(player).wf(),
        ensures
            final(self).wf(),
            final(player).wf(),
            old(self).running ==> old(self).settled(
                *final(self),
                *final(player),
                old(self).top().events(*old(player)),
            ),
            !old(self).running ==> old(self).idle_dispatch(*final(self), *old(player), *final(player)),
    {
        if self.running {
            let top = self.state_stack[self.state_stack.len() - 1];
            let t = top.handle_events(player);
            self.transition(t, player);
        } else {
            self.hooks = Vec::new();
        }
    }

    /// Lets the active state advance the simulation by `dt` microseconds,
    /// then applies the transition it asks for.
    pub fn update(&mut self, player: &mut Player, dt: u64, terrain: &Terrain)
        requires
            old(self).wf(),
            old(player).wf(),
            terrain.wf(),
            dt <= MAX_DT_MICROS,
        ensures
            final(self).wf(),
            final(player).wf(),
            old(self).running ==> old(self).settled(
                *final(self),
                *final(player),
                old(self).top().updated(*old(player), dt as int, terrain),
            ),
            !old(self).running ==> old(self).idle_dispatch(*final(self), *old(player), *final(player)),
    {
        if self.running {
            let top = self.state_stack[self.state_stack.len() - 1];
            let t = top.update(player, dt, terrain);
            self.transition(t, player);
        } else {
            self.hooks = Vec::new();
        }
    }

    /// Lets the active state do its fixed-rate bookkeeping, then applies
    /// the transition it asks for.
    pub fn fixed_update(&mut self, player: &mut Player)
        requires
            old(self).wf(),
            old(player).wf(),
        ensures
            final(self).wf(),
            final(player).wf(),
            old(self).running ==> old(self).settled(
                *final(self),
                *final(player),
                old(self).top().ticked(*old(player)),
            ),
            !old(self).running ==> old(self).idle_dispatch(*final(self), *old(player), *final(player)),
    {
        if self.running {
            let top = self.state_stack[self.state_stack.len() - 1];
            let t = top.fixed_update(player);
            self.transition(t, player);
        } else {
            self.hooks = Vec::new();
        }
    }

    /// The animation frame of the active state.
    pub open spec fn frame_of(s: State, p: Player) -> usize {
        match s {
            State::Idle(_) => p.data.idle.current_frame,
            State::Running(_) => p.data.running.current_frame,
            State::Jumping(_) => p.data.jumping.current_frame,
            State::Sliding(_) => p.data.sliding.current_frame,
            State::Attacking(_) => p.data.attacking.current_frame,
            State::LedgeGrab(_) => p.data.idle.current_frame,
        }
    }

    /// What the active state would draw; nothing on an empty stack.
    pub fn draw(&self, player: &Player) -> (r: Option<DrawCall>)
        ensures
            self.state_stack@.len() == 0 ==> r is None,
            self.state_stack@.len() > 0 ==> r == Some(
                DrawCall {
                    state: self.top(),
                    frame: StateMachine::frame_of(self.top(), *player),
                    position: player.mv.position,
                    direction: player.direction,
                },
            ),
    {
        if self.state_stack.len() == 0 {
            return None;
        }
        let state = self.state_stack[self.state_stack.len() - 1];
        let frame = match state {
            State::Idle(_) => player.data.idle.current_frame,
            State::Running(_) => player.data.running.current_frame,
            State::Jumping(_) => player.data.jumping.current_frame,
            State::Sliding(_) => player.data.sliding.current_frame,
            State::Attacking(_) => player.data.attacking.current_frame,
            State::LedgeGrab(_) => player.data.idle.current_frame,
        };
        Some(DrawCall { state, frame, position: player.mv.position, direction: player.direction })
    }
}

} // verus!
