use platformer::aabb::AABB;
use platformer::animation::Animated;
use platformer::behavior::{Idle, Jumping, Running};
use platformer::double_jumping::DoubleJumping;
use platformer::geometry::Vector2;
use platformer::ledge_grabbing::LedgeGrabbing;
use platformer::moving_object::MovingObject;
use platformer::player::{Direction, Player, PlayerData, PlayerInput, JUMP_SPEED};
use platformer::state::{Hook, State, StateMachine, Trans};
use platformer::terrain::Terrain;

const TILE: i64 = 128;
const FRAME: u64 = 16_666;

fn grid(rows: &[&str]) -> Terrain {
    let codes: Vec<Vec<usize>> = rows
        .iter()
        .map(|r| {
            r.chars()
                .map(|c| match c {
                    '#' => 1,
                    '=' => 2,
                    _ => 0,
                })
                .collect()
        })
        .collect();
    Terrain::from_codes(&codes, Vector2::new(0, 0), TILE)
}

fn level() -> Terrain {
    grid(&[
        "..........",
        "..........",
        "..........",
        "..........",
        "..........",
        "..........",
        "..........",
        "..........",
        "..........",
        "##########",
    ])
}

fn actor() -> (Player, StateMachine) {
    Player::new(PlayerData::new(4, 4, 4, 8, 3))
}

fn frame(p: &mut Player, sm: &mut StateMachine, t: &Terrain) {
    sm.handle_events(p);
    sm.update(p, FRAME, t);
}

fn settle(p: &mut Player, sm: &mut StateMachine, t: &Terrain) {
    for _ in 0..600 {
        frame(p, sm, t);
        if p.mv.on_ground && sm.state_stack.len() == 1 {
            return;
        }
    }
    panic!("actor never settled");
}

#[test]
fn spawned_actor_idles_with_double_jump_armed() {
    let (p, sm) = actor();
    assert!(sm.is_running());
    assert_eq!(sm.state_stack, vec![State::Idle(Idle)]);
    assert_eq!(sm.hooks, vec![Hook::Start(State::Idle(Idle))]);
    assert_eq!(p.mv.position, Vector2::new(300, 800));
    assert_eq!(p.direction, Direction::Right);
    assert!(p.dj.available);
}

#[test]
fn jump_from_rest() {
    let t = level();
    let (mut p, mut sm) = actor();
    settle(&mut p, &mut sm, &t);
    assert_eq!(p.mv.position.y, 164);
    p.input.jump = true;
    sm.handle_events(&mut p);
    assert_eq!(sm.top_state(), Some(State::Jumping(Jumping)));
    assert_eq!(p.mv.velocity.y, JUMP_SPEED);
    assert!(!p.input.jump);
    assert_eq!(sm.hooks, vec![Hook::Pause(State::Idle(Idle)), Hook::Start(State::Jumping(Jumping))]);
    sm.update(&mut p, FRAME, &t);
    assert!(!p.mv.on_ground);
    assert!(p.mv.position.y > 164);
}

#[test]
fn drop_through_one_way_platform() {
    let t = grid(&[
        "..........",
        "..........",
        "..........",
        "..........",
        "..........",
        "..........",
        ".======...",
        "..........",
        "..........",
        "##########",
    ]);
    let (mut p, mut sm) = actor();
    settle(&mut p, &mut sm, &t);
    assert!(p.mv.on_platform);
    assert_eq!(p.mv.position.y, 3 * TILE + 64 + 100);
    p.input.down = true;
    sm.handle_events(&mut p);
    assert_eq!(sm.top_state(), Some(State::Jumping(Jumping)));
    assert_eq!(p.mv.position.y, 3 * TILE + 64 + 100 - 4);
    sm.update(&mut p, FRAME, &t);
    assert!(!p.mv.on_ground);
    assert!(!p.mv.on_platform);
    p.input.down = false;
    settle(&mut p, &mut sm, &t);
    assert!(!p.mv.on_platform);
    assert_eq!(p.mv.position.y, 164);
}

#[test]
fn push_then_pop_restores_stack_with_hooks_in_order() {
    let (mut p, mut sm) = actor();
    let mut all = Vec::new();
    sm.transition(Trans::Push(State::Jumping(Jumping)), &mut p);
    all.extend(sm.hooks.iter().cloned());
    assert_eq!(sm.state_stack, vec![State::Idle(Idle), State::Jumping(Jumping)]);
    sm.transition(Trans::Pop, &mut p);
    all.extend(sm.hooks.iter().cloned());
    assert_eq!(sm.state_stack, vec![State::Idle(Idle)]);
    assert!(sm.is_running());
    assert_eq!(
        all,
        vec![
            Hook::Pause(State::Idle(Idle)),
            Hook::Start(State::Jumping(Jumping)),
            Hook::Stop(State::Jumping(Jumping)),
            Hook::Resume(State::Idle(Idle)),
        ]
    );
}

#[test]
fn switch_stops_then_starts() {
    let (mut p, mut sm) = actor();
    sm.transition(Trans::Switch(State::Running(Running)), &mut p);
    assert_eq!(sm.state_stack, vec![State::Running(Running)]);
    assert_eq!(sm.hooks, vec![Hook::Stop(State::Idle(Idle)), Hook::Start(State::Running(Running))]);
}

#[test]
fn pop_of_last_state_halts() {
    let (mut p, mut sm) = actor();
    sm.transition(Trans::Pop, &mut p);
    assert!(!sm.is_running());
    assert!(sm.state_stack.is_empty());
    assert_eq!(sm.hooks, vec![Hook::Stop(State::Idle(Idle))]);
    assert_eq!(sm.draw(&p), None);
    sm.transition(Trans::Push(State::Jumping(Jumping)), &mut p);
    assert!(sm.state_stack.is_empty());
    assert!(sm.hooks.is_empty());
}

#[test]
fn quit_stops_every_state_top_first() {
    let (mut p, mut sm) = actor();
    sm.transition(Trans::Push(State::Running(Running)), &mut p);
    sm.transition(Trans::Push(State::Jumping(Jumping)), &mut p);
    sm.transition(Trans::Quit, &mut p);
    assert!(!sm.is_running());
    assert!(sm.state_stack.is_empty());
    assert_eq!(
        sm.hooks,
        vec![
            Hook::Stop(State::Jumping(Jumping)),
            Hook::Stop(State::Running(Running)),
            Hook::Stop(State::Idle(Idle)),
        ]
    );
}

#[test]
fn double_jump_only_once_per_arming() {
    let aabb = AABB::new_full(Vector2::new(0, 0), Vector2::new(64, 128), Vector2::new(1000, 1000));
    let mut mv = MovingObject::new(Vector2::new(0, 0), aabb);
    let mut dj = DoubleJumping::new();
    assert!(!dj.double_jump(&mut mv));
    assert_eq!(mv.velocity.y, 0);
    dj.enable();
    mv.velocity.y = -500;
    assert!(dj.double_jump(&mut mv));
    assert_eq!(mv.velocity.y, JUMP_SPEED);
    mv.velocity.y = -500;
    assert!(!dj.double_jump(&mut mv));
    assert_eq!(mv.velocity.y, -500);
}

#[test]
fn double_jump_in_the_air_through_states() {
    let t = level();
    let (mut p, mut sm) = actor();
    settle(&mut p, &mut sm, &t);
    p.input.jump = true;
    frame(&mut p, &mut sm, &t);
    for _ in 0..40 {
        frame(&mut p, &mut sm, &t);
        sm.fixed_update(&mut p);
    }
    assert!(p.mv.velocity.y < 0);
    p.input.jump = true;
    sm.handle_events(&mut p);
    assert_eq!(p.mv.velocity.y, JUMP_SPEED);
    assert!(!p.dj.available);
    p.mv.velocity.y = -100;
    p.input.jump = true;
    sm.handle_events(&mut p);
    assert_eq!(p.mv.velocity.y, -100);
}

#[test]
fn gate_update_follows_ground_contact() {
    let aabb = AABB::new_full(Vector2::new(0, 0), Vector2::new(64, 128), Vector2::new(1000, 1000));
    let mut mv = MovingObject::new(Vector2::new(0, 0), aabb);
    let mut dj = DoubleJumping::new();
    mv.was_on_ground = true;
    mv.on_ground = false;
    dj.update(&mv, &PlayerInput::new());
    assert!(dj.available);
    mv.on_ground = true;
    dj.update(&mv, &PlayerInput::new());
    assert!(!dj.available);
}

fn hanging_body(corner_y: i64) -> MovingObject {
    let center = Vector2::new(3 * TILE - 64 - 33, corner_y - 64);
    let aabb = AABB::new_full(center, Vector2::new(64, 128), Vector2::new(1000, 1000));
    let mut mv = MovingObject::new(center, aabb);
    mv.pushes_right_wall = true;
    mv.velocity = Vector2::new(40, -50);
    mv
}

fn wall(top_row: usize) -> Terrain {
    let mut rows: Vec<String> = Vec::new();
    for r in (0..8).rev() {
        rows.push(if r <= top_row { "...#....".to_string() } else { "........".to_string() });
    }
    let refs: Vec<&str> = rows.iter().map(|s| s.as_str()).collect();
    grid(&refs)
}

#[test]
fn ledge_grab_within_window() {
    let t = wall(2);
    let lip = 2 * TILE + 64;
    let input = PlayerInput { right: true, ..PlayerInput::new() };
    for corner in [lip - 4, lip - 1, lip, lip + 1] {
        let mut mv = hanging_body(corner);
        let mut lg = LedgeGrabbing::new();
        assert!(lg.grab_ledge(&mut mv, &input, &t), "corner at {}", corner);
        assert_eq!(lg.ledge_tile, (3, 2));
        assert_eq!(mv.position.y, lip - 64 - 4);
        assert_eq!(mv.velocity, Vector2::new(0, 0));
    }
    for corner in [lip - 5, lip + 2] {
        let mut mv = hanging_body(corner);
        let mut lg = LedgeGrabbing::new();
        assert!(!lg.grab_ledge(&mut mv, &input, &t), "corner at {}", corner);
    }
}

#[test]
fn ledge_grab_fails_one_tile_further() {
    let t = wall(1);
    let lip = 2 * TILE + 64;
    let input = PlayerInput { right: true, ..PlayerInput::new() };
    let mut mv = hanging_body(lip + 1);
    let before = mv;
    let mut lg = LedgeGrabbing::new();
    assert!(!lg.grab_ledge(&mut mv, &input, &t));
    assert_eq!(lg.ledge_tile, (0, 0));
    assert_eq!(mv.position, before.position);
}

#[test]
fn ledge_grab_needs_held_direction_and_falling() {
    let t = wall(2);
    let lip = 2 * TILE + 64;
    let mut lg = LedgeGrabbing::new();
    let mut mv = hanging_body(lip);
    assert!(!lg.grab_ledge(&mut mv, &PlayerInput::new(), &t));
    let input = PlayerInput { right: true, ..PlayerInput::new() };
    mv.velocity.y = 10;
    assert!(!lg.grab_ledge(&mut mv, &input, &t));
}

#[test]
fn running_and_stopping() {
    let t = level();
    let (mut p, mut sm) = actor();
    settle(&mut p, &mut sm, &t);
    p.input.right = true;
    frame(&mut p, &mut sm, &t);
    assert_eq!(sm.top_state(), Some(State::Running(Running)));
    frame(&mut p, &mut sm, &t);
    assert!(p.mv.velocity.x >= 550 && p.mv.velocity.x <= 1100);
    assert!(p.mv.position.x > 300);
    p.input.right = false;
    frame(&mut p, &mut sm, &t);
    assert_eq!(sm.top_state(), Some(State::Idle(Idle)));
    p.input.left = true;
    sm.handle_events(&mut p);
    assert_eq!(p.direction, Direction::Left);
}

#[test]
fn draw_reports_active_state() {
    let (p, sm) = actor();
    let d = sm.draw(&p).unwrap();
    assert_eq!(d.state, State::Idle(Idle));
    assert_eq!(d.frame, 0);
    assert_eq!(d.position, Vector2::new(300, 800));
    assert_eq!(d.direction, Direction::Right);
}

#[test]
fn halted_machine_ignores_dispatch() {
    let t = level();
    let (mut p, _) = actor();
    let mut sm = StateMachine::new(State::Idle(Idle));
    let before = p.mv.position;
    sm.handle_events(&mut p);
    sm.update(&mut p, FRAME, &t);
    sm.fixed_update(&mut p);
    assert!(!sm.is_running());
    assert_eq!(p.mv.position, before);
    sm.start(&mut p);
    assert!(sm.is_running());
}

#[test]
fn roll_frames_goes_back_and_forth() {
    let mut a = Animated::new(3);
    let mut seen = Vec::new();
    for _ in 0..6 {
        a.roll_frames();
        seen.push(a.current_frame);
    }
    assert_eq!(seen, vec![1, 2, 1, 0, 1, 2]);
    let mut one = Animated::new(1);
    one.roll_frames();
    one.roll_frames();
    assert_eq!(one.current_frame, 0);
}

#[test]
fn cycle_and_step_frames() {
    let mut a = Animated::new(3);
    a.cycle_frames();
    a.cycle_frames();
    assert!(a.is_over());
    a.cycle_frames();
    assert_eq!(a.current_frame, 0);
    assert!(!a.previous_frame());
    assert!(a.next_frame());
    assert!(a.previous_frame());
    a.next_frame();
    a.reset();
    assert_eq!(a.current_frame, 0);
}

#[test]
fn input_reset_clears_one_shot_intents() {
    let mut i = PlayerInput { left: true, down: true, jump: true, attack: true, slide: true, ..PlayerInput::default() };
    i.reset_actions();
    assert_eq!(i, PlayerInput { left: true, down: true, ..PlayerInput::new() });
}

#[test]
fn grab_and_release_ledge_through_states() {
    let t = grid(&[
        "..........",
        "..........",
        "..........",
        "..........",
        ".....#....",
        ".....#....",
        ".....#....",
        "##########",
    ]);
    let (mut p, mut sm) = actor();
    sm.transition(Trans::Push(State::Jumping(Jumping)), &mut p);
    p.mv.position = Vector2::new(536, 385);
    p.mv.old_position = p.mv.position;
    p.mv.aabb.center = Vector2::new(536, 365);
    p.mv.velocity = Vector2::new(0, -100);
    p.mv.pushes_right_wall = true;
    p.input.right = true;
    sm.update(&mut p, FRAME, &t);
    assert_eq!(sm.top_state(), Some(State::LedgeGrab(platformer::behavior::LedgeGrab)));
    assert_eq!(
        sm.hooks,
        vec![
            Hook::Stop(State::Jumping(Jumping)),
            Hook::Start(State::LedgeGrab(platformer::behavior::LedgeGrab)),
        ]
    );
    assert_eq!(p.lg.ledge_tile, (5, 3));
    assert_eq!(p.mv.position, Vector2::new(536, 384));
    assert_eq!(p.mv.velocity, Vector2::new(0, 0));
    assert!(p.dj.available);

    sm.update(&mut p, FRAME, &t);
    assert_eq!(sm.top_state(), Some(State::LedgeGrab(platformer::behavior::LedgeGrab)));
    assert_eq!(p.mv.position, Vector2::new(536, 384));

    p.input.right = false;
    p.input.left = true;
    sm.update(&mut p, FRAME, &t);
    assert_eq!(sm.top_state(), Some(State::Jumping(Jumping)));
    assert_eq!(p.mv.cannot_go_right_frames, 3);
    assert_eq!(p.mv.cannot_go_left_frames, 0);
    p.input.right = true;
    p.input.left = false;
    sm.handle_events(&mut p);
    assert!(!p.input.right);
    assert_eq!(p.mv.cannot_go_right_frames, 2);
}

#[test]
fn airborne_runner_without_intent_switches_to_idle() {
    let (mut p, mut sm) = actor();
    sm.transition(Trans::Switch(State::Running(Running)), &mut p);
    assert!(!p.mv.on_ground);
    p.input.slide = true;
    sm.handle_events(&mut p);
    assert_eq!(sm.state_stack, vec![State::Idle(Idle)]);
    assert!(!p.input.slide);
    p.input.right = true;
    sm.transition(Trans::Switch(State::Running(Running)), &mut p);
    sm.handle_events(&mut p);
    assert_eq!(sm.top_state(), Some(State::Jumping(Jumping)));
}

#[test]
fn late_jump_while_rising_within_the_window() {
    let t = level();
    let (mut p, mut sm) = actor();
    settle(&mut p, &mut sm, &t);
    p.input.jump = true;
    frame(&mut p, &mut sm, &t);
    assert_eq!(p.mv.frames_from_jump_start, 0);
    sm.fixed_update(&mut p);
    frame(&mut p, &mut sm, &t);
    assert!(p.mv.velocity.y > 0 && p.mv.velocity.y < JUMP_SPEED);
    p.input.jump = true;
    sm.handle_events(&mut p);
    assert_eq!(p.mv.velocity.y, JUMP_SPEED);
    assert!(p.dj.available);
    for _ in 0..4 {
        sm.fixed_update(&mut p);
    }
    frame(&mut p, &mut sm, &t);
    p.input.jump = true;
    sm.handle_events(&mut p);
    assert_eq!(p.mv.velocity.y, JUMP_SPEED);
    assert!(!p.dj.available);
}

fn hang_on_ledge(t: &Terrain) -> (Player, StateMachine) {
    let (mut p, mut sm) = actor();
    sm.transition(Trans::Push(State::Jumping(Jumping)), &mut p);
    p.mv.position = Vector2::new(536, 385);
    p.mv.old_position = p.mv.position;
    p.mv.aabb.center = Vector2::new(536, 365);
    p.mv.velocity = Vector2::new(0, -100);
    p.mv.pushes_right_wall = true;
    p.input.right = true;
    sm.update(&mut p, FRAME, t);
    assert_eq!(sm.top_state(), Some(State::LedgeGrab(platformer::behavior::LedgeGrab)));
    (p, sm)
}

fn ledge_level() -> Terrain {
    grid(&[
        "..........",
        "..........",
        "..........",
        "..........",
        ".....#....",
        ".....#....",
        ".....#....",
        "##########",
    ])
}

#[test]
fn jumping_off_a_ledge_suppresses_input_toward_it() {
    let t = ledge_level();
    let (mut p, mut sm) = hang_on_ledge(&t);
    p.input.jump = true;
    sm.update(&mut p, FRAME, &t);
    assert_eq!(sm.top_state(), Some(State::Jumping(Jumping)));
    assert_eq!(p.mv.velocity.y, JUMP_SPEED);
    assert_eq!(p.mv.cannot_go_right_frames, 3);
    assert_eq!(p.mv.cannot_go_left_frames, 0);
}

#[test]
fn ledge_side_accounts_for_grid_origin() {
    let codes: Vec<Vec<usize>> = vec![vec![0; 10]; 8];
    let shifted = Terrain::from_codes(&codes, Vector2::new(-1000, 0), TILE);
    let t = ledge_level();
    let (mut p, mut sm) = hang_on_ledge(&t);
    p.input.right = false;
    p.input.left = true;
    sm.update(&mut p, FRAME, &shifted);
    assert_eq!(sm.top_state(), Some(State::LedgeGrab(platformer::behavior::LedgeGrab)));
    p.input.left = false;
    p.input.right = true;
    sm.update(&mut p, FRAME, &shifted);
    assert_eq!(sm.top_state(), Some(State::Jumping(Jumping)));
    assert_eq!(p.mv.cannot_go_left_frames, 3);
}
