use vr_gurus::frame::{GrabbablePhysicsState, Gurus};
use vr_gurus::grabable::GrabableState;
use vr_gurus::interact::{ControllerGuru, ControllerIndex, ControllerState, Hit, InteractGuru, TRIGGER_FULL};
use vr_gurus::moveable::{Fixed, MoveData, Moveable, MoveableIntention, Motion, Probe};
use vr_gurus::physics::{PhysicsGuru, TicketError};
use vr_gurus::ui::{SliderAction, SliderMode};

/// Trigger travel in the library's units, truncated as the device layer does.
fn trigger(amount: f64) -> u32 {
    (amount * TRIGGER_FULL as f64) as u32
}

fn state(amount: f64, menu: bool) -> ControllerState {
    ControllerState { trigger: trigger(amount), trigger_delta: 0, menu }
}

fn touching() -> Probe<u8> {
    Probe { hit: None, contains: true }
}

fn pointing_at() -> Probe<u8> {
    Probe { hit: Some(Hit { toi: 3, data: 7 }), contains: false }
}

fn away() -> Probe<u8> {
    Probe { hit: None, contains: false }
}

/// Runs one frame of a moveable object.
fn frame(
    m: &mut Moveable,
    primary: ControllerState,
    secondary: ControllerState,
    p: Probe<u8>,
    s: Probe<u8>,
    dt: u64,
    yank_speed: u64,
) -> MoveData {
    let mut g = InteractGuru::<u8>::new(primary, secondary, dt);
    let t = m.update(&mut g, p, s, yank_speed);
    let r = g.resolve();
    m.finish(t, &r)
}

#[test]
fn grab_with_trigger_then_release() {
    let mut m = Moveable::default();
    let d = frame(&mut m, state(0.6, false), state(0.0, false), touching(), away(), 10, 100);
    assert_eq!(m, Moveable::Grabbed { index: ControllerIndex::primary() });
    assert_eq!(
        d,
        MoveData {
            intent: MoveableIntention::Manipulate,
            fixed: Some(Fixed { by: ControllerIndex::primary(), motion: Motion::Follow }),
        }
    );
    let d = frame(&mut m, state(0.3, false), state(0.0, false), touching(), away(), 10, 100);
    assert_eq!(m, Moveable::Free);
    assert_eq!(d, MoveData { intent: MoveableIntention::Free, fixed: None });
}

#[test]
fn trigger_at_half_neither_grabs_nor_releases() {
    let mut m = Moveable::default();
    frame(&mut m, state(0.5, false), state(0.0, false), touching(), away(), 10, 100);
    assert_eq!(m, Moveable::Free);
    let mut held = Moveable::Grabbed { index: ControllerIndex::secondary() };
    frame(&mut held, state(0.0, false), state(0.5, false), away(), touching(), 10, 100);
    assert_eq!(held, Moveable::Grabbed { index: ControllerIndex::secondary() });
}

#[test]
fn yank_runs_its_course_then_release_frees() {
    let mut m = Moveable::Free;
    let d = frame(&mut m, state(0.0, true), state(0.0, false), pointing_at(), away(), 30, 100);
    assert_eq!(m, Moveable::Yanked { progress: 0, index: ControllerIndex::primary() });
    assert_eq!(
        d.fixed,
        Some(Fixed { by: ControllerIndex::primary(), motion: Motion::Approach { step: 30, span: 130 } })
    );
    assert_eq!(d.intent, MoveableIntention::Move);
    let d = frame(&mut m, state(0.0, true), state(0.0, false), pointing_at(), away(), 30, 100);
    assert_eq!(m, Moveable::Yanked { progress: 30, index: ControllerIndex::primary() });
    assert_eq!(d.fixed.unwrap().motion, Motion::Approach { step: 30, span: 100 });
    frame(&mut m, state(0.0, true), state(0.0, false), pointing_at(), away(), 30, 100);
    frame(&mut m, state(0.0, true), state(0.0, false), pointing_at(), away(), 30, 100);
    assert_eq!(m, Moveable::Yanked { progress: 90, index: ControllerIndex::primary() });
    let d = frame(&mut m, state(0.0, true), state(0.0, false), pointing_at(), away(), 30, 100);
    assert_eq!(m, Moveable::Yanked { progress: 100, index: ControllerIndex::primary() });
    assert_eq!(d.fixed.unwrap().motion, Motion::Locked);
    frame(&mut m, state(0.0, false), state(0.0, false), pointing_at(), away(), 30, 100);
    assert_eq!(m, Moveable::Free);
}

#[test]
fn releasing_menu_mid_flight_keeps_the_yank() {
    let mut m = Moveable::Yanked { progress: 20, index: ControllerIndex::secondary() };
    frame(&mut m, state(0.0, false), state(0.0, false), away(), away(), 30, 100);
    assert_eq!(m, Moveable::Yanked { progress: 50, index: ControllerIndex::secondary() });
}

#[test]
fn primary_is_asked_before_secondary() {
    let mut m = Moveable::Free;
    frame(&mut m, state(0.6, false), state(0.0, true), touching(), pointing_at(), 10, 100);
    assert_eq!(m, Moveable::Grabbed { index: ControllerIndex::primary() });
    let mut m = Moveable::Free;
    frame(&mut m, state(0.0, false), state(0.0, true), touching(), pointing_at(), 10, 100);
    assert_eq!(m, Moveable::Yanked { progress: 0, index: ControllerIndex::secondary() });
}

#[test]
fn yank_wins_over_grab_on_one_controller() {
    let mut m = Moveable::Free;
    let both = Probe { hit: Some(Hit { toi: 1, data: 1 }), contains: true };
    frame(&mut m, state(0.9, true), state(0.0, false), both, away(), 10, 100);
    assert_eq!(m, Moveable::Yanked { progress: 0, index: ControllerIndex::primary() });
}

#[test]
fn held_object_blocks_its_controller() {
    let m = Moveable::Grabbed { index: ControllerIndex::primary() };
    let mut g = InteractGuru::<u8>::new(state(0.9, false), state(0.0, false), 10);
    let other = g.primary.pointing(Some(Hit { toi: 1, data: 9 }), true);
    let t = m.update(&mut g, touching(), away(), 100);
    let r = g.resolve();
    assert_eq!(r.pointed(other), None);
    assert!(!r.touched(t.primary.touch));
}

#[test]
fn free_object_hides_what_lies_behind_it() {
    let m = Moveable::Free;
    let mut g = InteractGuru::<u8>::new(state(0.0, false), state(0.0, false), 10);
    let behind = g.primary.pointing(Some(Hit { toi: 9, data: 9 }), false);
    let t = m.update(&mut g, Probe { hit: Some(Hit { toi: 4, data: 4 }), contains: false }, away(), 100);
    let r = g.resolve();
    assert_eq!(r.pointed(behind), None);
    assert_eq!(r.pointed(t.primary.point), Some(&4));
}

#[test]
fn zero_yank_duration_locks_at_once() {
    let mut m = Moveable::Free;
    let d = frame(&mut m, state(0.0, true), state(0.0, false), pointing_at(), away(), 10, 0);
    assert_eq!(m, Moveable::Yanked { progress: 0, index: ControllerIndex::primary() });
    assert_eq!(d.fixed.unwrap().motion, Motion::Locked);
}

#[test]
fn grabbable_body_follows_the_physics_step() {
    let mut obj = GrabbablePhysicsState::new_free(String::from("before"));
    let mut gurus = Gurus {
        interact: InteractGuru::<u8>::new(state(0.6, false), state(0.0, false), 10),
        physics: PhysicsGuru::new(4),
    };
    let t = obj.update(&mut gurus.interact, &mut gurus.physics, touching(), away(), 100);
    assert_eq!(gurus.physics.submitted(), &vec![String::from("before")]);
    let mut reply = gurus.resolve(vec![String::from("after")]);
    let d = obj.finish(t, &mut reply).unwrap();
    assert_eq!(obj.body, "after");
    assert_eq!(obj.mov, Moveable::Grabbed { index: ControllerIndex::primary() });
    assert_eq!(d.intent, MoveableIntention::Manipulate);
    assert_eq!(obj.finish(t, &mut reply), Err(TicketError::Taken));
    assert_eq!(obj.body, "after");
}

#[test]
fn grabable_state_grabs_on_press_and_holds() {
    let mut c = ControllerGuru::<u8>::new(
        ControllerState { trigger: TRIGGER_FULL, trigger_delta: TRIGGER_FULL as i64, menu: false },
        ControllerIndex::primary(),
    );
    let s: GrabableState<i32> = GrabableState::default();
    let t = s.update(&mut c, touching());
    let mut g = InteractGuru::<u8>::new(c.state(), state(0.0, false), 0);
    g.primary = c;
    let r = g.resolve();
    assert_eq!(t.finish(&r, 5), GrabableState::Held { offset: 5 });

    let mut c = ControllerGuru::<u8>::new(state(0.9, false), ControllerIndex::primary());
    let t = GrabableState::Held { offset: 5 }.update(&mut c, away());
    let mut g = InteractGuru::<u8>::new(c.state(), state(0.0, false), 0);
    g.primary = c;
    assert_eq!(t.finish(&g.resolve(), 8), GrabableState::Held { offset: 5 });
}

#[test]
fn grabable_state_points_then_frees() {
    let mut c = ControllerGuru::<u8>::new(state(0.0, false), ControllerIndex::primary());
    let t = GrabableState::<i32>::Free.update(&mut c, pointing_at());
    let mut g = InteractGuru::<u8>::new(c.state(), state(0.0, false), 0);
    g.primary = c;
    assert_eq!(t.finish(&g.resolve(), 0), GrabableState::Pointed);

    let mut c = ControllerGuru::<u8>::new(state(0.2, false), ControllerIndex::primary());
    let t = GrabableState::Held { offset: 1 }.update(&mut c, pointing_at());
    let mut g = InteractGuru::<u8>::new(c.state(), state(0.0, false), 0);
    g.primary = c;
    assert_eq!(t.finish(&g.resolve(), 0), GrabableState::Free);
}

#[test]
fn slider_modes_follow_the_grip() {
    let held = MoveData {
        intent: MoveableIntention::Manipulate,
        fixed: Some(Fixed { by: ControllerIndex::primary(), motion: Motion::Follow }),
    };
    let yanked = MoveData {
        intent: MoveableIntention::Move,
        fixed: Some(Fixed { by: ControllerIndex::primary(), motion: Motion::Locked }),
    };
    let free = MoveData { intent: MoveableIntention::Free, fixed: None };
    assert_eq!(SliderMode::Unheld.next(held, true), (SliderMode::Sliding, SliderAction::Keep));
    assert_eq!(SliderMode::Unheld.next(held, false), (SliderMode::Moving, SliderAction::Keep));
    assert_eq!(SliderMode::Sliding.next(held, false), (SliderMode::Sliding, SliderAction::SetValue));
    assert_eq!(SliderMode::Moving.next(held, true), (SliderMode::Moving, SliderAction::MoveTo));
    assert_eq!(SliderMode::Sliding.next(yanked, true), (SliderMode::Moving, SliderAction::MoveTo));
    assert_eq!(SliderMode::Sliding.next(free, true), (SliderMode::Unheld, SliderAction::Keep));
}
