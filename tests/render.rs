use clay::geometry::Sphere as Ball;
use clay::material::Luminous;
use clay::pack::{Float3, Mat3};
use clay::render::{another_pass, key_held, key_mask_update, needs_clear, Event, RenderError, RenderLoop, Screen, Stage};
use clay::scene::ListScene;
use clay::shape::Shape;
use clay::view::{ProjView, Push};
use clay::worker::program_source;

fn f3(x: f32, y: f32, z: f32) -> Float3 {
    Float3 { x: x.to_bits(), y: y.to_bits(), z: z.to_bits() }
}

fn identity() -> Mat3 {
    Mat3 { c0: f3(1.0, 0.0, 0.0), c1: f3(0.0, 1.0, 0.0), c2: f3(0.0, 0.0, 1.0) }
}

#[test]
fn proj_view_arguments() {
    let v = ProjView::new(f3(1.0, 2.0, 3.0), identity());
    assert_eq!(ProjView::args_count(), 2);
    let args = v.args();
    assert_eq!(args.len(), 2);
    assert_eq!(args[0], vec![1.0f32.to_bits(), 2.0f32.to_bits(), 3.0f32.to_bits()]);
    assert_eq!(args[1].len(), 16);
    let one = 1.0f32.to_bits();
    assert_eq!(args[1], vec![one, 0, 0, 0, 0, one, 0, 0, 0, 0, one, 0, 0, 0, 0, 0]);
}

#[test]
fn frame_cycle() {
    let mut l = RenderLoop::new();
    assert_eq!(l.handle(Event::Bind), Ok(()));
    assert_eq!(l.handle(Event::Dispatch), Ok(()));
    assert_eq!(l.handle(Event::Dispatch), Ok(()));
    assert_eq!(l.passes, 2);
    assert_eq!(l.handle(Event::ReadBack), Ok(()));
    assert_eq!(l.stage, Stage::Readback);
    assert_eq!(l.handle(Event::Present), Ok(()));
    assert_eq!(l.stage, Stage::Idle);
    assert_eq!(l.handle(Event::Clear), Ok(()));
    assert_eq!(l.passes, 0);
}

#[test]
fn events_out_of_order_are_refused() {
    let mut l = RenderLoop::new();
    assert_eq!(l.handle(Event::Dispatch), Err(RenderError::WrongStage));
    assert_eq!(l.handle(Event::ReadBack), Err(RenderError::WrongStage));
    assert_eq!(l.handle(Event::Present), Err(RenderError::WrongStage));
    assert_eq!(l, RenderLoop::new());
    l.handle(Event::Bind).unwrap();
    assert_eq!(l.handle(Event::Bind), Err(RenderError::WrongStage));
    assert_eq!(l.handle(Event::Change), Ok(()));
    assert_eq!(l.stage, Stage::Idle);
}

#[test]
fn pass_counter_saturates_with_error() {
    let mut l = RenderLoop { stage: Stage::Dispatched, passes: u64::MAX };
    assert_eq!(l.handle(Event::Dispatch), Err(RenderError::TooManyPasses));
    assert_eq!(l.passes, u64::MAX);
}

#[test]
fn frame_budget_and_clearing() {
    assert!(another_pass(19_999, 20_000));
    assert!(!another_pass(20_000, 20_000));
    assert!(needs_clear(true, 0));
    assert!(needs_clear(false, 4));
    assert!(!needs_clear(false, 0));
}

#[test]
fn screen_sizes() {
    let s = Screen::new(1000, 800).unwrap();
    assert_eq!(s.dims(), (1000, 800));
    assert_eq!(s.len(), 1000 * 800 * 3);
    assert_eq!(s.pitch(), 3000);
    assert!(s.data().iter().all(|b| *b == 0));
    assert_eq!(Screen::new(usize::MAX, 2).err(), Some(RenderError::ScreenTooLarge));
    let e = Screen::new(0, 5).unwrap();
    assert_eq!(e.len(), 0);
}

#[test]
fn screen_store_checks_size() {
    let mut s = Screen::new(2, 2).unwrap();
    assert_eq!(s.store(vec![1; 11]), Err(RenderError::SizeMismatch));
    assert_eq!(s.data(), &vec![0; 12]);
    assert_eq!(s.store(vec![7; 12]), Ok(()));
    assert_eq!(s.data(), &vec![7; 12]);
}

#[test]
fn two_covered_balls_end_to_end() {
    let unit = |x: f32| Ball::new(f3(x, 0.0, 0.0), 1.0f32.to_bits()).cover(Luminous {});
    let scene = ListScene::new(vec![unit(-1.5), unit(1.5)]);
    assert_eq!(scene.buffer_int().len(), 0);
    assert_eq!(scene.buffer_float().len(), 8);
    let view = ProjView::new(f3(0.0, -5.0, 0.0), identity());
    let text = program_source::<clay::object::Covered<Ball, Luminous>, ProjView>();
    assert!(!text.is_empty());
    assert_eq!(view.args().len(), 2);

    let (w, h) = (64, 48);
    let mut screen = Screen::new(w, h).unwrap();
    let mut l = RenderLoop::new();
    l.handle(Event::Bind).unwrap();
    l.handle(Event::Dispatch).unwrap();
    l.handle(Event::ReadBack).unwrap();
    assert_eq!(screen.store(vec![128; w * h * 3]), Ok(()));
    l.handle(Event::Present).unwrap();
    assert_eq!(screen.len(), w * h * 3);
    assert_eq!(l.passes, 1);
}

#[test]
fn key_mask_press_and_release() {
    let m = key_mask_update(0, 3, true);
    assert_eq!(m, 8);
    assert!(key_held(m, 3));
    assert!(!key_held(m, 2));
    let m = key_mask_update(m, 11, true);
    assert_eq!(m, 8 | 2048);
    let m = key_mask_update(m, 3, false);
    assert_eq!(m, 2048);
    assert!(!key_held(m, 3));
}
