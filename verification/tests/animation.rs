use matrix_rain::animation::{
    sat_add_ms, Animation, AnimationStep, Easing, Transition,
};
use matrix_rain::color::Color;
use matrix_rain::matrix::matrix_character::MatrixCharacter;
use matrix_rain::matrix::util::Timer;

const WHITE: Color = Color { r: 255, g: 255, b: 255, a: 255 };
const GREEN: Color = Color { r: 0, g: 255, b: 0, a: 255 };
const BLACK: Color = Color { r: 0, g: 0, b: 0, a: 255 };

fn step(color: Color, hold_ms: u64, transition: Transition) -> AnimationStep {
    AnimationStep { color, duration_ms: hold_ms, transition }
}

fn three_step_sequence() -> Vec<AnimationStep> {
    vec![
        step(WHITE, 100, Transition::new(1000, Easing::EaseOut, false)),
        step(GREEN, 3000, Transition::new(1000, Easing::EaseOut, false)),
        step(BLACK, 500, Transition::new(2000, Easing::EaseOut, false)),
    ]
}

#[test]
fn transition_new_and_readiness() {
    let t = Transition::new(5, Easing::EaseIn, true);
    assert_eq!(t.duration_ms, 5);
    assert_eq!(t.easing, Easing::EaseIn);
    assert!(t.trigger_required);
    assert!(!t.triggered);
    assert!(!t.is_ready_to_progress());

    let ready = Transition::new(5, Easing::Linear, false);
    assert!(ready.is_ready_to_progress());
}

#[test]
fn empty_animation_concludes_immediately() {
    let mut a = Animation::new(Vec::new());
    assert!(!a.concluded);
    a.update(0);
    assert!(a.concluded);
    assert_eq!(a.current_step_index, 0);
}

#[test]
fn single_step_concludes_exactly_at_hold() {
    let steps = vec![step(Color { r: 10, g: 20, b: 30, a: 255 }, 100, Transition::new(
        1000,
        Easing::EaseIn,
        false,
    ))];
    let mut a = Animation::new(steps);
    a.update(99);
    assert_eq!(a.current_step_index, 0);
    assert!(!a.concluded);
    assert_eq!(a.current_color, Color { r: 10, g: 20, b: 30, a: 255 });
    a.update(1);
    assert_eq!(a.current_step_index, 0);
    assert!(a.concluded);
    a.update(5000);
    assert_eq!(a.current_step_index, 0);
    assert!(a.concluded);
    assert_eq!(a.current_color, Color { r: 10, g: 20, b: 30, a: 255 });
}

#[test]
fn scenario_white_green_black_timeline() {
    let mut a = Animation::new(three_step_sequence());

    // t = 50 ms: within the white hold.
    a.update(50);
    assert_eq!(a.current_color, WHITE);
    assert_eq!(a.current_step_index, 0);

    // t = 150 ms: 50 ms into the 1000 ms transition; progress 50 of 1000,
    // eased through EaseOut to 98, blended white toward green.
    a.update(100);
    assert_eq!(a.current_step_index, 0);
    assert_eq!(a.current_color, Color { r: 230, g: 255, b: 230, a: 255 });

    // t = 1100 ms: the white step's hold and transition have fully elapsed;
    // the index has advanced and the color has reached plain green.
    a.update(950);
    assert_eq!(a.current_step_index, 1);
    assert_eq!(a.current_color, GREEN);
    assert!(!a.concluded);
}

#[test]
fn gated_transition_pins_color_and_skips_blend() {
    // The standard glyph sequence: the first transition waits for a trigger.
    let mut a = Animation::new(MatrixCharacter::create_animation_steps(255));
    a.update(100);
    // Hold elapsed, trigger never fired: the color is pinned to white, no
    // blend is evaluated; the untriggered transition contributes no duration,
    // so the step index moves on.
    assert_eq!(a.current_color, WHITE);
    assert_eq!(a.current_step_index, 1);
}

#[test]
fn trigger_rewinds_and_starts_the_blend_on_next_update() {
    let mut a = Animation::new(MatrixCharacter::create_animation_steps(255));
    a.update(50);
    assert_eq!(a.current_color, WHITE);
    a.update(40);
    assert_eq!(a.current_color, WHITE);
    assert_eq!(a.current_step_index, 0);

    a.trigger_transition();
    assert_eq!(a.step_elapsed_ms, 100);
    assert!(a.steps[0].transition.triggered);

    // 100 ms into the armed 1000 ms transition: progress 100, eased through
    // EaseOut to 190, blended white toward the green of alpha 255.
    a.update(100);
    assert_eq!(a.current_step_index, 0);
    assert_eq!(a.current_color, Color { r: 207, g: 239, b: 209, a: 255 });
}

#[test]
fn trigger_is_a_noop_without_a_gate() {
    let mut a = Animation::new(three_step_sequence());
    a.update(30);
    let elapsed_before = a.step_elapsed_ms;
    a.trigger_transition();
    assert_eq!(a.step_elapsed_ms, elapsed_before);
    assert!(!a.steps[0].transition.triggered);
}

#[test]
fn zero_hold_and_zero_transition_advance_in_one_update() {
    let steps = vec![
        step(WHITE, 0, Transition::new(0, Easing::Linear, false)),
        step(GREEN, 0, Transition::new(0, Easing::Linear, false)),
        step(BLACK, 50, Transition::new(0, Easing::Linear, false)),
    ];
    let mut a = Animation::new(steps);
    a.update(0);
    assert_eq!(a.current_step_index, 2);
    assert!(!a.concluded);
    a.update(50);
    assert!(a.concluded);
    assert_eq!(a.current_color, BLACK);
}

#[test]
fn standard_steps_shape() {
    let steps = MatrixCharacter::create_animation_steps(77);
    assert_eq!(steps.len(), 3);
    assert_eq!(steps[0].color, WHITE);
    assert_eq!(steps[0].duration_ms, 100);
    assert_eq!(steps[0].transition.duration_ms, 1000);
    assert_eq!(steps[0].transition.easing, Easing::EaseOut);
    assert!(steps[0].transition.trigger_required);
    assert!(!steps[0].transition.triggered);
    assert_eq!(steps[1].color, Color { r: 3, g: 176, b: 15, a: 77 });
    assert_eq!(steps[1].duration_ms, 3000);
    assert!(!steps[1].transition.trigger_required);
    assert_eq!(steps[2].color, BLACK);
    assert_eq!(steps[2].duration_ms, 500);
    assert_eq!(steps[2].transition.duration_ms, 2000);
}

#[test]
fn saturating_add_stops_at_the_top() {
    assert_eq!(sat_add_ms(2, 3), 5);
    assert_eq!(sat_add_ms(u64::MAX - 1, 1), u64::MAX);
    assert_eq!(sat_add_ms(u64::MAX - 1, 5), u64::MAX);
    assert_eq!(sat_add_ms(u64::MAX, u64::MAX), u64::MAX);
}

#[test]
fn timer_counts_up_and_resets() {
    let mut t = Timer::new(100);
    assert_eq!(t.elapsed_ms, 0);
    assert_eq!(t.end_ms, 100);
    t.advance(40);
    assert!(!t.expired());
    assert!(!t.exceeded());
    t.advance(60);
    assert!(t.expired());
    assert!(!t.exceeded());
    t.advance(1);
    assert!(t.exceeded());
    t.reset();
    assert_eq!(t.elapsed_ms, 0);
    assert_eq!(t.end_ms, 100);
    t.advance(u64::MAX);
    t.advance(u64::MAX);
    assert_eq!(t.elapsed_ms, u64::MAX);
}
