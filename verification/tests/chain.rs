use matrix_rain::color::Color;
use matrix_rain::draw::DrawCommand;
use matrix_rain::matrix::matrix_character::MatrixCharacter;
use matrix_rain::matrix::util::AlphanumericMatrix;

const ALPHABET: [char; 19] = [
    'E', 'I', 'O', 'P', 'Q', 'R', 'T', 'U', 'W', 'Y', '0', '1', '2', '3', '4', '5', '7', '8', '9',
];

fn in_alphabet(c: char) -> bool {
    ALPHABET.contains(&c)
}

#[test]
fn sampler_stays_in_the_restricted_alphabet() {
    let sampler = AlphanumericMatrix;
    for _ in 0..200 {
        assert!(in_alphabet(sampler.sample()));
    }
    for _ in 0..50 {
        assert!(in_alphabet(MatrixCharacter::generate_random_character()));
    }
}

#[test]
fn fresh_node_shape() {
    let node = MatrixCharacter::new(-2, 7, 12, 250);
    assert_eq!(node.y_pos, -2);
    assert_eq!(node.x_pos, 7);
    assert_eq!(node.max_ancestors, 12);
    assert!(node.child.is_none());
    assert!(node.alive);
    assert_eq!(node.color, Color { r: 255, g: 255, b: 255, a: 255 });
    assert!(in_alphabet(node.glyph));
    assert_eq!(node.child_spawn_timer.elapsed_ms, 0);
    assert_eq!(node.child_spawn_timer.end_ms, 250);
    assert_eq!(node.glyph_change_timer.elapsed_ms, 0);
    assert!((100..=700).contains(&node.glyph_change_timer.end_ms));
    assert_eq!(node.animation.steps.len(), 3);
    let green = node.animation.steps[1].color;
    assert_eq!((green.r, green.g, green.b), (3, 176, 15));
    assert!(green.a >= 50);
}

#[test]
fn chain_never_outgrows_its_depth_budget() {
    // Head at row 0 with depth limit 2: the chain may reach rows 0, 1 and 2,
    // so never more than 3 nodes.
    let mut node = MatrixCharacter::new(0, 0, 2, 0);
    let mut frame: Vec<DrawCommand> = Vec::new();
    for _ in 0..10 {
        node.traverse_and_tick(10, 30, &mut frame);
        assert!(node.chain_length() <= 3);
    }
    assert_eq!(node.chain_length(), 3);
}

#[test]
fn node_at_the_depth_limit_never_spawns() {
    let mut node = MatrixCharacter::new(5, 0, 5, 0);
    let mut frame: Vec<DrawCommand> = Vec::new();
    for _ in 0..5 {
        node.traverse_and_tick(1000, 30, &mut frame);
    }
    assert_eq!(node.chain_length(), 1);
    assert!(node.child.is_none());
}

fn alive_flags(head: &MatrixCharacter) -> Vec<bool> {
    let mut flags = Vec::new();
    let mut cur = head;
    loop {
        flags.push(cur.alive);
        match &cur.child {
            Some(c) => cur = c,
            None => return flags,
        }
    }
}

#[test]
fn liveness_propagates_tail_to_head() {
    let mut node = MatrixCharacter::new(0, 0, 3, 0);
    let mut frame: Vec<DrawCommand> = Vec::new();
    let mut head_died = false;
    for _ in 0..60 {
        node.traverse_and_tick(500, 30, &mut frame);
        // No node may be dead while its child still lives.
        let flags = alive_flags(&node);
        for w in flags.windows(2) {
            assert!(w[0] || !w[1], "dead parent above a live child: {:?}", flags);
        }
        if !node.alive {
            head_died = true;
        }
    }
    assert!(head_died, "the chain never expired");
}

#[test]
fn tick_draws_the_whole_chain_tail_first() {
    let mut node = MatrixCharacter::new(2, 4, 10, 0);
    let mut frame: Vec<DrawCommand> = Vec::new();
    node.traverse_and_tick(10, 30, &mut frame);
    // First tick: the head existed alone when the tick began, and the child
    // it spawned does not draw yet.
    assert_eq!(frame.len(), 1);
    match frame[0] {
        DrawCommand::Glyph { glyph, x_px, y_px, font_size_px, color } => {
            assert!(in_alphabet(glyph));
            assert_eq!(x_px, 4 * 30);
            assert_eq!(y_px, 2 * 30);
            assert_eq!(font_size_px, 30);
            assert_eq!(color, node.color);
        },
        _ => panic!("expected a glyph command"),
    }

    // Second tick: head and child both draw, the deeper node first.
    frame.clear();
    node.traverse_and_tick(10, 30, &mut frame);
    assert_eq!(frame.len(), 2);
    match (&frame[0], &frame[1]) {
        (
            DrawCommand::Glyph { y_px: y_child, .. },
            DrawCommand::Glyph { y_px: y_head, .. },
        ) => {
            assert_eq!(*y_child, 3 * 30);
            assert_eq!(*y_head, 2 * 30);
        },
        _ => panic!("expected two glyph commands"),
    }
}

#[test]
fn glyph_swaps_once_its_interval_elapses() {
    let mut node = MatrixCharacter::new(0, 0, 0, 1000);
    let mut frame: Vec<DrawCommand> = Vec::new();
    // The swap interval is at most 700 ms, so one 700 ms tick must reset the
    // swap timer and leave an alphabet glyph.
    node.traverse_and_tick(700, 30, &mut frame);
    assert_eq!(node.glyph_change_timer.elapsed_ms, 0);
    assert!(in_alphabet(node.glyph));
    // A short tick right after must not swap: the timer keeps counting.
    let before = node.glyph;
    node.traverse_and_tick(1, 30, &mut frame);
    assert_eq!(node.glyph_change_timer.elapsed_ms, 1);
    assert_eq!(node.glyph, before);
}

#[test]
fn spawning_a_child_triggers_the_parents_fade() {
    let mut node = MatrixCharacter::new(0, 0, 4, 50);
    let mut frame: Vec<DrawCommand> = Vec::new();
    node.traverse_and_tick(30, 30, &mut frame);
    assert!(node.child.is_none());
    assert!(!node.animation.steps[0].transition.triggered);
    // The spawn timer strictly exceeds its 50 ms interval while the head is
    // still on its gated white step: a child appears one row deeper, and the
    // head's gated transition is armed.
    node.traverse_and_tick(31, 30, &mut frame);
    let child = node.child.as_ref().expect("child spawned");
    assert_eq!(child.y_pos, 1);
    assert_eq!(child.x_pos, 0);
    assert_eq!(child.max_ancestors, 4);
    assert_eq!(child.child_spawn_timer.end_ms, 50);
    assert!(node.animation.steps[0].transition.triggered);
}
