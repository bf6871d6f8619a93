use macropad_digits::color::Color;
use macropad_digits::frame::{get_led_states, map_coord_to_index, LED_COUNT};
use macropad_digits::glyph::glyph_cells;
use macropad_digits::sequencer::{next_digit, Action, Event, Phase, Sequencer, FRAME_INTERVAL_MS};

fn red() -> Color {
    Color::new(255, 0, 0)
}

fn off() -> Color {
    Color::new(0, 0, 0)
}

#[test]
fn index_of_corners_and_centre() {
    assert_eq!(map_coord_to_index(0, 0), 0);
    assert_eq!(map_coord_to_index(3, 2), 11);
    assert_eq!(map_coord_to_index(1, 1), 4);
    assert_eq!(map_coord_to_index(2, 0), 6);
}

#[test]
fn index_is_a_bijection_onto_the_strip() {
    let mut seen = [false; 12];
    for row in 0..4u8 {
        for column in 0..3u8 {
            let i = map_coord_to_index(row, column) as usize;
            assert!(i < LED_COUNT);
            assert!(!seen[i]);
            seen[i] = true;
        }
    }
    assert!(seen.iter().all(|&s| s));
}

#[test]
fn colors_are_the_design_values() {
    assert_eq!(Color::off(), Color { r: 0, g: 0, b: 0 });
    assert_eq!(Color::red(), Color { r: 255, g: 0, b: 0 });
}

#[test]
fn glyph_cells_lie_on_the_grid() {
    for d in 0..10u8 {
        let cells = glyph_cells(d);
        assert!(!cells.is_empty() && cells.len() <= 12);
        for &(r, c) in cells.iter() {
            assert!(r <= 3 && c <= 2);
        }
    }
}

#[test]
fn glyph_sizes() {
    let sizes: Vec<usize> = (0..10u8).map(|d| glyph_cells(d).len()).collect();
    assert_eq!(sizes, vec![10, 7, 9, 9, 8, 9, 10, 6, 11, 9]);
}

#[test]
fn digit_zero_frame() {
    let s = get_led_states(0);
    assert_eq!(s.len(), 12);
    assert_eq!(s[0], red());
    assert_eq!(s[4], off());
    assert_eq!(s[7], off());
    let lit: Vec<usize> = (0..12).filter(|&i| s[i] == red()).collect();
    assert_eq!(lit, vec![0, 1, 2, 3, 5, 6, 8, 9, 10, 11]);
}

#[test]
fn digit_seven_frame() {
    let s = get_led_states(7);
    let lit: Vec<usize> = (0..12).filter(|&i| s[i] == red()).collect();
    assert_eq!(lit, vec![0, 1, 2, 5, 8, 11]);
}

#[test]
fn digit_eight_frame_lights_all_but_the_centre() {
    let s = get_led_states(8);
    for i in 0..12 {
        assert_eq!(s[i], if i == 4 { off() } else { red() });
    }
}

#[test]
fn frame_matches_glyph_for_every_digit() {
    for d in 0..10u8 {
        let s = get_led_states(d);
        let cells = glyph_cells(d);
        for i in 0..12usize {
            let lit = cells.iter().any(|&(r, c)| (r as usize) * 3 + c as usize == i);
            assert_eq!(s[i], if lit { red() } else { off() });
        }
    }
}

#[test]
fn render_twice_gives_equal_frames() {
    for d in 0..10u8 {
        assert_eq!(get_led_states(d), get_led_states(d));
    }
}

#[test]
fn all_digits_render_differently() {
    for a in 0..10u8 {
        for b in (a + 1)..10u8 {
            assert_ne!(get_led_states(a), get_led_states(b));
        }
    }
}

#[test]
fn next_digit_wraps_after_nine() {
    assert_eq!(next_digit(0), 1);
    assert_eq!(next_digit(5), 6);
    assert_eq!(next_digit(9), 0);
}

#[test]
fn sequencer_starts_on_zero() {
    let s = Sequencer::new();
    assert_eq!(s.digit, 0);
    assert_eq!(s.phase, Phase::Show);
    match s.next_action() {
        Action::Transmit(states) => assert_eq!(states, get_led_states(0)),
        Action::Wait(_) => panic!("expected a frame first"),
    }
}

#[test]
fn sequencer_waits_after_transmitting() {
    let mut s = Sequencer::new();
    s.on_event(Event::Transmitted);
    assert_eq!(s.digit, 0);
    assert_eq!(s.phase, Phase::Pause);
    match s.next_action() {
        Action::Wait(ms) => assert_eq!(ms, FRAME_INTERVAL_MS),
        Action::Transmit(_) => panic!("expected a wait"),
    }
    assert_eq!(FRAME_INTERVAL_MS, 500);
    s.on_event(Event::Waited);
    assert_eq!(s.digit, 1);
    assert_eq!(s.phase, Phase::Show);
}

#[test]
fn sequencer_ignores_out_of_turn_events() {
    let mut s = Sequencer::new();
    s.on_event(Event::Waited);
    assert_eq!(s, Sequencer::new());
    s.on_event(Event::Transmitted);
    let paused = s;
    s.on_event(Event::Transmitted);
    assert_eq!(s, paused);
}

#[test]
fn full_pass_transmits_ten_frames_before_repeating_zero() {
    let mut s = Sequencer::new();
    let mut shown: Vec<u8> = Vec::new();
    let mut transmits = 0;
    loop {
        match s.next_action() {
            Action::Transmit(states) => {
                if transmits > 0 && s.digit == 0 {
                    break;
                }
                assert_eq!(states, get_led_states(s.digit));
                shown.push(s.digit);
                transmits += 1;
                s.on_event(Event::Transmitted);
            }
            Action::Wait(ms) => {
                assert_eq!(ms, 500);
                s.on_event(Event::Waited);
            }
        }
    }
    assert_eq!(transmits, 10);
    assert_eq!(shown, vec![0, 1, 2, 3, 4, 5, 6, 7, 8, 9]);
}

#[test]
fn digits_cycle_without_end() {
    let mut s = Sequencer::new();
    for n in 0..35u32 {
        assert_eq!(s.digit as u32, n % 10);
        s.on_event(Event::Transmitted);
        s.on_event(Event::Waited);
    }
}
