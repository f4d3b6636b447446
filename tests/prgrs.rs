use prgrs::length::{bar_length, resolve, steps_of, DEFAULT_PROPORTION, PROPORTION_SCALE};
use prgrs::render::{filled_steps, line_over_bar, overwrite, percent, render_frame};
use prgrs::{write_line_text, Length, Prgrs};

#[test]
fn test_prgrs() {
    assert_eq!(Prgrs::new(1..100, 100).advance().0, (1..100).next());
    let mut p = Prgrs::new(1..100, 100);
    let mut last = None;
    while let (Some(x), _) = p.advance() {
        last = Some(x);
    }
    assert_eq!(last, (1..100).last());
    assert_eq!(Prgrs::new(0..0, 0).advance().0, None);
}

#[test]
fn wrapped_elements_pass_through_in_order() {
    let mut p = Prgrs::new(1..100, 99);
    let mut seen = Vec::new();
    loop {
        let (x, text) = p.advance();
        match x {
            Some(v) => {
                assert!(text.ends_with('\r'));
                seen.push(v);
            }
            None => {
                assert!(text.ends_with("\r\n"));
                break;
            }
        }
    }
    assert_eq!(seen, (1..100).collect::<Vec<i32>>());
}

#[test]
fn empty_sequence_yields_nothing_and_ends_the_line() {
    let mut p = Prgrs::new(0..0, 0);
    let (x, text) = p.advance();
    assert_eq!(x, None);
    assert!(text.ends_with("] (100%)\r\n"));
    let (y, _) = p.advance();
    assert_eq!(y, None);
}

#[test]
fn exhaustion_draws_full_bar_and_line_feed() {
    let mut p = Prgrs::new(0..2, 4).set_length_move(Length::Absolute(13));
    assert_eq!(p.advance().0, Some(0));
    assert_eq!(p.advance().0, Some(1));
    let (x, text) = p.advance();
    assert_eq!(x, None);
    assert!(text.ends_with("[####] (100%)\r\n"));
}

#[test]
fn frames_follow_the_count() {
    let mut p = Prgrs::new(0..2, 2);
    p.set_length(Length::Absolute(14));
    let (_, first) = p.advance();
    assert!(first.ends_with("[##   ] ( 50%)\r"));
    let (_, second) = p.advance();
    assert!(second.ends_with("[#####] (100%)\r"));
}

#[test]
fn percentage_rounds_to_nearest() {
    assert_eq!(percent(0, 10), 0);
    assert_eq!(percent(1, 3), 33);
    assert_eq!(percent(2, 3), 67);
    assert_eq!(percent(1, 200), 1);
    assert_eq!(percent(999, 1000), 100);
    assert_eq!(percent(10, 10), 100);
    for total in 1..60usize {
        for curr in 0..=total {
            let expected = (100.0 * curr as f64 / total as f64).round() as usize;
            assert_eq!(percent(curr, total), expected);
        }
    }
}

#[test]
fn empty_total_is_complete() {
    assert_eq!(percent(0, 0), 100);
    assert_eq!(percent(7, 0), 100);
    assert_eq!(filled_steps(0, 0, 5), 5);
    assert_eq!(render_frame(0, 0, 5), "[#####] (100%)");
}

#[test]
fn overrun_is_clamped() {
    assert_eq!(percent(7, 5), 100);
    assert_eq!(filled_steps(7, 5, 4), 4);
    assert_eq!(render_frame(7, 5, 4), "[####] (100%)");
    assert_eq!(filled_steps(usize::MAX, 3, usize::MAX), usize::MAX);
}

#[test]
fn frame_layout() {
    assert_eq!(render_frame(1, 2, 4), "[##  ] ( 50%)");
    assert_eq!(render_frame(0, 100, 3), "[   ] (  0%)");
    assert_eq!(render_frame(5, 100, 10), "[          ] (  5%)");
    assert_eq!(render_frame(42, 100, 10), "[####      ] ( 42%)");
    assert_eq!(filled_steps(2, 3, 10), 6);
}

#[test]
fn proportion_is_clamped() {
    let w = Some(80u16);
    assert_eq!(resolve(Length::Proportional(-1), w), resolve(Length::Proportional(0), w));
    assert_eq!(resolve(Length::Proportional(0), w), 1);
    assert_eq!(
        resolve(Length::Proportional(2 * PROPORTION_SCALE), w),
        resolve(Length::Proportional(PROPORTION_SCALE), w)
    );
    assert_eq!(resolve(Length::Proportional(PROPORTION_SCALE), w), 71);
    assert_eq!(resolve(Length::Proportional(500_000), w), 31);
    assert_eq!(bar_length(Length::Proportional(DEFAULT_PROPORTION), Some(100)), 33);
    assert_eq!(bar_length(Length::Proportional(i64::MIN), Some(100)), 0);
    assert_eq!(bar_length(Length::Proportional(i64::MAX), Some(u16::MAX)), 65535);
}

#[test]
fn proportion_without_terminal_uses_fallback() {
    assert_eq!(bar_length(Length::Proportional(500_000), None), 50);
    assert_eq!(resolve(Length::Proportional(500_000), None), 41);
}

#[test]
fn short_absolute_is_one_step() {
    for n in 0..=10usize {
        assert_eq!(resolve(Length::Absolute(n), None), 1);
        assert_eq!(resolve(Length::Absolute(n), Some(200)), 1);
    }
    assert_eq!(resolve(Length::Absolute(11), None), 2);
    assert_eq!(resolve(Length::Absolute(40), Some(10)), 31);
    assert_eq!(steps_of(usize::MAX), usize::MAX - 9);
}

#[test]
fn overwrite_blanks_the_line() {
    assert_eq!(overwrite("[#] (100%)", Some(3), true), "\r   \r[#] (100%)\r\n");
    assert_eq!(overwrite("[ ] (  0%)", Some(2), false), "\r  \r[ ] (  0%)\r");
    assert_eq!(overwrite("[ ] (  0%)", None, false), "[ ] (  0%)\r");
    assert_eq!(overwrite("[#] (100%)", None, true), "[#] (100%)\r\n");
}

#[test]
fn line_over_bar_pads_to_width() {
    assert_eq!(line_over_bar("ab", 5), "\rab   \n");
    assert_eq!(line_over_bar("", 3), "\r   \n");
    assert_eq!(line_over_bar("abcde", 5), "\rabcde\n");
}

#[test]
fn line_over_bar_longer_than_width() {
    assert_eq!(line_over_bar("a long text", 4), "\ra long text\n");
    assert_eq!(line_over_bar("xyz", 0), "\rxyz\n");
}

#[test]
fn write_line_text_is_a_padded_line() {
    if let Some(s) = write_line_text("hello") {
        assert!(s.starts_with("\rhello"));
        assert!(s.ends_with('\n'));
    }
}
