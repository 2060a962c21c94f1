use knob_rgb::knob::level_from_sample;
use knob_rgb::ui::{LogLine, SharedWrite, Ui, UiState};

fn dump(levels: [u32; 3], frame_rate: u64) -> Vec<LogLine> {
    vec![
        LogLine::Blank,
        LogLine::Level { channel: 0, level: levels[0] },
        LogLine::Level { channel: 1, level: levels[1] },
        LogLine::Level { channel: 2, level: levels[2] },
        LogLine::FrameRate(frame_rate),
    ]
}

#[test]
fn default_state_is_full_brightness_at_hundred_fps() {
    let s = UiState::default();
    assert_eq!(s.levels, [15, 15, 15]);
    assert_eq!(s.frame_rate, 100);
    assert_eq!(s.show(), dump([15, 15, 15], 100));
}

#[test]
fn start_seeds_blue_from_knob() {
    let mut ui = Ui::new();
    let step = ui.start(4);
    assert_eq!(step.write, SharedWrite::Levels([15, 15, 4]));
    assert_eq!(step.log, dump([15, 15, 4], 100));
    assert_eq!(ui.state().levels, [15, 15, 4]);
}

#[test]
fn both_up_sets_frame_rate_only() {
    let mut ui = Ui::new();
    let step = ui.poll(3, false, false);
    assert_eq!(step.write, SharedWrite::FrameRate(40));
    assert_eq!(step.log, vec![LogLine::Knob(3), LogLine::SetFrameRate(40)]);
    assert_eq!(ui.state().levels, [15, 15, 15]);
    assert_eq!(ui.state().frame_rate, 40);
}

#[test]
fn unchanged_frame_rate_is_not_written() {
    let mut ui = Ui::new();
    let step = ui.poll(9, false, false);
    assert_eq!(step.write, SharedWrite::Nothing);
    assert_eq!(step.log, vec![LogLine::Knob(9)]);
    assert_eq!(ui.state().frame_rate, 100);
}

#[test]
fn a_down_sets_blue_only() {
    let mut ui = Ui::new();
    let step = ui.poll(2, true, false);
    assert_eq!(step.write, SharedWrite::Levels([15, 15, 2]));
    assert_eq!(ui.state().frame_rate, 100);
    let mut expected = vec![
        LogLine::Knob(2),
        LogLine::Buttons { a_down: true, b_down: false },
        LogLine::SetChannel { channel: 2, level: 2 },
    ];
    expected.extend(dump([15, 15, 2], 100));
    assert_eq!(step.log, expected);
}

#[test]
fn b_down_sets_green_only() {
    let mut ui = Ui::new();
    let step = ui.poll(5, false, true);
    assert_eq!(step.write, SharedWrite::Levels([15, 5, 15]));
    assert_eq!(ui.state().frame_rate, 100);
}

#[test]
fn both_down_sets_red_only() {
    let mut ui = Ui::new();
    let step = ui.poll(6, true, true);
    assert_eq!(step.write, SharedWrite::Levels([6, 15, 15]));
    assert_eq!(ui.state().frame_rate, 100);
}

#[test]
fn setting_current_level_is_silent() {
    let mut ui = Ui::new();
    let step = ui.set_rgb_level(1, 15);
    assert_eq!(step.write, SharedWrite::Nothing);
    assert!(step.log.is_empty());
    let step = ui.poll(15, false, true);
    assert_eq!(step.write, SharedWrite::Nothing);
    assert_eq!(step.log, vec![LogLine::Knob(15), LogLine::Buttons { a_down: false, b_down: true }]);
}

#[test]
fn changing_level_writes_and_logs_once() {
    let mut ui = Ui::new();
    let step = ui.set_rgb_level(0, 8);
    assert_eq!(step.write, SharedWrite::Levels([8, 15, 15]));
    let changes = step.log.iter().filter(|l| matches!(l, LogLine::SetChannel { .. })).count();
    assert_eq!(changes, 1);
    assert_eq!(step.log[0], LogLine::SetChannel { channel: 0, level: 8 });
}

#[test]
fn full_knob_with_buttons_up_gives_top_frame_rate() {
    let mut ui = Ui::new();
    let level = level_from_sample(10_000);
    assert_eq!(level, 15);
    let step = ui.poll(level, false, false);
    assert_eq!(step.write, SharedWrite::FrameRate(160));
    assert_eq!(ui.state().frame_rate, 160);
}

#[test]
fn zero_knob_with_both_down_turns_red_off() {
    let mut ui = Ui::new();
    ui.poll(4, false, true);
    ui.poll(9, true, false);
    let level = level_from_sample(0);
    let step = ui.poll(level, true, true);
    assert_eq!(step.write, SharedWrite::Levels([0, 4, 9]));
    assert_eq!(ui.state().levels, [0, 4, 9]);
}
