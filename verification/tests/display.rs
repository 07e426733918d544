use earlygirl::clock::format_clock;
use earlygirl::display::completion_message;
use earlygirl::engine::TimerEngine;
use earlygirl::phase::Phase;
use earlygirl::settings::Settings;

fn timer(work_duration: u64, break_duration: u64) -> TimerEngine {
    TimerEngine::new(Settings {
        work_duration,
        break_duration,
        auto_start_work: false,
        auto_start_break: false,
    })
}

#[test]
fn remaining_time_of_one_hour_one_minute_one_second() {
    let e = timer(3_661_000, 900_000);
    assert_eq!(e.elapsed(), 0);
    assert_eq!(e.remaining(), 3_661_000);
    assert_eq!(e.remaining_clock(), "01:01:01");
}

#[test]
fn remaining_time_is_never_negative() {
    let mut e = timer(4_000_000, 900_000);
    e.toggle(0);
    e.tick(3_661_000);
    e.toggle(3_661_000);
    e.set_work_duration(3_661_000);
    assert_eq!(e.elapsed(), 3_661_000);
    assert_eq!(e.remaining(), 0);
    assert_eq!(e.remaining_clock(), "00:00:00");

    let mut e = timer(4_000_000, 900_000);
    e.toggle(0);
    e.tick(3_999_999);
    e.toggle(0);
    e.set_work_duration(3_661_000);
    assert_eq!(e.remaining(), 0);
    assert_eq!(e.remaining_clock(), "00:00:00");
}

#[test]
fn remaining_time_counts_down() {
    let mut e = timer(2_700_000, 900_000);
    assert_eq!(e.remaining_clock(), "00:45:00");
    e.toggle(0);
    e.tick(10);
    assert_eq!(e.remaining(), 2_699_990);
    assert_eq!(e.remaining_clock(), "00:44:59");
    e.tick(1_000);
    assert_eq!(e.remaining_clock(), "00:44:59");
    e.tick(1_001);
    assert_eq!(e.remaining_clock(), "00:44:58");
    e.switch_phase();
    assert_eq!(e.remaining_clock(), "00:15:00");
}

#[test]
fn clock_text_of_given_spans() {
    assert_eq!(format_clock(0), "00:00:00");
    assert_eq!(format_clock(999), "00:00:00");
    assert_eq!(format_clock(1_000), "00:00:01");
    assert_eq!(format_clock(59_999), "00:00:59");
    assert_eq!(format_clock(60_000), "00:01:00");
    assert_eq!(format_clock(3_599_000), "00:59:59");
    assert_eq!(format_clock(3_600_000), "01:00:00");
    assert_eq!(format_clock(36_000_000), "10:00:00");
    assert_eq!(format_clock(86_399_000), "23:59:59");
    assert_eq!(format_clock(359_999_000), "99:59:59");
    assert_eq!(format_clock(360_000_000), "100:00:00");
    assert_eq!(format_clock(u64::MAX), "5124095576030:25:51");
}

#[test]
fn progress_is_a_clamped_part_of_the_scale() {
    let mut e = timer(8_000, 2_000);
    assert_eq!(e.progress(100), 0);
    e.toggle(0);
    e.tick(2_000);
    assert_eq!(e.progress(100), 25);
    assert_eq!(e.progress(1_000), 250);
    assert_eq!(e.progress(3), 0);
    e.tick(7_999);
    assert_eq!(e.progress(100), 99);
    assert_eq!(e.progress(10_000), 9_998);
    assert_eq!(e.progress(u64::MAX), 18_444_438_230_700_337_921);
    e.toggle(0);
    e.set_work_duration(5_000);
    assert_eq!(e.progress(100), 100);
    assert_eq!(e.progress(0), 0);
    assert_eq!(e.progress(u64::MAX), u64::MAX);
}

#[test]
fn labels_follow_phase_and_run_state() {
    let mut e = timer(5_000, 2_000);
    assert_eq!(e.phase_label(), "Start Working!");
    assert_eq!(e.toggle_label(), "Start");
    e.toggle(0);
    assert_eq!(e.phase_label(), "Working!");
    assert_eq!(e.toggle_label(), "Pause");
    e.switch_phase();
    assert_eq!(e.phase_label(), "Break Time!");
    assert_eq!(e.toggle_label(), "Start");
    e.toggle(0);
    assert_eq!(e.phase_label(), "Break Time!");
    assert_eq!(e.toggle_label(), "Pause");
}

#[test]
fn completion_messages() {
    assert_eq!(completion_message(Phase::Work), "Time for a break!");
    assert_eq!(completion_message(Phase::Break), "Time to get back to work!");
}
