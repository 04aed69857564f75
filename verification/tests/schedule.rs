use telemetry_overlay::input::DataPoint;
use telemetry_overlay::schedule::{
    frame_file_name, hold_durations, hold_of, manifest, manifest_entries, manifest_text, repeats,
    schedule, FrameInstruction, Hold, ManifestEntry, RatePolicy,
};

fn sample(duration: u32) -> DataPoint {
    DataPoint {
        duration,
        speed: 0,
        duty_cycle: 0,
        motor_current: 0,
        field_weakening: None,
        temp_motor: 0,
        temp_mosfet: 0,
        temp_battery: None,
        batt_voltage: 0,
        batt_current: 0,
    }
}

#[test]
fn fixed_rate_repeat_counts() {
    let points = vec![sample(0), sample(1500), sample(200)];
    let plan = schedule(&points, 2000, RatePolicy::Fixed(30_000));
    let counts: Vec<Hold> = plan.iter().map(|i| i.hold).collect();
    assert_eq!(counts, vec![Hold::Repeat(0), Hold::Repeat(45), Hold::Repeat(6)]);
}

#[test]
fn schedule_keeps_sample_order() {
    let points = vec![sample(300), sample(100), sample(200)];
    let plan = schedule(&points, 2000, RatePolicy::Variable);
    assert_eq!(
        plan,
        vec![
            FrameInstruction { frame: 0, hold: Hold::Duration(300) },
            FrameInstruction { frame: 1, hold: Hold::Duration(100) },
            FrameInstruction { frame: 2, hold: Hold::Duration(200) },
        ]
    );
}

#[test]
fn long_gaps_are_capped() {
    let points = vec![sample(0), sample(60_000), sample(2000), sample(2001)];
    assert_eq!(hold_durations(&points, 2000), vec![0, 2000, 2000, 2000]);
    let plan = schedule(&points, 2000, RatePolicy::Fixed(30_000));
    assert_eq!(plan[1].hold, Hold::Repeat(60));
}

#[test]
fn repeats_round_to_nearest() {
    // 16 ms at 30 frames a second is 0.48 of a frame, 17 ms is 0.51.
    assert_eq!(repeats(16, 30_000), 0);
    assert_eq!(repeats(17, 30_000), 1);
    // Exactly half a frame rounds up.
    assert_eq!(repeats(50, 10_000), 1);
    assert_eq!(repeats(49, 10_000), 0);
    assert_eq!(repeats(1000, 29_970), 30);
    assert_eq!(repeats(u32::MAX, u32::MAX), 18_446_744_065_120);
}

#[test]
fn short_frames_are_dropped_at_fixed_rate() {
    let points = vec![sample(10)];
    let plan = schedule(&points, 2000, RatePolicy::Fixed(30_000));
    assert_eq!(plan[0].hold, Hold::Repeat(0));
}

#[test]
fn manifest_repeats_last_entry() {
    let text = manifest(&vec![0, 1500]);
    assert_eq!(
        text,
        "file 'frame_0.png'\nduration 0.000\n\
         file 'frame_1.png'\nduration 1.500\n\
         file 'frame_1.png'\nduration 1.500\n"
    );
    assert_eq!(text.matches("file '").count(), 3);
    assert_eq!(text.matches("duration ").count(), 3);
}

#[test]
fn manifest_of_one_frame_has_two_pairs() {
    assert_eq!(
        manifest(&vec![40]),
        "file 'frame_0.png'\nduration 0.040\nfile 'frame_0.png'\nduration 0.040\n"
    );
}

#[test]
fn manifest_of_no_frames_is_empty() {
    assert_eq!(manifest(&Vec::new()), "");
}

#[test]
fn frame_names_count_in_decimal() {
    assert_eq!(frame_file_name(0), "frame_0.png");
    assert_eq!(frame_file_name(1234), "frame_1234.png");
}

#[test]
fn manifest_entries_for_two_samples() {
    let entries = manifest_entries(&vec![0, 1500]);
    assert_eq!(
        entries,
        vec![
            ManifestEntry { frame: 0, duration: 0 },
            ManifestEntry { frame: 1, duration: 1500 },
            ManifestEntry { frame: 1, duration: 1500 },
        ]
    );
    assert_eq!(manifest_text(&entries), manifest(&vec![0, 1500]));
    assert_eq!(manifest_entries(&Vec::new()), Vec::new());
}

#[test]
fn manifest_has_one_entry_more_than_frames() {
    for n in 1..20usize {
        let durations: Vec<u32> = (0..n as u32).map(|i| i * 10).collect();
        let entries = manifest_entries(&durations);
        assert_eq!(entries.len(), n + 1);
        assert_eq!(entries[n], entries[n - 1]);
        for (i, e) in entries.iter().take(n).enumerate() {
            assert_eq!(*e, ManifestEntry { frame: i, duration: durations[i] });
        }
    }
}

#[test]
fn hold_is_the_smaller_of_duration_and_gap() {
    assert_eq!(hold_of(&sample(1999), 2000), 1999);
    assert_eq!(hold_of(&sample(2000), 2000), 2000);
    assert_eq!(hold_of(&sample(u32::MAX), 2000), 2000);
    assert_eq!(hold_of(&sample(5), 0), 0);
}
