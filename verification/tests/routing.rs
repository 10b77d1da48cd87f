use ducker::routing::{fill_output_frame, frame_count, input_frame_pair, meter_interval, meter_tick};

#[test]
fn frames_count_a_short_last_frame() {
    assert_eq!(frame_count(8, 2), 4);
    assert_eq!(frame_count(7, 2), 4);
    assert_eq!(frame_count(5, 0), 5);
    assert_eq!(frame_count(0, 3), 0);
}

#[test]
fn input_pairs_come_from_their_channels() {
    let data = [1.0f32, 2.0, 3.0, 4.0, 5.0, 6.0, 7.0];
    assert_eq!(input_frame_pair(&data, 3, 0, 0, 1, 0.0), (1.0, 2.0));
    assert_eq!(input_frame_pair(&data, 3, 1, 0, 2, 0.0), (4.0, 6.0));
    // the last frame holds only one sample
    assert_eq!(input_frame_pair(&data, 3, 2, 0, 1, 0.0), (7.0, 0.0));
    // a channel past the frame width reads as silence
    assert_eq!(input_frame_pair(&data, 3, 0, 0, 5, 0.0), (1.0, 0.0));
    // a mono device: the side chain has no channel of its own
    assert_eq!(input_frame_pair(&data, 1, 4, 0, 1, 0.0), (5.0, 0.0));
}

#[test]
fn output_frames_fill_two_channels() {
    let mut f = [9.0f32; 4];
    fill_output_frame(&mut f, 0.5, 0.0);
    assert_eq!(f, [0.5, 0.5, 0.0, 0.0]);
    let mut g = [9.0f32; 1];
    fill_output_frame(&mut g, 0.25, 0.0);
    assert_eq!(g, [0.25]);
}

#[test]
fn meter_reports_every_interval() {
    let n = meter_interval(3);
    let mut c = 0usize;
    let mut reports = vec![];
    for _ in 0..9 {
        let (next, due) = meter_tick(c, n);
        c = next;
        reports.push(due);
    }
    assert_eq!(reports, vec![false, false, true, false, false, true, false, false, true]);
    assert_eq!(meter_interval(0), 1);
    assert_eq!(meter_tick(0, 1), (0, true));
    assert_eq!(meter_tick(usize::MAX, usize::MAX), (0, true));
}

#[test]
fn two_input_channels_feed_program_and_side_chain() {
    // Input 1 (index 0) is the program audio, input 2 (index 1) the side chain.
    let data = [0.1f32, 0.9, 0.2, 0.8];
    assert_eq!(input_frame_pair(&data, 2, 0, 0, 1, 0.0), (0.1, 0.9));
    assert_eq!(input_frame_pair(&data, 2, 1, 0, 1, 0.0), (0.2, 0.8));
}
