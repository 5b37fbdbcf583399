use audiofigma::downmix;

fn mean(frame: &[f32]) -> f32 {
    (frame.iter().map(|&v| v as f64).sum::<f64>() / frame.len() as f64) as f32
}

#[test]
fn single_channel_is_identity() {
    let s = vec![0.1f32, -0.4, 0.9];
    assert_eq!(downmix(s.clone(), 1, mean), s);
}

#[test]
fn two_channels_average() {
    assert_eq!(downmix(vec![1.0f32, 3.0, 5.0, 7.0], 2, mean), vec![2.0, 6.0]);
}

#[test]
fn partial_trailing_frame_is_dropped() {
    assert_eq!(downmix(vec![1.0f32, 2.0, 3.0, 4.0, 5.0, 6.0, 7.0], 3, mean), vec![2.0, 5.0]);
}

#[test]
fn empty_input_downmixes_to_empty() {
    assert!(downmix(Vec::<f32>::new(), 2, mean).is_empty());
}
