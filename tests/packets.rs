use audiofigma::{analyze_vectors, packet_features, packet_ranges, AnalysisError, PacketRange};

fn rms(p: &[f32]) -> f64 {
    if p.is_empty() {
        return 0.0;
    }
    let sum_sq: f64 = p.iter().map(|&s| (s as f64) * (s as f64)).sum();
    (sum_sq / p.len() as f64).sqrt()
}

fn assert_partition(ranges: &[PacketRange], total: usize) {
    if total == 0 {
        assert!(ranges.is_empty());
        return;
    }
    assert_eq!(ranges[0].start, 0);
    assert_eq!(ranges[ranges.len() - 1].end, total);
    for w in ranges.windows(2) {
        assert_eq!(w[0].end, w[1].start);
    }
    for r in ranges {
        assert!(r.start < r.end);
    }
}

#[test]
fn even_split_into_ten() {
    let r = packet_ranges(1000, 10);
    assert_eq!(r.len(), 10);
    for (i, p) in r.iter().enumerate() {
        assert_eq!(p.start, i * 100);
        assert_eq!(p.end, (i + 1) * 100);
    }
}

#[test]
fn last_packet_absorbs_remainder() {
    let r = packet_ranges(11, 4);
    assert_eq!(
        r,
        vec![
            PacketRange { start: 0, end: 2 },
            PacketRange { start: 2, end: 4 },
            PacketRange { start: 4, end: 6 },
            PacketRange { start: 6, end: 11 },
        ]
    );
    assert_partition(&r, 11);
}

#[test]
fn fewer_samples_than_packets() {
    let r = packet_ranges(5, 10);
    // samples per packet is max(1, 5 / 10) = 1, so 5 / 1 = 5 packets
    assert_eq!(r.len(), 5);
    for (i, p) in r.iter().enumerate() {
        assert_eq!(*p, PacketRange { start: i, end: i + 1 });
    }
    assert_partition(&r, 5);
}

#[test]
fn zero_requested_packets_means_one() {
    let r = packet_ranges(7, 0);
    assert_eq!(r, vec![PacketRange { start: 0, end: 7 }]);
}

#[test]
fn empty_sequence_has_no_packets() {
    assert!(packet_ranges(0, 3).is_empty());
    assert!(packet_ranges(0, 1).is_empty());
}

#[test]
fn partitions_over_many_sizes() {
    for total in 0..60usize {
        for n in 0..15usize {
            let r = packet_ranges(total, n);
            let eff = n.max(1);
            assert_eq!(r.len(), eff.min(total));
            assert_partition(&r, total);
        }
    }
}

#[test]
fn features_see_each_packet_alone() {
    let samples: Vec<u32> = (0..10).collect();
    let sums = packet_features(&samples, 3, |p: &[u32]| p.iter().sum::<u32>());
    // packets [0,3) [3,6) [6,10)
    assert_eq!(sums, vec![3, 12, 30]);
}

#[test]
fn constant_signal_end_to_end() {
    let mono = vec![1.0f32; 1000];
    let (volume, bass) = analyze_vectors(&mono, 1000, 10, rms, |p: &[f32], rate: u32| {
        (p.len(), rate)
    })
    .unwrap();
    assert_eq!(volume, vec![1.0; 10]);
    assert_eq!(bass, vec![(100, 1000); 10]);
}

#[test]
fn zero_and_constant_rms() {
    let (v, _) = analyze_vectors(&vec![0.0f32; 8], 8000, 1, rms, |_: &[f32], _: u32| ()).unwrap();
    assert_eq!(v, vec![0.0]);
    let (v, _) = analyze_vectors(&vec![-0.5f32; 8], 8000, 2, rms, |_: &[f32], _: u32| ()).unwrap();
    assert_eq!(v, vec![0.5, 0.5]);
}

#[test]
fn zero_sample_rate_is_rejected() {
    let r = analyze_vectors(&vec![1.0f32; 4], 0, 2, rms, |_: &[f32], _: u32| 0.0f64);
    assert_eq!(r, Err(AnalysisError::InvalidSampleRate));
}

#[test]
fn few_samples_give_few_feature_values() {
    let (v, b) = analyze_vectors(&vec![0.25f32; 5], 44100, 10, rms, |p: &[f32], _: u32| p.len())
        .unwrap();
    assert_eq!(v.len(), 5);
    assert_eq!(b, vec![1; 5]);
}
