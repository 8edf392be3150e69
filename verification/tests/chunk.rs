use grain_processor::split_into_chunks;

#[test]
fn recording_is_cut_into_full_chunks_and_a_rest() {
    let samples: Vec<f64> = (0..10).map(|i| i as f64).collect();
    let chunks = split_into_chunks("a.wav", 44100, &samples, 4);
    assert_eq!(chunks.len(), 3);
    assert_eq!(chunks[0].samples, vec![0.0, 1.0, 2.0, 3.0]);
    assert_eq!(chunks[1].samples, vec![4.0, 5.0, 6.0, 7.0]);
    assert_eq!(chunks[2].samples, vec![8.0, 9.0]);
    for chunk in &chunks {
        assert_eq!(chunk.source_id, "a.wav");
        assert_eq!(chunk.sample_rate, 44100);
    }
}

#[test]
fn length_that_divides_gives_only_full_chunks() {
    let samples: Vec<u8> = (0..12).collect();
    let chunks = split_into_chunks("b.flac", 48000, &samples, 4);
    assert_eq!(chunks.len(), 3);
    assert_eq!(chunks[2].samples, vec![8, 9, 10, 11]);
}

#[test]
fn short_recording_is_one_chunk() {
    let samples = vec![1i16, 2, 3];
    let chunks = split_into_chunks("c.ogg", 8000, &samples, 3);
    assert_eq!(chunks.len(), 1);
    assert_eq!(chunks[0].samples, samples);
    let chunks = split_into_chunks("c.ogg", 8000, &samples, usize::MAX);
    assert_eq!(chunks.len(), 1);
    assert_eq!(chunks[0].samples, samples);
}

#[test]
fn empty_recording_gives_no_chunk() {
    let samples: Vec<f64> = Vec::new();
    assert!(split_into_chunks("d.mp3", 44100, &samples, 1024).is_empty());
}

#[test]
fn chunks_of_one_sample() {
    let samples = vec![7u32, 8, 9];
    let chunks = split_into_chunks("e.aif", 22050, &samples, 1);
    assert_eq!(chunks.len(), 3);
    assert_eq!(chunks[0].samples, vec![7]);
    assert_eq!(chunks[1].samples, vec![8]);
    assert_eq!(chunks[2].samples, vec![9]);
}

#[test]
fn chunks_laid_end_to_end_are_the_recording() {
    for total in 0usize..40 {
        for max in 1usize..9 {
            let samples: Vec<usize> = (0..total).collect();
            let chunks = split_into_chunks("f.wav", 96000, &samples, max);
            assert_eq!(chunks.len(), (total + max - 1) / max);
            let mut joined: Vec<usize> = Vec::new();
            for chunk in &chunks {
                assert!(!chunk.samples.is_empty());
                assert!(chunk.samples.len() <= max);
                joined.extend(chunk.samples.iter());
            }
            assert_eq!(joined, samples);
            for i in 0..total {
                assert_eq!(chunks[i / max].samples[i % max], samples[i]);
            }
        }
    }
}
