use pockystation_core::audio::{AudioBackend, AUDIO_BUFFER_LEN};

#[test]
fn full_block_flushes_once_with_duplicated_samples() {
    let mut sink = AudioBackend::new();
    let mut flushes: Vec<Vec<i16>> = Vec::new();
    for i in 0..1024i32 {
        if sink.push_sample((i - 512) as i16) {
            flushes.push(sink.samples().clone());
        }
    }
    assert_eq!(flushes.len(), 1);
    let block = &flushes[0];
    assert_eq!(block.len(), AUDIO_BUFFER_LEN);
    for k in 0..1024usize {
        assert_eq!(block[2 * k], (k as i32 - 512) as i16);
        assert_eq!(block[2 * k + 1], (k as i32 - 512) as i16);
    }
}

#[test]
fn partial_block_never_flushes() {
    let mut sink = AudioBackend::new();
    let mut flushes = 0;
    for i in 0..1023i32 {
        if sink.push_sample(i as i16) {
            flushes += 1;
        }
    }
    assert_eq!(flushes, 0);
    assert!(sink.push_sample(7));
}

#[test]
fn cursor_wraps_after_flush() {
    let mut sink = AudioBackend::new();
    for _ in 0..1024 {
        sink.push_sample(1);
    }
    assert!(!sink.push_sample(-5));
    assert_eq!(sink.samples()[0], -5);
    assert_eq!(sink.samples()[1], -5);
    assert_eq!(sink.samples()[2], 1);
}
