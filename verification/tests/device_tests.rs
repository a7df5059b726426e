use crunch::device::{config_with_min_buffer, BufferSize, SupportedBufferSize, SupportedStreamConfig};

#[test]
fn range_picks_the_smallest_buffer() {
    let cfg = SupportedStreamConfig {
        channels: 2,
        sample_rate: 48_000,
        buffer_size: SupportedBufferSize::Range { min: 64, max: 4096 },
    };
    let out = config_with_min_buffer(cfg);
    assert_eq!(out.channels, 2);
    assert_eq!(out.sample_rate, 48_000);
    assert_eq!(out.buffer_size, BufferSize::Fixed(64));
}

#[test]
fn unknown_range_uses_the_default() {
    let cfg = SupportedStreamConfig {
        channels: 1,
        sample_rate: 44_100,
        buffer_size: SupportedBufferSize::Unknown,
    };
    let out = config_with_min_buffer(cfg);
    assert_eq!(out.channels, 1);
    assert_eq!(out.sample_rate, 44_100);
    assert_eq!(out.buffer_size, BufferSize::Default);
}
