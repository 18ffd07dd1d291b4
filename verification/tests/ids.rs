//! The monotone id generators and the texture-load configuration.

use gru_opengl::resource::{audio_duration, Id, Increment, TextureLoadConfig};
use gru_opengl::gl::{TextureChannel, TextureWrap};

#[test]
fn id_hands_out_current_then_steps() {
    let mut id: Id<u32> = Id::new(5);
    assert_eq!(*id.current(), 5);
    assert_eq!(id.next(), 5);
    assert_eq!(id.next(), 6);
    assert_eq!(*id.current(), 7);
}

#[test]
fn id_works_for_u64() {
    let mut id: Id<u64> = Id::new(1_000_000);
    assert_eq!(id.next(), 1_000_000);
    assert_eq!(*id.current(), 1_000_001);
}

#[test]
fn increase_steps_plain_integers() {
    let mut x: u32 = 41;
    x.increase();
    assert_eq!(x, 42);
    let mut y: u64 = 41;
    y.increase();
    assert_eq!(y, 42);
}

#[test]
fn add_size_completes_the_texture_config() {
    let load = TextureLoadConfig {
        channel: TextureChannel::RGB,
        mipmap: true,
        wrap_s: TextureWrap::Clamp,
        wrap_t: TextureWrap::Repeat,
    };
    let config = load.add_size(128);
    assert_eq!(config.size, 128);
    assert!(config.mipmap);
    assert!(matches!(config.channel, TextureChannel::RGB));
    assert!(matches!(config.wrap_s, TextureWrap::Clamp));
    assert!(matches!(config.wrap_t, TextureWrap::Repeat));
}

#[test]
fn audio_duration_matches_the_clip_arithmetic() {
    // 88200 samples at 44100 Hz in stereo: one second exactly.
    assert_eq!(audio_duration(88200, 2, 44100), Some((1, 0)));
    // Half a second of mono at 44100 Hz.
    assert_eq!(audio_duration(22050, 1, 44100), Some((0, 500_000_000)));
    // A sample count whose nanosecond scale overflows 64 bits.
    assert_eq!(audio_duration(u64::MAX / 1_000_000_000 + 1, 2, 44100), None);
}
