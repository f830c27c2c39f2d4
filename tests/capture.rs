use std::time::{Duration, Instant};
use voice_capture::{
    downmix, downmix_frame, list_devices, resolve_device, scaled_to_i16, to_canonical,
    u16_chunk, u16_to_i16, CaptureError, DeviceChoice, Recorder, RecorderConfig, SampleKind,
    StreamParams,
};

fn float_to_i16(s: f32) -> i16 {
    scaled_to_i16((s.clamp(-1.0, 1.0) * 32767.0).round() as i32)
}

fn params(channels: u16, format: SampleKind) -> StreamParams {
    StreamParams { channels, sample_rate: 48000, format }
}

fn config(capacity: usize, prefer_mono: bool) -> RecorderConfig {
    RecorderConfig { device_index: None, prefer_mono, queue_chunks_capacity: capacity }
}

fn open(capacity: usize, channels: u16, prefer_mono: bool) -> Recorder {
    Recorder::open(
        config(capacity, prefer_mono),
        1,
        true,
        String::from("mic"),
        params(channels, SampleKind::I16),
    )
    .unwrap()
}

#[test]
fn u16_conversion_values() {
    assert_eq!(u16_to_i16(0), -32768);
    assert_eq!(u16_to_i16(32768), 0);
    assert_eq!(u16_to_i16(65535), 32767);
    assert_eq!(u16_to_i16(1), -32767);
}

#[test]
fn u16_conversion_is_bijective() {
    let mut seen = vec![false; 65536];
    for s in 0..=u16::MAX {
        let v = u16_to_i16(s);
        let back = (v as i32 + 32768) as u16;
        assert_eq!(back, s);
        let slot = (v as i32 + 32768) as usize;
        assert!(!seen[slot]);
        seen[slot] = true;
    }
    assert!(seen.iter().all(|&b| b));
}

#[test]
fn float_conversion_fixed_points() {
    assert_eq!(float_to_i16(0.0), 0);
    assert_eq!(float_to_i16(1.0), 32767);
    assert_eq!(float_to_i16(-1.0), -32767);
    assert_eq!(float_to_i16(0.5), 16384);
}

#[test]
fn float_conversion_is_monotonic_in_range() {
    let mut prev = i16::MIN;
    for k in -1000..=1000 {
        let v = float_to_i16(k as f32 / 1000.0);
        assert!(v >= prev);
        prev = v;
    }
}

#[test]
fn float_conversion_clamps_out_of_range() {
    assert_eq!(float_to_i16(1.5), float_to_i16(1.0));
    assert_eq!(float_to_i16(-3.0), float_to_i16(-1.0));
    assert_eq!(float_to_i16(1.0e30), 32767);
    assert_eq!(float_to_i16(f32::NEG_INFINITY), -32767);
}

#[test]
fn scaled_clamp_values() {
    assert_eq!(scaled_to_i16(40000), 32767);
    assert_eq!(scaled_to_i16(-40000), -32767);
    assert_eq!(scaled_to_i16(-32768), -32767);
    assert_eq!(scaled_to_i16(1234), 1234);
}

#[test]
fn downmix_identical_channels() {
    for c in [2usize, 4, 8] {
        for x in [-32768i16, -7, 0, 5, 32767] {
            let frame = vec![x; c];
            assert_eq!(downmix_frame(&frame), x);
        }
    }
}

#[test]
fn downmix_truncates_toward_zero() {
    assert_eq!(downmix_frame(&[1, 2]), 1);
    assert_eq!(downmix_frame(&[-1, -2]), -1);
    assert_eq!(downmix_frame(&[32767, 32767, 32766]), 32766);
    assert_eq!(downmix_frame(&[-32768, 32767]), 0);
}

#[test]
fn downmix_drops_partial_frame() {
    assert_eq!(downmix(&[10, 20, 30, 40, 50], 2), vec![15, 35]);
    assert_eq!(downmix(&[1, 2, 3], 4), Vec::<i16>::new());
}

#[test]
fn passthrough_without_downmix() {
    let s = [3i16, -4, 5, -6];
    assert_eq!(to_canonical(&s, 2, false), s.to_vec());
    assert_eq!(to_canonical(&s, 1, true), s.to_vec());
    assert_eq!(to_canonical(&s, 2, true), vec![0, 0]);
}

#[test]
fn unsigned_chunk_converts_then_downmixes() {
    assert_eq!(u16_chunk(&[0, 65535, 32768, 32768], 2, true), vec![0, 0]);
    assert_eq!(u16_chunk(&[0, 65535], 2, false), vec![-32768, 32767]);
}

#[test]
fn device_listing() {
    assert_eq!(list_devices(Vec::new()), Err(CaptureError::NoDevicesFound));
    let names = vec![String::from("a"), String::from("b")];
    assert_eq!(list_devices(names.clone()), Ok(names));
}

#[test]
fn device_resolution() {
    assert_eq!(resolve_device(Some(2), 2, true), Err(CaptureError::DeviceNotFound));
    assert_eq!(resolve_device(Some(1), 2, false), Ok(DeviceChoice::Index(1)));
    assert_eq!(resolve_device(None, 0, false), Err(CaptureError::NoDefaultDevice));
    assert_eq!(resolve_device(None, 0, true), Ok(DeviceChoice::Default));
}

#[test]
fn open_rejects_bad_parameters() {
    let r = Recorder::open(config(4, true), 1, true, String::from("x"), params(2, SampleKind::Unsupported));
    assert_eq!(r.err(), Some(CaptureError::UnsupportedFormat));
    let r = Recorder::open(config(4, true), 1, true, String::from("x"), params(0, SampleKind::F32));
    assert_eq!(r.err(), Some(CaptureError::HostQueryError));
}

#[test]
fn open_records_parameters() {
    let rec = open(4, 2, true);
    assert_eq!(rec.device_name(), "mic");
    assert_eq!(rec.input_channels(), 2);
    assert_eq!(rec.output_channels(), 1);
    assert_eq!(rec.sample_rate(), 48000);
    let rec = open(4, 2, false);
    assert_eq!(rec.output_channels(), 2);
}

#[test]
fn default_config() {
    let c = RecorderConfig::default();
    assert_eq!(c.device_index, None);
    assert!(c.prefer_mono);
    assert_eq!(c.queue_chunks_capacity, 32);
}

#[test]
fn start_after_stop_fails() {
    let mut rec = open(4, 1, true);
    assert_eq!(rec.start(), Ok(()));
    rec.stop();
    assert_eq!(rec.start(), Err(CaptureError::StreamStartError));
}

#[test]
fn full_queue_drops_without_blocking() {
    let rec = open(3, 1, true);
    let p = rec.producer();
    assert!(p.push_i16(&[1]));
    assert!(p.push_i16(&[2]));
    assert!(p.push_i16(&[3]));
    assert!(!p.push_i16(&[4]));
    assert_eq!(rec.try_recv_chunk(), Some(vec![1]));
    assert_eq!(rec.try_recv_chunk(), Some(vec![2]));
    assert_eq!(rec.try_recv_chunk(), Some(vec![3]));
    assert_eq!(rec.try_recv_chunk(), None);
}

#[test]
fn empty_buffer_makes_no_chunk() {
    let rec = open(3, 2, true);
    let p = rec.producer();
    assert!(!p.push_i16(&[]));
    assert!(!p.push_u16(&[]));
    assert_eq!(rec.try_recv_chunk(), None);
}

#[test]
fn receive_times_out_then_returns_in_order() {
    let rec = open(4, 2, true);
    let t = Instant::now();
    assert_eq!(rec.recv_chunk_timeout(Duration::from_millis(50)), None);
    assert!(t.elapsed() >= Duration::from_millis(50));
    let p = rec.producer();
    assert!(p.push_i16(&[2, 4, 6, 8]));
    assert!(p.push_u16(&[32768, 32770]));
    assert_eq!(rec.recv_chunk_timeout(Duration::from_millis(50)), Some(vec![3, 7]));
    assert_eq!(rec.recv_chunk_timeout(Duration::from_millis(50)), Some(vec![1]));
}

#[test]
fn stop_then_drain_keeps_every_chunk() {
    let mut rec = open(3, 1, false);
    rec.start().unwrap();
    let p = rec.producer();
    let a = vec![1i16, 2];
    let b = vec![3i16];
    let c = vec![4i16, 5, 6];
    assert!(p.push_i16(&a));
    assert!(p.push_i16(&b));
    assert!(p.push_i16(&c));
    rec.stop();
    let mut got = Vec::new();
    while let Some(chunk) = rec.try_recv_chunk() {
        got.push(chunk);
    }
    assert_eq!(got, vec![a, b, c]);
}

#[test]
fn open_rejects_unresolvable_device() {
    let mut cfg = config(4, true);
    cfg.device_index = Some(2);
    let r = Recorder::open(cfg, 2, true, String::from("x"), params(2, SampleKind::F32));
    assert_eq!(r.err(), Some(CaptureError::DeviceNotFound));
    let mut cfg = config(4, true);
    cfg.device_index = Some(usize::MAX);
    let r = Recorder::open(cfg, 2, true, String::from("x"), params(2, SampleKind::F32));
    assert_eq!(r.err(), Some(CaptureError::DeviceNotFound));
    let r = Recorder::open(config(4, true), 2, false, String::from("x"), params(2, SampleKind::F32));
    assert_eq!(r.err(), Some(CaptureError::NoDefaultDevice));
    let mut cfg = config(4, true);
    cfg.device_index = Some(1);
    let r = Recorder::open(cfg, 2, false, String::from("x"), params(2, SampleKind::F32));
    assert!(r.is_ok());
}
