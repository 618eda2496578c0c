use nanotuber::{is_publishable, loudness_to_publish, LoudnessRegister, SharedLoudness, SEED_LOUDNESS_BITS};

fn assert_send_sync<T: Send + Sync>() {}

#[test]
fn seed_is_two_point_seven() {
    assert_eq!(f32::from_bits(SEED_LOUDNESS_BITS), 2.7);
}

#[test]
fn register_reads_seed_before_any_write() {
    let reg = LoudnessRegister::new();
    assert_eq!(f32::from_bits(reg.read()), 2.7);
}

#[test]
fn shared_reads_seed_before_any_write() {
    let cell = SharedLoudness::new();
    assert_eq!(f32::from_bits(cell.read()), 2.7);
}

#[test]
fn empty_buffer_leaves_seed_in_register() {
    let mut reg = LoudnessRegister::new();
    assert!(!reg.publish(0, f32::NAN.to_bits()));
    assert_eq!(f32::from_bits(reg.read()), 2.7);
}

#[test]
fn empty_buffer_leaves_seed_in_shared_cell() {
    let cell = SharedLoudness::new();
    assert!(!cell.publish(0, 5.0f32.to_bits()));
    assert_eq!(f32::from_bits(cell.read()), 2.7);
}

#[test]
fn empty_buffer_leaves_previous_value() {
    let mut reg = LoudnessRegister::new();
    assert!(reg.publish(3, 42.5f32.to_bits()));
    assert!(!reg.publish(0, 7.0f32.to_bits()));
    assert_eq!(f32::from_bits(reg.read()), 42.5);
}

#[test]
fn unit_rms_publishes_ten_thousand() {
    let cell = SharedLoudness::new();
    assert!(cell.publish(4, 10000.0f32.to_bits()));
    assert_eq!(f32::from_bits(cell.read()), 10000.0);
}

#[test]
fn silent_buffer_publishes_zero() {
    let mut reg = LoudnessRegister::new();
    assert!(reg.publish(3, 0.0f32.to_bits()));
    assert_eq!(f32::from_bits(reg.read()), 0.0);
}

#[test]
fn non_finite_or_negative_is_never_published() {
    let mut reg = LoudnessRegister::new();
    assert!(!reg.publish(4, f32::NAN.to_bits()));
    assert!(!reg.publish(4, f32::INFINITY.to_bits()));
    assert!(!reg.publish(4, f32::NEG_INFINITY.to_bits()));
    assert!(!reg.publish(4, (-1.0f32).to_bits()));
    assert!(!reg.publish(4, (-0.0f32).to_bits()));
    assert_eq!(f32::from_bits(reg.read()), 2.7);
}

#[test]
fn publishable_edges() {
    assert!(is_publishable(0));
    assert!(is_publishable(f32::MAX.to_bits()));
    assert!(is_publishable(f32::MIN_POSITIVE.to_bits()));
    assert!(is_publishable(1));
    assert!(!is_publishable(0x7F80_0000));
    assert!(!is_publishable(0x7FC0_0000));
    assert!(!is_publishable(0x8000_0000));
    assert!(!is_publishable(u32::MAX));
}

#[test]
fn decision_for_buffers() {
    assert_eq!(loudness_to_publish(0, 1.0f32.to_bits()), None);
    assert_eq!(loudness_to_publish(1, 1.0f32.to_bits()), Some(1.0f32.to_bits()));
    assert_eq!(loudness_to_publish(2, f32::INFINITY.to_bits()), None);
}

#[test]
fn latest_write_wins() {
    let cell = SharedLoudness::new();
    cell.write(1.0f32.to_bits());
    cell.write(2.0f32.to_bits());
    cell.write(3.0f32.to_bits());
    assert_eq!(f32::from_bits(cell.read()), 3.0);
}

#[test]
fn interleaved_writes_read_a_written_value() {
    let mut reg = LoudnessRegister::new();
    let written = [11.0f32, 22.0, 33.0];
    for v in written.iter() {
        reg.write(v.to_bits());
        let seen = f32::from_bits(reg.read());
        assert!(written.contains(&seen));
    }
}

#[test]
fn shared_cell_can_cross_threads() {
    assert_send_sync::<SharedLoudness>();
}
