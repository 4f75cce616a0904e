use radar_server::plugins::samples::{pack_samples, samples_to_bytes, unpack_samples};
use radar_server::plugins::source_data::{DummyData, NUM_SAMPLES};

fn native(re: i32, im: i32) -> Vec<u8> {
    let mut v = re.to_ne_bytes().to_vec();
    v.extend_from_slice(&im.to_ne_bytes());
    v
}

#[test]
fn pack_writes_each_sample_in_machine_layout() {
    let re = [1, -2, i32::MAX, i32::MIN];
    let im = [0x0102_0304, 5, -1, 0, 99];
    let data = pack_samples(&re, &im);
    let mut expected = Vec::new();
    for k in 0..re.len() {
        expected.extend(native(re[k], im[k]));
    }
    assert_eq!(data, expected);
    assert_eq!(data.len(), 32);
}

#[test]
fn pack_of_no_samples_is_empty() {
    assert!(pack_samples(&[], &[3]).is_empty());
}

#[test]
fn samples_to_bytes_matches_pack() {
    let samples = vec![(7, -7), (1 << 20, 3)];
    assert_eq!(samples_to_bytes(&samples), pack_samples(&[7, 1 << 20], &[-7, 3]));
    assert_eq!(samples_to_bytes(&samples)[0..8], native(7, -7)[..]);
}

#[test]
fn unpack_reads_back_packed_samples() {
    let data = pack_samples(&[10, -20, 30], &[-1, 2, -3]);
    match unpack_samples(&data) {
        Some(s) => assert_eq!(s, vec![(10, -1), (-20, 2), (30, -3)]),
        None => panic!("an allocation of bytes should be aligned for i32"),
    }
}

#[test]
fn unpack_refuses_a_partial_sample() {
    let data = pack_samples(&[1, 2], &[3, 4]);
    assert_eq!(unpack_samples(&data[..15]), None);
}

#[test]
fn dummy_draws_a_full_packet() {
    let (re, im) = DummyData.random_samples();
    assert_eq!(re.len(), NUM_SAMPLES);
    assert_eq!(im.len(), NUM_SAMPLES);
    assert_eq!(pack_samples(&re, &im).len(), 8 * NUM_SAMPLES);
}
