use packet_pipeline::cipher::KeyInitError;
use packet_pipeline::codec::{Mode, PacketCodec};
use packet_pipeline::compression::BulkCompressor;
use packet_pipeline::pipeline::Context;

fn zero_key() -> Vec<u8> {
    vec![0u8; 32]
}

fn zero_iv() -> Vec<u8> {
    vec![0u8; 16]
}

fn linked_pair(key: &Vec<u8>, iv: &Vec<u8>) -> (Context, Context) {
    let mut enc = Context::create(true);
    let mut dec = Context::create(false);
    assert!(enc.enable(key, iv).is_ok());
    assert!(dec.enable(key, iv).is_ok());
    (enc, dec)
}

#[test]
fn concrete_ping_round_trip() {
    let (mut enc, mut dec) = linked_pair(&zero_key(), &zero_iv());
    assert_eq!(enc.counter_value(), 0);

    let wire = enc.process(b"PING".to_vec());
    assert_eq!(enc.counter_value(), 1);
    assert!(wire.len() >= 8);

    let back = dec.process(wire);
    assert_eq!(back, b"PING".to_vec());
    assert_eq!(dec.counter_value(), 1);
}

#[test]
fn tampered_last_byte_is_rejected() {
    let (mut enc, mut dec) = linked_pair(&zero_key(), &zero_iv());

    let mut wire = enc.process(b"PING".to_vec());
    let last = wire.len() - 1;
    wire[last] = wire[last].wrapping_add(1);

    let back = dec.process(wire);
    assert_eq!(back, Vec::<u8>::new());
}

#[test]
fn each_single_bit_flip_is_rejected() {
    let key = vec![9u8; 32];
    let iv = vec![4u8; 16];
    let plain = b"tamper detection sample".to_vec();

    let mut reference = Context::create(true);
    assert!(reference.enable(&key, &iv).is_ok());
    let wire = reference.process(plain);

    for byte in 0..wire.len() {
        for bit in 0..8 {
            let mut tampered = wire.clone();
            tampered[byte] ^= 1u8 << bit;

            let mut dec = Context::create(false);
            assert!(dec.enable(&key, &iv).is_ok());
            let back = dec.process(tampered);
            assert_eq!(back, Vec::<u8>::new(), "flip at byte {} bit {}", byte, bit);
        }
    }
}

#[test]
fn several_packets_in_order_round_trip() {
    let key = vec![1u8; 32];
    let iv = vec![2u8; 16];
    let (mut enc, mut dec) = linked_pair(&key, &iv);

    let packets: Vec<Vec<u8>> = vec![
        b"first packet".to_vec(),
        Vec::new(),
        b"a somewhat longer third packet with repetition repetition repetition".to_vec(),
        vec![0xffu8; 300],
    ];
    for p in &packets {
        let wire = enc.process(p.clone());
        let back = dec.process(wire);
        assert_eq!(&back, p);
    }
    assert_eq!(enc.counter_value(), packets.len() as i64);
    assert_eq!(dec.counter_value(), packets.len() as i64);
}

#[test]
fn codec_passthrough_is_identity_and_counter_advances() {
    let mut codec = PacketCodec::new(Mode::Encoding);
    assert!(!codec.is_enabled());
    for i in 0..5i64 {
        let data = vec![i as u8, 1, 2, 3];
        let out = codec.process(data.clone());
        assert_eq!(out, data);
        assert_eq!(codec.counter_value(), i + 1);
    }
}

#[test]
fn decoding_codec_passthrough_is_identity() {
    let mut codec = PacketCodec::new(Mode::Decoding);
    let data = b"anything at all".to_vec();
    let out = codec.process(data.clone());
    assert_eq!(out, data);
    assert_eq!(codec.counter_value(), 1);
}

#[test]
fn short_key_is_rejected_and_context_stays_passthrough() {
    let mut ctx = Context::create(true);
    let r = ctx.enable(&vec![0u8; 31], &zero_iv());
    assert_eq!(r, Err(KeyInitError::InvalidKeyLength));
    assert!(!ctx.is_enabled());

    let mut codec = PacketCodec::new(Mode::Encoding);
    assert_eq!(codec.init_state(&vec![0u8; 33], &zero_iv()), Err(KeyInitError::InvalidKeyLength));
    let data = b"still clear".to_vec();
    assert_eq!(codec.process(data.clone()), data);
}

#[test]
fn short_iv_is_rejected() {
    let mut ctx = Context::create(false);
    let r = ctx.enable(&zero_key(), &vec![0u8; 15]);
    assert_eq!(r, Err(KeyInitError::InvalidIvLength));
    assert!(!ctx.is_enabled());
}

#[test]
fn failed_enable_after_success_disables_the_cipher() {
    let mut ctx = Context::create(true);
    assert!(ctx.enable(&zero_key(), &zero_iv()).is_ok());
    assert!(ctx.is_enabled());
    assert!(ctx.enable(&vec![0u8; 5], &zero_iv()).is_err());
    assert!(!ctx.is_enabled());
}

#[test]
fn counter_counts_every_call_in_either_state() {
    let mut ctx = Context::create(true);
    ctx.process(b"one".to_vec());
    ctx.process(b"two".to_vec());
    assert_eq!(ctx.counter_value(), 2);
    assert!(ctx.enable(&zero_key(), &zero_iv()).is_ok());
    ctx.process(b"three".to_vec());
    assert_eq!(ctx.counter_value(), 3);
}

#[test]
fn compressed_size_stays_under_the_bound() {
    let mut engines = BulkCompressor::new();
    let samples: Vec<Vec<u8>> = vec![
        Vec::new(),
        b"tiny".to_vec(),
        vec![7u8; 4096],
        (0..2048u32).map(|i| (i % 251) as u8).collect(),
    ];
    for data in &samples {
        let bound = engines.compress_bound(data.len());
        let compressed = engines.compress(data);
        assert!(compressed.len() >= 1);
        assert!(compressed.len() <= bound);
    }
}

#[test]
fn decompress_inverts_compress_when_capacity_suffices() {
    let mut engines = BulkCompressor::new();
    let data: Vec<u8> = (0..5000u32).map(|i| (i * 31 % 256) as u8).collect();
    let compressed = engines.compress(&data);
    let back = engines.decompress(&compressed, data.len());
    assert_eq!(back, data);
    let roomy = engines.decompress(&compressed, data.len() + 1000);
    assert_eq!(roomy, data);
}

#[test]
fn decompress_rejects_content_larger_than_capacity() {
    let mut engines = BulkCompressor::new();
    let data = vec![0u8; 1000];
    let compressed = engines.compress(&data);
    let back = engines.decompress(&compressed, 10);
    assert_eq!(back, Vec::<u8>::new());
}

#[test]
fn decompress_rejects_a_malformed_stream() {
    let mut engines = BulkCompressor::new();
    let garbage = b"this is not a DEFLATE stream".to_vec();
    let back = engines.decompress(&garbage, 1 << 16);
    assert_eq!(back, Vec::<u8>::new());
}

#[test]
fn oversized_packet_is_rejected_whole_by_the_decoder() {
    let key = vec![3u8; 32];
    let iv = vec![5u8; 16];
    let (mut enc, mut dec) = linked_pair(&key, &iv);
    dec.set_preallocate_size(16);

    let wire = enc.process(vec![0x42u8; 500]);
    let back = dec.process(wire);
    assert_eq!(back, Vec::<u8>::new());
}

#[test]
fn create_sets_the_documented_defaults() {
    let ctx = Context::create(true);
    assert_eq!(ctx.counter_value(), 0);
    assert!(!ctx.is_enabled());
    assert_eq!(ctx.preallocate_size_value(), 2 * 1024 * 1024);

    let mut other = Context::create(false);
    other.set_preallocate_size(4096);
    assert_eq!(other.preallocate_size_value(), 4096);
    other.set_debug(true);
    assert_eq!(other.counter_value(), 0);
}

#[test]
fn encryption_actually_changes_the_bytes() {
    let key = zero_key();
    let iv = zero_iv();
    let (mut enc, _) = linked_pair(&key, &iv);

    let mut engines = BulkCompressor::new();
    let compressed = engines.compress(&b"PING".to_vec());
    let tag = packet_pipeline::digest::compute_tag(0, &compressed, &key);
    let mut tagged = compressed.clone();
    tagged.extend_from_slice(&tag);

    let wire = enc.process(b"PING".to_vec());
    assert_eq!(wire.len(), tagged.len());
    assert_ne!(wire, tagged);
}
