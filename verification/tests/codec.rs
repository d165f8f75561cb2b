use greeting_counter::state::{decode_state, encode_state};
use greeting_counter::{Failure, GreetingAccount, Identity, IDENTITY_WIDTH, STATE_SIZE};

#[test]
fn decode_reads_little_endian() {
    let buf = vec![0x04, 0x03, 0x02, 0x01];
    assert_eq!(decode_state(&buf).unwrap().counter, 0x0102_0304);
}

#[test]
fn encode_writes_little_endian() {
    let state = GreetingAccount { counter: 0x0102_0304 };
    let mut buf = vec![0u8; STATE_SIZE];
    assert_eq!(encode_state(&state, &mut buf), Ok(()));
    assert_eq!(buf, vec![0x04, 0x03, 0x02, 0x01]);
}

#[test]
fn reencoding_a_decoded_buffer_reproduces_it() {
    for buf in [vec![0, 0, 0, 0], vec![42, 0, 0, 0], vec![0xff, 0xff, 0xff, 0xff], vec![
        0xde, 0xad, 0xbe, 0xef,
    ]] {
        let state = decode_state(&buf).unwrap();
        let mut out = vec![0u8; STATE_SIZE];
        assert_eq!(encode_state(&state, &mut out), Ok(()));
        assert_eq!(out, buf);
    }
}

#[test]
fn encoding_agrees_with_borsh() {
    for v in [0u32, 1, 0x0102_0304, u32::MAX] {
        let state = GreetingAccount { counter: v };
        let mut buf = vec![0u8; STATE_SIZE];
        assert_eq!(encode_state(&state, &mut buf), Ok(()));
        assert_eq!(buf, borsh::to_vec(&v).unwrap());
        assert_eq!(decode_state(&buf).unwrap().counter, borsh::from_slice::<u32>(&buf).unwrap());
    }
}

#[test]
fn decode_rejects_what_borsh_rejects() {
    for len in [0usize, 1, 2, 3, 5, 8] {
        let buf = vec![1u8; len];
        assert_eq!(decode_state(&buf), Err(Failure::CorruptState));
        assert!(borsh::from_slice::<u32>(&buf).is_err());
    }
}

#[test]
fn undersized_buffer_is_reported_before_any_write() {
    let state = GreetingAccount { counter: 7 };
    let mut buf = vec![5u8, 6u8, 7u8];
    assert_eq!(encode_state(&state, &mut buf), Err(Failure::BufferTooSmall));
    assert_eq!(buf, vec![5u8, 6u8, 7u8]);
}

#[test]
fn oversized_buffer_keeps_its_trailing_bytes() {
    let state = GreetingAccount { counter: 1 };
    let mut buf = vec![9u8; 6];
    assert_eq!(encode_state(&state, &mut buf), Ok(()));
    assert_eq!(buf, vec![1, 0, 0, 0, 9, 9]);
}

#[test]
fn identity_equality_is_byte_exact() {
    let a = Identity::new(vec![7u8; IDENTITY_WIDTH]);
    let b = Identity::new(vec![7u8; IDENTITY_WIDTH]);
    let mut raw = vec![7u8; IDENTITY_WIDTH];
    raw[IDENTITY_WIDTH - 1] = 8;
    let c = Identity::new(raw);

    assert!(a.equals(&b));
    assert!(b.equals(&a));
    assert!(!a.equals(&c));
    assert!(a.equals(&a));
    assert!(!Identity::zeroed().equals(&a));
    assert!(Identity::zeroed().equals(&Identity::new(vec![0u8; IDENTITY_WIDTH])));
}
