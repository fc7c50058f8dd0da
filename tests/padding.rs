use sha_bench::padding::{fixed_block, pad_message, words_be};

#[test]
fn pad_abc_is_one_standard_block() {
    let p = pad_message(b"abc");
    assert_eq!(p.len(), 64);
    assert_eq!(&p[0..3], b"abc");
    assert_eq!(p[3], 0x80);
    assert!(p[4..56].iter().all(|b| *b == 0));
    assert_eq!(&p[56..64], &[0, 0, 0, 0, 0, 0, 0, 0x18]);
}

#[test]
fn pad_empty_message() {
    let p = pad_message(b"");
    let mut expected = vec![0u8; 64];
    expected[0] = 0x80;
    assert_eq!(p, expected);
}

#[test]
fn pad_55_bytes_fits_one_block() {
    let msg = vec![0x41u8; 55];
    let p = pad_message(&msg);
    assert_eq!(p.len(), 64);
    assert_eq!(p[55], 0x80);
    // 55 * 8 = 440 = 0x01b8
    assert_eq!(&p[56..64], &[0, 0, 0, 0, 0, 0, 0x01, 0xb8]);
}

#[test]
fn pad_56_bytes_needs_two_blocks() {
    let msg = vec![0x41u8; 56];
    let p = pad_message(&msg);
    assert_eq!(p.len(), 128);
    assert_eq!(p[56], 0x80);
    assert!(p[57..120].iter().all(|b| *b == 0));
    // 56 * 8 = 448 = 0x01c0
    assert_eq!(&p[120..128], &[0, 0, 0, 0, 0, 0, 0x01, 0xc0]);
}

#[test]
fn pad_64_bytes_adds_a_full_block() {
    let msg = vec![7u8; 64];
    let p = pad_message(&msg);
    assert_eq!(p.len(), 128);
    assert_eq!(&p[0..64], &msg[..]);
    assert_eq!(p[64], 0x80);
    assert_eq!(&p[120..128], &[0, 0, 0, 0, 0, 0, 0x02, 0x00]);
}

#[test]
fn words_are_big_endian() {
    let w = words_be(&[0x01, 0x02, 0x03, 0x04, 0xff, 0x00, 0x00, 0x01]);
    assert_eq!(w, vec![0x01020304, 0xff000001]);
    assert_eq!(words_be(&[]), Vec::<u32>::new());
}

#[test]
fn fixed_block_is_padded_abc() {
    let b = fixed_block();
    let mut expected = [0u32; 16];
    expected[0] = 0x61626380;
    expected[15] = 0x18;
    assert_eq!(b, expected);
    assert_eq!(words_be(&pad_message(b"abc")), b.to_vec());
}
