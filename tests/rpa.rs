use librepods_att::rpa::{ah, reverse16};

#[test]
fn ah_matches_core_sample() {
    // IRK 0xec0234a357c8ad05341010a60a397d9b and prand 0x708194, least
    // significant byte first; the hash is 0x0dfbaa.
    let k: [u8; 16] = [
        0x9b, 0x7d, 0x39, 0x0a, 0xa6, 0x10, 0x10, 0x34, 0x05, 0xad, 0xc8, 0x57, 0xa3, 0x34, 0x02, 0xec,
    ];
    let r: [u8; 3] = [0x94, 0x81, 0x70];
    assert_eq!(ah(&k, &r), [0xaa, 0xfb, 0x0d]);
}

#[test]
fn ah_depends_on_the_random_part() {
    let k = [7u8; 16];
    assert_ne!(ah(&k, &[1, 2, 3]), ah(&k, &[1, 2, 4]));
}

#[test]
fn reverse16_reverses() {
    let a: [u8; 16] = [0, 1, 2, 3, 4, 5, 6, 7, 8, 9, 10, 11, 12, 13, 14, 15];
    let r = reverse16(&a);
    assert_eq!(r, [15, 14, 13, 12, 11, 10, 9, 8, 7, 6, 5, 4, 3, 2, 1, 0]);
}
