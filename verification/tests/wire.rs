use sntp_client::wire::{byte_to_signed, get_be, put_be, signed_to_byte};

#[test]
fn put_be_writes_the_most_significant_byte_first() {
    let mut out = Vec::new();
    put_be(&mut out, 0x0102_0304);
    put_be(&mut out, 0xffff_fffe);
    put_be(&mut out, 0);
    assert_eq!(out, vec![1, 2, 3, 4, 0xff, 0xff, 0xff, 0xfe, 0, 0, 0, 0]);
}

#[test]
fn get_be_reads_at_any_place() {
    let bytes = [9, 0x12, 0x34, 0x56, 0x78, 0x9a];
    assert_eq!(get_be(&bytes, 1), 0x1234_5678);
    assert_eq!(get_be(&bytes, 2), 0x3456_789a);
    assert_eq!(get_be(&bytes, 0), 0x0912_3456);
}

#[test]
fn get_be_undoes_put_be() {
    for x in [0u32, 1, 0xff, 0x100, 0x8000_0000, 0xdead_beef, u32::MAX] {
        let mut out = vec![7, 7];
        put_be(&mut out, x);
        assert_eq!(get_be(&out, 2), x);
        assert_eq!(&out[2..], &x.to_be_bytes());
    }
}

#[test]
fn signed_bytes_are_twos_complement() {
    assert_eq!(signed_to_byte(0), 0);
    assert_eq!(signed_to_byte(127), 127);
    assert_eq!(signed_to_byte(-1), 0xff);
    assert_eq!(signed_to_byte(-128), 0x80);
    assert_eq!(signed_to_byte(-20), 0xec);
    assert_eq!(byte_to_signed(0xec), -20);
    assert_eq!(byte_to_signed(0x80), -128);
    assert_eq!(byte_to_signed(0x7f), 127);
}

#[test]
fn signed_bytes_round_trip() {
    for b in 0..=255u8 {
        assert_eq!(signed_to_byte(byte_to_signed(b)), b);
    }
    for x in i8::MIN..=i8::MAX {
        assert_eq!(byte_to_signed(signed_to_byte(x)), x);
    }
}
