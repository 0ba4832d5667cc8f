use airlock::utils::bits::{flag, ones, pack, set_flag, unpack, zeroes};

#[test]
fn tests() {
    assert_eq!(ones::<u8>(), 0b1111_1111);
    assert_eq!(flag::<u8>(ones(), 0), 0b0000_0001);
    assert_eq!(flag::<u8>(ones(), 4), 0b0001_0000);
    assert_eq!(flag::<u8>(ones(), 7), 0b1000_0000);

    assert_eq!(zeroes::<u8>(), 0b0000_0000);
    assert_eq!(flag::<u8>(zeroes(), 0), 0b0000_0000);
    assert_eq!(flag::<u8>(zeroes(), 4), 0b0000_0000);
    assert_eq!(flag::<u8>(zeroes(), 7), 0b0000_0000);

    assert_eq!(unpack::<u8>(ones(), 1, 2), 0b11);
    assert_eq!(pack::<u8>(0b0000_0000, 0b11, 1, 2), 0b0000_0110);
    assert_eq!(pack::<u8>(0b1111_1111, 0b11, 1, 2), 0b1111_1111);
    assert_eq!(pack::<u8>(0b0000_0000, 0b00, 1, 2), 0b0000_0000);
    assert_eq!(pack::<u8>(0b1111_1111, 0b00, 1, 2), 0b1111_1001);
}

#[test]
fn set_flag_raises_one_bit() {
    assert_eq!(set_flag::<u8>(0b0000_0000, 3), 0b0000_1000);
    assert_eq!(set_flag::<u8>(0b0000_1000, 3), 0b0000_1000);
    assert_eq!(set_flag::<u8>(0b1010_0001, 6), 0b1110_0001);
    assert_eq!(set_flag::<usize>(0, 9), 512);
}

#[test]
fn pack_cuts_the_value_to_the_field() {
    assert_eq!(pack::<u8>(0b0000_0000, 0b1111_1111, 2, 3), 0b0001_1100);
    assert_eq!(unpack::<u8>(pack::<u8>(0b1010_1010, 0b1111_0101, 2, 3), 2, 3), 0b101);
    assert_eq!(pack::<usize>(0, 0x1_0003, 4, 16), 0x30);
}

#[test]
fn pack_leaves_other_fields_alone() {
    let word: usize = 0xdead_beef;
    let written = pack::<usize>(word, 0x5a, 8, 8);
    assert_eq!(unpack::<usize>(written, 8, 8), 0x5a);
    assert_eq!(unpack::<usize>(written, 0, 8), unpack::<usize>(word, 0, 8));
    assert_eq!(unpack::<usize>(written, 16, 16), unpack::<usize>(word, 16, 16));
    assert_eq!(flag::<usize>(written, 3), flag::<usize>(word, 3));
    assert_eq!(flag::<usize>(written, 16), flag::<usize>(word, 16));
}
