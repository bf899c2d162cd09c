use pebbles_game::get_random_u32;

fn seed(first: [u8; 4]) -> [u8; 32] {
    let mut hash = [0xabu8; 32];
    hash[0] = first[0];
    hash[1] = first[1];
    hash[2] = first[2];
    hash[3] = first[3];
    hash
}

#[test]
fn draw_reads_the_first_four_bytes() {
    assert_eq!(get_random_u32(&seed([0, 0, 0, 0])), 0);
    assert_eq!(get_random_u32(&seed([1, 0, 0, 0])), 1);
    assert_eq!(get_random_u32(&seed([0, 1, 0, 0])), 256);
    assert_eq!(get_random_u32(&seed([0, 0, 1, 0])), 65_536);
    assert_eq!(get_random_u32(&seed([0, 0, 0, 1])), 16_777_216);
    assert_eq!(get_random_u32(&seed([0x78, 0x56, 0x34, 0x12])), 0x1234_5678);
    assert_eq!(get_random_u32(&seed([255, 255, 255, 255])), u32::MAX);
}

#[test]
fn draw_agrees_with_little_endian_decoding() {
    for a in [0u8, 1, 7, 128, 255] {
        for b in [0u8, 3, 200, 255] {
            for c in [0u8, 9, 255] {
                for d in [0u8, 64, 255] {
                    assert_eq!(get_random_u32(&seed([a, b, c, d])), u32::from_le_bytes([a, b, c, d]));
                }
            }
        }
    }
}

#[test]
fn draw_ignores_the_rest_of_the_seed() {
    let mut hash = [0u8; 32];
    hash[0] = 5;
    let mut other = [0xffu8; 32];
    other[0] = 5;
    other[1] = 0;
    other[2] = 0;
    other[3] = 0;
    assert_eq!(get_random_u32(&hash), 5);
    assert_eq!(get_random_u32(&other), 5);
}
