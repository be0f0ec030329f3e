use hash_omikuji::catalog::{field_catalog, Mapping};
use hash_omikuji::digest::{seed_string, HashBits};
use hash_omikuji::fortune::derive_and_decode;

#[test]
fn seed_string_format() {
    assert_eq!(seed_string(2026, "alice"), "2026-alice-sha-omikuji-2026");
    assert_eq!(seed_string(0, ""), "0--sha-omikuji-2026");
    assert_eq!(seed_string(4294967295, "a-b"), "4294967295-a-b-sha-omikuji-2026");
}

#[test]
fn alice_digest_hex() {
    let hash = HashBits::from_seed(2026, "alice");
    assert_eq!(
        hash.hex_string(),
        "a5bf253479ea8b349ce7be4d227ec2cfeed0ecdb2638ff261dd5507f32730f01"
    );
}

#[test]
fn hex_string_of_counting_bytes() {
    let mut bytes = [0u8; 32];
    for (i, b) in bytes.iter_mut().enumerate() {
        *b = (i as u8) * 8 + 7;
    }
    assert_eq!(
        HashBits::from_bytes(bytes).hex_string(),
        "070f171f272f373f474f575f676f777f878f979fa7afb7bfc7cfd7dfe7eff7ff"
    );
}

#[test]
fn get_bits_reads_msb_first() {
    let mut bytes = [0u8; 32];
    for (i, b) in bytes.iter_mut().enumerate() {
        *b = i as u8;
    }
    let hash = HashBits::from_bytes(bytes);
    assert_eq!(hash.get_bits(4, 12), 1);
    assert_eq!(hash.get_bits(8, 8), 1);
    assert_eq!(hash.get_bits(15, 1), 1);
    assert_eq!(hash.get_bits(0, 0), 0);
}

#[test]
fn get_bits_skips_bits_past_the_end() {
    let mut bytes = [0u8; 32];
    for (i, b) in bytes.iter_mut().enumerate() {
        *b = i as u8;
    }
    let hash = HashBits::from_bytes(bytes);
    // Only the six bits 250..256 exist; the other four are skipped.
    assert_eq!(hash.get_bits(250, 10), 31);
    assert_eq!(hash.get_bits(256, 8), 0);
}

#[test]
fn alice_fields() {
    let (hash, f) = derive_and_decode(2026, "alice");
    assert_eq!(hash.hex_string(), HashBits::from_seed(2026, "alice").hex_string());
    assert_eq!(f.lucky_number, 165);
    assert_eq!(f.lucky_hex, 191);
    assert_eq!(f.lucky_bits, 9524);
    assert_eq!(f.lucky_day, 244);
    assert_eq!(f.lucky_hour, 2);
    assert_eq!(f.lucky_minute, 40);
    assert_eq!(f.lucky_power_of_2, 32);
    assert_eq!(f.lucky_ascii, 'm');
    assert_eq!(f.lucky_logic_gate, "OR");
    assert_eq!(
        f.luck_scores,
        [57, 207, 124, 154, 68, 253, 133, 159, 221, 161, 217, 182, 76, 113, 254, 76]
    );
    assert_eq!(f.entropy_check, 954);
    assert_eq!(f.lucky_emoji as u32, 0x1F62A);
    assert_eq!(f.lucky_direction, "↓");
    assert_eq!(f.lucky_element, "He (2)");
    assert_eq!(f.lucky_percent, 25);
    assert_eq!(f.lucky_latitude, 10);
    assert_eq!(f.lucky_longitude, -81);
}

#[test]
fn bob_fields() {
    let (_, f) = derive_and_decode(2026, "bob");
    assert_eq!(f.lucky_number, 169);
    assert_eq!(f.lucky_hex, 237);
    assert_eq!(f.lucky_bits, 32716);
    assert_eq!(f.lucky_day, 29);
    assert_eq!(f.lucky_hour, 9);
    assert_eq!(f.lucky_minute, 15);
    assert_eq!(f.lucky_power_of_2, 4);
    assert_eq!(f.lucky_ascii, '5');
    assert_eq!(f.lucky_logic_gate, "AND");
    assert_eq!(f.entropy_check, 3935);
    assert_eq!(f.lucky_emoji as u32, 0x1F61B);
    assert_eq!(f.lucky_direction, "↗");
    assert_eq!(f.lucky_element, "Si (14)");
    assert_eq!(f.lucky_percent, 1);
    assert_eq!(f.lucky_latitude, 84);
    assert_eq!(f.lucky_longitude, 67);
}

#[test]
fn alice_and_bob_differ() {
    let (ha, fa) = derive_and_decode(2026, "alice");
    let (hb, fb) = derive_and_decode(2026, "bob");
    assert_ne!(ha.hex_string(), hb.hex_string());
    assert_ne!(fa, fb);
}

#[test]
fn derive_twice_is_identical() {
    let (h1, f1) = derive_and_decode(2025, "erin");
    let (h2, f2) = derive_and_decode(2025, "erin");
    assert_eq!(h1.hex_string(), h2.hex_string());
    assert_eq!(f1, f2);
    assert_eq!(h1.decode_all(), h1.decode_all());
}

#[test]
fn empty_user_and_year_zero() {
    let (h, f) = derive_and_decode(0, "");
    assert_eq!(h.hex_string().len(), 64);
    assert!(f.lucky_day >= 1 && f.lucky_day <= 365);
}

#[test]
fn all_zero_digest_fields() {
    let f = HashBits::from_bytes([0u8; 32]).decode_all();
    assert_eq!(f.lucky_day, 1);
    assert_eq!(f.lucky_power_of_2, 1);
    assert_eq!(f.lucky_ascii, ' ');
    assert_eq!(f.lucky_logic_gate, "AND");
    assert_eq!(f.lucky_emoji as u32, 0x1F600);
    assert_eq!(f.lucky_direction, "↑");
    assert_eq!(f.lucky_element, "H (1)");
    assert_eq!(f.lucky_latitude, -90);
    assert_eq!(f.lucky_longitude, -180);
}

#[test]
fn all_ones_digest_fields() {
    let f = HashBits::from_bytes([0xffu8; 32]).decode_all();
    assert_eq!(f.lucky_number, 255);
    assert_eq!(f.lucky_bits, 65535);
    assert_eq!(f.lucky_day, 511 % 365 + 1);
    assert_eq!(f.lucky_hour, 31 % 24);
    assert_eq!(f.lucky_minute, 63 % 60);
    assert_eq!(f.lucky_power_of_2, 128);
    assert_eq!(f.lucky_ascii as u32, 32 + 127 % 95);
    assert_eq!(f.lucky_logic_gate, "BUFFER");
    assert_eq!(f.luck_scores, [255u8; 16]);
    assert_eq!(f.entropy_check, 4095);
    assert_eq!(f.lucky_emoji as u32, 0x1F63F);
    assert_eq!(f.lucky_direction, "↖");
    assert_eq!(f.lucky_element, "U (92)");
    assert_eq!(f.lucky_percent, 127 % 101);
    assert_eq!(f.lucky_latitude, -16);
    assert_eq!(f.lucky_longitude, (511 % 361) - 180);
}

#[test]
fn catalog_entries_in_bit_order() {
    let c = field_catalog();
    assert_eq!(c.len(), 17);
    assert_eq!(c[0].name, "lucky_number");
    assert_eq!(c[3].name, "lucky_day");
    assert_eq!((c[3].bit_offset, c[3].bit_width), (32, 9));
    assert_eq!(c[3].mapping, Mapping::Modulo { modulus: 365, offset: 1 });
    assert_eq!(c[9].bit_width, 128);
    assert_eq!(c[16].mapping, Mapping::Modulo { modulus: 361, offset: -180 });
    for pair in c.windows(2) {
        assert!(pair[0].bit_offset + pair[0].bit_width <= pair[1].bit_offset);
    }
    let last = &c[16];
    assert!(last.bit_offset + last.bit_width <= 256);
}
