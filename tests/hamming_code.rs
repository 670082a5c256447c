use hamming::{correct, decode, encode, flip_bit, get_bit_at_position};
use hamming::{ErrorStatus, HammingDataBlock, HammingError};

/// Tests all values between 0 to 2^11 exclusive. Fails are tracked.
/// All bit positions will be zapped, one at a time. If the fixed value is not equal to the original, the bit position and original value are logged.
#[test]
pub fn run_test() {
    let mut hammingvalue: HammingDataBlock;
    let mut fails: Vec<[u16; 2]> = Vec::new();

    for value in 0..2u16.pow(11) {
        for position in 0..=15u8 {
            hammingvalue = HammingDataBlock::new(value).unwrap();
            hammingvalue.zap_bit(position);

            hammingvalue.fix();

            if hammingvalue.get_value() != hammingvalue.get_prior_value() {
                fails.push([value, position as u16]);
                println!("Fail with value: {} @ position {}", value, position);
            }
        }
    }

    println!("Total fails: {}/32768 ({}%)", fails.len(), 100 * (fails.len() / 32768));

    let mut min: u16 = 0;
    let mut positional_stats: [u32; 16] = [0; 16];

    if fails.len() > 0 {
        println!("Test failed. Fail statistics:");

        for stat in fails.iter() {
            if stat[0] > min {
                min = stat[0]
            }

            positional_stats[stat[1] as usize] += 1;
        }

        let mut max_pos: u8 = 0;

        for i in 0..=15 {
            if positional_stats[i] > positional_stats[max_pos as usize] {
                max_pos = i as u8;
            }
        }

        println!("Highest failed number: {}", min);
        println!("Most failed position: {}", max_pos);
    }

    assert!(fails.len() == 0);
}

#[test]
fn encode_known_codewords() {
    assert_eq!(encode(0), Ok(0));
    assert_eq!(encode(1), Ok(15));
    assert_eq!(encode(5), Ok(90));
    assert_eq!(encode(1024), Ok(33047));
    assert_eq!(encode(2047), Ok(0xffff));
}

#[test]
fn encode_rejects_wide_payloads() {
    assert_eq!(encode(2048), Err(HammingError::InvalidPayload));
    assert_eq!(encode(u16::MAX), Err(HammingError::InvalidPayload));
    assert!(HammingDataBlock::new(2048).is_err());
}

#[test]
fn decode_of_encode_round_trips() {
    for p in 0..2048u16 {
        assert_eq!(decode(encode(p).unwrap()), p);
    }
}

#[test]
fn decode_ignores_parity_positions() {
    assert_eq!(decode(0x0117), 0);
    assert_eq!(decode(0x0100), 0);
    assert_eq!(decode(0xffff), 2047);
    assert_eq!(decode(0x0008), 1);
    assert_eq!(decode(0x8000), 1024);
}

#[test]
fn clean_codewords_report_no_error() {
    for p in 0..2048u16 {
        let c = encode(p).unwrap();
        assert_eq!(correct(c), (c, ErrorStatus::NoError));
    }
}

#[test]
fn every_single_flip_is_located_and_repaired() {
    for p in 0..2048u16 {
        let c = encode(p).unwrap();
        for k in 0..16u8 {
            let (fixed, status) = correct(flip_bit(c, k));
            assert_eq!(fixed, c);
            assert_eq!(status, ErrorStatus::CorrectedSingleBitError(k));
            assert_eq!(decode(fixed), p);
        }
    }
}

#[test]
fn correction_is_idempotent() {
    for x in 0..=u16::MAX {
        let first = correct(x);
        let second = correct(first.0);
        assert_eq!(second, (first.0, ErrorStatus::NoError));
        if x.count_ones() % 2 == 0 {
            assert_eq!(second, first);
        }
    }
}

#[test]
fn repeated_calls_agree() {
    let damaged = flip_bit(encode(1234).unwrap(), 9);
    assert_eq!(encode(1234), encode(1234));
    assert_eq!(correct(damaged), correct(damaged));
    assert_eq!(decode(damaged), decode(damaged));
}

#[test]
fn boundary_payloads_survive() {
    for p in [0u16, 2047u16] {
        let c = encode(p).unwrap();
        assert_eq!(correct(c), (c, ErrorStatus::NoError));
        assert_eq!(decode(c), p);
        for k in 0..16u8 {
            assert_eq!(correct(flip_bit(c, k)).0, c);
        }
    }
}

#[test]
fn payload_five_with_bit_seven_flipped() {
    let c = encode(0b101).unwrap();
    let damaged = flip_bit(c, 7);
    assert_eq!(damaged, 0xda);
    let (fixed, status) = correct(damaged);
    assert_eq!(fixed, c);
    assert_eq!(status, ErrorStatus::CorrectedSingleBitError(7));
    assert_eq!(decode(fixed), 5);
}

#[test]
fn payload_zero_with_overall_parity_bit_flipped() {
    let c = encode(0).unwrap();
    let damaged = flip_bit(c, 0);
    assert_eq!(damaged, 1);
    let (fixed, status) = correct(damaged);
    assert_eq!(fixed, 0);
    assert_eq!(status, ErrorStatus::CorrectedSingleBitError(0));
    assert_eq!(decode(fixed), 0);
}

#[test]
fn double_errors_pass_as_clean() {
    let damaged = flip_bit(flip_bit(encode(5).unwrap(), 3), 12);
    assert_eq!(correct(damaged), (damaged, ErrorStatus::NoError));
}

#[test]
fn bits_are_read_by_position() {
    let w: u16 = 90;
    assert!(!get_bit_at_position(&w, 0));
    assert!(get_bit_at_position(&w, 1));
    assert!(!get_bit_at_position(&w, 2));
    assert!(get_bit_at_position(&w, 3));
    assert!(get_bit_at_position(&w, 6));
    assert!(!get_bit_at_position(&w, 15));
    assert!(get_bit_at_position(&0x8000, 15));
}

#[test]
fn flip_bit_toggles_one_position() {
    assert_eq!(flip_bit(0, 15), 0x8000);
    assert_eq!(flip_bit(0x8000, 15), 0);
    assert_eq!(flip_bit(90, 1), 88);
}

#[test]
fn block_keeps_payload_and_first_codeword() {
    let mut block = HammingDataBlock::new(5).unwrap();
    assert_eq!(block.get_value(), 90);
    assert_eq!(block.get_prior_value(), 90);
    assert_eq!(block.get_orignal_value(), 5);
    assert_eq!(block.convert_to_original(), 5);

    block.zap_bit(12);
    assert_eq!(block.get_value(), 90 ^ 0x1000);
    assert_eq!(block.get_prior_value(), 90);
    assert_eq!(block.convert_to_original(), 5 | 0x80);

    assert_eq!(block.fix(), ErrorStatus::CorrectedSingleBitError(12));
    assert_eq!(block.get_value(), 90);
    assert_eq!(block.convert_to_original(), 5);
    assert_eq!(block.fix(), ErrorStatus::NoError);
    assert_eq!(block.get_value(), 90);
}
