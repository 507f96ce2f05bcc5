use philanthrify::amount::Amount;
use philanthrify::error::DonationError;
use philanthrify::format::amount_to_decimal;
use philanthrify::split::split_payment;

fn split(total: u128, count: u64) -> Result<Vec<u8>, DonationError> {
    split_payment(&Amount::from_u128(total), count).map(|each| amount_to_decimal(&each))
}

#[test]
fn exact_division() {
    assert_eq!(split(100, 4), Ok(b"25".to_vec()));
    assert_eq!(split(100, 1), Ok(b"100".to_vec()));
    assert_eq!(split(100, 100), Ok(b"1".to_vec()));
}

#[test]
fn the_remainder_is_given_up() {
    assert_eq!(split(10, 3), Ok(b"3".to_vec()));
    assert_eq!(split(199, 100), Ok(b"1".to_vec()));
    assert_eq!(split(1_000_000_000_000_000_000, 3), Ok(b"333333333333333333".to_vec()));
}

#[test]
fn a_batch_of_none_is_refused() {
    assert_eq!(split(100, 0), Err(DonationError::InvalidBatchSize));
    assert_eq!(split(0, 0), Err(DonationError::InvalidBatchSize));
}

#[test]
fn a_batch_of_more_than_a_hundred_is_refused() {
    assert_eq!(split(1_000_000, 101), Err(DonationError::InvalidBatchSize));
    assert_eq!(split(1_000_000, u64::MAX), Err(DonationError::InvalidBatchSize));
}

#[test]
fn every_donation_must_get_something() {
    assert_eq!(split(5, 10), Err(DonationError::PaymentTooSmall));
    assert_eq!(split(99, 100), Err(DonationError::PaymentTooSmall));
    assert_eq!(split(0, 1), Err(DonationError::PaymentTooSmall));
}

#[test]
fn shares_never_exceed_the_payment() {
    for total in [1u128, 7, 99, 100, 101, 12345, 1_000_000_000_000_000_007] {
        for count in 1u64..=100 {
            match split_payment(&Amount::from_u128(total), count) {
                Ok(each) => {
                    let each: u128 = String::from_utf8(amount_to_decimal(&each))
                        .unwrap()
                        .parse()
                        .unwrap();
                    assert!(each > 0);
                    assert_eq!(each, total / count as u128);
                    assert!(each * count as u128 <= total);
                    assert!(total - each * (count as u128) < count as u128);
                }
                Err(error) => {
                    assert_eq!(error, DonationError::PaymentTooSmall);
                    assert!(total < count as u128);
                }
            }
        }
    }
}

#[test]
fn a_payment_beyond_sixty_four_bits() {
    assert_eq!(split(u128::MAX, 7), Ok(b"48611766702991209066196372490252601636".to_vec()));
}
