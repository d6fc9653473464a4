use freelance_escrow::fees::{platform_fee, processing_fee};
use freelance_escrow::uint::U256;

#[test]
fn platform_fee_is_amount_times_rate_over_ten_thousand() {
    assert_eq!(platform_fee(&U256::from_u64(1000), &U256::from_u64(500)), U256::from_u64(50));
    assert_eq!(platform_fee(&U256::from_u64(1000), &U256::from_u64(250)), U256::from_u64(25));
    assert_eq!(platform_fee(&U256::from_u64(20000), &U256::from_u64(1)), U256::from_u64(2));
    assert_eq!(
        platform_fee(&U256::from_u64(123_456_789), &U256::from_u64(375)),
        U256::from_u64(4_629_629)
    );
}

#[test]
fn platform_fee_rounds_down() {
    assert_eq!(platform_fee(&U256::from_u64(9999), &U256::from_u64(1)), U256::zero());
    assert_eq!(platform_fee(&U256::from_u64(19999), &U256::from_u64(1)), U256::from_u64(1));
    assert_eq!(platform_fee(&U256::from_u64(1), &U256::from_u64(9999)), U256::zero());
    assert_eq!(platform_fee(&U256::from_u64(3), &U256::from_u64(5000)), U256::from_u64(1));
    assert_eq!(platform_fee(&U256::from_u64(10001), &U256::from_u64(9999)), U256::from_u64(9999));
}

#[test]
fn platform_fee_at_rate_zero_or_on_nothing_is_zero() {
    assert_eq!(platform_fee(&U256::from_u64(1_000_000), &U256::zero()), U256::zero());
    assert_eq!(platform_fee(&U256::zero(), &U256::from_u64(500)), U256::zero());
    assert_eq!(platform_fee(&U256::max_value(), &U256::zero()), U256::zero());
}

#[test]
fn platform_fee_is_exact_where_the_product_exceeds_256_bits() {
    let fee = platform_fee(&U256::max_value(), &U256::from_u64(9999));
    assert_eq!(
        fee,
        U256 {
            limbs: [
                0xb5dcc63f141205bb,
                0xdab9f559b3d07c84,
                0xd6a161e4f765fd8a,
                0xfff972474538ef34,
            ],
        }
    );
    let amount = U256 {
        limbs: [0x8796a5b4c3d2e1f0, 0x0f1e2d3c4b5a6978, 0xfedcba9876543210, 0x0123456789abcdef],
    };
    assert_eq!(
        platform_fee(&amount, &U256::from_u64(250)),
        U256 {
            limbs: [
                0x0363c42484e545a6,
                0x0060c12181e242a3,
                0x665f1e43cfc21ada,
                0x0007482296a44b8c,
            ],
        }
    );
}

#[test]
fn processing_fee_is_one_hundredth_rounded_down() {
    assert_eq!(processing_fee(&U256::from_u64(1000)), U256::from_u64(10));
    assert_eq!(processing_fee(&U256::from_u64(12345)), U256::from_u64(123));
    assert_eq!(processing_fee(&U256::from_u64(100)), U256::from_u64(1));
    assert_eq!(processing_fee(&U256::from_u64(99)), U256::zero());
    assert_eq!(processing_fee(&U256::from_u64(1)), U256::zero());
    assert_eq!(processing_fee(&U256::zero()), U256::zero());
}

#[test]
fn processing_fee_of_a_wide_amount() {
    let amount = U256 {
        limbs: [0x8796a5b4c3d2e1f0, 0x0f1e2d3c4b5a6978, 0xfedcba9876543210, 0x0123456789abcdef],
    };
    assert_eq!(
        processing_fee(&amount),
        U256 {
            limbs: [
                0xce27e80e9b8ee8a8,
                0x668d1a0d67274dda,
                0xf5bfa5b4b980d78a,
                0x0002e9a76f74eb04,
            ],
        }
    );
}
