use rcc::integral::{Integral, Signedness};
use rcc::size::SizeBit;

#[test]
fn test_sign_extension() {
    let neg_one_i8 = Integral::from(-1 as i8);
    assert_eq!(neg_one_i8.as_signed(), -1);
    assert_eq!(neg_one_i8.bits(), 0xFF);

    let extended = neg_one_i8.sext(SizeBit::new(32));
    assert_eq!(extended.as_signed(), -1);
    assert_eq!(extended.bits(), 0xFFFFFFFF);
}

#[test]
fn test_truncation() {
    let big = Integral::from(0x12345678 as i32);
    let small = big.trunc(SizeBit::new(8), Signedness::Unsigned);
    assert_eq!(small.bits(), 0x78);
}

#[test]
fn test_overflow_detection() {
    let max_i8 = Integral::new(127, SizeBit::new(8), Signedness::Signed);
    let one = Integral::new(1, SizeBit::new(8), Signedness::Signed);
    let r = max_i8.overflowing_add(one);
    assert!(r.1);
    assert_eq!(r.0.as_signed(), -128);
}

#[test]
fn test_signed_comparison() {
    let neg = Integral::from(-1 as i8);
    let pos = Integral::from(1 as i8);
    assert!(neg < pos);
}

#[test]
fn test_unsigned_comparison() {
    let a = Integral::from(255 as u8);
    let b = Integral::from(1 as u8);
    assert!(a > b);
}

#[test]
fn integral_new_masks_to_width() {
    let x = Integral::new(0x1FF, SizeBit::new(8), Signedness::Unsigned);
    assert_eq!(x.bits(), 0xFF);
    assert_eq!(x.width().get(), 8);
}

#[test]
fn integral_from_signed_negative() {
    let x = Integral::from_signed(-2, SizeBit::new(16));
    assert_eq!(x.bits(), 0xFFFE);
    assert_eq!(x.as_signed(), -2);
    assert!(x.is_negative());
    assert!(!x.is_positive());
}

#[test]
fn integral_min_max_values() {
    let w = SizeBit::new(8);
    assert_eq!(Integral::min_value(w, Signedness::Signed).as_signed(), -128);
    assert_eq!(Integral::max_value(w, Signedness::Signed).as_signed(), 127);
    assert_eq!(Integral::min_value(w, Signedness::Unsigned).bits(), 0);
    assert_eq!(Integral::max_value(w, Signedness::Unsigned).bits(), 255);
    assert_eq!(Integral::max_value(SizeBit::new(128), Signedness::Unsigned).bits(), u128::MAX);
    assert_eq!(Integral::min_value(SizeBit::new(128), Signedness::Signed).as_signed(), i128::MIN);
}

#[test]
fn integral_bitmask_and_bools() {
    assert_eq!(Integral::bitmask(SizeBit::new(5)).bits(), 0x1F);
    assert_eq!(Integral::bitmask(SizeBit::new(128)).bits(), u128::MAX);
    assert!(Integral::i1_true().is_one());
    assert!(Integral::i1_false().is_zero());
    assert_eq!(Integral::from(true).width().get(), 1);
}

#[test]
fn integral_cast_extends_and_truncates() {
    let x = Integral::from(-3 as i8);
    let wide = x.cast(SizeBit::new(32), Signedness::Unsigned);
    assert_eq!(wide.bits(), 0xFFFF_FFFD);
    let back = wide.cast(SizeBit::new(8), Signedness::Signed);
    assert_eq!(back, x);
    let u = Integral::from(200 as u8).zext(SizeBit::new(16));
    assert_eq!(u.bits(), 200);
    assert!(u.is_unsigned());
}

#[test]
fn integral_reinterpret_keeps_bits() {
    let x = Integral::from(-1 as i8).reinterpret(Signedness::Unsigned);
    assert_eq!(x.bits(), 0xFF);
    assert!(x.is_unsigned());
}

#[test]
fn integral_sub_and_mul_overflow() {
    let min = Integral::from(i8::MIN);
    let one = Integral::from(1 as i8);
    let (d, o) = min.overflowing_sub(one);
    assert!(o);
    assert_eq!(d.as_signed(), 127);
    let (p, o) = Integral::from(16 as i8).overflowing_mul(Integral::from(8 as i8));
    assert!(o);
    assert_eq!(p.as_signed(), -128);
    let (p, o) = Integral::from(-4 as i8).overflowing_mul(Integral::from(8 as i8));
    assert!(!o);
    assert_eq!(p.as_signed(), -32);
    let (s, o) = Integral::from(250 as u8).overflowing_add(Integral::from(10 as u8));
    assert!(o);
    assert_eq!(s.bits(), 4);
    let (d, o) = Integral::from(3 as u8).overflowing_sub(Integral::from(5 as u8));
    assert!(o);
    assert_eq!(d.bits(), 254);
    let (p, o) = Integral::from(u64::MAX).overflowing_mul(Integral::from(2 as u64));
    assert!(o);
    assert_eq!(p.bits(), (u64::MAX - 1) as u128);
}

#[test]
fn integral_division_rounds_toward_zero() {
    let q = Integral::from(-7 as i32).checked_div(Integral::from(2 as i32)).unwrap();
    assert_eq!(q.as_signed(), -3);
    let r = Integral::from(-7 as i32).checked_rem(Integral::from(2 as i32)).unwrap();
    assert_eq!(r.as_signed(), -1);
    let r = Integral::from(7 as i32).checked_rem(Integral::from(-2 as i32)).unwrap();
    assert_eq!(r.as_signed(), 1);
    assert!(Integral::from(7 as i32).checked_div(Integral::from(0 as i32)).is_none());
    assert!(Integral::from(7 as u32).checked_rem(Integral::from(0 as u32)).is_none());
    let q = Integral::from(i8::MIN).checked_div(Integral::from(-1 as i8)).unwrap();
    assert_eq!(q.as_signed(), -128);
    assert_eq!((Integral::from(17 as u16) / Integral::from(5 as u16)).bits(), 3);
    assert_eq!((Integral::from(17 as u16) % Integral::from(5 as u16)).bits(), 2);
}

#[test]
fn integral_shifts() {
    let x = Integral::from(-16 as i8);
    assert_eq!(x.ashr(2).as_signed(), -4);
    assert_eq!(x.lshr(2).bits(), 0x3C);
    assert_eq!((x >> 2).as_signed(), -4);
    assert_eq!(x.ashr(100).as_signed(), -1);
    assert_eq!(x.lshr(100).bits(), 0);
    let u = Integral::from(0x81 as u8);
    assert_eq!((u >> 1).bits(), 0x40);
    assert_eq!((u << 1).bits(), 0x02);
    assert_eq!((u << 8).bits(), 0);
    let big = Integral::from(u128::MAX);
    assert_eq!((big << 200).bits(), 0);
    assert_eq!(big.lshr(128).bits(), 0);
}

#[test]
fn integral_bitwise_and_unary() {
    let a = Integral::from(0b1100 as u8);
    let b = Integral::from(0b1010 as u8);
    assert_eq!((a & b).bits(), 0b1000);
    assert_eq!((a | b).bits(), 0b1110);
    assert_eq!((a ^ b).bits(), 0b0110);
    assert_eq!((!a).bits(), 0xF3);
    assert_eq!((-Integral::from(1 as i8)).as_signed(), -1);
    assert_eq!((-Integral::from(i8::MIN)).as_signed(), -128);
    assert_eq!((-Integral::from(0 as u8)).bits(), 0);
    assert_eq!((Integral::from(3 as i32) + Integral::from(4 as i32)).as_signed(), 7);
    assert_eq!((Integral::from(3 as i32) - Integral::from(4 as i32)).as_signed(), -1);
    assert_eq!((Integral::from(3 as i32) * Integral::from(-4 as i32)).as_signed(), -12);
}

#[test]
fn integral_default_and_from() {
    let d = Integral::default();
    assert!(d.is_zero());
    assert_eq!(d.width().get(), 32);
    assert!(d.is_signed());
    assert_eq!(Integral::from(5 as u16).width().get(), 16);
    assert_eq!(Integral::from(-5 as i64).as_signed(), -5);
    assert_eq!(Integral::from(usize::MAX).width().get(), usize::BITS as usize);
    assert_eq!(Integral::from(-1 as isize).as_signed(), -1);
    assert_eq!(Integral::from(i128::MIN).as_signed(), i128::MIN);
    assert_eq!(Integral::max_supported_size_bits().get(), 128);
}

#[test]
fn integral_comparison_of_different_kinds_is_none() {
    let a = Integral::from(1 as i8);
    let b = Integral::from(1 as u8);
    assert_eq!(a.partial_cmp(&b), None);
    assert!(!(a < b));
    assert!(!(a > b));
    assert_eq!(a.partial_cmp(&Integral::from(1 as i8)), Some(std::cmp::Ordering::Equal));
}

#[test]
fn law_cast_round_trip_on_values() {
    for v in [-128i8, -1, 0, 1, 127] {
        let x = Integral::from(v);
        for w in [8usize, 16, 64, 128] {
            for s in [Signedness::Signed, Signedness::Unsigned] {
                assert_eq!(x.cast(SizeBit::new(w), s).cast(SizeBit::new(8), Signedness::Signed), x);
            }
        }
        assert_eq!(x.sext(SizeBit::new(64)).as_signed(), v as i128);
    }
}

#[test]
fn law_exact_arithmetic_without_overflow() {
    let a = Integral::from(-100 as i16);
    let b = Integral::from(30 as i16);
    let (s, o) = a.overflowing_add(b);
    assert!(!o);
    assert_eq!(s.as_signed(), -70);
    let (d, o) = a.overflowing_sub(b);
    assert!(!o);
    assert_eq!(d.as_signed(), -130);
    let (p, o) = a.overflowing_mul(b);
    assert!(!o);
    assert_eq!(p.as_signed(), -3000);
    assert_eq!(s - b, a);
    assert_eq!(-(-a), a);
    assert_eq!(!(!a), a);
}

#[test]
fn law_div_rem_identity_on_values() {
    for a in [-7i32, 7, -8, 8, 0] {
        for b in [-3i32, 3, -1, 1, 5] {
            let q = Integral::from(a).checked_div(Integral::from(b)).unwrap().as_signed();
            let r = Integral::from(a).checked_rem(Integral::from(b)).unwrap().as_signed();
            assert_eq!(q * b as i128 + r, a as i128);
            assert!(r.abs() < (b as i128).abs());
        }
    }
}
