use rcc::alignment::Alignment as A;
use rcc::size::{Size, SizeBit};

#[test]
fn test_new() {
    let size = Size::new(10);
    assert_eq!(size.get(), 10);
    let size_bit = SizeBit::new(16);
    assert_eq!(size_bit.get(), 16);
}

#[test]
fn test_cvt() {
    {
        let size = Size::new(10);
        let size_bit: SizeBit = size.size_bits();
        assert_eq!(size_bit.get(), 80);
    }
    {
        let size_bit = SizeBit::new(16);
        let res: Result<Size, ()> = size_bit.try_into();
        assert!(res.is_ok());
        assert_eq!(res.unwrap().get(), 2);
    }
    {
        let size_bit = SizeBit::new(usize::MAX);
        let res: Result<Size, ()> = size_bit.try_into();
        assert!(res.is_err());
    }
    {
        let size_bit = SizeBit::new(7);
        let res: Result<Size, ()> = size_bit.try_into();
        assert!(res.is_err());
    }
}

#[test]
fn test_ops() {
    let size1 = Size::new(10);
    let size2 = Size::new(20);
    let size_bit1 = SizeBit::new(16);
    let size_bit2 = SizeBit::new(32);

    assert_eq!((size1 + size2).get(), 30);
    assert_eq!((size2 - size1).get(), 10);
    assert_eq!((size1 * 2).get(), 20);
    assert_eq!((size2 / 2).get(), 10);
    assert_eq!((size2 % 3).get(), 2);

    assert_eq!((size_bit1 + size_bit2).get(), 48);
    assert_eq!((size_bit2 - size_bit1).get(), 16);
    assert_eq!((size_bit1 * 2).get(), 32);
    assert_eq!((size_bit2 / 2).get(), 16);
    assert_eq!((size_bit2 % 3).get(), 2);

    assert_eq!((size1 + size_bit1).get(), 96);
    assert_eq!((size1 - size_bit1).get(), 64);
    assert_eq!((size1 * 2).get(), 20);
    assert_eq!((size1 / 2).get(), 5);
    assert_eq!((size1 % 3).get(), 1);

    assert_eq!((size_bit1 * 2).get(), 32);
    assert_eq!((size_bit1 / 2).get(), 8);
    assert_eq!((size_bit1 % 3).get(), 1);
}

#[test]
fn test_round() {
    let size_bit = SizeBit::new(13);
    let ceil_size = size_bit.ceil_to_byte();
    let floor_size = size_bit.floor_to_byte();
    assert_eq!(ceil_size.get(), 2);
    assert_eq!(floor_size.get(), 1);
    let prev_boundary = size_bit.prev_byte_boundary();
    let next_boundary = size_bit.next_byte_boundary();
    assert_eq!(prev_boundary.get(), 8);
    assert_eq!(next_boundary.get(), 16);
}

#[test]
fn size_powers_of_two() {
    assert!(Size::new(8).is_power_of_two());
    assert!(!Size::new(12).is_power_of_two());
    assert!(!Size::new(0).is_power_of_two());
    assert_eq!(Size::new(12).next_power_of_two().get(), 16);
    assert_eq!(Size::new(0).next_power_of_two().get(), 1);
    assert_eq!(SizeBit::new(33).next_power_of_two().get(), 64);
    assert_eq!(SizeBit::new(64).size_bytes(), Ok(Size::new(8)));
    assert_eq!(SizeBit::new(63).size_bytes(), Err(()));
}

#[test]
fn law_bits_bytes_round_trip_on_values() {
    for n in [0usize, 1, 7, 1024] {
        let s = Size::new(n);
        assert_eq!(s.size_bits().size_bytes(), Ok(s));
    }
}

#[test]
fn ctors_fixed() {
    assert_eq!(A::from_align_fixed::<1>().power(), 0);
    assert_eq!(A::from_align_fixed::<2>().power(), 1);
    assert_eq!(A::from_align_fixed::<4>().power(), 2);
    assert_eq!(A::from_align_fixed::<8>().power(), 3);

    assert_eq!(A::from_size(0.into()), None);
    assert_eq!(A::from_size(1.into()).unwrap().size().get(), 1);
    assert_eq!(A::from_size(2.into()).unwrap().size().get(), 2);
    assert_eq!(A::from_size(3.into()), None);
    assert_eq!(A::from_size(4.into()).unwrap().size().get(), 4);
    assert_eq!(A::from_size(5.into()), None);
    assert_eq!(A::from_size(6.into()), None);
    assert_eq!(A::from_size(7.into()), None);
    assert_eq!(A::from_size(8.into()).unwrap().size().get(), 8);
}

#[test]
fn ctors_align() {
    assert_eq!(A::from_size_ceil(0.into()).size().get(), 1);
    assert_eq!(A::from_size_ceil(1.into()).size().get(), 1);
    assert_eq!(A::from_size_ceil(2.into()).size().get(), 2);
    assert_eq!(A::from_size_ceil(3.into()).size().get(), 4);
    assert_eq!(A::from_size_ceil(4.into()).size().get(), 4);
    assert_eq!(A::from_size_ceil(5.into()).size().get(), 8);
    assert_eq!(A::from_size_ceil(6.into()).size().get(), 8);
    assert_eq!(A::from_size_ceil(7.into()).size().get(), 8);
    assert_eq!(A::from_size_ceil(8.into()).size().get(), 8);
    assert_eq!(A::from_size_ceil(9.into()).size().get(), 16);
    assert_eq!(A::from_size_ceil(15.into()).size().get(), 16);
    assert_eq!(A::from_size_ceil(16.into()).size().get(), 16);
    assert_eq!(A::from_size_ceil(17.into()).size().get(), 32);

    assert_eq!(A::from_size_bits_ceil(0.into()).size().get(), 1);
    assert_eq!(A::from_size_bits_ceil(1.into()).size().get(), 1);
    assert_eq!(A::from_size_bits_ceil(2.into()).size().get(), 1);
    assert_eq!(A::from_size_bits_ceil(7.into()).size().get(), 1);
    assert_eq!(A::from_size_bits_ceil(8.into()).size().get(), 1);
    assert_eq!(A::from_size_bits_ceil(9.into()).size().get(), 2);
    assert_eq!(A::from_size_bits_ceil(15.into()).size().get(), 2);
    assert_eq!(A::from_size_bits_ceil(16.into()).size().get(), 2);
    assert_eq!(A::from_size_bits_ceil(17.into()).size().get(), 4);
    assert_eq!(A::from_size_bits_ceil(31.into()).size().get(), 4);
    assert_eq!(A::from_size_bits_ceil(32.into()).size().get(), 4);
    assert_eq!(A::from_size_bits_ceil(33.into()).size().get(), 8);
}

#[test]
fn ops() {
    let a = A::from_align_fixed::<4>();
    assert_eq!((a << 2).size().get(), 16);
    assert_eq!((a >> 2).size().get(), 1);
}

#[test]
fn alignment_bits_and_bounds() {
    assert_eq!(A::from_align_fixed::<8>().size_bits().get(), 64);
    assert_eq!(A::min().power(), 0);
    assert_eq!(A::max().power(), 254);
    assert_eq!(A::from_size_bits(SizeBit::new(32)).unwrap().size().get(), 4);
    assert_eq!(A::from_size_bits(SizeBit::new(12)), None);
    assert_eq!(A::from_size_bits(SizeBit::new(24)), None);
    assert_eq!(A::from_size_unchecked(Size::new(16)).power(), 4);
    assert_eq!(A::from_size_bits_unchecked(SizeBit::new(16)).power(), 1);
}

#[test]
fn law_alignment_shift_round_trip_on_values() {
    let a = A::from_align_fixed::<8>();
    assert_eq!((a << 5) >> 5, a);
    assert_eq!((a >> 3) << 3, a);
}

#[test]
fn sizes_print_in_decimal() {
    assert_eq!(Size::new(10).to_string(), "10");
    assert_eq!(SizeBit::new(128).to_string(), "128");
    assert_eq!(Size::new(0).to_string(), "0");
    assert_eq!(A::from_size_unchecked(Size::new(16)).to_string(), "16");
    assert_eq!(A::min().to_string(), "1");
}

#[test]
fn checked_and_unchecked_size_agree() {
    for n in [1usize, 2, 4, 8, 16, 1024, 1 << 20] {
        let size: Size = n.into();
        assert_eq!(A::from_size(size), Some(A::from_size_unchecked(size)));
        assert_eq!(A::from_size_ceil(size), A::from_size_unchecked(size));
    }
}
