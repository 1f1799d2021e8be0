use math3d::random::{Prng, Seed, SeedBuffer};

#[test]
fn seed_keeps_the_low_bits_of_the_clock() {
    assert_eq!(Seed::from_millis(0), Seed(0));
    assert_eq!(Seed::from_millis(0x1_2345_6789), Seed(0x2345_6789));
    assert_eq!(Seed::from_millis(0xffff_ffff), Seed(0xffff_ffff));
    assert_eq!(Seed::from_millis(0x1_0000_0000), Seed(0));
    assert_eq!(Seed::from_millis(u128::MAX), Seed(0xffff_ffff));
    assert_eq!(Seed::from_millis(1_700_000_000_123), Seed(3_487_918_203));
}

#[test]
fn seed_from_the_clock() {
    assert!(Seed::new().is_some());
}

#[test]
fn seed_default_is_zero() {
    assert_eq!(Seed::default(), Seed(0));
}

#[test]
fn seed_buffer_repeats_big_endian_bytes() {
    assert_eq!(
        SeedBuffer::from(Seed(0x0102_0304)),
        SeedBuffer([1, 2, 3, 4, 1, 2, 3, 4, 1, 2, 3, 4, 1, 2, 3, 4])
    );
    assert_eq!(SeedBuffer::from(Seed(0)), SeedBuffer([0; 16]));
    assert_eq!(
        SeedBuffer::from(Seed(0xdead_beef)).0,
        [
            0xde, 0xad, 0xbe, 0xef, 0xde, 0xad, 0xbe, 0xef, 0xde, 0xad, 0xbe, 0xef, 0xde, 0xad,
            0xbe, 0xef
        ]
    );
}

#[test]
fn prng_draws_the_generator_s_numbers() {
    let mut prng = Prng::new(Seed(0));
    assert_eq!(prng.next_u32(), 3837872008);
    assert_eq!(prng.next_u32(), 932996374);
    assert_eq!(prng.next_u32(), 1548399547);

    let mut prng = Prng::new(Seed(42));
    assert_eq!(prng.next_u32(), 4142273129);
    assert_eq!(prng.next_u32(), 1614686570);
    assert_eq!(prng.next_u32(), 4280269023);

    let mut prng = Prng::new(Seed(0xdead_beef));
    assert_eq!(prng.next_u32(), 920242500);
    assert_eq!(prng.next_u64(), 14634287884531152280);
}

#[test]
fn prng_draws_sixty_four_bits_as_two_halves() {
    let mut prng = Prng::new(Seed(1));
    assert_eq!(prng.next_u64(), 936931882962109718);
    assert_eq!(prng.next_u64(), 5551826474378829444);

    let mut halves = Prng::new(Seed(1));
    let low = halves.next_u32() as u64;
    let high = halves.next_u32() as u64;
    assert_eq!(low, 1588708630);
    assert_eq!(high, 218146453);
    assert_eq!((high << 32) | low, 936931882962109718);
}

#[test]
fn prng_is_fixed_by_its_seed() {
    let mut a = Prng::new(Seed(7));
    let mut b = Prng::new(Seed(7));
    let mut c = Prng::new(Seed(8));
    let mut differs = false;
    for _ in 0..16 {
        let x = a.next_u32();
        assert_eq!(x, b.next_u32());
        differs = differs || x != c.next_u32();
    }
    assert!(differs);
}
