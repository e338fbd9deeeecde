use hil_time::{
    ticks_from_val, Freq100MHz, Freq16KHz, Freq16MHz, Freq1KHz, Freq1MHz, Freq32KHz, Frequency,
    Instant, Ticks, Ticks16, Ticks24, Ticks32, Ticks64, Time,
};

#[test]
fn frequencies_in_hertz() {
    assert_eq!(Freq100MHz::frequency(), 100_000_000);
    assert_eq!(Freq16MHz::frequency(), 16_000_000);
    assert_eq!(Freq1MHz::frequency(), 1_000_000);
    assert_eq!(Freq32KHz::frequency(), 32_768);
    assert_eq!(Freq16KHz::frequency(), 16_000);
    assert_eq!(Freq1KHz::frequency(), 1_000);
}

#[test]
fn one_second_at_1mhz_saturates_16_bits() {
    let ticks = <Instant<Ticks16, Freq1MHz> as Time>::ticks_from_seconds(1);
    assert_eq!(ticks.into_u16(), 0xFFFF);
    assert_ne!(ticks.into_u16(), 0x4240);
}

#[test]
fn seconds_that_fit_are_exact() {
    assert_eq!(<Instant<Ticks16, Freq1KHz> as Time>::ticks_from_seconds(65).into_u16(), 65_000);
    assert_eq!(<Instant<Ticks16, Freq1KHz> as Time>::ticks_from_seconds(0).into_u16(), 0);
    assert_eq!(
        <Instant<Ticks24, Freq16MHz> as Time>::ticks_from_seconds(1).into_u32(),
        16_000_000
    );
    assert_eq!(
        <Instant<Ticks32, Freq100MHz> as Time>::ticks_from_seconds(42).into_u32(),
        4_200_000_000
    );
    assert_eq!(
        <Instant<Ticks32, Freq32KHz> as Time>::ticks_from_seconds(3).into_u32(),
        98_304
    );
}

#[test]
fn seconds_that_do_not_fit_saturate() {
    assert_eq!(<Instant<Ticks16, Freq1KHz> as Time>::ticks_from_seconds(66).into_u16(), 0xFFFF);
    assert_eq!(
        <Instant<Ticks24, Freq16MHz> as Time>::ticks_from_seconds(2).into_u32(),
        0x00FF_FFFF
    );
    assert_eq!(
        <Instant<Ticks32, Freq100MHz> as Time>::ticks_from_seconds(43).into_u32(),
        0xFFFF_FFFF
    );
    assert_eq!(
        <Instant<Ticks32, Freq100MHz> as Time>::ticks_from_seconds(u32::MAX).into_u32(),
        0xFFFF_FFFF
    );
}

#[test]
fn sixty_four_bits_hold_every_conversion() {
    assert_eq!(
        <Instant<Ticks64, Freq100MHz> as Time>::ticks_from_seconds(100).into_u64(),
        10_000_000_000
    );
    assert_eq!(
        <Instant<Ticks64, Freq100MHz> as Time>::ticks_from_seconds(u32::MAX).into_u64(),
        100_000_000 * (u32::MAX as u64)
    );
    assert_eq!(
        <Instant<Ticks64, Freq1MHz> as Time>::ticks_from_ms(u32::MAX).into_u64(),
        1_000 * (u32::MAX as u64)
    );
}

#[test]
fn milliseconds_round_down() {
    assert_eq!(<Instant<Ticks32, Freq32KHz> as Time>::ticks_from_ms(1).into_u32(), 32);
    assert_eq!(<Instant<Ticks32, Freq32KHz> as Time>::ticks_from_ms(1000).into_u32(), 32_768);
    assert_eq!(<Instant<Ticks32, Freq1KHz> as Time>::ticks_from_ms(1).into_u32(), 1);
    assert_eq!(<Instant<Ticks32, Freq16MHz> as Time>::ticks_from_ms(250).into_u32(), 4_000_000);
    assert_eq!(<Instant<Ticks16, Freq1MHz> as Time>::ticks_from_ms(65).into_u16(), 65_000);
    assert_eq!(<Instant<Ticks16, Freq1MHz> as Time>::ticks_from_ms(66).into_u16(), 0xFFFF);
    assert_eq!(<Instant<Ticks16, Freq1KHz> as Time>::ticks_from_ms(0).into_u16(), 0);
}

#[test]
fn microseconds_round_down() {
    assert_eq!(<Instant<Ticks32, Freq1MHz> as Time>::ticks_from_us(7).into_u32(), 7);
    assert_eq!(<Instant<Ticks32, Freq32KHz> as Time>::ticks_from_us(100).into_u32(), 3);
    assert_eq!(<Instant<Ticks32, Freq1KHz> as Time>::ticks_from_us(999).into_u32(), 0);
    assert_eq!(<Instant<Ticks32, Freq1KHz> as Time>::ticks_from_us(1000).into_u32(), 1);
    assert_eq!(<Instant<Ticks32, Freq16MHz> as Time>::ticks_from_us(3).into_u32(), 48);
    assert_eq!(
        <Instant<Ticks24, Freq100MHz> as Time>::ticks_from_us(200_000).into_u32(),
        0x00FF_FFFF
    );
    assert_eq!(
        <Instant<Ticks24, Freq100MHz> as Time>::ticks_from_us(100_000).into_u32(),
        10_000_000
    );
}

#[test]
fn ticks_from_val_saturates_at_the_width() {
    assert_eq!(ticks_from_val::<Ticks16>(1_000_000).into_u16(), 0xFFFF);
    assert_eq!(ticks_from_val::<Ticks16>(65_535).into_u16(), 65_535);
    assert_eq!(ticks_from_val::<Ticks16>(65_536).into_u16(), 65_535);
    assert_eq!(ticks_from_val::<Ticks24>(0x00FF_FFFF).into_u32(), 0x00FF_FFFF);
    assert_eq!(ticks_from_val::<Ticks24>(0x0100_0000).into_u32(), 0x00FF_FFFF);
    assert_eq!(ticks_from_val::<Ticks32>(0xFFFF_FFFF).into_u32(), 0xFFFF_FFFF);
    assert_eq!(ticks_from_val::<Ticks32>(0x1_0000_0000).into_u32(), 0xFFFF_FFFF);
    assert_eq!(ticks_from_val::<Ticks64>(0x1_0000_0000).into_u64(), 0x1_0000_0000);
    assert_eq!(ticks_from_val::<Ticks64>(u64::MAX), Ticks64::max_value());
}

#[test]
fn an_instant_reads_the_same_each_time() {
    let instant: Instant<Ticks32, Freq16MHz> = Instant::new(Ticks32::from(123_456u32));
    assert_eq!(instant.now().into_u32(), 123_456);
    assert_eq!(instant.now(), instant.now());
}
