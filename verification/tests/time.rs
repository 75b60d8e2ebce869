use kernel::hil::time::{Freq16MHz, Freq1KHz, Freq32KHz, Ticks, Ticks24Bits, Ticks32Bits, Time};

struct Time32Bits16MHz;

impl Time for Time32Bits16MHz {
    type Ticks = Ticks32Bits;
    type Frequency = Freq16MHz;

    fn now(&self) -> Self::Ticks {
        Self::Ticks::from(0)
    }
}

struct Time32Bits32KHz;

impl Time for Time32Bits32KHz {
    type Ticks = Ticks32Bits;
    type Frequency = Freq32KHz;

    fn now(&self) -> Self::Ticks {
        Self::Ticks::from(0)
    }
}

struct Time24Bits1KHz;

impl Time for Time24Bits1KHz {
    type Ticks = Ticks24Bits;
    type Frequency = Freq1KHz;

    fn now(&self) -> Self::Ticks {
        Self::Ticks::from(0)
    }
}

#[test]
fn test_ticks_from_seconds() {
    assert_eq!(
        Time32Bits16MHz::ticks_from_seconds(1).into_u32(),
        16_000_000
    );
    assert_eq!(
        Time32Bits16MHz::ticks_from_seconds(10).into_u32(),
        160_000_000
    );
    assert_eq!(Time32Bits32KHz::ticks_from_seconds(1).into_u32(), 32_768);
    assert_eq!(Time32Bits32KHz::ticks_from_seconds(10).into_u32(), 327_680);
}

#[test]
fn test_ticks_from_ms() {
    assert_eq!(Time32Bits16MHz::ticks_from_ms(1).into_u32(), 16_000);
    assert_eq!(Time32Bits16MHz::ticks_from_ms(10).into_u32(), 160_000);
    assert_eq!(Time32Bits16MHz::ticks_from_ms(100).into_u32(), 1_600_000);
    assert_eq!(Time32Bits32KHz::ticks_from_ms(1).into_u32(), 32);
    assert_eq!(Time32Bits32KHz::ticks_from_ms(10).into_u32(), 327);
    assert_eq!(Time32Bits32KHz::ticks_from_ms(100).into_u32(), 3_276);
}

#[test]
fn test_ticks_from_us() {
    assert_eq!(Time32Bits16MHz::ticks_from_us(1).into_u32(), 16);
    assert_eq!(Time32Bits16MHz::ticks_from_us(10).into_u32(), 160);
    assert_eq!(Time32Bits16MHz::ticks_from_us(100).into_u32(), 1_600);
    assert_eq!(Time32Bits32KHz::ticks_from_us(1).into_u32(), 0);
    assert_eq!(Time32Bits32KHz::ticks_from_us(10).into_u32(), 0);
    assert_eq!(Time32Bits32KHz::ticks_from_us(100).into_u32(), 3);
}

#[test]
fn test_expired_reference_zero() {
    assert_eq!(
        Ticks32Bits::expired(
            Ticks32Bits::from(0),
            Ticks32Bits::from(1),
            Ticks32Bits::from(0)
        ),
        true
    );
    assert_eq!(
        Ticks32Bits::expired(
            Ticks32Bits::from(0),
            Ticks32Bits::from(0xFFFFFFFF),
            Ticks32Bits::from(0)
        ),
        true
    );
    assert_eq!(
        Ticks32Bits::expired(
            Ticks32Bits::from(0),
            Ticks32Bits::from(1),
            Ticks32Bits::from(1)
        ),
        true
    );
    assert_eq!(
        Ticks32Bits::expired(
            Ticks32Bits::from(0),
            Ticks32Bits::from(0),
            Ticks32Bits::from(1)
        ),
        false
    );
    assert_eq!(
        Ticks32Bits::expired(
            Ticks32Bits::from(0),
            Ticks32Bits::from(0),
            Ticks32Bits::from(0xFFFFFFFF)
        ),
        false
    );
}

#[test]
fn test_24bit_from() {
    assert_eq!(Ticks24Bits::from(1).into_u32(), 1);
    assert_eq!(Ticks24Bits::from(0x00FFFFFF).into_u32(), 0xFFFFFF);
    assert_eq!(Ticks24Bits::from(0x01000000).into_u32(), 0);
    assert_eq!(Ticks24Bits::from(0x12345678).into_u32(), 0x345678);
    assert_eq!(Ticks24Bits::from(0xFFFFFFFF).into_u32(), 0xFFFFFF);
}

#[test]
fn test_24bit_add() {
    assert_eq!(
        Ticks24Bits::from(1)
            .wrapping_add(Ticks24Bits::from(2))
            .into_u32(),
        3
    );
    assert_eq!(
        Ticks24Bits::from(0xFFFFFF)
            .wrapping_add(Ticks24Bits::from(1))
            .into_u32(),
        0
    );
    assert_eq!(
        Ticks24Bits::from(0xFFFFFF)
            .wrapping_add(Ticks24Bits::from(123))
            .into_u32(),
        122
    );
}

#[test]
fn test_24bit_sub() {
    assert_eq!(
        Ticks24Bits::from(1)
            .wrapping_sub(Ticks24Bits::from(2))
            .into_u32(),
        0xFFFFFF
    );
    assert_eq!(
        Ticks24Bits::from(0xFFFFFF)
            .wrapping_sub(Ticks24Bits::from(1))
            .into_u32(),
        0xFFFFFE
    );
    assert_eq!(
        Ticks24Bits::from(123)
            .wrapping_sub(Ticks24Bits::from(122))
            .into_u32(),
        1
    );
}

#[test]
fn wrapping_sub_undoes_wrapping_add() {
    let a = Ticks24Bits::from(0xFFFFF0);
    let b = Ticks24Bits::from(0x20);
    assert_eq!(a.wrapping_add(b).wrapping_sub(b).into_u32(), 0xFFFFF0);
    let c = Ticks32Bits::from(0xFFFF_FFF0);
    let d = Ticks32Bits::from(0x20);
    assert_eq!(c.wrapping_add(d).wrapping_sub(d).into_u32(), 0xFFFF_FFF0);
}

#[test]
fn expired_when_now_reaches_when() {
    assert!(Ticks24Bits::expired(
        Ticks24Bits::from(0xFFFFF0),
        Ticks24Bits::from(0x10),
        Ticks24Bits::from(0x10)
    ));
    assert!(!Ticks24Bits::expired(
        Ticks24Bits::from(0xFFFFF0),
        Ticks24Bits::from(0x08),
        Ticks24Bits::from(0x10)
    ));
}

#[test]
fn max_values_and_conversions() {
    assert_eq!(Ticks24Bits::max_value().into_u32(), 0xFFFFFF);
    assert_eq!(Ticks32Bits::max_value().into_u32(), 0xFFFF_FFFF);
    assert_eq!(Ticks24Bits::from(0x345678).into_usize(), 0x345678);
}

#[test]
fn ticks_of_a_24_bit_counter_wrap() {
    // 20000 seconds at 1 kHz is 20_000_000 ticks, past 2^24.
    assert_eq!(
        Time24Bits1KHz::ticks_from_seconds(20_000).into_u32(),
        20_000_000 % 0x0100_0000
    );
    assert_eq!(Time24Bits1KHz::ticks_from_ms(1500).into_u32(), 1500);
    assert_eq!(Time24Bits1KHz::ticks_from_us(2500).into_u32(), 2);
}
