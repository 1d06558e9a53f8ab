use multisnake::ticker::{rest_of_tick, TICK_MILLIS};

#[test]
fn a_tick_lasts_a_hundred_milliseconds() {
    assert_eq!(TICK_MILLIS, 100);
}

#[test]
fn rest_is_what_is_left_of_the_tick() {
    assert_eq!(rest_of_tick(0, 0), 100);
    assert_eq!(rest_of_tick(1000, 1000), 100);
    assert_eq!(rest_of_tick(1000, 1001), 99);
    assert_eq!(rest_of_tick(1000, 1037), 63);
    assert_eq!(rest_of_tick(1000, 1099), 1);
}

#[test]
fn a_tick_that_took_too_long_gets_no_rest() {
    assert_eq!(rest_of_tick(1000, 1100), 0);
    assert_eq!(rest_of_tick(1000, 1101), 0);
    assert_eq!(rest_of_tick(0, u32::MAX), 0);
}

#[test]
fn rest_across_the_end_of_the_counter() {
    assert_eq!(rest_of_tick(u32::MAX, 0), 99);
    assert_eq!(rest_of_tick(u32::MAX - 9, 10), 80);
    assert_eq!(rest_of_tick(u32::MAX, u32::MAX), 100);
    assert_eq!(rest_of_tick(u32::MAX - 50, 49), 0);
    assert_eq!(rest_of_tick(u32::MAX - 50, 48), 1);
    assert_eq!(rest_of_tick(5, 4), 0);
}
