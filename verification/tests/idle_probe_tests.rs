use timez::idle_probe::{ioreg_idle_secs, tick_idle_secs};

#[test]
fn ioreg_output_gives_idle_seconds() {
    let out = "+-o IOHIDSystem  <class IOHIDSystem>\n    {\n      \"HIDIdleTime\" = 12345678901\n      \"Other\" = 1\n    }\n";
    assert_eq!(ioreg_idle_secs(out), 12);
}

#[test]
fn ioreg_output_without_value_gives_zero() {
    assert_eq!(ioreg_idle_secs(""), 0);
    assert_eq!(ioreg_idle_secs("nothing here\n"), 0);
    assert_eq!(ioreg_idle_secs("\"HIDIdleTime\" = abc\n"), 0);
    assert_eq!(ioreg_idle_secs("\"HIDIdleTime\"\n"), 0);
    // too large for u64
    assert_eq!(ioreg_idle_secs("\"HIDIdleTime\" = 99999999999999999999\n"), 0);
}

#[test]
fn ioreg_takes_the_first_readable_line() {
    let out = "\"HIDIdleTime\" = bad\r\n\"HIDIdleTime\" = +5000000000\r\n\"HIDIdleTime\" = 9000000000";
    assert_eq!(ioreg_idle_secs(out), 5);
    assert_eq!(ioreg_idle_secs("x HIDIdleTime = 7000000000 = 3"), 7);
    assert_eq!(ioreg_idle_secs("HIDIdleTime=18446744073709551615"), 18_446_744_073);
}

#[test]
fn tick_counts_wrap_around() {
    assert_eq!(tick_idle_secs(10_500, 500), 10);
    assert_eq!(tick_idle_secs(999, 0), 0);
    assert_eq!(tick_idle_secs(1_000, u32::MAX - 999), 2);
    assert_eq!(tick_idle_secs(5, 5), 0);
}
