use blackout::text::{
    align_left, align_right, decimal_string, zero_padded, Elapsed, HumanReadable,
};

fn float_size(n: u64) -> String {
    const KB: u64 = 1024;
    const MB: u64 = KB * 1024;
    const GB: u64 = MB * 1024;
    const TB: u64 = GB * 1024;
    if n >= TB {
        format!("{:.2} TB", n as f64 / TB as f64)
    } else if n >= GB {
        format!("{:.2} GB", n as f64 / GB as f64)
    } else if n >= MB {
        format!("{:.2} MB", n as f64 / MB as f64)
    } else if n >= KB {
        format!("{:.2} KB", n as f64 / KB as f64)
    } else {
        format!("{} bytes", n)
    }
}

#[test]
fn decimal_of_small_and_large_numbers() {
    assert_eq!(decimal_string(0), "0");
    assert_eq!(decimal_string(7), "7");
    assert_eq!(decimal_string(10), "10");
    assert_eq!(decimal_string(1234567890), "1234567890");
    assert_eq!(decimal_string(u64::MAX), "18446744073709551615");
}

#[test]
fn zero_padding_fills_up_to_the_width() {
    assert_eq!(zero_padded(0, 2), "00");
    assert_eq!(zero_padded(7, 2), "07");
    assert_eq!(zero_padded(42, 2), "42");
    assert_eq!(zero_padded(123, 2), "123");
    assert_eq!(zero_padded(5, 3), "005");
    assert_eq!(zero_padded(5, 0), "5");
}

#[test]
fn alignment_counts_characters() {
    assert_eq!(align_right("30 bytes", 10), "  30 bytes");
    assert_eq!(align_right("1023.99 KB", 10), "1023.99 KB");
    assert_eq!(align_right("12345678901", 10), "12345678901");
    assert_eq!(align_right("äö", 4), "  äö");
    assert_eq!(align_left("Info", 5), "Info ");
    assert_eq!(align_left("Error", 5), "Error");
    assert_eq!(align_left("mouse", 15), "mouse          ");
    assert_eq!(align_left("", 3), "   ");
    assert_eq!(align_left("äö", 4), format!("{:<4}", "äö"));
}

#[test]
fn sizes_below_a_kilobyte_are_bytes() {
    assert_eq!(0u64.human_readable(), "0 bytes");
    assert_eq!(30u64.human_readable(), "30 bytes");
    assert_eq!(1023u64.human_readable(), "1023 bytes");
}

#[test]
fn sizes_take_the_largest_unit() {
    assert_eq!(1024u64.human_readable(), "1.00 KB");
    assert_eq!(1536u64.human_readable(), "1.50 KB");
    assert_eq!(1048575u64.human_readable(), "1024.00 KB");
    assert_eq!(1048576u64.human_readable(), "1.00 MB");
    assert_eq!((5 * 1024 * 1024 * 1024u64).human_readable(), "5.00 GB");
    assert_eq!((3 * 1024 * 1024 * 1024 * 1024u64 / 2).human_readable(), "1.50 TB");
    assert_eq!(u64::MAX.human_readable(), "16777216.00 TB");
}

#[test]
fn sizes_round_half_to_even() {
    // 1152 / 1024 = 1.125 and 1184 / 1024 = 1.15625
    assert_eq!(1152u64.human_readable(), "1.12 KB");
    assert_eq!(1184u64.human_readable(), "1.16 KB");
    // 1.375 and 1.625 are ties as well
    assert_eq!(1408u64.human_readable(), "1.38 KB");
    assert_eq!(1664u64.human_readable(), "1.62 KB");
}

#[test]
fn sizes_agree_with_floating_point_formatting() {
    let mut samples: Vec<u64> = vec![
        0,
        1,
        1023,
        1024,
        1025,
        1029,
        1030,
        1152,
        1408,
        1664,
        2047,
        2048,
        10239,
        123456,
        1048575,
        1048576,
        1048577,
        1073741823,
        1073741824,
        1099511627775,
        1099511627776,
        1099511627777,
        (1 << 53) - 1,
        1 << 53,
        (1 << 53) + 1,
        (1 << 53) + 2,
        (1 << 53) + 3,
        (1 << 54) - 1,
        (1 << 54) + 2,
        (1 << 54) + 6,
        (1 << 60) + 123456789,
        (1 << 63) - 1,
        1 << 63,
        (1 << 63) + 1024,
        (1 << 63) + 1025,
        (1 << 63) + 3072,
        u64::MAX - 2048,
        u64::MAX - 1024,
        u64::MAX - 1023,
        u64::MAX - 1,
        u64::MAX,
    ];
    let mut x: u64 = 0x9E3779B97F4A7C15;
    for _ in 0..4000 {
        x ^= x << 13;
        x ^= x >> 7;
        x ^= x << 17;
        samples.push(x);
        samples.push(x >> 11);
        samples.push(x >> 24);
        samples.push(x >> 34);
        samples.push(x >> 44);
        samples.push(x >> 52);
    }
    for k in 0..4096u64 {
        samples.push(1024 + k);
        samples.push(1048576 + k * 1024 + 512);
        samples.push((1 << 53) + k);
        samples.push((1 << 62) + k * 256);
        samples.push(1099511627776 + k * 5497558138 + 88);
    }
    for n in samples {
        assert_eq!(n.human_readable(), float_size(n), "for {}", n);
    }
}

#[test]
fn durations_show_hours_minutes_seconds_and_milliseconds() {
    assert_eq!(Elapsed { seconds: 0, milliseconds: 0 }.human_readable(), "00h00m:00s::000");
    assert_eq!(Elapsed { seconds: 3725, milliseconds: 42 }.human_readable(), "01h02m:05s::042");
    assert_eq!(Elapsed { seconds: 59, milliseconds: 999 }.human_readable(), "00h00m:59s::999");
    assert_eq!(
        Elapsed { seconds: 360000, milliseconds: 7 }.human_readable(),
        "100h00m:00s::007"
    );
}
