use annihilate::layout::{format_bytes, wrapped_line_count, GIB, KIB, MIB};
use annihilate::menu::format_duration;

/// The formatting the byte counts are specified against, in floating point.
fn float_bytes(bytes: u64) -> String {
    let k = 1024u64;
    let m = k * 1024;
    let g = m * 1024;
    if bytes >= g {
        format!("{:.2} GiB", bytes as f64 / g as f64)
    } else if bytes >= m {
        format!("{:.0} MiB", bytes as f64 / m as f64)
    } else if bytes >= k {
        format!("{:.1} KB", bytes as f64 / k as f64)
    } else {
        format!("{bytes} B")
    }
}

#[test]
fn format_bytes_exact_values() {
    assert_eq!(format_bytes(0), "0 B");
    assert_eq!(format_bytes(1023), "1023 B");
    assert_eq!(format_bytes(1024), "1.0 KB");
    assert_eq!(format_bytes(1536), "1.5 KB");
    assert_eq!(format_bytes(770355), "752.3 KB");
    assert_eq!(format_bytes(MIB), "1 MiB");
    assert_eq!(format_bytes(GIB), "1.00 GiB");
    assert_eq!(format_bytes(5 * GIB + GIB / 4), "5.25 GiB");
    assert_eq!(format_bytes(u64::MAX), "17179869184.00 GiB");
    assert_eq!(KIB, 1024);
}

#[test]
fn format_bytes_matches_float_formatting() {
    let mut samples: Vec<u64> = vec![
        1, 999, 1024, 1075, 1076, 1126, 10239, 10240, 1048575, 1048576, 1572864, 1572863,
        2621440, 2621439, 1073741823, 1073741824, 1078984704, 1084227584, 4294967296,
        4299262263, 1_000_000_000_000, u64::MAX - 1, u64::MAX,
    ];
    // Values around each rounding boundary of each unit.
    for unit in [KIB, MIB, GIB] {
        for step in [10u64, 100] {
            for q in 0..40u64 {
                let centre = unit * q / step + unit / (2 * step) + unit;
                for d in 0..3u64 {
                    samples.push(centre - d);
                    samples.push(centre + d);
                }
            }
        }
    }
    let mut x: u64 = 0x9e3779b97f4a7c15;
    for _ in 0..20000 {
        x ^= x << 13;
        x ^= x >> 7;
        x ^= x << 17;
        samples.push(x >> (x % 60));
    }
    for b in samples {
        assert_eq!(format_bytes(b), float_bytes(b), "format_bytes diverged for {b}");
    }
}

#[test]
fn wrapped_line_count_cases() {
    assert_eq!(wrapped_line_count("", 10), 1);
    assert_eq!(wrapped_line_count("hello world", 11), 1);
    assert_eq!(wrapped_line_count("hello world", 10), 2);
    assert_eq!(wrapped_line_count("abcdefghij", 5), 2);
    assert_eq!(wrapped_line_count("abcdefghijk", 5), 3);
    assert_eq!(wrapped_line_count("a\nb\nc", 10), 3);
    assert_eq!(wrapped_line_count("a\n\nb", 10), 3);
    assert_eq!(wrapped_line_count("ab cd ef", 5), 2);
    assert_eq!(wrapped_line_count("éééé éééé", 4), 2);
}

#[test]
fn wrapped_line_count_with_zero_width_counts_lines() {
    assert_eq!(wrapped_line_count("", 0), 1);
    assert_eq!(wrapped_line_count("one", 0), 1);
    assert_eq!(wrapped_line_count("one\ntwo\nthree", 0), 3);
    assert_eq!(wrapped_line_count("one\ntwo\n", 0), 2);
}

#[test]
fn wrapped_line_count_is_at_least_one() {
    for text in ["", " ", "\n", "x", "   \n   ", "long words that wrap around"] {
        for width in 0..8 {
            assert!(wrapped_line_count(text, width) >= 1);
        }
    }
}

#[test]
fn format_duration_picks_the_two_largest_units() {
    assert_eq!(format_duration(0), "0s");
    assert_eq!(format_duration(59), "59s");
    assert_eq!(format_duration(61), "1m 1s");
    assert_eq!(format_duration(3600), "1h 0m");
    assert_eq!(format_duration(7384), "2h 3m");
}

#[test]
fn explicit_lines_wrap_on_their_own() {
    for (a, b) in [("hello world", "ab cd ef"), ("", ""), ("x\ny", "long words here"), ("ééé ééé", " ")] {
        for width in 1..12 {
            let joined = format!("{a}\n{b}");
            assert_eq!(
                wrapped_line_count(&joined, width),
                wrapped_line_count(a, width) + wrapped_line_count(b, width)
            );
        }
    }
}
