use msst_net_client_installer::plan::format_size;

fn float_reference(bytes: u64) -> String {
    if bytes >= 1024 * 1024 {
        format!("{:.1} MB", bytes as f64 / (1024.0 * 1024.0))
    } else if bytes >= 1024 {
        format!("{:.1} KB", bytes as f64 / 1024.0)
    } else {
        format!("{} B", bytes)
    }
}

#[test]
fn format_size_matches_float_formatting_on_ties() {
    // 1.25 MB and 1.75 KB are exact ties at one decimal place.
    for bytes in [1310720u64, 1835008, 1792, 1280, 2560, 1024 * 1024 * 3 / 4 * 3] {
        assert_eq!(format_size(bytes), float_reference(bytes), "bytes = {}", bytes);
    }
}

#[test]
fn format_size_matches_float_formatting_on_many_values() {
    let mut x: u64 = 1;
    while x < u64::MAX / 3 {
        for bytes in [x - 1, x, x + 1, x + x / 2, x * 3 - 1] {
            assert_eq!(format_size(bytes), float_reference(bytes), "bytes = {}", bytes);
        }
        x = x * 3 + 7;
    }
    for bytes in [u64::MAX, u64::MAX - 1, (1u64 << 53) + 1, (1u64 << 54) + 2, (1u64 << 54) + 6, 1023, 1024, 1048575, 1048576] {
        assert_eq!(format_size(bytes), float_reference(bytes), "bytes = {}", bytes);
    }
}

#[test]
fn format_size_exact_values() {
    assert_eq!(format_size(0), "0 B");
    assert_eq!(format_size(512), "512 B");
    assert_eq!(format_size(1023), "1023 B");
    assert_eq!(format_size(1024), "1.0 KB");
    assert_eq!(format_size(1536), "1.5 KB");
    assert_eq!(format_size(1048575), "1024.0 KB");
    assert_eq!(format_size(1048576), "1.0 MB");
    assert_eq!(format_size(12_900_000), "12.3 MB");
    assert_eq!(format_size(1310720), "1.2 MB");
    assert_eq!(format_size(1835008), "1.8 MB");
    assert_eq!(format_size(u64::MAX), "17592186044416.0 MB");
}
