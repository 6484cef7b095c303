use miel::version::{api_version, engine_version, get_version, parse_version_numbers};

#[test]
fn packs_one_byte_per_component() {
    assert_eq!(get_version("1.0.0"), 0x0100_0000);
    assert_eq!(get_version("1.2.3"), 0x0102_0300);
    assert_eq!(get_version("1.2.3.4.5"), 0x0102_0304);
    assert_eq!(get_version(""), 0);
}

#[test]
fn parts_that_are_not_numbers_are_skipped() {
    assert_eq!(parse_version_numbers("1.x.3"), vec![1, 3]);
    assert_eq!(get_version("1.x.3"), 0x0103_0000);
    assert_eq!(parse_version_numbers("+2..5"), vec![2, 5]);
    assert_eq!(parse_version_numbers("4294967296.7"), vec![7]);
    assert_eq!(parse_version_numbers("4294967295"), vec![4294967295]);
    assert_eq!(parse_version_numbers("0.1.0-beta"), vec![0, 1]);
    assert_eq!(parse_version_numbers("+.-1.+"), Vec::<u32>::new());
}

#[test]
fn native_version_packing() {
    assert_eq!(api_version(0, 1, 3, 0), (1 << 22) | (3 << 12));
    assert_eq!(engine_version("0.1.0"), 1 << 22);
    assert_eq!(engine_version("1.2.3"), (2 << 22) | (3 << 12) | (1 << 29));
    assert_eq!(get_version("300.0.0"), 300u32 << 24);
}
