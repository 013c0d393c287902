use lenlogo::formats::format_name;
use lenlogo::formats::support_format;
use lenlogo::formats::Format;

#[test]
fn support_mask_matches_fixed_table_for_every_mask() {
    let table: [(u8, Format); 6] = [
        (0x01, Format::Jpg),
        (0x02, Format::Tga),
        (0x04, Format::Pcx),
        (0x08, Format::Gif),
        (0x10, Format::Bmp),
        (0x20, Format::Png),
    ];
    for mask in 0u8..=0x3F {
        let mut expected: Vec<Format> = Vec::new();
        for (bit, fmt) in table {
            if mask & bit == bit {
                expected.push(fmt);
            }
        }
        assert_eq!(support_format(mask), expected, "mask {:#x}", mask);
    }
}

#[test]
fn support_mask_preserves_bit_order() {
    assert_eq!(support_format(0x21), vec![Format::Jpg, Format::Png]);
    assert_eq!(
        support_format(0x3F),
        vec![
            Format::Jpg,
            Format::Tga,
            Format::Pcx,
            Format::Gif,
            Format::Bmp,
            Format::Png
        ]
    );
    assert_eq!(support_format(0x00), Vec::<Format>::new());
}

#[test]
fn high_bits_are_ignored() {
    assert_eq!(support_format(0xC0), Vec::<Format>::new());
    assert_eq!(support_format(0xC1), vec![Format::Jpg]);
}

#[test]
fn format_names() {
    assert_eq!(format_name(Format::Jpg), "jpg");
    assert_eq!(format_name(Format::Tga), "tga");
    assert_eq!(format_name(Format::Pcx), "pcx");
    assert_eq!(format_name(Format::Gif), "gif");
    assert_eq!(format_name(Format::Bmp), "bmp");
    assert_eq!(format_name(Format::Png), "png");
}
