use airscan::filename::{decimal_string, determine_filename, find_single_dot};
use airscan::settings::build_scansettings_xml;

fn expected_xml(source: &str, resolution: &str, docformat: &str, colormode: &str, ext: bool) -> String {
    let mut xml = String::from("<?xml version=\"1.0\" encoding=\"UTF-8\"?>");
    xml.push_str("<scan:ScanSettings xmlns:pwg=\"http://www.pwg.org/schemas/2010/12/sm\" ");
    xml.push_str("xmlns:scan=\"http://schemas.hp.com/imaging/escl/2011/05/03\">");
    xml.push_str("<pwg:Version>2.0</pwg:Version>");
    xml.push_str(&format!("<pwg:InputSource>{}</pwg:InputSource>", source));
    xml.push_str("<pwg:ScanRegions><pwg:ScanRegion>");
    xml.push_str("<pwg:ContentRegionUnits>escl:ThreeHundredthsOfInches</pwg:ContentRegionUnits>");
    xml.push_str("<pwg:Height>3507</pwg:Height><pwg:Width>2550</pwg:Width>");
    xml.push_str("<pwg:XOffset>0</pwg:XOffset><pwg:YOffset>0</pwg:YOffset>");
    xml.push_str("</pwg:ScanRegion></pwg:ScanRegions>");
    xml.push_str(&format!("<pwg:DocumentFormat>{}</pwg:DocumentFormat>", docformat));
    if ext {
        xml.push_str(&format!("<pwg:DocumentFormatExt>{}</pwg:DocumentFormatExt>", docformat));
    }
    xml.push_str(&format!("<scan:ColorMode>{}</scan:ColorMode>", colormode));
    xml.push_str(&format!("<scan:XResolution>{}</scan:XResolution>", resolution));
    xml.push_str(&format!("<scan:YResolution>{}</scan:YResolution>", resolution));
    xml.push_str("</scan:ScanSettings>");
    xml
}

#[test]
fn build_produces_exact_document() {
    let xml = build_scansettings_xml("Feeder", "300", "application/pdf", "RGB24", None);
    assert_eq!(
        xml,
        expected_xml("Feeder", "300", "application/pdf", "RGB24", false)
    );
}

#[test]
fn build_emits_each_field_exactly_once() {
    for ext in [None, Some(true), Some(false)] {
        let xml = build_scansettings_xml("Platen", "600", "application/jpg", "Grayscale8", ext);
        assert_eq!(xml.matches("<pwg:InputSource>Platen</pwg:InputSource>").count(), 1);
        assert_eq!(
            xml.matches("<pwg:DocumentFormat>application/jpg</pwg:DocumentFormat>").count(),
            1
        );
        let expected_ext = if ext.is_some() { 1 } else { 0 };
        assert_eq!(xml.matches("<pwg:DocumentFormatExt>").count(), expected_ext);
        assert_eq!(xml.matches("<scan:ColorMode>Grayscale8</scan:ColorMode>").count(), 1);
        assert_eq!(xml.matches("<scan:XResolution>600</scan:XResolution>").count(), 1);
        assert_eq!(xml.matches("<scan:YResolution>600</scan:YResolution>").count(), 1);
    }
}

#[test]
fn build_with_extended_format_repeats_the_format() {
    let xml = build_scansettings_xml("Feeder", "300", "application/pdf", "RGB24", Some(true));
    assert_eq!(
        xml,
        expected_xml("Feeder", "300", "application/pdf", "RGB24", true)
    );
    assert!(xml.contains("<pwg:DocumentFormatExt>application/pdf</pwg:DocumentFormatExt>"));
}

#[test]
fn filename_single_mode_is_unchanged() {
    assert_eq!(determine_filename(false, "test.txt", 1), "test.txt");
    assert_eq!(determine_filename(false, "test.txt", 7), "test.txt");
}

#[test]
fn filename_multi_mode_inserts_sequence_number() {
    assert_eq!(determine_filename(true, "test.txt", 1), "test-1.txt");
    assert_eq!(determine_filename(true, "test.txt", 2), "test-2.txt");
    assert_eq!(determine_filename(true, "scan.pdf", 12), "scan-12.pdf");
}

#[test]
fn decimal_rendering_is_exact() {
    assert_eq!(decimal_string(0), "0");
    assert_eq!(decimal_string(9), "9");
    assert_eq!(decimal_string(10), "10");
    assert_eq!(decimal_string(1234), "1234");
    assert_eq!(decimal_string(u64::MAX), "18446744073709551615");
}

#[test]
fn single_dot_detection() {
    assert_eq!(find_single_dot("test.txt"), Some(4));
    assert_eq!(find_single_dot("noext"), None);
    assert_eq!(find_single_dot("a.b.c"), None);
    assert_eq!(find_single_dot(".hidden"), Some(0));
}
