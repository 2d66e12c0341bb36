//! Building the eSCL scan-settings document.
//!
//! The builder is a pure function from the scan parameters to the XML text
//! that is posted to the scanner's job endpoint. All parameters are taken as
//! opaque strings and inserted verbatim; the region of interest is fixed to a
//! full US-Letter page. Nothing is validated here: a malformed value is
//! caught only by the scanner's own reply.

use vstd::prelude::*;
use vstd::string::StringExecFns;

verus! {

/// The fixed document head: XML declaration and the opening of the root
/// element, which declares the `pwg` and `scan` namespaces in that order.
pub open spec fn spec_xml_head() -> Seq<char> {
    "<?xml version=\"1.0\" encoding=\"UTF-8\"?>"@
        + "<scan:ScanSettings xmlns:pwg=\"http://www.pwg.org/schemas/2010/12/sm\" "@
        + "xmlns:scan=\"http://schemas.hp.com/imaging/escl/2011/05/03\">"@
        + "<pwg:Version>2.0</pwg:Version>"@
}

/// The fixed scan-region block: a full US-Letter page (2550 x 3507 in
/// three-hundredths of an inch) at offset (0, 0).
pub open spec fn spec_region_block() -> Seq<char> {
    "<pwg:ScanRegions>"@ + "<pwg:ScanRegion>"@
        + "<pwg:ContentRegionUnits>escl:ThreeHundredthsOfInches</pwg:ContentRegionUnits>"@
        + "<pwg:Height>3507</pwg:Height>"@ + "<pwg:Width>2550</pwg:Width>"@
        + "<pwg:XOffset>0</pwg:XOffset>"@ + "<pwg:YOffset>0</pwg:YOffset>"@
        + "</pwg:ScanRegion>"@ + "</pwg:ScanRegions>"@
}

/// One XML element: opening tag, body, closing tag.
pub open spec fn spec_element(open: Seq<char>, body: Seq<char>, close: Seq<char>) -> Seq<char> {
    open + body + close
}

/// The optional `DocumentFormatExt` element: present, carrying the document
/// format a second time, exactly when the extended-format flag is given.
pub open spec fn spec_ext_element(docformat: Seq<char>, extformat: Option<bool>) -> Seq<char> {
    if extformat is Some {
        spec_element("<pwg:DocumentFormatExt>"@, docformat, "</pwg:DocumentFormatExt>"@)
    } else {
        Seq::<char>::empty()
    }
}

/// The complete scan-settings document for the given parameters.
pub open spec fn spec_scansettings_xml(
    source: Seq<char>,
    resolution: Seq<char>,
    docformat: Seq<char>,
    colormode: Seq<char>,
    extformat: Option<bool>,
) -> Seq<char> {
    spec_xml_head()
        + spec_element("<pwg:InputSource>"@, source, "</pwg:InputSource>"@)
        + spec_region_block()
        + spec_element("<pwg:DocumentFormat>"@, docformat, "</pwg:DocumentFormat>"@)
        + spec_ext_element(docformat, extformat)
        + spec_element("<scan:ColorMode>"@, colormode, "</scan:ColorMode>"@)
        + spec_element("<scan:XResolution>"@, resolution, "</scan:XResolution>"@)
        + spec_element("<scan:YResolution>"@, resolution, "</scan:YResolution>"@)
        + "</scan:ScanSettings>"@
}

/// Builds the scan-settings XML document that is posted to the scanner.
///
/// Every parameter is inserted verbatim; when `extformat` is given, a
/// `DocumentFormatExt` element carrying `docformat` a second time is emitted
/// after the `DocumentFormat` element.
#[verifier::rlimit(60)]
pub fn build_scansettings_xml(
    source: &str,
    resolution: &str,
    docformat: &str,
    colormode: &str,
    extformat: Option<bool>,
) -> (xml: String)
    ensures
        xml@ == spec_scansettings_xml(source@, resolution@, docformat@, colormode@, extformat),
{
    let mut xml = String::from_str("<?xml version=\"1.0\" encoding=\"UTF-8\"?>");
    xml.append("<scan:ScanSettings xmlns:pwg=\"http://www.pwg.org/schemas/2010/12/sm\" ");
    xml.append("xmlns:scan=\"http://schemas.hp.com/imaging/escl/2011/05/03\">");
    xml.append("<pwg:Version>2.0</pwg:Version>");
    xml.append("<pwg:InputSource>");
    xml.append(source);
    xml.append("</pwg:InputSource>");
    xml.append("<pwg:ScanRegions>");
    xml.append("<pwg:ScanRegion>");
    xml.append("<pwg:ContentRegionUnits>escl:ThreeHundredthsOfInches</pwg:ContentRegionUnits>");
    xml.append("<pwg:Height>3507</pwg:Height>");
    xml.append("<pwg:Width>2550</pwg:Width>");
    xml.append("<pwg:XOffset>0</pwg:XOffset>");
    xml.append("<pwg:YOffset>0</pwg:YOffset>");
    xml.append("</pwg:ScanRegion>");
    xml.append("</pwg:ScanRegions>");
    xml.append("<pwg:DocumentFormat>");
    xml.append(docformat);
    xml.append("</pwg:DocumentFormat>");
    if extformat.is_some() {
        xml.append("<pwg:DocumentFormatExt>");
        xml.append(docformat);
        xml.append("</pwg:DocumentFormatExt>");
    }
    xml.append("<scan:ColorMode>");
    xml.append(colormode);
    xml.append("</scan:ColorMode>");
    xml.append("<scan:XResolution>");
    xml.append(resolution);
    xml.append("</scan:XResolution>");
    xml.append("<scan:YResolution>");
    xml.append(resolution);
    xml.append("</scan:YResolution>");
    xml.append("</scan:ScanSettings>");
    proof {
        assert(xml@ =~= spec_scansettings_xml(
            source@, resolution@, docformat@, colormode@, extformat,
        ));
    }
    xml
}

/// Law (document structure): for every parameter tuple, the settings document
/// is exactly the fixed head, then one `InputSource` element carrying `source`
/// verbatim, the fixed region block, one `DocumentFormat` element carrying
/// `docformat` verbatim, a `DocumentFormatExt` element carrying `docformat`
/// exactly when `extformat` is given (and nothing in its place otherwise),
/// one `ColorMode` element carrying `colormode`, one `XResolution` and one
/// `YResolution` element each carrying `resolution`, and the closing root tag.
pub proof fn lemma_document_structure(
    source: Seq<char>,
    resolution: Seq<char>,
    docformat: Seq<char>,
    colormode: Seq<char>,
    extformat: Option<bool>,
)
    ensures
        spec_scansettings_xml(source, resolution, docformat, colormode, extformat)
            == spec_xml_head()
                + ("<pwg:InputSource>"@ + source + "</pwg:InputSource>"@)
                + spec_region_block()
                + ("<pwg:DocumentFormat>"@ + docformat + "</pwg:DocumentFormat>"@)
                + (if extformat is Some {
                    "<pwg:DocumentFormatExt>"@ + docformat + "</pwg:DocumentFormatExt>"@
                } else {
                    Seq::<char>::empty()
                })
                + ("<scan:ColorMode>"@ + colormode + "</scan:ColorMode>"@)
                + ("<scan:XResolution>"@ + resolution + "</scan:XResolution>"@)
                + ("<scan:YResolution>"@ + resolution + "</scan:YResolution>"@)
                + "</scan:ScanSettings>"@,
{
    assert(spec_scansettings_xml(source, resolution, docformat, colormode, extformat)
        =~= spec_xml_head()
            + ("<pwg:InputSource>"@ + source + "</pwg:InputSource>"@)
            + spec_region_block()
            + ("<pwg:DocumentFormat>"@ + docformat + "</pwg:DocumentFormat>"@)
            + (if extformat is Some {
                "<pwg:DocumentFormatExt>"@ + docformat + "</pwg:DocumentFormatExt>"@
            } else {
                Seq::<char>::empty()
            })
            + ("<scan:ColorMode>"@ + colormode + "</scan:ColorMode>"@)
            + ("<scan:XResolution>"@ + resolution + "</scan:XResolution>"@)
            + ("<scan:YResolution>"@ + resolution + "</scan:YResolution>"@)
            + "</scan:ScanSettings>"@);
}

} // verus!
