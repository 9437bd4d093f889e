use clap_mml_play_server::vvp::{
    decode_xml_entities, is_vvp_patch_path, parse_vvp_header, vvp_state_blob, VvpError, VvpHeader,
    JUCE_BINARY_XML_MAGIC,
};

/// A minimal header shaped like the real files; only the version and poly mode vary.
fn vvp_xml(version: &str, poly_mode: &str) -> Vec<u8> {
    format!(
        "<?xml version=\"1.0\" encoding=\"UTF-8\"?>\r\n\r\n\
         <VASTvaporizer2 PatchVersion=\"{version}\" PatchName=\"Accent Arp\"\r\n\
         \x20               PatchCategory=\"AR\" PatchTag=\"Factory\" PatchAuthor=\"VASTDynamics\"\r\n\
         \x20               PatchComments=\"\" CustomModulator1Text=\"LPF\">\r\n\
         \x20 <PARAM id=\"m_fMasterVolumedB\" text=\"0\"/>\r\n\
         \x20 <PARAM id=\"m_uPolyMode\" text=\"{poly_mode}\"/>\r\n\
         \x20 <PARAM id=\"m_bLegatoMode\" text=\"0\"/>\r\n\
         </VASTvaporizer2>\r\n"
    )
    .into_bytes()
}

fn find_bytes(haystack: &[u8], needle: &[u8]) -> Option<usize> {
    haystack.windows(needle.len()).position(|window| window == needle)
}

fn decode(text: &str) -> String {
    decode_xml_entities(&text.chars().collect()).into_iter().collect()
}

#[test]
fn the_state_blob_wraps_the_xml_in_the_juce_binary_xml_header() {
    let xml = vvp_xml("VASTVaporizerParamsV2.20000", "Poly16");

    let blob = vvp_state_blob(&xml);

    assert_eq!(&blob[0..4], &JUCE_BINARY_XML_MAGIC.to_le_bytes());
    assert_eq!(
        u32::from_le_bytes(blob[4..8].try_into().unwrap()) as usize,
        xml.len(),
        "the length does not count the final NUL"
    );
    assert_eq!(&blob[8..blob.len() - 1], &xml[..]);
    assert_eq!(*blob.last().unwrap(), 0);
    assert_eq!(blob.len(), xml.len() + 9);
}

#[test]
fn a_v2_00000_patch_is_retagged_to_v2_10000() {
    let xml = vvp_xml("VASTVaporizerParamsV2.00000", "Poly16");

    let blob = vvp_state_blob(&xml);
    let body = String::from_utf8(blob[8..blob.len() - 1].to_vec()).unwrap();

    assert!(body.contains("VASTVaporizerParamsV2.10000"));
    assert!(!body.contains("VASTVaporizerParamsV2.00000"));
    assert_eq!(blob.len(), xml.len() + 9, "the retag keeps the length");
}

#[test]
fn a_v2_20000_patch_is_left_alone() {
    let xml = vvp_xml("VASTVaporizerParamsV2.20000", "Poly16");

    let blob = vvp_state_blob(&xml);
    let body = String::from_utf8(blob[8..blob.len() - 1].to_vec()).unwrap();

    assert!(body.contains("VASTVaporizerParamsV2.20000"));
}

#[test]
fn a_v2_10000_patch_is_left_alone() {
    let xml = vvp_xml("VASTVaporizerParamsV2.10000", "Poly16");

    let blob = vvp_state_blob(&xml);
    let body = String::from_utf8(blob[8..blob.len() - 1].to_vec()).unwrap();

    assert!(body.contains("VASTVaporizerParamsV2.10000"));
}

#[test]
fn every_legacy_tag_is_retagged_and_nothing_else_changes() {
    let xml = b"xVASTVaporizerParamsV2.00000yVASTVaporizerParamsV2.00000".to_vec();
    let blob = vvp_state_blob(&xml);
    assert_eq!(
        &blob[8..blob.len() - 1],
        b"xVASTVaporizerParamsV2.10000yVASTVaporizerParamsV2.10000"
    );
    assert_eq!(&blob[4..8], &(xml.len() as u32).to_le_bytes());
}

#[test]
fn an_empty_xml_still_gets_the_header_and_the_nul() {
    let blob = vvp_state_blob(&[]);
    assert_eq!(blob, vec![0x56, 0x43, 0x32, 0x21, 0, 0, 0, 0, 0]);
}

#[test]
fn the_header_reads_the_name_category_tag_and_author() {
    let header = parse_vvp_header(&vvp_xml("VASTVaporizerParamsV2.20000", "Poly16")).unwrap();

    assert_eq!(
        header,
        VvpHeader {
            name: "Accent Arp".to_string(),
            category: "AR".to_string(),
            tag: "Factory".to_string(),
            author: "VASTDynamics".to_string(),
            poly: true,
        }
    );
}

#[test]
fn only_mono_reads_as_not_poly() {
    for (poly_mode, expected) in [
        ("Mono", false),
        ("Poly4", true),
        ("Poly16", true),
        ("Poly32", true),
    ] {
        let header = parse_vvp_header(&vvp_xml("VASTVaporizerParamsV2.20000", poly_mode)).unwrap();

        assert_eq!(header.poly, expected, "m_uPolyMode = {poly_mode}");
    }
}

#[test]
fn a_prefix_that_stops_before_the_poly_mode_is_an_error() {
    let xml = vvp_xml("VASTVaporizerParamsV2.20000", "Poly16");
    let cut = find_bytes(&xml, b"m_uPolyMode").unwrap();

    let error = parse_vvp_header(&xml[..cut]).unwrap_err();

    assert!(error.message().contains("m_uPolyMode"));
}

#[test]
fn a_file_that_is_not_a_vaporizer2_patch_is_an_error() {
    let error = parse_vvp_header(b"CcnK\0\0\0\0FPCh").unwrap_err();

    assert!(error.message().contains("VASTvaporizer2"));
    assert_eq!(error, VvpError::NotVaporizer2);
}

#[test]
fn the_poly_mode_does_not_leak_from_the_next_param() {
    let xml = b"<VASTvaporizer2 PatchName=\"X\">\
                <PARAM id=\"m_uPolyMode\"/>\
                <PARAM id=\"m_bLegatoMode\" text=\"Mono\"/>";

    let error = parse_vvp_header(xml).unwrap_err();

    assert!(error.message().contains("m_uPolyMode"));
    assert_eq!(error, VvpError::MissingPolyMode);
}

#[test]
fn attribute_values_decode_xml_entities() {
    let xml = b"<VASTvaporizer2 PatchName=\"A &amp; B &gt; C\" PatchAuthor=\"&quot;me&quot;\">\
                <PARAM id=\"m_uPolyMode\" text=\"Poly16\"/>";

    let header = parse_vvp_header(xml).unwrap();

    assert_eq!(header.name, "A & B > C");
    assert_eq!(header.author, "\"me\"");
}

#[test]
fn missing_attributes_read_as_empty() {
    let xml = b"<VASTvaporizer2><PARAM id=\"m_uPolyMode\" text=\"Mono\"/>";
    let header = parse_vvp_header(xml).unwrap();
    assert_eq!(header.name, "");
    assert_eq!(header.category, "");
    assert!(!header.poly);
}

#[test]
fn a_double_escaped_entity_only_unescapes_once() {
    assert_eq!(decode("&amp;lt;"), "&lt;");
}

#[test]
fn every_entity_is_put_back() {
    assert_eq!(decode("&lt;a&gt; &apos;b&apos; &quot;c&quot; d&amp;e"), "<a> 'b' \"c\" d&e");
    assert_eq!(decode("plain"), "plain");
}

#[test]
fn a_directory_named_like_a_patch_does_not_make_every_path_a_vvp() {
    assert!(is_vvp_patch_path("Bank.vvp/BA Sub.vvp"));
    assert!(!is_vvp_patch_path("vvp/Pad 1.fxp"));
    assert!(!is_vvp_patch_path("Vaporizer2 Presets/Pad 1.fxp"));
}

#[test]
fn the_extension_is_matched_in_any_case_and_needs_a_name() {
    assert!(is_vvp_patch_path("Pads\\Soft.VVP"));
    assert!(!is_vvp_patch_path(".vvp"));
    assert!(!is_vvp_patch_path("dir/.vvp"));
    assert!(is_vvp_patch_path("x.vvp"));
}

#[test]
fn decoding_undoes_escaping() {
    for text in ["&lt;", "a<b>&\"c\"'d'", "&amp;quot;", "plain", ""] {
        let escaped = text
            .replace('&', "&amp;")
            .replace('<', "&lt;")
            .replace('>', "&gt;")
            .replace('"', "&quot;")
            .replace('\'', "&apos;");
        assert_eq!(decode(&escaped), text);
    }
}
