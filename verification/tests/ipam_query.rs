use vmreq::ipam::{
    free_ipv4, ip4_to_string, ipam_url, parse_free_ips, user_agent, Ip4, IpamError,
};

fn record(ip: &str) -> String {
    format!(
        "<freeIp>\n  <ip>{ip}</ip>\n  <ipSubnet>192.33.91.0</ipSubnet>\n  <ipMask>24</ipMask>\n  \
         <subnetAndMask>192.33.91.0/24</subnetAndMask>\n  <subnetName>vsos</subnetName>\n</freeIp>"
    )
}

#[test]
fn empty_document_is_success_with_no_addresses() {
    let r = parse_free_ips("<freeIps></freeIps>").expect("well-formed");
    assert!(r.is_empty());
    let r = parse_free_ips("<freeIps/>").expect("well-formed");
    assert!(r.is_empty());
    let r = parse_free_ips("  <freeIps>\n   \t </freeIps>\n").expect("well-formed");
    assert!(r.is_empty());
}

#[test]
fn prolog_is_accepted() {
    let doc = "<?xml version=\"1.0\" encoding=\"UTF-8\"?>\n<freeIps></freeIps>";
    assert!(parse_free_ips(doc).expect("well-formed").is_empty());
}

#[test]
fn malformed_documents_are_errors_not_empty_lists() {
    for doc in [
        "",
        "junk",
        "<freeIps>",
        "<freeIps></freeIps> trailing",
        "<freeIps><freeIp></freeIp></freeIps>",
        "<?xml version=\"1.0\"",
    ] {
        assert!(
            matches!(parse_free_ips(doc), Err(IpamError::ParseFailed)),
            "document {doc:?} should fail to parse"
        );
    }
}

#[test]
fn out_of_range_octet_is_an_error() {
    let doc = format!("<freeIps>{}</freeIps>", record("256.1.1.1"));
    assert!(matches!(parse_free_ips(&doc), Err(IpamError::ParseFailed)));
}

#[test]
fn missing_field_is_an_error() {
    let doc = "<freeIps><freeIp><ip>192.33.91.4</ip><ipSubnet>192.33.91.0</ipSubnet>\
               <ipMask>24</ipMask><subnetName>vsos</subnetName></freeIp></freeIps>";
    assert!(matches!(parse_free_ips(doc), Err(IpamError::ParseFailed)));
}

#[test]
fn one_record_keeps_every_field() {
    let doc = format!("<freeIps>\n{}\n</freeIps>", record("192.33.91.4"));
    let r = parse_free_ips(&doc).expect("well-formed");
    assert_eq!(r.len(), 1);
    assert_eq!(r[0].ip, Ip4 { a: 192, b: 33, c: 91, d: 4 });
    assert_eq!(r[0].subnet, Ip4 { a: 192, b: 33, c: 91, d: 0 });
    assert_eq!(r[0].mask, 24);
    assert_eq!(r[0].subnet_and_mask, "192.33.91.0/24");
    assert_eq!(r[0].subnet_name, "vsos");
}

#[test]
fn three_records_narrow_to_three_addresses_in_document_order() {
    let doc = format!(
        "<freeIps>\n{}\n{}\n{}\n</freeIps>",
        record("192.33.91.4"),
        record("192.33.91.9"),
        record("192.33.91.13"),
    );
    let ips = free_ipv4(Ok(doc)).expect("well-formed");
    assert_eq!(
        ips,
        vec![
            Ip4 { a: 192, b: 33, c: 91, d: 4 },
            Ip4 { a: 192, b: 33, c: 91, d: 9 },
            Ip4 { a: 192, b: 33, c: 91, d: 13 },
        ]
    );
}

#[test]
fn compact_document_needs_no_whitespace() {
    let doc = "<freeIps><freeIp><ip>10.0.0.1</ip><ipSubnet>10.0.0.0</ipSubnet><ipMask>8</ipMask>\
               <subnetAndMask>10.0.0.0/8</subnetAndMask><subnetName>lab</subnetName></freeIp></freeIps>";
    let r = parse_free_ips(doc).expect("well-formed");
    assert_eq!(r.len(), 1);
    assert_eq!(r[0].ip, Ip4 { a: 10, b: 0, c: 0, d: 1 });
}

#[test]
fn empty_display_text_is_allowed() {
    let doc = "<freeIps><freeIp><ip>10.0.0.1</ip><ipSubnet>10.0.0.0</ipSubnet><ipMask>8</ipMask>\
               <subnetAndMask></subnetAndMask><subnetName></subnetName></freeIp></freeIps>";
    let r = parse_free_ips(doc).expect("well-formed");
    assert_eq!(r[0].subnet_and_mask, "");
    assert_eq!(r[0].subnet_name, "");
}

#[test]
fn record_after_closing_tag_is_an_error() {
    let doc = format!("<freeIps></freeIps>{}", record("192.33.91.4"));
    assert!(matches!(parse_free_ips(&doc), Err(IpamError::ParseFailed)));
}

#[test]
fn transport_failure_is_distinguishable() {
    match free_ipv4(Err("connection refused".to_owned())) {
        Err(IpamError::TransportFailed(m)) => assert_eq!(m, "connection refused"),
        _ => panic!("expected a transport failure"),
    }
}

#[test]
fn malformed_body_from_transport_is_a_parse_error() {
    assert!(matches!(
        free_ipv4(Ok("<freeIps>".to_owned())),
        Err(IpamError::ParseFailed)
    ));
}

#[test]
fn addresses_render_as_dotted_quads() {
    assert_eq!(ip4_to_string(&Ip4 { a: 192, b: 33, c: 91, d: 7 }), "192.33.91.7");
    assert_eq!(ip4_to_string(&Ip4 { a: 0, b: 0, c: 0, d: 0 }), "0.0.0.0");
    assert_eq!(ip4_to_string(&Ip4 { a: 255, b: 255, c: 255, d: 255 }), "255.255.255.255");
}

#[test]
fn query_url_and_user_agent_are_fixed() {
    assert_eq!(
        ipam_url("192.33.91.0"),
        "https://www.netcenter.ethz.ch/netcenter/rest/nameToIP/freeIps/v4/192.33.91.0"
    );
    assert_eq!(user_agent(), "SOSETH netcenter automation (vsos-support@sos.ethz.ch)");
}

#[test]
fn decimal_rendering_is_exact() {
    assert_eq!(vmreq::num::u32_to_string(0), "0");
    assert_eq!(vmreq::num::u32_to_string(4096), "4096");
    assert_eq!(vmreq::num::u32_to_string(4294967295), "4294967295");
}
