use esp_idf_matter::bytes::u64_from_be_bytes;
use esp_idf_matter::error::{NetCtlError, NetError};
use esp_idf_matter::thread::scan::{
    ext_pan_id_is, owned_network_name, report, scan_polled, ActiveScanResult, NetworkScanInfo,
    OwnedScanResult, ScanAction, ScanResults,
};

const EXT_PAN_ID: [u8; 8] = [0x11, 0x22, 0x33, 0x44, 0x55, 0x66, 0x77, 0x88];
const EXT_ADDR: [u8; 8] = [8, 7, 6, 5, 4, 3, 2, 1];

fn found<'a>(extended_pan_id: &'a [u8; 8], network_name: &'a [u8]) -> ActiveScanResult<'a> {
    ActiveScanResult {
        pan_id: 0xABCD,
        extended_pan_id,
        network_name,
        channel: 25,
        version: 3,
        extended_address: &EXT_ADDR,
        max_rssi: -70,
        lqi: 200,
    }
}

#[test]
fn big_endian_numbers_are_read() {
    assert_eq!(u64_from_be_bytes(&[0, 0, 0, 0, 0, 0, 1, 2]), 258);
    assert_eq!(u64_from_be_bytes(&EXT_PAN_ID), 0x1122334455667788);
    assert_eq!(u64_from_be_bytes(&[0xFF; 8]), u64::MAX);
    assert_eq!(u64_from_be_bytes(&0x0102030405060708u64.to_be_bytes()), 0x0102030405060708);
}

#[test]
fn everything_that_is_known_of_a_network_is_kept() {
    let owned = OwnedScanResult::from_active(&found(&EXT_PAN_ID, b"home"));
    assert_eq!(
        owned.info(),
        NetworkScanInfo {
            pan_id: 0xABCD,
            ext_pan_id: 0x1122334455667788,
            network_name: "home",
            channel: 25,
            version: 3,
            ext_addr: &EXT_ADDR,
            rssi: -70,
            lqi: 200,
        }
    );
}

#[test]
fn a_name_of_sixteen_bytes_is_kept() {
    assert_eq!(owned_network_name(b"0123456789abcdef").as_str(), "0123456789abcdef");
    assert_eq!(owned_network_name("h\u{f6}me".as_bytes()).as_str(), "h\u{f6}me");
    assert_eq!(owned_network_name(b"").as_str(), "");
}

#[test]
fn a_name_that_is_too_long_is_unknown() {
    assert_eq!(owned_network_name(b"0123456789abcdefg").as_str(), "???");
    assert_eq!(owned_network_name("0123456789abcde\u{f6}".as_bytes()).as_str(), "???");
}

#[test]
fn a_name_that_is_not_utf8_is_unknown() {
    assert_eq!(owned_network_name(&[0x68, 0xFF, 0x65]).as_str(), "???");
}

#[test]
fn the_first_five_networks_are_kept() {
    let mut results = ScanResults::new();
    for i in 0..7u8 {
        let id = [0, 0, 0, 0, 0, 0, 0, i];
        results.record(Some(found(&id, b"net")));
    }
    results.record(None);
    let results = results.take();
    let ids: Vec<u64> = report(&results, None).iter().map(|info| info.ext_pan_id).collect();
    assert_eq!(ids, vec![0, 1, 2, 3, 4]);
}

#[test]
fn what_is_found_after_the_results_were_taken_is_dropped() {
    let mut results = ScanResults::default();
    results.record(Some(found(&EXT_PAN_ID, b"early")));
    let taken = results.take();
    results.record(Some(found(&EXT_PAN_ID, b"late")));
    results.record(None);
    let infos = report(&taken, None);
    assert_eq!(infos.len(), 1);
    assert_eq!(infos[0].network_name, "early");
}

#[test]
fn a_scan_that_finds_nothing_reports_nothing() {
    let mut results = ScanResults::new();
    results.record(None);
    assert!(report(&results.take(), None).is_empty());
}

#[test]
fn a_scan_for_a_network_reports_only_that() {
    let mut results = ScanResults::new();
    results.record(Some(found(&[1; 8], b"one")));
    results.record(Some(found(&EXT_PAN_ID, b"two")));
    results.record(Some(found(&EXT_PAN_ID, b"three")));
    let results = results.take();
    let names: Vec<&str> =
        report(&results, Some(&EXT_PAN_ID)).iter().map(|info| info.network_name).collect();
    assert_eq!(names, vec!["two", "three"]);
    assert!(report(&results, Some(&[2; 8])).is_empty());
    assert!(report(&results, Some(&EXT_PAN_ID[..7])).is_empty());
    assert!(report(&results, Some(&[])).is_empty());
}

#[test]
fn an_extended_pan_id_is_spelled_in_big_endian() {
    assert!(ext_pan_id_is(0x1122334455667788, &EXT_PAN_ID));
    assert!(!ext_pan_id_is(0x8877665544332211, &EXT_PAN_ID));
    assert!(!ext_pan_id_is(0x11223344556677, &EXT_PAN_ID[..7]));
}

#[test]
fn a_scan_is_polled_until_it_is_over() {
    assert_eq!(scan_polled(Ok(true)), Ok(ScanAction::Wait { millis: 500 }));
    assert_eq!(scan_polled(Ok(false)), Ok(ScanAction::Report));
    assert_eq!(scan_polled(Err(259)), Err(NetCtlError::Other(NetError::Net(259))));
}
