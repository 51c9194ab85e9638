//! Scanning for Thread networks.

use vstd::prelude::*;

use crate::bytes::{
    be_bytes, be_value, law_be_round_trip, law_be_value_of_eight_bytes, lemma_be_bytes_len,
    lemma_be_value_bound, lemma_pow256_u64, u64_from_be_bytes,
};
use crate::error::{to_net_ctl_error, NetCtlError, NetError};
use crate::storage::{
    scan_items, scan_items_as_slice, scan_items_new, scan_items_push, str_from_utf8, string_as_str,
    string_chars, string_try_from,
};

verus! {

/// How long to wait between two looks at whether a scan is still in progress.
pub const POLL_SCAN_WAIT_MILLIS: u64 = 500;

/// The number of networks that a scan keeps.
pub const MAX_SCAN_RESULTS: usize = 5;

/// A network that the radio has found, as it reports it.
#[derive(Debug, Clone, Copy, PartialEq, Eq)]
pub struct ActiveScanResult<'a> {
    pub pan_id: u16,
    pub extended_pan_id: &'a [u8],
    /// The name, without its terminating zero byte.
    pub network_name: &'a [u8],
    pub channel: u8,
    pub version: u8,
    pub extended_address: &'a [u8],
    pub max_rssi: i8,
    pub lqi: u8,
}

/// A network that a scan keeps.
pub struct OwnedScanResult {
    pub pan_id: u16,
    pub ext_pan_id: u64,
    pub network_name: heapless::String<16>,
    pub channel: u16,
    pub version: u8,
    pub ext_addr: [u8; 8],
    pub rssi: i8,
    pub lqi: u8,
}

/// A network that a scan reports.
#[derive(Debug, Clone, Copy, PartialEq, Eq)]
pub struct NetworkScanInfo<'a> {
    pub pan_id: u16,
    pub ext_pan_id: u64,
    pub network_name: &'a str,
    pub channel: u16,
    pub version: u8,
    pub ext_addr: &'a [u8; 8],
    pub rssi: i8,
    pub lqi: u8,
}

/// What is known of a network.
#[verifier::ext_equal]
pub struct NetworkModel {
    pub pan_id: u16,
    pub ext_pan_id: u64,
    pub network_name: Seq<char>,
    pub channel: u16,
    pub version: u8,
    pub ext_addr: Seq<u8>,
    pub rssi: i8,
    pub lqi: u8,
}

/// The name that is kept of a network. One that is not UTF-8, or that is too long for a Thread
/// network, is shown as unknown.
pub open spec fn kept_name(network_name: Seq<u8>) -> Seq<char> {
    if vstd::utf8::valid_utf8(network_name) && network_name.len() <= 16 {
        vstd::utf8::decode_utf8(network_name)
    } else {
        "???"@
    }
}

impl<'a> ActiveScanResult<'a> {
    /// The identifiers have the length that IEEE 802.15.4 gives them.
    pub open spec fn wf(&self) -> bool {
        &&& self.extended_pan_id@.len() == 8
        &&& self.extended_address@.len() == 8
    }

    /// What is kept of the network.
    pub open spec fn kept(&self) -> NetworkModel {
        NetworkModel {
            pan_id: self.pan_id,
            ext_pan_id: be_value(self.extended_pan_id@) as u64,
            network_name: kept_name(self.network_name@),
            channel: self.channel as u16,
            version: self.version,
            ext_addr: self.extended_address@,
            rssi: self.max_rssi,
            lqi: self.lqi,
        }
    }
}

impl View for OwnedScanResult {
    type V = NetworkModel;

    open spec fn view(&self) -> NetworkModel {
        NetworkModel {
            pan_id: self.pan_id,
            ext_pan_id: self.ext_pan_id,
            network_name: string_chars(self.network_name),
            channel: self.channel,
            version: self.version,
            ext_addr: self.ext_addr@,
            rssi: self.rssi,
            lqi: self.lqi,
        }
    }
}

impl<'a> View for NetworkScanInfo<'a> {
    type V = NetworkModel;

    open spec fn view(&self) -> NetworkModel {
        NetworkModel {
            pan_id: self.pan_id,
            ext_pan_id: self.ext_pan_id,
            network_name: self.network_name@,
            channel: self.channel,
            version: self.version,
            ext_addr: self.ext_addr@,
            rssi: self.rssi,
            lqi: self.lqi,
        }
    }
}

/// The name to keep of a network.
pub fn owned_network_name(network_name: &[u8]) -> (name: heapless::String<16>)
    ensures
        string_chars(name) == kept_name(network_name@),
{
    proof {
        reveal_strlit("???");
        assert(vstd::utf8::is_ascii_chars("???"@));
        vstd::utf8::is_ascii_chars_encode_utf8("???"@);
    }
    let name = match str_from_utf8(network_name) {
        Some(name) => {
            proof {
                vstd::utf8::encode_utf8_decode_utf8(name@);
            }
            name
        },
        None => "???",
    };
    match string_try_from(name) {
        Ok(name) => name,
        Err(()) => string_try_from("???").unwrap(),
    }
}

impl OwnedScanResult {
    /// Keeps what the radio has found.
    pub fn from_active(result: &ActiveScanResult<'_>) -> (owned: OwnedScanResult)
        requires
            result.wf(),
        ensures
            owned@ == result.kept(),
            owned.pan_id == result.pan_id,
            owned.ext_pan_id == be_value(result.extended_pan_id@),
            string_chars(owned.network_name) == kept_name(result.network_name@),
            owned.channel == result.channel,
            owned.version == result.version,
            owned.ext_addr@ == result.extended_address@,
            owned.rssi == result.max_rssi,
            owned.lqi == result.lqi,
    {
        let owned = OwnedScanResult {
            pan_id: result.pan_id,
            ext_pan_id: u64_from_be_bytes(result.extended_pan_id),
            network_name: owned_network_name(result.network_name),
            channel: result.channel as u16,
            version: result.version,
            ext_addr: eight_bytes(result.extended_address),
            rssi: result.max_rssi,
            lqi: result.lqi,
        };
        assert(owned@ =~= result.kept());
        owned
    }

    /// Presents the network for a report.
    pub fn info<'a>(&'a self) -> (info: NetworkScanInfo<'a>)
        ensures
            info@ == self@,
            info.pan_id == self.pan_id,
            info.ext_pan_id == self.ext_pan_id,
            info.network_name@ == string_chars(self.network_name),
            info.channel == self.channel,
            info.version == self.version,
            info.ext_addr@ == self.ext_addr@,
            info.rssi == self.rssi,
            info.lqi == self.lqi,
    {
        NetworkScanInfo {
            pan_id: self.pan_id,
            ext_pan_id: self.ext_pan_id,
            network_name: string_as_str(&self.network_name),
            channel: self.channel,
            version: self.version,
            ext_addr: &self.ext_addr,
            rssi: self.rssi,
            lqi: self.lqi,
        }
    }
}

/// Copies eight bytes into an array.
fn eight_bytes(bytes: &[u8]) -> (array: [u8; 8])
    requires
        bytes@.len() == 8,
    ensures
        array@ == bytes@,
{
    let array = [
        bytes[0],
        bytes[1],
        bytes[2],
        bytes[3],
        bytes[4],
        bytes[5],
        bytes[6],
        bytes[7],
    ];
    assert(array@ =~= bytes@);
    array
}

/// The networks that were found, as long as nobody has taken them.
pub struct ScanResults {
    results: Option<heapless::Vec<OwnedScanResult, 5>>,
}

/// What a vector of scan results holds.
pub open spec fn scan_models(results: heapless::Vec<OwnedScanResult, 5>) -> Seq<NetworkModel> {
    scan_items(results).map_values(|result: OwnedScanResult| result@)
}

/// What is kept after the radio has reported `found`.
pub open spec fn recorded(
    kept: Option<Seq<NetworkModel>>,
    found: NetworkModel,
) -> Option<Seq<NetworkModel>> {
    match kept {
        Some(kept) => if kept.len() < MAX_SCAN_RESULTS {
            Some(kept.push(found))
        } else {
            Some(kept)
        },
        None => None,
    }
}

/// What is kept after the radio has reported all of `found`, in this order.
pub open spec fn recorded_all(
    kept: Option<Seq<NetworkModel>>,
    found: Seq<NetworkModel>,
) -> Option<Seq<NetworkModel>>
    decreases found.len(),
{
    if found.len() == 0 {
        kept
    } else {
        recorded(recorded_all(kept, found.drop_last()), found.last())
    }
}

impl View for ScanResults {
    type V = Option<Seq<NetworkModel>>;

    closed spec fn view(&self) -> Option<Seq<NetworkModel>> {
        match self.results {
            Some(results) => Some(scan_models(results)),
            None => None,
        }
    }
}

impl ScanResults {
    /// The results of a scan that has found nothing yet.
    pub fn new() -> (results: Self)
        ensures
            results@ == Some(Seq::<NetworkModel>::empty()),
    {
        let results = ScanResults { results: Some(scan_items_new()) };
        assert(results@->Some_0 =~= Seq::<NetworkModel>::empty());
        results
    }

    /// Takes note of what the radio reports: a network, or the end of the scan.
    ///
    /// There is room for five networks. Those that are found after that are dropped, and so is
    /// everything that is found once the results were taken.
    pub fn record(&mut self, found: Option<ActiveScanResult<'_>>)
        requires
            found matches Some(found) ==> found.wf(),
        ensures
            final(self)@ == (match found {
                Some(found) => recorded(old(self)@, found.kept()),
                None => old(self)@,
            }),
    {
        if let Some(found) = found {
            if let Some(results) = &mut self.results {
                let item = OwnedScanResult::from_active(&found);
                let ghost before = scan_models(*results);
                let _ = scan_items_push(results, item);
                assert(scan_models(*results) =~= recorded(Some(before), found.kept())->Some_0);
            }
        }
    }

    /// Hands out what was found. This is done once per scan.
    pub fn take(&mut self) -> (results: heapless::Vec<OwnedScanResult, 5>)
        requires
            old(self)@ is Some,
        ensures
            Some(scan_models(results)) == old(self)@,
            final(self)@ is None,
    {
        self.results.take().unwrap()
    }
}

impl Default for ScanResults {
    fn default() -> (results: Self)
        ensures
            results@ == Some(Seq::<NetworkModel>::empty()),
    {
        ScanResults::new()
    }
}

/// What to do next in a scan.
#[derive(Debug, Clone, Copy, PartialEq, Eq, Structural)]
pub enum ScanAction {
    /// Wait, and find out once more whether the scan is in progress.
    Wait { millis: u64 },
    /// Take the results, and report them.
    Report,
}

/// Goes on with a scan by whether it is in progress.
pub fn scan_polled(in_progress: Result<bool, i32>) -> (action: Result<ScanAction, NetCtlError>)
    ensures
        action == (match in_progress {
            Ok(true) => Ok::<ScanAction, NetCtlError>(
                ScanAction::Wait { millis: POLL_SCAN_WAIT_MILLIS },
            ),
            Ok(false) => Ok(ScanAction::Report),
            Err(code) => Err(NetCtlError::Other(NetError::Net(code))),
        }),
{
    match in_progress {
        Ok(in_progress) => if in_progress {
            Ok(ScanAction::Wait { millis: POLL_SCAN_WAIT_MILLIS })
        } else {
            Ok(ScanAction::Report)
        },
        Err(code) => Err(to_net_ctl_error(code)),
    }
}

/// Whether `found` is the network that is asked for: the one with the extended PAN ID whose
/// big-endian bytes are `network`, or just any.
pub open spec fn asked_for(found: NetworkModel, network: Option<Seq<u8>>) -> bool {
    match network {
        Some(network) => be_bytes(found.ext_pan_id as nat, 8) == network,
        None => true,
    }
}

/// What a scan reports out of `found`.
pub open spec fn reported(found: Seq<NetworkModel>, network: Option<Seq<u8>>) -> Seq<
    NetworkModel,
> {
    found.filter(|found: NetworkModel| asked_for(found, network))
}

/// The bytes behind an optional slice.
pub open spec fn optional_bytes(bytes: Option<&[u8]>) -> Option<Seq<u8>> {
    match bytes {
        Some(bytes) => Some(bytes@),
        None => None,
    }
}

/// Whether an extended PAN ID has the given big-endian bytes.
pub fn ext_pan_id_is(ext_pan_id: u64, network: &[u8]) -> (same: bool)
    ensures
        same <==> be_bytes(ext_pan_id as nat, 8) == network@,
{
    proof {
        lemma_be_bytes_len(ext_pan_id as nat, 8);
        lemma_pow256_u64();
        law_be_round_trip(be_bytes(ext_pan_id as nat, 8), ext_pan_id as nat);
        law_be_round_trip(network@, 0);
    }
    network.len() == 8 && u64_from_be_bytes(network) == ext_pan_id
}

/// Picks out what to report of the networks that were found: those that `network` asks for, in
/// the order in which they were found.
pub fn report<'a>(
    results: &'a heapless::Vec<OwnedScanResult, 5>,
    network: Option<&[u8]>,
) -> (infos: Vec<NetworkScanInfo<'a>>)
    ensures
        infos@.map_values(|info: NetworkScanInfo<'a>| info@) == reported(
            scan_models(*results),
            optional_bytes(network),
        ),
{
    let results = scan_items_as_slice(results);
    let ghost found = results@.map_values(|result: OwnedScanResult| result@);
    let ghost asked = |found: NetworkModel| asked_for(found, optional_bytes(network));
    let mut infos: Vec<NetworkScanInfo<'a>> = Vec::new();
    let mut i: usize = 0;
    assert(found.take(0) =~= Seq::<NetworkModel>::empty());
    proof {
        reveal(Seq::filter);
    }
    assert(infos@.map_values(|info: NetworkScanInfo<'a>| info@) =~= found.take(0).filter(asked));
    while i < results.len()
        invariant
            i <= results@.len(),
            found == results@.map_values(|result: OwnedScanResult| result@),
            asked == (|found: NetworkModel| asked_for(found, optional_bytes(network))),
            infos@.map_values(|info: NetworkScanInfo<'a>| info@) == found.take(i as int).filter(
                asked,
            ),
        decreases results@.len() - i,
    {
        let result = &results[i];
        let wanted = match network {
            Some(network) => ext_pan_id_is(result.ext_pan_id, network),
            None => true,
        };
        let ghost before = infos@;
        proof {
            reveal(Seq::filter);
            assert(found.take(i + 1).drop_last() =~= found.take(i as int));
            assert(found.take(i + 1).last() == result@);
            assert(wanted == asked(result@));
        }
        if wanted {
            infos.push(result.info());
            assert(infos@.map_values(|info: NetworkScanInfo<'a>| info@) =~= before.map_values(
                |info: NetworkScanInfo<'a>| info@,
            ).push(result@));
        }
        i = i + 1;
    }
    assert(found.take(i as int) =~= found);
    infos
}

/// A scan keeps the first five networks that the radio reports, in that order, and no others.
pub proof fn law_first_five_are_kept(found: Seq<NetworkModel>)
    ensures
        recorded_all(Some(Seq::empty()), found) == Some(
            if found.len() < MAX_SCAN_RESULTS {
                found
            } else {
                found.take(MAX_SCAN_RESULTS as int)
            },
        ),
    decreases found.len(),
{
    if found.len() > 0 {
        law_first_five_are_kept(found.drop_last());
        let kept = recorded_all(Some(Seq::empty()), found)->Some_0;
        if found.len() <= MAX_SCAN_RESULTS {
            assert(kept =~= found);
            assert(found.take(found.len() as int) =~= found);
        } else {
            assert(kept =~= found.take(MAX_SCAN_RESULTS as int));
        }
    } else {
        assert(found =~= Seq::empty());
    }
}

/// What the radio reports after the results were taken is dropped.
pub proof fn law_late_results_are_dropped(found: Seq<NetworkModel>)
    ensures
        recorded_all(None, found) is None,
    decreases found.len(),
{
    if found.len() > 0 {
        law_late_results_are_dropped(found.drop_last());
    }
}

/// A network is the one that is asked for exactly if its extended PAN ID, as the radio spells it,
/// is the one that is asked for. Without such a request every network is.
pub proof fn law_report_goes_by_ext_pan_id(found: ActiveScanResult<'_>, network: Seq<u8>)
    requires
        found.wf(),
    ensures
        asked_for(found.kept(), Some(network)) <==> found.extended_pan_id@ == network,
        asked_for(found.kept(), None),
{
    lemma_pow256_u64();
    lemma_be_value_bound(found.extended_pan_id@);
    law_be_round_trip(found.extended_pan_id@, 0);
}

/// A scan that asks for no network in particular reports everything that was found.
pub proof fn law_open_scan_reports_all(found: Seq<NetworkModel>)
    ensures
        reported(found, None) == found,
    decreases found.len(),
{
    reveal(Seq::filter);
    if found.len() > 0 {
        law_open_scan_reports_all(found.drop_last());
        assert(reported(found, None) == reported(found.drop_last(), None).push(found.last()));
        assert(found.drop_last().push(found.last()) =~= found);
    } else {
        assert(reported(found, None) =~= found);
    }
}

/// Of a network everything is kept as the radio reports it: each number is the one of the same
/// name, the extended address byte by byte, and the extended PAN ID as the number that its bytes
/// spell, most significant byte first. So is the name, unless it is unknown.
pub proof fn law_network_is_kept_as_reported(found: ActiveScanResult<'_>)
    requires
        found.extended_pan_id@.len() == 8,
        found.extended_address@.len() == 8,
    ensures
        found.wf(),
        ({
            let kept = found.kept();
            let id = found.extended_pan_id@;
            &&& kept.pan_id == found.pan_id
            &&& kept.channel == found.channel
            &&& kept.version == found.version
            &&& kept.rssi == found.max_rssi
            &&& kept.lqi == found.lqi
            &&& vstd::utf8::valid_utf8(found.network_name@) && found.network_name@.len() <= 16
                ==> vstd::utf8::encode_utf8(kept.network_name) == found.network_name@
            &&& !(vstd::utf8::valid_utf8(found.network_name@) && found.network_name@.len() <= 16)
                ==> kept.network_name == seq!['?', '?', '?']
            &&& kept.ext_addr.len() == 8
            &&& forall|i: int| 0 <= i < 8 ==> kept.ext_addr[i] == found.extended_address@[i]
            &&& kept.ext_pan_id == id[0] * 0x100_0000_0000_0000 + id[1] * 0x1_0000_0000_0000 + id[2]
                * 0x100_0000_0000 + id[3] * 0x1_0000_0000 + id[4] * 0x100_0000 + id[5] * 0x1_0000
                + id[6] * 0x100 + id[7]
        }),
{
    law_be_value_of_eight_bytes(found.extended_pan_id@);
    law_name_is_kept_or_unknown(found.network_name@);
}

/// A network cannot be reported that has not exactly the identifiers that its standard gives it.
pub proof fn law_identifiers_have_eight_bytes(found: ActiveScanResult<'_>)
    ensures
        found.wf() <==> found.extended_pan_id@.len() == 8 && found.extended_address@.len() == 8,
{
}

/// A name that is kept encodes to the very bytes that the radio reports, if these are UTF-8 and at
/// most sixteen. Any other name is kept as three question marks.
pub proof fn law_name_is_kept_or_unknown(network_name: Seq<u8>)
    ensures
        vstd::utf8::valid_utf8(network_name) && network_name.len() <= 16
            ==> vstd::utf8::encode_utf8(kept_name(network_name)) == network_name,
        !(vstd::utf8::valid_utf8(network_name) && network_name.len() <= 16) ==> kept_name(
            network_name,
        ) == seq!['?', '?', '?'],
{
    reveal_strlit("???");
    if vstd::utf8::valid_utf8(network_name) {
        vstd::utf8::decode_utf8_encode_utf8(network_name);
    }
    assert("???"@ =~= seq!['?', '?', '?']);
}

/// What is known of a network, and what is reported of it, are the fields of its record.
pub proof fn law_records_are_read_by_field(owned: OwnedScanResult, info: NetworkScanInfo<'_>)
    ensures
        owned@.pan_id == owned.pan_id,
        owned@.ext_pan_id == owned.ext_pan_id,
        owned@.network_name == string_chars(owned.network_name),
        owned@.channel == owned.channel,
        owned@.version == owned.version,
        owned@.ext_addr == owned.ext_addr@,
        owned@.rssi == owned.rssi,
        owned@.lqi == owned.lqi,
        info@.pan_id == info.pan_id,
        info@.ext_pan_id == info.ext_pan_id,
        info@.network_name == info.network_name@,
        info@.channel == info.channel,
        info@.version == info.version,
        info@.ext_addr == info.ext_addr@,
        info@.rssi == info.rssi,
        info@.lqi == info.lqi,
{
}

/// What a scan without a request reports are the first five networks that the radio reports: each
/// of them once, in this order, and each with the numbers that the radio reports of it.
pub proof fn law_scan_reports_what_radio_reports(found: Seq<ActiveScanResult<'_>>)
    requires
        forall|i: int| 0 <= i < found.len() ==> (#[trigger] found[i]).wf(),
    ensures
        ({
            let kept = recorded_all(
                Some(Seq::empty()),
                found.map_values(|found: ActiveScanResult<'_>| found.kept()),
            )->Some_0;
            let infos = reported(kept, None);
            &&& infos.len() == if found.len() < 5 {
                found.len()
            } else {
                5
            }
            &&& forall|i: int|
                0 <= i < infos.len() ==> {
                    &&& (#[trigger] infos[i]).pan_id == found[i].pan_id
                    &&& infos[i].channel == found[i].channel
                    &&& infos[i].version == found[i].version
                    &&& infos[i].rssi == found[i].max_rssi
                    &&& infos[i].lqi == found[i].lqi
                    &&& infos[i].ext_addr == found[i].extended_address@
                    &&& infos[i].ext_pan_id == be_value(found[i].extended_pan_id@)
                }
        }),
{
    let models = found.map_values(|found: ActiveScanResult<'_>| found.kept());
    law_first_five_are_kept(models);
    law_open_scan_reports_all(recorded_all(Some(Seq::empty()), models)->Some_0);
    assert forall|i: int| 0 <= i < found.len() implies models[i].ext_pan_id == be_value(
        (#[trigger] found[i]).extended_pan_id@,
    ) by {
        law_network_is_kept_as_reported(found[i]);
        law_be_value_of_eight_bytes(found[i].extended_pan_id@);
    }
}

/// What a scan for a network reports grows by a network exactly if that has the extended PAN ID
/// that the eight requested bytes spell, and by nothing otherwise.
pub proof fn law_report_grows_by_match(
    found: Seq<NetworkModel>,
    next: NetworkModel,
    network: Seq<u8>,
)
    ensures
        reported(Seq::empty(), Some(network)).len() == 0,
        network.len() == 8 && next.ext_pan_id == network[0] * 0x100_0000_0000_0000 + network[1]
            * 0x1_0000_0000_0000 + network[2] * 0x100_0000_0000 + network[3] * 0x1_0000_0000
            + network[4] * 0x100_0000 + network[5] * 0x1_0000 + network[6] * 0x100 + network[7]
            ==> reported(found.push(next), Some(network)) == reported(found, Some(network)).push(
            next,
        ),
        !(network.len() == 8 && next.ext_pan_id == network[0] * 0x100_0000_0000_0000 + network[1]
            * 0x1_0000_0000_0000 + network[2] * 0x100_0000_0000 + network[3] * 0x1_0000_0000
            + network[4] * 0x100_0000 + network[5] * 0x1_0000 + network[6] * 0x100 + network[7])
            ==> reported(found.push(next), Some(network)) == reported(found, Some(network)),
{
    reveal(Seq::filter);
    assert(found.push(next).drop_last() =~= found);
    lemma_be_bytes_len(next.ext_pan_id as nat, 8);
    lemma_pow256_u64();
    law_be_round_trip(be_bytes(next.ext_pan_id as nat, 8), next.ext_pan_id as nat);
    if network.len() == 8 {
        law_be_value_of_eight_bytes(network);
        law_be_round_trip(network, 0);
    }
    assert(asked_for(next, Some(network)) <==> network.len() == 8 && be_value(network)
        == next.ext_pan_id);
}

/// A scan keeps five networks and is looked at every half second.
pub proof fn law_scan_constants()
    ensures
        MAX_SCAN_RESULTS == 5,
        POLL_SCAN_WAIT_MILLIS == 500,
{
}

/// What a vector of scan results holds is what each of its items is known of, in order, and a request
/// is for the bytes that it consists of.
pub proof fn law_results_are_read_in_order(
    results: heapless::Vec<OwnedScanResult, 5>,
    network: &[u8],
)
    ensures
        scan_models(results).len() == scan_items(results).len(),
        forall|i: int|
            0 <= i < scan_items(results).len() ==> #[trigger] scan_models(results)[i]
                == scan_items(results)[i]@,
        optional_bytes(Some(network)) == Some(network@),
        optional_bytes(None) is None,
{
}

} // verus!
