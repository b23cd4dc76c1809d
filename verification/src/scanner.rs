//! Plugin discovery: converting the C scanner's records into [`PluginInfo`]
//! values and the bookkeeping of the two-pass scan protocol.

use vstd::prelude::*;

use crate::ffi::{RackVST3PluginInfo, RackVST3PluginType, RACK_VST3_OK};
use vstd::string::StringSliceAdditionalSpecFns;

use crate::text::{has_nul, nul_free};
use crate::types::{Error, ErrorView, PluginInfo, PluginInfoView, PluginType};
use crate::util::{c_array_to_string, c_buffer_holds, c_text_strict, error_for_code, map_error};

verus! {

/// Host plugin type of a C plugin-type tag.
pub open spec fn plugin_type_of(t: RackVST3PluginType) -> PluginType {
    match t {
        RackVST3PluginType::Effect => PluginType::Effect,
        RackVST3PluginType::Instrument => PluginType::Instrument,
        RackVST3PluginType::Analyzer => PluginType::Analyzer,
        RackVST3PluginType::Spatial => PluginType::Spatial,
        RackVST3PluginType::Other => PluginType::Other,
    }
}

/// What converting one C plugin record yields: the first failing text field
/// (in the order name, manufacturer, path, unique id) or the metadata.
pub open spec fn converted_info(c: RackVST3PluginInfo) -> core::result::Result<PluginInfoView, ErrorView> {
    match c_text_strict(c.name@, "plugin name"@) {
        Err(e) => Err(e),
        Ok(name) => match c_text_strict(c.manufacturer@, "manufacturer"@) {
            Err(e) => Err(e),
            Ok(manufacturer) => match c_text_strict(c.path@, "path"@) {
                Err(e) => Err(e),
                Ok(path) => match c_text_strict(c.unique_id@, "unique_id"@) {
                    Err(e) => Err(e),
                    Ok(unique_id) => Ok(PluginInfoView {
                        name,
                        manufacturer,
                        version: c.version,
                        plugin_type: plugin_type_of(c.plugin_type),
                        path,
                        unique_id,
                    }),
                },
            },
        },
    }
}

/// The mathematical value of a metadata-or-error result.
pub open spec fn info_result_view(r: core::result::Result<PluginInfo, Error>) -> core::result::Result<PluginInfoView, ErrorView> {
    match r {
        Ok(p) => Ok(p@),
        Err(e) => Err(e@),
    }
}

/// Host plugin type for a C plugin-type tag.
pub fn convert_plugin_type(t: RackVST3PluginType) -> (r: PluginType)
    ensures
        r == plugin_type_of(t),
        t == RackVST3PluginType::Effect ==> r == PluginType::Effect,
        t == RackVST3PluginType::Instrument ==> r == PluginType::Instrument,
        t == RackVST3PluginType::Analyzer ==> r == PluginType::Analyzer,
        t == RackVST3PluginType::Spatial ==> r == PluginType::Spatial,
        t == RackVST3PluginType::Other ==> r == PluginType::Other,
{
    match t {
        RackVST3PluginType::Effect => PluginType::Effect,
        RackVST3PluginType::Instrument => PluginType::Instrument,
        RackVST3PluginType::Analyzer => PluginType::Analyzer,
        RackVST3PluginType::Spatial => PluginType::Spatial,
        RackVST3PluginType::Other => PluginType::Other,
    }
}

/// Converts a C plugin record to [`PluginInfo`], reading each text field
/// only within its fixed buffer.
pub fn convert_plugin_info(c_info: &RackVST3PluginInfo) -> (r: core::result::Result<PluginInfo, Error>)
    ensures
        info_result_view(r) == converted_info(*c_info),
        r matches Ok(p) ==> {
            &&& c_buffer_holds(c_info.name@, p.name@)
            &&& c_buffer_holds(c_info.manufacturer@, p.manufacturer@)
            &&& c_buffer_holds(c_info.path@, p.path@)
            &&& c_buffer_holds(c_info.unique_id@, p.unique_id@)
            &&& p.version == c_info.version
            &&& p.plugin_type == plugin_type_of(c_info.plugin_type)
        },
        forall|n: Seq<char>, m: Seq<char>, pa: Seq<char>, u: Seq<char>|
            #![trigger c_buffer_holds(c_info.name@, n), c_buffer_holds(c_info.manufacturer@, m), c_buffer_holds(c_info.path@, pa), c_buffer_holds(c_info.unique_id@, u)]
            c_buffer_holds(c_info.name@, n) && c_buffer_holds(c_info.manufacturer@, m)
                && c_buffer_holds(c_info.path@, pa) && c_buffer_holds(c_info.unique_id@, u) ==> (r matches Ok(p)
                && p.name@ == n && p.manufacturer@ == m && p.path@ == pa && p.unique_id@ == u),
{
    let name = match c_array_to_string(c_info.name.as_slice(), "plugin name") {
        Ok(s) => s,
        Err(e) => return Err(e),
    };
    let manufacturer = match c_array_to_string(c_info.manufacturer.as_slice(), "manufacturer") {
        Ok(s) => s,
        Err(e) => return Err(e),
    };
    let path = match c_array_to_string(c_info.path.as_slice(), "path") {
        Ok(s) => s,
        Err(e) => return Err(e),
    };
    let unique_id = match c_array_to_string(c_info.unique_id.as_slice(), "unique_id") {
        Ok(s) => s,
        Err(e) => return Err(e),
    };
    let plugin_type = convert_plugin_type(c_info.plugin_type);
    Ok(PluginInfo::new(name, manufacturer, c_info.version, plugin_type, path, unique_id))
}

/// Converting a list of C plugin records: the first failure, or all the
/// metadata in order.
pub open spec fn converted_infos(infos: Seq<RackVST3PluginInfo>) -> core::result::Result<Seq<PluginInfoView>, ErrorView>
    decreases infos.len(),
{
    if infos.len() == 0 {
        Ok(Seq::empty())
    } else {
        match converted_infos(infos.drop_last()) {
            Err(e) => Err(e),
            Ok(prev) => match converted_info(infos.last()) {
                Err(e) => Err(e),
                Ok(v) => Ok(prev.push(v)),
            },
        }
    }
}

/// Once a prefix of the records fails to convert, every longer prefix fails
/// with the same error.
pub proof fn lemma_converted_infos_error_sticks(infos: Seq<RackVST3PluginInfo>, i: int, j: int)
    requires
        0 <= i <= j <= infos.len(),
        converted_infos(infos.take(i)) is Err,
    ensures
        converted_infos(infos.take(j)) == converted_infos(infos.take(i)),
    decreases j - i,
{
    if j > i {
        lemma_converted_infos_error_sticks(infos, i, j - 1);
        assert(infos.take(j).drop_last() == infos.take(j - 1));
    }
}

/// The host type of each C plugin-type tag is the tag of the same name.
pub proof fn lemma_plugin_type_of_names()
    ensures
        plugin_type_of(RackVST3PluginType::Effect) == PluginType::Effect,
        plugin_type_of(RackVST3PluginType::Instrument) == PluginType::Instrument,
        plugin_type_of(RackVST3PluginType::Analyzer) == PluginType::Analyzer,
        plugin_type_of(RackVST3PluginType::Spatial) == PluginType::Spatial,
        plugin_type_of(RackVST3PluginType::Other) == PluginType::Other,
{
}

/// The host type of a scanned record follows the C code of its tag: code 0
/// reads as an effect, 1 an instrument, 2 an analyzer, 3 spatial and 4 other.
pub proof fn lemma_scanned_type_follows_code(c: RackVST3PluginInfo)
    ensures
        converted_info(c) matches Ok(v) ==> {
            &&& c.plugin_type.spec_code() == 0 ==> v.plugin_type == PluginType::Effect
            &&& c.plugin_type.spec_code() == 1 ==> v.plugin_type == PluginType::Instrument
            &&& c.plugin_type.spec_code() == 2 ==> v.plugin_type == PluginType::Analyzer
            &&& c.plugin_type.spec_code() == 3 ==> v.plugin_type == PluginType::Spatial
            &&& c.plugin_type.spec_code() == 4 ==> v.plugin_type == PluginType::Other
        },
{
}

/// Outcome of the counting pass of a scan.
pub enum ScanStart {
    /// No plugins were found: the scan is complete with an empty list.
    Empty,
    /// Ask the C scanner to fill a buffer of this many records.
    Fill(usize),
}

/// Decides what follows the counting pass, given the count the C scanner
/// reported: its error when negative, an empty result when zero, otherwise a
/// buffer of exactly that many records.
pub fn scan_after_count(count: i32) -> (r: core::result::Result<ScanStart, Error>)
    ensures
        count < 0 ==> (r matches Err(e) && e@ == error_for_code(count)),
        count == 0 ==> r matches Ok(ScanStart::Empty),
        count > 0 ==> (r matches Ok(ScanStart::Fill(n)) && n == count),
{
    if count < 0 {
        return Err(map_error(count));
    }
    if count == 0 {
        return Ok(ScanStart::Empty);
    }
    Ok(ScanStart::Fill(count as usize))
}

/// How many records of a buffer of `requested` entries the filling pass made
/// valid, when it reported `actual` (non-negative) plugins.
pub open spec fn valid_record_count(requested: usize, actual: i32) -> int {
    if (actual as int) < (requested as int) {
        actual as int
    } else {
        requested as int
    }
}

/// Result of the filling pass: the C scanner's error when it reported a
/// negative count, otherwise the conversion of the valid records (the list
/// may have changed between the two passes, so only the first
/// `min(actual, requested)` records are read).
pub open spec fn scan_result(requested: usize, actual: i32, filled: Seq<RackVST3PluginInfo>) -> core::result::Result<Seq<PluginInfoView>, ErrorView> {
    if actual < 0 {
        Err(error_for_code(actual))
    } else {
        converted_infos(filled.take(valid_record_count(requested, actual)))
    }
}

/// The mathematical value of a list-or-error result.
pub open spec fn infos_result_view(r: core::result::Result<Vec<PluginInfo>, Error>) -> core::result::Result<Seq<PluginInfoView>, ErrorView> {
    match r {
        Ok(v) => Ok(v@.map_values(|p: PluginInfo| p@)),
        Err(e) => Err(e@),
    }
}

/// Finishes a scan: `filled` is the buffer of `requested` records handed to
/// the filling pass, which reported `actual_count`.
pub fn collect_scan(requested: usize, actual_count: i32, filled: &[RackVST3PluginInfo]) -> (r: core::result::Result<Vec<PluginInfo>, Error>)
    requires
        filled@.len() == requested,
    ensures
        infos_result_view(r) == scan_result(requested, actual_count, filled@),
{
    if actual_count < 0 {
        return Err(map_error(actual_count));
    }
    let actual = actual_count as usize;
    let valid = if actual < requested { actual } else { requested };
    assert(valid == valid_record_count(requested, actual_count));
    let mut out: Vec<PluginInfo> = Vec::new();
    let mut i: usize = 0;
    assert(filled@.take(0) =~= Seq::<RackVST3PluginInfo>::empty());
    assert(out@.map_values(|p: PluginInfo| p@) =~= Seq::<PluginInfoView>::empty());
    while i < valid
        invariant
            actual_count >= 0,
            valid == valid_record_count(requested, actual_count),
            valid <= filled@.len(),
            i <= valid,
            converted_infos(filled@.take(i as int)) == Ok::<Seq<PluginInfoView>, ErrorView>(out@.map_values(|p: PluginInfo| p@)),
        decreases valid - i,
    {
        let ghost prev = out@.map_values(|p: PluginInfo| p@);
        assert(filled@.take(i + 1).drop_last() == filled@.take(i as int));
        assert(filled@.take(i + 1).last() == filled@[i as int]);
        match convert_plugin_info(&filled[i]) {
            Ok(p) => {
                let ghost pv = p@;
                out.push(p);
                assert(out@.map_values(|p: PluginInfo| p@) == prev.push(pv));
                i = i + 1;
            },
            Err(e) => {
                proof {
                    assert(converted_info(filled@[i as int]) == Err::<PluginInfoView, ErrorView>(e@));
                    assert(converted_infos(filled@.take(i + 1)) == Err::<Seq<PluginInfoView>, ErrorView>(e@));
                    lemma_converted_infos_error_sticks(filled@, i + 1, valid as int);
                }
                return Err(e);
            },
        }
    }
    Ok(out)
}

/// Checks that a search path (or bundle path) can be handed to C: its bytes
/// must hold no NUL.
pub fn check_path_arg(path: &str) -> (r: core::result::Result<(), Error>)
    ensures
        r is Ok <==> !has_nul(path.spec_bytes()),
        r is Ok <==> !path@.contains('\0'),
        r matches Err(e) ==> e@ == ErrorView::Other("Path contains null byte"@),
{
    if !nul_free(path) {
        return Err(Error::Other("Path contains null byte".to_owned()));
    }
    Ok(())
}

/// Finishes probing a single bundle: the C status and the record it filled.
pub open spec fn probe_result(status: i32, info: RackVST3PluginInfo) -> core::result::Result<PluginInfoView, ErrorView> {
    if status != RACK_VST3_OK {
        Err(error_for_code(status))
    } else {
        converted_info(info)
    }
}

/// Turns the outcome of the C bundle probe into plugin metadata.
pub fn finish_probe(status: i32, info: &RackVST3PluginInfo) -> (r: core::result::Result<PluginInfo, Error>)
    ensures
        info_result_view(r) == probe_result(status, *info),
{
    if status != RACK_VST3_OK {
        return Err(map_error(status));
    }
    convert_plugin_info(info)
}

/// A successful conversion yields one metadata value per record.
pub proof fn lemma_converted_infos_len(infos: Seq<RackVST3PluginInfo>)
    ensures
        converted_infos(infos) matches Ok(list) ==> list.len() == infos.len(),
    decreases infos.len(),
{
    if infos.len() > 0 {
        lemma_converted_infos_len(infos.drop_last());
    }
}

/// A scan never returns more plugins than either pass reported: a
/// successful result has exactly `min(actual, requested)` entries.
pub proof fn lemma_scan_result_len(requested: usize, actual: i32, filled: Seq<RackVST3PluginInfo>)
    requires
        filled.len() == requested,
    ensures
        scan_result(requested, actual, filled) matches Ok(list) ==> {
            &&& list.len() == valid_record_count(requested, actual)
            &&& list.len() <= requested
            &&& list.len() <= actual
        },
{
    if actual >= 0 {
        lemma_converted_infos_len(filled.take(valid_record_count(requested, actual)));
    }
}

/// Checks that the C side produced a scanner object.
pub fn scanner_allocated(allocated: bool) -> (r: core::result::Result<(), Error>)
    ensures
        r is Ok <==> allocated,
        r matches Err(e) ==> e@ == ErrorView::Other("Failed to allocate VST3 scanner"@),
{
    if !allocated {
        return Err(Error::Other("Failed to allocate VST3 scanner".to_owned()));
    }
    Ok(())
}

/// What becomes of a new scanner once its default search paths were added.
pub enum DefaultPathsOutcome {
    /// The scanner is ready to use.
    Keep,
    /// The scanner must be released and creation fails with this error.
    Release(Error),
}

/// Decides the fate of a new scanner from the status of adding its default
/// search paths: kept on success, otherwise released with the mapped error.
pub fn after_default_paths(status: i32) -> (r: DefaultPathsOutcome)
    ensures
        status == RACK_VST3_OK ==> r matches DefaultPathsOutcome::Keep,
        status != RACK_VST3_OK ==> (r matches DefaultPathsOutcome::Release(e) && e@ == error_for_code(status)),
{
    if status != RACK_VST3_OK {
        return DefaultPathsOutcome::Release(map_error(status));
    }
    DefaultPathsOutcome::Keep
}

} // verus!
