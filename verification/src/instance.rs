//! Decisions of a VST3 plugin instance: argument checks before C calls,
//! interpretation of the C replies, and validation of audio buffers.

use vstd::prelude::*;
use vstd::string::StringSliceAdditionalSpecFns;
use vstd::utf8::{valid_utf8, decode_utf8};

use crate::ffi::RACK_VST3_OK;
use crate::text::{
    c_bytes, c_str_bytes, c_str_prefix, decimal, decode_utf8_strict, has_nul,
    lemma_encoded_nul_iff_nul_char, nul_free,
    push_decimal,
};
use crate::types::{Error, ErrorView, PluginInfo, PluginInfoView, PluginType, PresetInfo};
use crate::util::{
    c_array_to_string, c_buffer_holds, c_text_strict, error_for_code, lemma_c_buffer_holds, map_error,
};

verus! {

/// Reads a C "boolean" reply (is-initialized, has-editor, can-resize):
/// true exactly for positive values.
pub fn flag_from_raw(raw: i32) -> (b: bool)
    ensures
        b == (raw > 0),
{
    raw > 0
}

/// Operations that need an initialized plugin fail with
/// [`Error::NotInitialized`] otherwise.
pub fn require_initialized(initialized: bool) -> (r: core::result::Result<(), Error>)
    ensures
        r is Ok <==> initialized,
        r matches Err(e) ==> e@ == ErrorView::NotInitialized,
{
    if !initialized {
        return Err(Error::NotInitialized);
    }
    Ok(())
}

/// Reads a C count reply (parameters, presets): negative replies mean none.
pub fn count_from_raw(raw: i32) -> (n: usize)
    ensures
        raw < 0 ==> n == 0,
        raw >= 0 ==> n == raw,
{
    if raw < 0 {
        0
    } else {
        raw as usize
    }
}

/// Why the C side cannot be asked to create an instance for `info`, if it
/// cannot: its path, then its unique id, must be free of NUL bytes.
pub open spec fn instance_args_error(info: PluginInfoView) -> Option<ErrorView> {
    if has_nul(vstd::utf8::encode_utf8(info.path)) {
        Some(ErrorView::Other("Plugin path contains null byte"@))
    } else if has_nul(vstd::utf8::encode_utf8(info.unique_id)) {
        Some(ErrorView::Other("Invalid unique_id (contains null byte)"@))
    } else {
        None
    }
}

/// Checks the arguments for creating an instance from scanned metadata.
pub fn check_instance_args(info: &PluginInfo) -> (r: core::result::Result<(), Error>)
    ensures
        r is Ok <==> instance_args_error(info@) is None,
        r matches Err(e) ==> instance_args_error(info@) == Some(e@),
        r is Ok <==> (!info@.path.contains('\0') && !info@.unique_id.contains('\0')),
        info@.path.contains('\0') ==> (r matches Err(e) && e@ == ErrorView::Other("Plugin path contains null byte"@)),
        !info@.path.contains('\0') && info@.unique_id.contains('\0') ==> (r matches Err(e)
            && e@ == ErrorView::Other("Invalid unique_id (contains null byte)"@)),
{
    proof {
        lemma_encoded_nul_iff_nul_char(info@.path);
        lemma_encoded_nul_iff_nul_char(info@.unique_id);
    }
    if !nul_free(info.path.as_str()) {
        return Err(Error::Other("Plugin path contains null byte".to_owned()));
    }
    if !nul_free(info.unique_id.as_str()) {
        return Err(Error::Other("Invalid unique_id (contains null byte)".to_owned()));
    }
    Ok(())
}

/// The error when the C side could not create an instance for `info`.
pub fn instance_not_found(info: &PluginInfo) -> (e: Error)
    ensures
        e@ == ErrorView::PluginNotFound("Failed to create VST3 instance for "@ + info@.name),
{
    let mut msg = "Failed to create VST3 instance for ".to_owned();
    msg.append(info.name.as_str());
    Error::PluginNotFound(msg)
}

/// Checks that a bundle path can be handed to C (no NUL bytes).
pub fn check_bundle_path(bundle_path: &str) -> (r: core::result::Result<(), Error>)
    ensures
        r is Ok <==> !has_nul(bundle_path.spec_bytes()),
        r is Ok <==> !bundle_path@.contains('\0'),
        r matches Err(e) ==> e@ == ErrorView::Other("Bundle path contains null byte"@),
{
    proof {
        lemma_encoded_nul_iff_nul_char(bundle_path@);
    }
    if !nul_free(bundle_path) {
        return Err(Error::Other("Bundle path contains null byte".to_owned()));
    }
    Ok(())
}

/// The error when the C side could not load the bundle at `bundle_path`.
pub fn bundle_not_found(bundle_path: &str) -> (e: Error)
    ensures
        e@ == ErrorView::PluginNotFound("Failed to load VST3 bundle: "@ + bundle_path@),
{
    let mut msg = "Failed to load VST3 bundle: ".to_owned();
    msg.append(bundle_path);
    Error::PluginNotFound(msg)
}

/// The plugin name the C loader wrote into `name_buf`, or `"Unknown"` when it
/// is not UTF-8.
pub open spec fn bundle_name(name_buf: Seq<i8>) -> Seq<char> {
    let bytes = c_str_bytes(c_bytes(name_buf));
    if valid_utf8(bytes) {
        decode_utf8(bytes)
    } else {
        "Unknown"@
    }
}

/// Metadata for a plugin loaded straight from its bundle: only the name
/// (from the loader) and the path are known; the type defaults to effect.
pub fn bundle_plugin_info(name_buf: &[i8], bundle_path: &str) -> (info: PluginInfo)
    requires
        has_nul(c_bytes(name_buf@)),
    ensures
        info@ == (PluginInfoView {
            name: bundle_name(name_buf@),
            manufacturer: Seq::empty(),
            version: 0,
            plugin_type: PluginType::Effect,
            path: bundle_path@,
            unique_id: Seq::empty(),
        }),
        forall|t: Seq<char>| #[trigger] c_buffer_holds(name_buf@, t) ==> info@.name == t,
        (forall|t: Seq<char>| !c_buffer_holds(name_buf@, t)) ==> info@.name == "Unknown"@,
        valid_utf8(c_str_bytes(c_bytes(name_buf@))) ==> info@.name == decode_utf8(c_str_bytes(c_bytes(name_buf@))),
        !valid_utf8(c_str_bytes(c_bytes(name_buf@))) ==> info@.name == "Unknown"@,
{
    proof {
        assert forall|t: Seq<char>| #[trigger] c_buffer_holds(name_buf@, t) implies bundle_name(name_buf@) == t by {
            lemma_c_buffer_holds(name_buf@, t, Seq::empty());
        }
        let bytes = c_str_bytes(c_bytes(name_buf@));
        if valid_utf8(bytes) {
            lemma_c_buffer_holds(name_buf@, decode_utf8(bytes), Seq::empty());
        }
    }
    let name = match c_str_prefix(name_buf) {
        Some(bytes) => match decode_utf8_strict(bytes.as_slice()) {
            Ok(s) => s,
            Err(_) => "Unknown".to_owned(),
        },
        None => "Unknown".to_owned(),
    };
    PluginInfo::new(name, String::new(), 0, PluginType::Effect, bundle_path.to_owned(), String::new())
}

/// Interprets the editor-size reply: the size on success, the mapped error
/// otherwise.
pub fn editor_size(status: i32, width: i32, height: i32) -> (r: core::result::Result<(i32, i32), Error>)
    ensures
        r is Ok <==> status == RACK_VST3_OK,
        r matches Ok(wh) ==> wh == (width, height),
        r matches Err(e) ==> e@ == error_for_code(status),
{
    if status != RACK_VST3_OK {
        return Err(map_error(status));
    }
    Ok((width, height))
}

/// Checks the block size asked for at initialization: the C side takes a
/// positive 32-bit size.
pub fn init_block_size(max_block_size: usize) -> (r: core::result::Result<u32, Error>)
    ensures
        r is Ok <==> 0 < max_block_size <= u32::MAX,
        r matches Ok(n) ==> n == max_block_size,
        max_block_size == 0 ==> (r matches Err(e) && e@ == ErrorView::Other("Maximum block size must be positive"@)),
        max_block_size > u32::MAX ==> (r matches Err(e) && e@ == ErrorView::Other("Maximum block size exceeds 32 bits"@)),
{
    if max_block_size == 0 {
        return Err(Error::Other("Maximum block size must be positive".to_owned()));
    }
    if max_block_size > u32::MAX as usize {
        return Err(Error::Other("Maximum block size exceeds 32 bits".to_owned()));
    }
    Ok(max_block_size as u32)
}

/// Interprets the channel-configuration replies that follow a successful
/// initialization: both counts must be non-negative.
pub fn channel_counts(inputs: i32, outputs: i32) -> (r: core::result::Result<(usize, usize), Error>)
    ensures
        r is Ok <==> inputs >= 0 && outputs >= 0,
        r matches Ok(io) ==> io.0 == inputs && io.1 == outputs,
        r matches Err(e) ==> e@ == ErrorView::Other("Failed to query channel configuration"@),
{
    if inputs < 0 || outputs < 0 {
        return Err(Error::Other("Failed to query channel configuration".to_owned()));
    }
    Ok((inputs as usize, outputs as usize))
}

/// `i` is the first channel whose buffer holds fewer than `frames` samples.
pub open spec fn is_first_short(lens: Seq<usize>, frames: usize, i: int) -> bool {
    &&& 0 <= i < lens.len()
    &&& lens[i] < frames
    &&& forall|j: int| 0 <= j < i ==> lens[j] >= frames
}

/// Some channel buffer holds fewer than `frames` samples.
pub open spec fn has_short(lens: Seq<usize>, frames: usize) -> bool {
    exists|i: int| 0 <= i < lens.len() && lens[i] < frames
}

/// The first channel whose buffer is too short (meaningful under [`has_short`]).
pub open spec fn first_short(lens: Seq<usize>, frames: usize) -> int {
    choose|i: int| is_first_short(lens, frames, i)
}

/// The message for a channel buffer that is too short.
pub open spec fn short_channel_message(prefix: Seq<char>, i: int, len: usize, frames: usize) -> Seq<char> {
    prefix + decimal(i as nat) + " has "@ + decimal(len as nat) + " samples, need at least "@
        + decimal(frames as nat)
}

/// The message for a block longer than the plugin was prepared for.
pub open spec fn block_too_long_message(frames: usize, max_block_size: usize) -> Seq<char> {
    "Block of "@ + decimal(frames as nat) + " frames exceeds the maximum block size "@
        + decimal(max_block_size as nat)
}

/// The outcome of validating one `process` call: the plugin must be
/// initialized, the numbers of input and output channels must match its
/// configuration, there must be at least one output, and every channel buffer
/// must hold `frames` samples (inputs checked before outputs, lowest channel
/// first); last, the block may not be longer than the `max_block_size` the
/// plugin was initialized with.
pub open spec fn process_check(
    initialized: bool,
    input_channels: usize,
    output_channels: usize,
    max_block_size: usize,
    input_lens: Seq<usize>,
    output_lens: Seq<usize>,
    frames: usize,
) -> core::result::Result<(), ErrorView> {
    if !initialized {
        Err(ErrorView::NotInitialized)
    } else if input_lens.len() != input_channels {
        Err(ErrorView::Other("Input channel count mismatch: plugin expects "@
            + decimal(input_channels as nat) + ", got "@ + decimal(input_lens.len())))
    } else if output_lens.len() != output_channels {
        Err(ErrorView::Other("Output channel count mismatch: plugin expects "@
            + decimal(output_channels as nat) + ", got "@ + decimal(output_lens.len())))
    } else if output_lens.len() == 0 {
        Err(ErrorView::Other("Empty output channels"@))
    } else if has_short(input_lens, frames) {
        let i = first_short(input_lens, frames);
        Err(ErrorView::Other(short_channel_message("Input channel "@, i, input_lens[i], frames)))
    } else if has_short(output_lens, frames) {
        let i = first_short(output_lens, frames);
        Err(ErrorView::Other(short_channel_message("Output channel "@, i, output_lens[i], frames)))
    } else if frames > max_block_size {
        Err(ErrorView::Other(block_too_long_message(frames, max_block_size)))
    } else {
        Ok(())
    }
}

/// The mathematical value of a unit-or-error result.
pub open spec fn unit_result_view(r: core::result::Result<(), Error>) -> core::result::Result<(), ErrorView> {
    match r {
        Ok(_) => Ok(()),
        Err(e) => Err(e@),
    }
}

/// The first channel whose buffer holds fewer than `frames` samples.
fn find_short_channel(lens: &[usize], frames: usize) -> (r: Option<usize>)
    ensures
        r is None <==> !has_short(lens@, frames),
        r matches Some(i) ==> is_first_short(lens@, frames, i as int) && i == first_short(lens@, frames),
{
    let mut i: usize = 0;
    while i < lens.len()
        invariant
            i <= lens@.len(),
            forall|j: int| 0 <= j < i ==> lens@[j] >= frames,
        decreases lens.len() - i,
    {
        if lens[i] < frames {
            proof {
                assert(is_first_short(lens@, frames, i as int));
                let k = first_short(lens@, frames);
                assert(is_first_short(lens@, frames, k));
                assert(k == i);
            }
            return Some(i);
        }
        i = i + 1;
    }
    None
}

/// Builds the message for a channel buffer that is too short.
fn short_channel_error(prefix: &str, i: usize, len: usize, frames: usize) -> (e: Error)
    ensures
        e@ == ErrorView::Other(short_channel_message(prefix@, i as int, len, frames)),
{
    let mut msg = prefix.to_owned();
    push_decimal(&mut msg, i as u64);
    msg.append(" has ");
    push_decimal(&mut msg, len as u64);
    msg.append(" samples, need at least ");
    push_decimal(&mut msg, frames as u64);
    Error::Other(msg)
}

/// Builds the message for a channel-count mismatch.
fn channel_count_error(prefix: &str, expected: usize, got: usize) -> (e: Error)
    ensures
        e@ == ErrorView::Other(prefix@ + decimal(expected as nat) + ", got "@ + decimal(got as nat)),
{
    let mut msg = prefix.to_owned();
    push_decimal(&mut msg, expected as u64);
    msg.append(", got ");
    push_decimal(&mut msg, got as u64);
    Error::Other(msg)
}

/// Validates the buffers of one `process` call before they reach the plugin;
/// `input_lens` and `output_lens` are the sample counts of the channel
/// buffers.
pub fn check_process_buffers(
    initialized: bool,
    input_channels: usize,
    output_channels: usize,
    max_block_size: usize,
    input_lens: &[usize],
    output_lens: &[usize],
    num_frames: usize,
) -> (r: core::result::Result<(), Error>)
    ensures
        unit_result_view(r) == process_check(
            initialized,
            input_channels,
            output_channels,
            max_block_size,
            input_lens@,
            output_lens@,
            num_frames,
        ),
{
    if !initialized {
        return Err(Error::NotInitialized);
    }
    if input_lens.len() != input_channels {
        return Err(channel_count_error(
            "Input channel count mismatch: plugin expects ",
            input_channels,
            input_lens.len(),
        ));
    }
    if output_lens.len() != output_channels {
        return Err(channel_count_error(
            "Output channel count mismatch: plugin expects ",
            output_channels,
            output_lens.len(),
        ));
    }
    if output_lens.len() == 0 {
        return Err(Error::Other("Empty output channels".to_owned()));
    }
    match find_short_channel(input_lens, num_frames) {
        Some(i) => {
            return Err(short_channel_error("Input channel ", i, input_lens[i], num_frames));
        },
        None => {},
    }
    match find_short_channel(output_lens, num_frames) {
        Some(i) => {
            return Err(short_channel_error("Output channel ", i, output_lens[i], num_frames));
        },
        None => {},
    }
    if num_frames > max_block_size {
        let mut msg = "Block of ".to_owned();
        push_decimal(&mut msg, num_frames as u64);
        msg.append(" frames exceeds the maximum block size ");
        push_decimal(&mut msg, max_block_size as u64);
        return Err(Error::Other(msg));
    }
    Ok(())
}

/// The mathematical value of a [`PresetInfo`].
pub struct PresetInfoView {
    pub index: usize,
    pub name: Seq<char>,
    pub preset_number: i32,
}

/// The outcome of a preset-info reply: the mapped error on a failing status,
/// else the preset name decoded from its buffer (a UTF-8 failure is
/// reported for "preset name").
pub open spec fn preset_reply(index: usize, status: i32, name_buf: Seq<i8>, preset_number: i32) -> core::result::Result<PresetInfoView, ErrorView> {
    if status != RACK_VST3_OK {
        Err(error_for_code(status))
    } else {
        match c_text_strict(name_buf, "preset name"@) {
            Err(e) => Err(e),
            Ok(name) => Ok(PresetInfoView { index, name, preset_number }),
        }
    }
}

/// Interprets the reply to a preset-info request for preset `index`; the
/// name is read only within `name_buf`.
pub fn preset_info_from_reply(index: usize, status: i32, name_buf: &[i8], preset_number: i32) -> (r: core::result::Result<PresetInfo, Error>)
    ensures
        preset_reply(index, status, name_buf@, preset_number) == (match r {
            Ok(p) => Ok(PresetInfoView { index: p.index, name: p.name@, preset_number: p.preset_number }),
            Err(e) => Err::<PresetInfoView, ErrorView>(e@),
        }),
        status != RACK_VST3_OK ==> (r matches Err(e) && e@ == error_for_code(status)),
        r matches Ok(p) ==> status == RACK_VST3_OK && p.index == index && p.preset_number == preset_number
            && c_buffer_holds(name_buf@, p.name@),
        status == RACK_VST3_OK ==> forall|t: Seq<char>| #[trigger] c_buffer_holds(name_buf@, t) ==> (r matches Ok(p)
            && p.name@ == t && p.index == index && p.preset_number == preset_number),
        status == RACK_VST3_OK && has_nul(c_bytes(name_buf@)) && valid_utf8(c_str_bytes(c_bytes(name_buf@)))
            ==> (r matches Ok(p) && p.name@ == decode_utf8(c_str_bytes(c_bytes(name_buf@))) && p.index == index
            && p.preset_number == preset_number),
{
    if status != RACK_VST3_OK {
        return Err(map_error(status));
    }
    match c_array_to_string(name_buf, "preset name") {
        Ok(name) => Ok(PresetInfo { index, name, preset_number }),
        Err(e) => Err(e),
    }
}

/// The outcome of a parameter-info reply for its two texts: the mapped error
/// on a failing status, else the name, then the unit, decoded from their
/// buffers.
pub open spec fn parameter_texts_reply(status: i32, name_buf: Seq<i8>, unit_buf: Seq<i8>) -> core::result::Result<(Seq<char>, Seq<char>), ErrorView> {
    if status != RACK_VST3_OK {
        Err(error_for_code(status))
    } else {
        match c_text_strict(name_buf, "parameter name"@) {
            Err(e) => Err(e),
            Ok(name) => match c_text_strict(unit_buf, "parameter unit"@) {
                Err(e) => Err(e),
                Ok(unit) => Ok((name, unit)),
            },
        }
    }
}

/// Interprets the texts of a parameter-info reply (name and unit); each is
/// read only within its buffer.
pub fn parameter_texts_from_reply(status: i32, name_buf: &[i8], unit_buf: &[i8]) -> (r: core::result::Result<(String, String), Error>)
    ensures
        parameter_texts_reply(status, name_buf@, unit_buf@) == (match r {
            Ok(nu) => Ok((nu.0@, nu.1@)),
            Err(e) => Err::<(Seq<char>, Seq<char>), ErrorView>(e@),
        }),
        status != RACK_VST3_OK ==> (r matches Err(e) && e@ == error_for_code(status)),
        r matches Ok(nu) ==> status == RACK_VST3_OK && c_buffer_holds(name_buf@, nu.0@)
            && c_buffer_holds(unit_buf@, nu.1@),
        status == RACK_VST3_OK ==> forall|n: Seq<char>, u: Seq<char>|
            #![trigger c_buffer_holds(name_buf@, n), c_buffer_holds(unit_buf@, u)]
            c_buffer_holds(name_buf@, n) && c_buffer_holds(unit_buf@, u) ==> (r matches Ok(nu) && nu.0@ == n
                && nu.1@ == u),
        status == RACK_VST3_OK && has_nul(c_bytes(name_buf@)) && valid_utf8(c_str_bytes(c_bytes(name_buf@)))
            && has_nul(c_bytes(unit_buf@)) && valid_utf8(c_str_bytes(c_bytes(unit_buf@))) ==> (r matches Ok(nu)
            && nu.0@ == decode_utf8(c_str_bytes(c_bytes(name_buf@)))
            && nu.1@ == decode_utf8(c_str_bytes(c_bytes(unit_buf@)))),
{
    if status != RACK_VST3_OK {
        return Err(map_error(status));
    }
    let name = match c_array_to_string(name_buf, "parameter name") {
        Ok(s) => s,
        Err(e) => return Err(e),
    };
    let unit = match c_array_to_string(unit_buf, "parameter unit") {
        Ok(s) => s,
        Err(e) => return Err(e),
    };
    Ok((name, unit))
}

/// Interprets the state-size reply: the size of the buffer to allocate, which
/// must be positive.
pub fn state_buffer_size(size: i32) -> (r: core::result::Result<usize, Error>)
    ensures
        r is Ok <==> size > 0,
        r matches Ok(n) ==> n == size,
        r matches Err(e) ==> e@ == ErrorView::Other("Failed to get plugin state size"@),
{
    if size <= 0 {
        return Err(Error::Other("Failed to get plugin state size".to_owned()));
    }
    Ok(size as usize)
}

/// `data` cut or zero-extended to `n` bytes.
pub open spec fn resized(data: Seq<u8>, n: nat) -> Seq<u8> {
    Seq::new(n, |i: int| if i < data.len() { data[i] } else { 0u8 })
}

/// Finishes reading the plugin state: on success the buffer is brought to
/// the size the C side reported having written.
pub fn finish_state(status: i32, data: Vec<u8>, actual_size: usize) -> (r: core::result::Result<Vec<u8>, Error>)
    ensures
        r is Ok <==> status == RACK_VST3_OK,
        r matches Ok(v) ==> v@ == resized(data@, actual_size as nat),
        r matches Err(e) ==> e@ == error_for_code(status),
{
    if status != RACK_VST3_OK {
        return Err(map_error(status));
    }
    let mut data = data;
    let ghost before = data@;
    data.resize(actual_size, 0u8);
    assert(data@ =~= resized(before, actual_size as nat));
    Ok(data)
}

/// Checks a request to restore plugin state: the plugin must be initialized
/// and the state must not be empty.
pub fn check_set_state(initialized: bool, data: &[u8]) -> (r: core::result::Result<(), Error>)
    ensures
        r is Ok <==> initialized && data@.len() > 0,
        !initialized ==> (r matches Err(e) && e@ == ErrorView::NotInitialized),
        initialized && data@.len() == 0 ==> (r matches Err(e) && e@ == ErrorView::Other("State data is empty"@)),
{
    if !initialized {
        return Err(Error::NotInitialized);
    }
    if data.len() == 0 {
        return Err(Error::Other("State data is empty".to_owned()));
    }
    Ok(())
}

/// Only a NUL in the path or in the unique id keeps an instance from being
/// created: any other text, spaces and non-ASCII characters included, is
/// handed to the C side.
pub proof fn lemma_instance_args_reject_only_nul(info: PluginInfoView)
    ensures
        instance_args_error(info) is None <==> (!info.path.contains('\0') && !info.unique_id.contains('\0')),
{
    lemma_encoded_nul_iff_nul_char(info.path);
    lemma_encoded_nul_iff_nul_char(info.unique_id);
}

/// Whatever text the loader writes into the name buffer as a C string comes
/// back as the bundle's name, whichever characters it holds.
pub proof fn lemma_bundle_name_round_trip(name_buf: Seq<i8>, t: Seq<char>)
    requires
        c_buffer_holds(name_buf, t),
    ensures
        bundle_name(name_buf) == t,
{
    lemma_c_buffer_holds(name_buf, t, Seq::empty());
}

/// On a successful reply, the name and unit texts written into their buffers
/// as C strings come back unchanged, whichever characters they hold; a
/// failing status is answered with its mapped error.
pub proof fn lemma_parameter_texts_round_trip(status: i32, name_buf: Seq<i8>, unit_buf: Seq<i8>, n: Seq<char>, u: Seq<char>)
    requires
        c_buffer_holds(name_buf, n),
        c_buffer_holds(unit_buf, u),
    ensures
        status == RACK_VST3_OK ==> parameter_texts_reply(status, name_buf, unit_buf) == Ok::<(Seq<char>, Seq<char>), ErrorView>((n, u)),
        status != RACK_VST3_OK ==> parameter_texts_reply(status, name_buf, unit_buf) == Err::<(Seq<char>, Seq<char>), ErrorView>(error_for_code(status)),
{
    lemma_c_buffer_holds(name_buf, n, "parameter name"@);
    lemma_c_buffer_holds(unit_buf, u, "parameter unit"@);
}

/// Audio only reaches the plugin when it is initialized, the channel counts
/// match its configuration, there is at least one output, the block is no
/// longer than the plugin was prepared for, and every channel buffer holds
/// the requested number of frames.
pub proof fn lemma_process_accepts_only_sound_buffers(
    initialized: bool,
    input_channels: usize,
    output_channels: usize,
    max_block_size: usize,
    input_lens: Seq<usize>,
    output_lens: Seq<usize>,
    frames: usize,
)
    ensures
        process_check(initialized, input_channels, output_channels, max_block_size, input_lens, output_lens, frames) is Ok <==> {
            &&& initialized
            &&& frames <= max_block_size
            &&& input_lens.len() == input_channels
            &&& output_lens.len() == output_channels
            &&& output_channels > 0
            &&& forall|i: int| 0 <= i < input_lens.len() ==> input_lens[i] >= frames
            &&& forall|i: int| 0 <= i < output_lens.len() ==> output_lens[i] >= frames
        },
{
}

} // verus!
