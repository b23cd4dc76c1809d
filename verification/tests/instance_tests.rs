use rack::instance::{
    bundle_not_found, bundle_plugin_info, channel_counts, check_bundle_path, check_instance_args,
    check_process_buffers, check_set_state, count_from_raw, editor_size, finish_state,
    flag_from_raw, init_block_size, instance_not_found, parameter_texts_from_reply, preset_info_from_reply,
    require_initialized, state_buffer_size,
};
use rack::types::{Error, PluginInfo, PluginType, PresetInfo};

fn buf<const N: usize>(text: &[u8]) -> [i8; N] {
    let mut out = [0i8; N];
    for (i, b) in text.iter().enumerate() {
        out[i] = *b as i8;
    }
    out
}

fn other(s: &str) -> Error {
    Error::Other(s.to_string())
}

fn info(path: &str, uid: &str) -> PluginInfo {
    PluginInfo::new(
        "Verb".to_string(),
        "Acme".to_string(),
        1,
        PluginType::Effect,
        path.to_string(),
        uid.to_string(),
    )
}

#[test]
fn raw_flags_and_counts() {
    assert!(flag_from_raw(1));
    assert!(!flag_from_raw(0));
    assert!(!flag_from_raw(-4));
    assert_eq!(count_from_raw(-1), 0);
    assert_eq!(count_from_raw(0), 0);
    assert_eq!(count_from_raw(12), 12);
}

#[test]
fn initialized_requirement() {
    assert!(require_initialized(true).is_ok());
    assert_eq!(require_initialized(false), Err(Error::NotInitialized));
}

#[test]
fn instance_arguments() {
    assert!(check_instance_args(&info("/a/Verb.vst3", "ABCD")).is_ok());
    assert_eq!(
        check_instance_args(&info("/a/V\0erb.vst3", "AB\0CD")),
        Err(other("Plugin path contains null byte"))
    );
    assert_eq!(
        check_instance_args(&info("/a/Verb.vst3", "AB\0CD")),
        Err(other("Invalid unique_id (contains null byte)"))
    );
    assert_eq!(
        instance_not_found(&info("/a", "b")),
        Error::PluginNotFound("Failed to create VST3 instance for Verb".to_string())
    );
}

#[test]
fn bundle_loading() {
    assert!(check_bundle_path("/a/B.vst3").is_ok());
    assert_eq!(check_bundle_path("/a\0"), Err(other("Bundle path contains null byte")));
    assert_eq!(
        bundle_not_found("/a/B.vst3"),
        Error::PluginNotFound("Failed to load VST3 bundle: /a/B.vst3".to_string())
    );
    let name: [i8; 256] = buf(b"Surge XT");
    let p = bundle_plugin_info(&name, "/a/B.vst3");
    assert_eq!(p.name, "Surge XT");
    assert_eq!(p.manufacturer, "");
    assert_eq!(p.version, 0);
    assert_eq!(p.plugin_type, PluginType::Effect);
    assert_eq!(p.path, "/a/B.vst3");
    assert_eq!(p.unique_id, "");
    let bad: [i8; 8] = buf(&[0xFE, 0xFF, 0]);
    assert_eq!(bundle_plugin_info(&bad, "/x").name, "Unknown");
}

#[test]
fn editor_size_reply() {
    assert_eq!(editor_size(0, 640, 480), Ok((640, 480)));
    assert_eq!(editor_size(-6, 640, 480), Err(other("Feature not supported by this plugin")));
}

#[test]
fn channel_configuration() {
    assert_eq!(channel_counts(2, 2), Ok((2, 2)));
    assert_eq!(channel_counts(0, 1), Ok((0, 1)));
    assert_eq!(channel_counts(-1, 2), Err(other("Failed to query channel configuration")));
    assert_eq!(channel_counts(2, -1), Err(other("Failed to query channel configuration")));
}

#[test]
fn process_accepts_matching_buffers() {
    assert!(check_process_buffers(true, 2, 2, 512, &[512, 600], &[512, 512], 512).is_ok());
    assert!(check_process_buffers(true, 0, 1, 64, &[], &[64], 64).is_ok());
}

#[test]
fn process_rejections() {
    assert_eq!(check_process_buffers(false, 2, 2, 512, &[512, 512], &[512, 512], 512), Err(Error::NotInitialized));
    assert_eq!(
        check_process_buffers(true, 2, 2, 512, &[512], &[512, 512], 512),
        Err(other("Input channel count mismatch: plugin expects 2, got 1"))
    );
    assert_eq!(
        check_process_buffers(true, 2, 2, 512, &[512, 512], &[512, 512, 512], 512),
        Err(other("Output channel count mismatch: plugin expects 2, got 3"))
    );
    assert_eq!(check_process_buffers(true, 0, 0, 512, &[], &[], 512), Err(other("Empty output channels")));
    assert_eq!(
        check_process_buffers(true, 3, 1, 512, &[512, 100, 50], &[10], 512),
        Err(other("Input channel 1 has 100 samples, need at least 512"))
    );
    assert_eq!(
        check_process_buffers(true, 1, 2, 512, &[512], &[512, 511], 512),
        Err(other("Output channel 1 has 511 samples, need at least 512"))
    );
}

#[test]
fn process_rejects_block_longer_than_initialized() {
    assert_eq!(
        check_process_buffers(true, 1, 1, 256, &[512], &[512], 512),
        Err(other("Block of 512 frames exceeds the maximum block size 256"))
    );
    // Short buffers are reported first.
    assert_eq!(
        check_process_buffers(true, 1, 1, 256, &[10], &[10], 512),
        Err(other("Input channel 0 has 10 samples, need at least 512"))
    );
    assert_eq!(
        check_process_buffers(true, 1, 1, 256, &[512], &[10], 512),
        Err(other("Output channel 0 has 10 samples, need at least 512"))
    );
    assert!(check_process_buffers(true, 1, 1, 256, &[256], &[256], 256).is_ok());
}

#[test]
fn initialization_block_size() {
    assert_eq!(init_block_size(512), Ok(512));
    assert_eq!(init_block_size(1), Ok(1));
    assert_eq!(init_block_size(0), Err(other("Maximum block size must be positive")));
    if usize::BITS > 32 {
        assert_eq!(
            init_block_size((u32::MAX as usize) + 1),
            Err(other("Maximum block size exceeds 32 bits"))
        );
    }
}

#[test]
fn unterminated_reply_texts_are_errors() {
    let name = [b'x' as i8; 8];
    assert_eq!(
        preset_info_from_reply(0, 0, &name, 0),
        Err(other("preset name not null-terminated within buffer (potential C++ bug)"))
    );
    let unit: [i8; 4] = [0; 4];
    assert_eq!(
        parameter_texts_from_reply(0, &name, &unit),
        Err(other("parameter name not null-terminated within buffer (potential C++ bug)"))
    );
}

#[test]
fn preset_reply() {
    let name: [i8; 256] = buf(b"Init");
    assert_eq!(
        preset_info_from_reply(3, 0, &name, 17),
        Ok(PresetInfo { index: 3, name: "Init".to_string(), preset_number: 17 })
    );
    assert_eq!(preset_info_from_reply(3, -3, &name, 17), Err(other("Invalid parameter")));
    let bad: [i8; 8] = buf(&[0xFF, 0]);
    let detail = std::str::from_utf8(&[0xFF]).unwrap_err().to_string();
    assert_eq!(
        preset_info_from_reply(0, 0, &bad, 0),
        Err(Error::Other(format!("Invalid UTF-8 in preset name: {}", detail)))
    );
}

#[test]
fn parameter_reply() {
    let name: [i8; 256] = buf(b"Cutoff");
    let unit: [i8; 32] = buf(b"Hz");
    assert_eq!(parameter_texts_from_reply(0, &name, &unit), Ok(("Cutoff".to_string(), "Hz".to_string())));
    assert_eq!(parameter_texts_from_reply(-4, &name, &unit), Err(Error::NotInitialized));
    let bad: [i8; 32] = buf(&[0x80, 0]);
    let detail = std::str::from_utf8(&[0x80]).unwrap_err().to_string();
    assert_eq!(
        parameter_texts_from_reply(0, &name, &bad),
        Err(Error::Other(format!("Invalid UTF-8 in parameter unit: {}", detail)))
    );
}

#[test]
fn state_round() {
    assert_eq!(state_buffer_size(128), Ok(128));
    assert_eq!(state_buffer_size(0), Err(other("Failed to get plugin state size")));
    assert_eq!(state_buffer_size(-3), Err(other("Failed to get plugin state size")));
    assert_eq!(finish_state(0, vec![1, 2, 3, 4], 2), Ok(vec![1, 2]));
    assert_eq!(finish_state(0, vec![1, 2], 4), Ok(vec![1, 2, 0, 0]));
    assert_eq!(finish_state(-1, vec![1, 2], 2), Err(other("Generic VST3 error")));
}

#[test]
fn set_state_checks() {
    assert!(check_set_state(true, &[1, 2, 3]).is_ok());
    assert_eq!(check_set_state(false, &[1]), Err(Error::NotInitialized));
    assert_eq!(check_set_state(true, &[]), Err(other("State data is empty")));
}
