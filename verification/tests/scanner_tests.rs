use rack::ffi::{RackVST3PluginInfo, RackVST3PluginType};
use rack::scanner::{
    after_default_paths, check_path_arg, collect_scan, convert_plugin_info, finish_probe,
    scan_after_count, scanner_allocated, DefaultPathsOutcome, ScanStart,
};
use rack::types::{Error, PluginInfo, PluginType};

fn fill<const N: usize>(text: &[u8]) -> [i8; N] {
    let mut out = [0i8; N];
    for (i, b) in text.iter().enumerate() {
        out[i] = *b as i8;
    }
    out
}

fn record(name: &str, kind: RackVST3PluginType) -> RackVST3PluginInfo {
    RackVST3PluginInfo {
        name: fill(name.as_bytes()),
        manufacturer: fill(b"Acme Audio"),
        path: fill(b"/Library/Audio/Plug-Ins/VST3/Thing.vst3"),
        unique_id: fill(b"0123456789ABCDEF"),
        version: 0x010203,
        plugin_type: kind,
        category: fill(b"Fx"),
    }
}

#[test]
fn convert_record() {
    let info = convert_plugin_info(&record("Thing", RackVST3PluginType::Instrument)).unwrap();
    assert_eq!(
        info,
        PluginInfo {
            name: "Thing".to_string(),
            manufacturer: "Acme Audio".to_string(),
            version: 0x010203,
            plugin_type: PluginType::Instrument,
            path: "/Library/Audio/Plug-Ins/VST3/Thing.vst3".to_string(),
            unique_id: "0123456789ABCDEF".to_string(),
        }
    );
}

#[test]
fn convert_record_types() {
    let cases = [
        (RackVST3PluginType::Effect, PluginType::Effect),
        (RackVST3PluginType::Instrument, PluginType::Instrument),
        (RackVST3PluginType::Analyzer, PluginType::Analyzer),
        (RackVST3PluginType::Spatial, PluginType::Spatial),
        (RackVST3PluginType::Other, PluginType::Other),
    ];
    for (c, h) in cases {
        assert_eq!(convert_plugin_info(&record("X", c)).unwrap().plugin_type, h);
    }
}

#[test]
fn convert_record_unterminated_field() {
    let mut r = record("Thing", RackVST3PluginType::Effect);
    r.unique_id = [b'A' as i8; 64];
    assert_eq!(
        convert_plugin_info(&r),
        Err(Error::Other("unique_id not null-terminated within buffer (potential C++ bug)".to_string()))
    );
}

#[test]
fn convert_record_first_bad_field_wins() {
    let mut r = record("Thing", RackVST3PluginType::Effect);
    r.name = [b'N' as i8; 256];
    r.path = [b'P' as i8; 1024];
    assert_eq!(
        convert_plugin_info(&r),
        Err(Error::Other("plugin name not null-terminated within buffer (potential C++ bug)".to_string()))
    );
}

#[test]
fn plugin_type_codes() {
    for code in 0..5 {
        assert_eq!(RackVST3PluginType::from_code(code).unwrap().code(), code);
    }
    assert!(RackVST3PluginType::from_code(5).is_none());
    assert!(RackVST3PluginType::from_code(-1).is_none());
}

#[test]
fn counting_pass() {
    assert!(matches!(scan_after_count(0), Ok(ScanStart::Empty)));
    assert!(matches!(scan_after_count(3), Ok(ScanStart::Fill(3))));
    assert!(matches!(scan_after_count(-2), Err(Error::PluginNotFound(_))));
}

#[test]
fn filling_pass_reads_all_records() {
    let filled = vec![
        record("A", RackVST3PluginType::Effect),
        record("B", RackVST3PluginType::Instrument),
    ];
    let list = collect_scan(2, 2, &filled).unwrap();
    assert_eq!(list.len(), 2);
    assert_eq!(list[0].name, "A");
    assert_eq!(list[1].name, "B");
}

#[test]
fn filling_pass_list_shrank() {
    let filled = vec![
        record("A", RackVST3PluginType::Effect),
        record("B", RackVST3PluginType::Effect),
        record("C", RackVST3PluginType::Effect),
    ];
    let list = collect_scan(3, 1, &filled).unwrap();
    assert_eq!(list.len(), 1);
    assert_eq!(list[0].name, "A");
}

#[test]
fn filling_pass_list_grew() {
    let filled = vec![record("A", RackVST3PluginType::Effect)];
    let list = collect_scan(1, 5, &filled).unwrap();
    assert_eq!(list.len(), 1);
}

#[test]
fn filling_pass_error_code() {
    let filled = vec![record("A", RackVST3PluginType::Effect)];
    assert_eq!(collect_scan(1, -1, &filled), Err(Error::Other("Generic VST3 error".to_string())));
}

#[test]
fn filling_pass_bad_record_fails_scan() {
    let mut bad = record("B", RackVST3PluginType::Effect);
    bad.path = [b'x' as i8; 1024];
    let filled = vec![record("A", RackVST3PluginType::Effect), bad];
    assert_eq!(
        collect_scan(2, 2, &filled),
        Err(Error::Other("path not null-terminated within buffer (potential C++ bug)".to_string()))
    );
    // The bad record lies beyond the valid count: it is never read.
    assert_eq!(collect_scan(2, 1, &filled).unwrap().len(), 1);
}

#[test]
fn path_argument_check() {
    assert!(check_path_arg("/tmp").is_ok());
    assert_eq!(check_path_arg("/tm\0p"), Err(Error::Other("Path contains null byte".to_string())));
}

#[test]
fn probe_outcome() {
    let r = record("Probe", RackVST3PluginType::Analyzer);
    assert_eq!(finish_probe(0, &r).unwrap().name, "Probe");
    assert_eq!(finish_probe(-5, &r), Err(Error::Other("Failed to load VST3 plugin".to_string())));
}

#[test]
fn scanner_setup_decisions() {
    assert!(scanner_allocated(true).is_ok());
    assert_eq!(scanner_allocated(false), Err(Error::Other("Failed to allocate VST3 scanner".to_string())));
    assert!(matches!(after_default_paths(0), DefaultPathsOutcome::Keep));
    match after_default_paths(-1) {
        DefaultPathsOutcome::Release(e) => assert_eq!(e, Error::Other("Generic VST3 error".to_string())),
        DefaultPathsOutcome::Keep => panic!("a failing status releases the scanner"),
    }
}
