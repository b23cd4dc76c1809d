use rack::ara::{access_flag, ara_object_names_valid, AraFactoryInfo, AraRoles};

#[test]
fn roles_all_has_every_flag() {
    let all = AraRoles::all();
    assert_eq!(all.bits(), 7);
    assert_eq!(all.bits() & AraRoles::PLAYBACK_RENDERER, AraRoles::PLAYBACK_RENDERER);
    assert_eq!(all.bits() & AraRoles::EDITOR_RENDERER, AraRoles::EDITOR_RENDERER);
    assert_eq!(all.bits() & AraRoles::EDITOR_VIEW, AraRoles::EDITOR_VIEW);
}

#[test]
fn roles_playback_only() {
    let p = AraRoles::playback();
    assert_eq!(p.bits(), AraRoles::PLAYBACK_RENDERER);
    assert_eq!(p.bits(), 1);
    assert_eq!(p.bits() & AraRoles::all().bits(), p.bits());
}

#[test]
fn role_flags_are_distinct_bits() {
    assert_eq!(AraRoles::PLAYBACK_RENDERER, 1);
    assert_eq!(AraRoles::EDITOR_RENDERER, 2);
    assert_eq!(AraRoles::EDITOR_VIEW, 4);
}

#[test]
fn access_flag_values() {
    assert_eq!(access_flag(true), 1);
    assert_eq!(access_flag(false), 0);
}

#[test]
fn ara_names_must_be_nul_free() {
    assert!(ara_object_names_valid("Vocals", "src-1"));
    assert!(!ara_object_names_valid("Vo\0cals", "src-1"));
    assert!(!ara_object_names_valid("Vocals", "src\0-1"));
}

#[test]
fn factory_info_from_buffers() {
    let mut name = [0i8; 16];
    for (i, b) in b"Melodyne".iter().enumerate() {
        name[i] = *b as i8;
    }
    let mut mfr = [0i8; 16];
    for (i, b) in b"Celemony".iter().enumerate() {
        mfr[i] = *b as i8;
    }
    let info = AraFactoryInfo::from_c_buffers(&name, &mfr, 2);
    assert_eq!(info.plugin_name, "Melodyne");
    assert_eq!(info.manufacturer, "Celemony");
    assert_eq!(info.highest_supported_api, 2);
}

#[test]
fn role_values_are_valid_role_sets() {
    let known = AraRoles::PLAYBACK_RENDERER | AraRoles::EDITOR_RENDERER | AraRoles::EDITOR_VIEW;
    for r in [AraRoles::all(), AraRoles::playback()] {
        let copy = r;
        assert_ne!(r.bits(), 0);
        assert_eq!(r.bits() & !known, 0);
        assert_eq!(r.bits(), r.clone().bits());
        assert_eq!(r.bits(), copy.bits());
    }
}
