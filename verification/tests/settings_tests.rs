use skelanim::settings::Settings;

#[test]
fn new_settings_start_with_skinning_off() {
    let s = Settings::new();
    assert!(!s.do_skinning);
}

#[test]
fn skinning_can_be_toggled() {
    let mut s = Settings::new();
    s.do_skinning = true;
    assert!(s.do_skinning);
}
