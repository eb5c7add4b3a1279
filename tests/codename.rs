use amd_smu::{version, Codename, OutputOptions};

#[test]
fn ids_resolve_to_families() {
    assert_eq!(Codename::from_id(1), Codename::Colfax);
    assert_eq!(Codename::from_id(12), Codename::Vermeer);
    assert_eq!(Codename::from_id(23), Codename::GraniteRidge);
    assert_eq!(Codename::from_id(25), Codename::StormPeak);
    assert_eq!(Codename::from_id(0), Codename::Unsupported);
    assert_eq!(Codename::from_id(26), Codename::Unsupported);
    assert_eq!(Codename::from_id(u32::MAX), Codename::Unsupported);
}

#[test]
fn topology_of_families() {
    assert_eq!(Codename::Vermeer.cores_per_ccd(), 8);
    assert_eq!(Codename::Unsupported.cores_per_ccd(), 8);
    assert_eq!(Codename::Milan.max_ccds(), 8);
    assert_eq!(Codename::StormPeak.max_ccds(), 8);
    assert_eq!(Codename::CastlePeak.max_ccds(), 4);
    assert_eq!(Codename::GraniteRidge.max_ccds(), 2);
    assert_eq!(Codename::Phoenix.max_ccds(), 1);
}

#[test]
fn family_names() {
    assert_eq!(Codename::Vermeer.name(), "Vermeer");
    assert_eq!(Codename::CastlePeak.name(), "Castle Peak");
    assert_eq!(Codename::Vangogh.name(), "Van Gogh");
    assert_eq!(Codename::Unsupported.name(), "Unsupported");
}

#[test]
fn library_version() {
    assert_eq!(version(), "0.1.0");
}

#[test]
fn all_groups_shown_when_none_singled_out() {
    let o = OutputOptions { temps_only: false, power_only: false, freq_only: false };
    assert!(o.show_all());
    let o = OutputOptions { temps_only: false, power_only: true, freq_only: false };
    assert!(!o.show_all());
}
