//! Preset handles and path-string handling.

use opendrop::deck::Deck;
use opendrop::presets::Preset;
use opendrop::presets::extension_of;

#[test]
fn preset_from_path_takes_the_stem() {
    let p = Preset::from_path("/usr/share/presets/Geiss - Warp.milk");
    assert_eq!(p.name, "Geiss - Warp");
    assert_eq!(p.path, "/usr/share/presets/Geiss - Warp.milk");
}

#[test]
fn preset_without_extension() {
    let p = Preset::from_path("/a/b/noext");
    assert_eq!(p.name, "noext");
    assert!(p.extension().is_none());
    assert!(!p.is_valid());
}

#[test]
fn preset_extensions() {
    assert_eq!(Preset::from_path("/a/x.milk").extension(), Some("milk"));
    assert_eq!(Preset::from_path("/a/x.prjm").extension(), Some("prjm"));
    assert_eq!(Preset::from_path("/a/x.tar.gz").extension(), Some("gz"));
    assert_eq!(extension_of("/a/.hidden"), None);
    assert_eq!(extension_of("relative.milk"), Some("milk"));
}

#[test]
fn preset_validity() {
    assert!(Preset::from_path("/a/x.milk").is_valid());
    assert!(Preset::from_path("x.prjm").is_valid());
    assert!(!Preset::from_path("/a/x.txt").is_valid());
    // The simple validity check is exact-case by design.
    assert!(!Preset::from_path("/a/x.MILK").is_valid());
}

#[test]
fn hidden_file_name_is_its_own_stem() {
    let p = Preset::from_path("/a/.hidden");
    assert_eq!(p.name, ".hidden");
}

#[test]
fn deck_handle_basics() {
    let mut d = Deck::new(3);
    assert_eq!(d.id(), 3);
    assert_eq!(d.volume(), 10000);
    assert!(!d.is_active());
    d.set_volume(99999);
    assert_eq!(d.volume(), 10000);
    d.set_volume(1234);
    assert_eq!(d.volume(), 1234);
}
