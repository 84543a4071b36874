use std::path::PathBuf;
use rusty_mapper::config::{
    preset_file_name, AppConfig, ConfigBase, ControlWindowConfig, LoadStage, LoadStep, ResolutionConfig,
    StoredConfig, WindowConfig,
};

#[test]
fn defaults() {
    let w = WindowConfig::default();
    assert_eq!((w.width, w.height, w.fps), (1280, 720, 60));
    assert_eq!(w.title, "Rusty Mapper Output");
    assert!(!w.fullscreen && w.resizable && w.decorated && w.vsync);
    let c = ControlWindowConfig::default();
    assert_eq!(c.title, "Rusty Mapper Control");
    assert_eq!((c.width, c.height), (1280, 720));
    let r = ResolutionConfig::default();
    assert_eq!(r.dimensions(), (1920, 1080));
    let a = AppConfig::default();
    assert!(a.audio_enabled && a.ndi_input_enabled && a.ndi_output_enabled);
}

#[test]
fn dimensions_of_custom_resolution() {
    let r = ResolutionConfig { internal_width: 3840, internal_height: 2160 };
    assert_eq!(r.dimensions(), (3840, 2160));
}

#[test]
fn config_paths() {
    let p = AppConfig::config_file_path_in(Some(PathBuf::from("/home/u/.config")));
    assert_eq!(p.base, ConfigBase::Platform(PathBuf::from("/home/u/.config")));
    assert_eq!(p.components, vec!["rusty_mapper", "config.toml"]);
    let d = AppConfig::config_dir_in(None);
    assert_eq!(d.base, ConfigBase::CurrentDir);
    assert_eq!(d.components, vec!["rusty_mapper"]);
    let q = AppConfig::presets_dir_in(None);
    assert_eq!(q.components, vec!["rusty_mapper", "matrix_presets"]);
    assert_eq!(AppConfig::legacy_config_file(), "config.toml");
    assert_eq!(preset_file_name("matrix_20240101_120000"), "matrix_20240101_120000.json");
}

#[test]
fn platform_paths_end_in_the_app_directory() {
    let d = AppConfig::config_dir();
    assert_eq!(d.components, vec!["rusty_mapper"]);
    let f = AppConfig::config_file_path();
    assert_eq!(f.components, vec!["rusty_mapper", "config.toml"]);
    assert_eq!(f.base, d.base);
    assert_eq!(AppConfig::presets_dir().components[1], "matrix_presets");
}

fn custom() -> AppConfig {
    let mut c = AppConfig::default();
    c.audio_enabled = false;
    c.resolution.internal_width = 1280;
    c
}

#[test]
fn primary_config_is_used_without_saving() {
    let step = AppConfig::load_step(LoadStage::Primary, StoredConfig::Parsed(custom()));
    assert_eq!(step, LoadStep::Use { config: custom(), save: false });
}

#[test]
fn unusable_primary_falls_back_to_legacy() {
    for found in [StoredConfig::Missing, StoredConfig::Unreadable, StoredConfig::Unparsable] {
        assert_eq!(AppConfig::load_step(LoadStage::Primary, found), LoadStep::TryLegacy);
    }
}

#[test]
fn legacy_config_is_migrated() {
    let step = AppConfig::load_step(LoadStage::Legacy, StoredConfig::Parsed(custom()));
    assert_eq!(step, LoadStep::Use { config: custom(), save: true });
}

#[test]
fn defaults_are_saved_when_nothing_is_found() {
    let step = AppConfig::load_step(LoadStage::Legacy, StoredConfig::Unparsable);
    assert_eq!(step, LoadStep::Use { config: AppConfig::default(), save: true });
}
