//! # Configuration
//!
//! Application configuration and the rules for where it lives and which
//! stored copy wins when the application starts.
//!
//! Config files are stored in platform-specific directories:
//! - macOS: `~/Library/Application Support/rusty_mapper/config.toml`
//! - Windows: `%APPDATA%/rusty_mapper/config.toml`
//! - Linux: `~/.config/rusty_mapper/config.toml`
//!
//! Paths are handled here as a base directory and a list of components;
//! the caller joins them.

use vstd::prelude::*;

verus! {

broadcast use vstd::string::group_string_axioms;

/// Output window configuration.
#[derive(Debug, Clone, PartialEq)]
pub struct WindowConfig {
    pub width: u32,
    pub height: u32,
    pub title: String,
    pub fullscreen: bool,
    pub resizable: bool,
    pub decorated: bool,
    pub vsync: bool,
    pub fps: u32,
}

impl Default for WindowConfig {
    fn default() -> (c: Self)
        ensures
            c.width == 1280,
            c.height == 720,
            c.title@ == "Rusty Mapper Output"@,
            !c.fullscreen,
            c.resizable,
            c.decorated,
            c.vsync,
            c.fps == 60,
    {
        WindowConfig {
            width: 1280,
            height: 720,
            title: "Rusty Mapper Output".to_string(),
            fullscreen: false,
            resizable: true,
            decorated: true,
            vsync: true,
            fps: 60,
        }
    }
}

/// Control window configuration.
#[derive(Debug, Clone, PartialEq)]
pub struct ControlWindowConfig {
    pub width: u32,
    pub height: u32,
    pub title: String,
}

impl Default for ControlWindowConfig {
    fn default() -> (c: Self)
        ensures
            c.width == 1280,
            c.height == 720,
            c.title@ == "Rusty Mapper Control"@,
    {
        ControlWindowConfig { width: 1280, height: 720, title: "Rusty Mapper Control".to_string() }
    }
}

/// Internal resolution configuration.
#[derive(Debug, Clone, PartialEq)]
pub struct ResolutionConfig {
    pub internal_width: u32,
    pub internal_height: u32,
}

impl ResolutionConfig {
    /// Dimensions as a `(width, height)` pair.
    pub fn dimensions(&self) -> (r: (u32, u32))
        ensures
            r == (self.internal_width, self.internal_height),
    {
        (self.internal_width, self.internal_height)
    }
}

impl Default for ResolutionConfig {
    fn default() -> (c: Self)
        ensures
            c.internal_width == 1920,
            c.internal_height == 1080,
    {
        ResolutionConfig { internal_width: 1920, internal_height: 1080 }
    }
}

/// Application configuration.
#[derive(Debug, Clone, PartialEq)]
pub struct AppConfig {
    pub output_window: WindowConfig,
    pub control_window: ControlWindowConfig,
    pub resolution: ResolutionConfig,
    pub audio_enabled: bool,
    pub ndi_input_enabled: bool,
    pub ndi_output_enabled: bool,
}

/// The defaults of every field of [`AppConfig`].
pub open spec fn is_default_config(c: AppConfig) -> bool {
    &&& c.output_window.width == 1280
    &&& c.output_window.height == 720
    &&& c.output_window.title@ == "Rusty Mapper Output"@
    &&& !c.output_window.fullscreen
    &&& c.output_window.resizable
    &&& c.output_window.decorated
    &&& c.output_window.vsync
    &&& c.output_window.fps == 60
    &&& c.control_window.width == 1280
    &&& c.control_window.height == 720
    &&& c.control_window.title@ == "Rusty Mapper Control"@
    &&& c.resolution.internal_width == 1920
    &&& c.resolution.internal_height == 1080
    &&& c.audio_enabled
    &&& c.ndi_input_enabled
    &&& c.ndi_output_enabled
}

impl Default for AppConfig {
    fn default() -> (c: Self)
        ensures
            is_default_config(c),
    {
        AppConfig {
            output_window: WindowConfig::default(),
            control_window: ControlWindowConfig::default(),
            resolution: ResolutionConfig::default(),
            audio_enabled: true,
            ndi_input_enabled: true,
            ndi_output_enabled: true,
        }
    }
}

/// Makes the standard library's owned path type usable in signatures; its
/// contents are not looked into.
#[verifier::external_type_specification]
#[verifier::external_body]
pub struct ExPathBuf(std::path::PathBuf);

/// Wraps `dirs::config_dir`: the platform's per-user configuration
/// directory, if it has one. The answer depends on the environment
/// (`XDG_CONFIG_HOME`, `HOME`, the OS), so nothing is promised of it.
#[verifier::external_body]
fn platform_config_dir() -> Option<std::path::PathBuf> {
    dirs::config_dir()
}

/// Where a configuration path starts.
#[derive(Debug, PartialEq)]
pub enum ConfigBase {
    /// The platform's configuration directory, as the platform reported it.
    Platform(std::path::PathBuf),
    /// The current directory (`.`), used when the platform reports none.
    CurrentDir,
}

/// A path below a base directory: the base, then the components in order.
#[derive(Debug, PartialEq)]
pub struct ConfigPath {
    pub base: ConfigBase,
    pub components: Vec<String>,
}

/// The base used when the platform reports `platform`.
pub open spec fn config_base(platform: Option<std::path::PathBuf>) -> ConfigBase {
    match platform {
        Some(p) => ConfigBase::Platform(p),
        None => ConfigBase::CurrentDir,
    }
}

/// The views of a list of path components.
pub open spec fn component_views(v: Seq<String>) -> Seq<Seq<char>> {
    v.map_values(|s: String| s@)
}

impl AppConfig {
    /// The configuration directory, `<base>/rusty_mapper`, for the directory
    /// the platform reports (the current directory when it reports none).
    pub fn config_dir_in(platform: Option<std::path::PathBuf>) -> (dir: ConfigPath)
        ensures
            dir.base == config_base(platform),
            component_views(dir.components@) == seq!["rusty_mapper"@],
    {
        let base = match platform {
            Some(p) => ConfigBase::Platform(p),
            None => ConfigBase::CurrentDir,
        };
        let components = vec!["rusty_mapper".to_string()];
        assert(component_views(components@) =~= seq!["rusty_mapper"@]);
        ConfigPath { base, components }
    }

    /// The configuration file, `<base>/rusty_mapper/config.toml`.
    pub fn config_file_path_in(platform: Option<std::path::PathBuf>) -> (path: ConfigPath)
        ensures
            path.base == config_base(platform),
            component_views(path.components@) == seq!["rusty_mapper"@, "config.toml"@],
    {
        let mut p = Self::config_dir_in(platform);
        let ghost before = p.components@;
        p.components.push("config.toml".to_string());
        assert(component_views(p.components@) =~= component_views(before).push("config.toml"@));
        p
    }

    /// The directory of the matrix presets,
    /// `<base>/rusty_mapper/matrix_presets`.
    pub fn presets_dir_in(platform: Option<std::path::PathBuf>) -> (path: ConfigPath)
        ensures
            path.base == config_base(platform),
            component_views(path.components@) == seq!["rusty_mapper"@, "matrix_presets"@],
    {
        let mut p = Self::config_dir_in(platform);
        let ghost before = p.components@;
        p.components.push("matrix_presets".to_string());
        assert(component_views(p.components@) =~= component_views(before).push("matrix_presets"@));
        p
    }

    /// The default configuration directory.
    pub fn config_dir() -> (dir: ConfigPath)
        ensures
            component_views(dir.components@) == seq!["rusty_mapper"@],
    {
        Self::config_dir_in(platform_config_dir())
    }

    /// The default configuration file.
    pub fn config_file_path() -> (path: ConfigPath)
        ensures
            component_views(path.components@) == seq!["rusty_mapper"@, "config.toml"@],
    {
        Self::config_file_path_in(platform_config_dir())
    }

    /// The directory of the matrix presets.
    pub fn presets_dir() -> (path: ConfigPath)
        ensures
            component_views(path.components@) == seq!["rusty_mapper"@, "matrix_presets"@],
    {
        Self::presets_dir_in(platform_config_dir())
    }

    /// The file name read at the older location, relative to the working
    /// directory.
    pub fn legacy_config_file() -> (name: String)
        ensures
            name@ == "config.toml"@,
    {
        "config.toml".to_string()
    }
}

/// The file name under which a matrix preset called `name` is stored.
pub fn preset_file_name(name: &str) -> (file: String)
    ensures
        file@ == name@ + ".json"@,
{
    let mut s = name.to_string();
    s.append(".json");
    s
}

/// What was found at one stored location of the configuration.
#[derive(Debug, Clone, PartialEq)]
pub enum StoredConfig {
    /// No file exists there.
    Missing,
    /// A file exists but could not be read.
    Unreadable,
    /// The file was read but is not a valid configuration.
    Unparsable,
    /// The file holds this configuration.
    Parsed(AppConfig),
}

/// Which location is being looked at.
#[derive(Debug, Clone, PartialEq)]
pub enum LoadStage {
    /// The platform configuration directory.
    Primary,
    /// `config.toml` in the working directory, from older versions.
    Legacy,
}

/// What to do next while loading.
#[derive(Debug, Clone, PartialEq)]
pub enum LoadStep {
    /// Look at the legacy location.
    TryLegacy,
    /// Start with `config`; write it to the platform location first when
    /// `save` holds (migration from the legacy file, or fresh defaults).
    Use { config: AppConfig, save: bool },
}

impl AppConfig {
    /// One step of loading the configuration.
    ///
    /// The platform location is looked at first; when it does not hold a
    /// valid configuration the legacy `./config.toml` is looked at. A
    /// configuration found at the legacy location is migrated (saved to the
    /// platform location). When neither holds one, the defaults are used and
    /// saved.
    pub fn load_step(stage: LoadStage, found: StoredConfig) -> (step: LoadStep)
        ensures
            match (stage, found) {
                (LoadStage::Primary, StoredConfig::Parsed(c)) => step == LoadStep::Use {
                    config: c,
                    save: false,
                },
                (LoadStage::Primary, _) => step == LoadStep::TryLegacy,
                (LoadStage::Legacy, StoredConfig::Parsed(c)) => step == LoadStep::Use {
                    config: c,
                    save: true,
                },
                (LoadStage::Legacy, _) => step matches LoadStep::Use { config, save } && save
                    && is_default_config(config),
            },
    {
        match stage {
            LoadStage::Primary => match found {
                StoredConfig::Parsed(c) => LoadStep::Use { config: c, save: false },
                _ => LoadStep::TryLegacy,
            },
            LoadStage::Legacy => match found {
                StoredConfig::Parsed(c) => LoadStep::Use { config: c, save: true },
                _ => LoadStep::Use { config: AppConfig::default(), save: true },
            },
        }
    }
}

} // verus!
