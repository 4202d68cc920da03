//! The configuration document and its defaults.

use vstd::prelude::*;

verus! {

/// The image format that upscaled pages are returned in.
#[derive(Debug, Copy, Clone, PartialEq, Eq, Structural)]
pub enum Format {
    Png,
    Jpeg,
    WebP,
    /// Keep the format of the source image.
    Original,
}

/// The super-resolution engine in use.
#[derive(Debug, Copy, Clone, PartialEq, Eq, Structural)]
pub enum EnabledUpscaler {
    Waifu2x,
    Realcugan,
}

/// The model families of the waifu2x engine.
#[derive(Debug, Copy, Clone, PartialEq, Eq, Structural)]
pub enum Waifu2xModel {
    Cunet,
    Upconv7AnimeStyleArtRgb,
    Upconv7Photo,
}

/// The model families of the Real-CUGAN engine.
#[derive(Debug, Copy, Clone, PartialEq, Eq, Structural)]
pub enum RealCuganModel {
    Nose,
    Pro,
    Se,
}

/// Tunables of the waifu2x engine.
#[derive(Debug)]
pub struct Waifu2xConfig {
    pub gpuid: i32,
    pub scale: u32,
    pub noise: i32,
    pub model: Waifu2xModel,
    pub tile_size: u32,
    pub tta_mode: bool,
    pub num_threads: i32,
    pub models_path: String,
}

/// Tunables of the Real-CUGAN engine.
#[derive(Debug)]
pub struct RealCuganConfig {
    pub gpuid: i32,
    pub scale: u32,
    pub noise: i32,
    pub model: RealCuganModel,
    pub tile_size: u32,
    pub sync_gap: u32,
    pub tta_mode: bool,
    pub num_threads: i32,
    pub models_path: String,
}

/// Everything the proxy is configured with.
#[derive(Debug)]
pub struct AppConfig {
    pub port: u16,
    pub upstream_url: String,
    pub upscale: bool,
    /// When set, only resources carrying this tag are upscaled.
    pub upscale_tag: Option<String>,
    pub allow_config_updates: bool,
    pub return_format: Format,
    pub size_threshold_enabled: bool,
    /// Size limit in KB for lossy sources.
    pub size_threshold: u32,
    /// Size limit in KB for PNG sources.
    pub size_threshold_png: u32,
    pub upscaler: EnabledUpscaler,
    pub waifu2x: Waifu2xConfig,
    pub realcugan: RealCuganConfig,
}

impl Waifu2xConfig {
    /// A copy of these tunables.
    pub fn duplicate(&self) -> (r: Self)
        ensures
            r == *self,
    {
        Waifu2xConfig {
            gpuid: self.gpuid,
            scale: self.scale,
            noise: self.noise,
            model: self.model,
            tile_size: self.tile_size,
            tta_mode: self.tta_mode,
            num_threads: self.num_threads,
            models_path: self.models_path.clone(),
        }
    }
}

impl RealCuganConfig {
    /// A copy of these tunables.
    pub fn duplicate(&self) -> (r: Self)
        ensures
            r == *self,
    {
        RealCuganConfig {
            gpuid: self.gpuid,
            scale: self.scale,
            noise: self.noise,
            model: self.model,
            tile_size: self.tile_size,
            sync_gap: self.sync_gap,
            tta_mode: self.tta_mode,
            num_threads: self.num_threads,
            models_path: self.models_path.clone(),
        }
    }
}

impl AppConfig {
    /// The configuration in force when no file and no environment variable
    /// says otherwise. `models_path` is the directory that holds the engines'
    /// model files.
    pub fn new(models_path: String) -> (r: Self)
        ensures
            r.port == 3030,
            r.upstream_url@ == "http://localhost:8080"@,
            r.upscale,
            r.upscale_tag is None,
            !r.allow_config_updates,
            r.return_format == Format::WebP,
            r.size_threshold_enabled,
            r.size_threshold == 500,
            r.size_threshold_png == 1000,
            r.upscaler == EnabledUpscaler::Waifu2x,
            r.waifu2x == (Waifu2xConfig {
                gpuid: 0,
                scale: 2,
                noise: -1i32,
                model: Waifu2xModel::Cunet,
                tile_size: 0,
                tta_mode: false,
                num_threads: 2,
                models_path: models_path,
            }),
            r.realcugan == (RealCuganConfig {
                gpuid: 0,
                scale: 2,
                noise: -1i32,
                model: RealCuganModel::Se,
                tile_size: 0,
                sync_gap: 3,
                tta_mode: false,
                num_threads: 2,
                models_path: models_path,
            }),
    {
        let waifu2x = Waifu2xConfig {
            gpuid: 0,
            scale: 2,
            noise: -1,
            model: Waifu2xModel::Cunet,
            tile_size: 0,
            tta_mode: false,
            num_threads: 2,
            models_path: models_path.clone(),
        };
        let realcugan = RealCuganConfig {
            gpuid: 0,
            scale: 2,
            noise: -1,
            model: RealCuganModel::Se,
            tile_size: 0,
            sync_gap: 3,
            tta_mode: false,
            num_threads: 2,
            models_path,
        };
        AppConfig {
            port: 3030,
            upstream_url: String::from_str("http://localhost:8080"),
            upscale: true,
            upscale_tag: None,
            allow_config_updates: false,
            return_format: Format::WebP,
            size_threshold_enabled: true,
            size_threshold: 500,
            size_threshold_png: 1000,
            upscaler: EnabledUpscaler::Waifu2x,
            waifu2x,
            realcugan,
        }
    }

    /// A copy of this configuration.
    pub fn duplicate(&self) -> (r: Self)
        ensures
            r == *self,
    {
        AppConfig {
            port: self.port,
            upstream_url: self.upstream_url.clone(),
            upscale: self.upscale,
            upscale_tag: match &self.upscale_tag {
                Some(tag) => Some(tag.clone()),
                None => None,
            },
            allow_config_updates: self.allow_config_updates,
            return_format: self.return_format,
            size_threshold_enabled: self.size_threshold_enabled,
            size_threshold: self.size_threshold,
            size_threshold_png: self.size_threshold_png,
            upscaler: self.upscaler,
            waifu2x: self.waifu2x.duplicate(),
            realcugan: self.realcugan.duplicate(),
        }
    }
}

} // verus!
