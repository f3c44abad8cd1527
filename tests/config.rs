use wallpaper_generator::config::{
    env_reference, resolve_credential, ApiConfig, AppConfig, RawConfig, ResolutionClass,
};
use wallpaper_generator::error::WallpaperError;

fn api(key: &str) -> ApiConfig {
    ApiConfig { url: "https://host".to_string(), model: "m".to_string(), api_key: key.to_string() }
}

fn raw(llm_key: &str, diffusion_key: &str, megapixels: f32) -> RawConfig {
    RawConfig {
        llm_api: api(llm_key),
        diffusion_api: api(diffusion_key),
        aspect_ratio: "16:9".to_string(),
        megapixel_bits: megapixels.to_bits(),
        default_keywords: vec!["sky".to_string()],
    }
}

#[test]
fn resolution_class_accepts_only_one_and_quarter() {
    assert_eq!(ResolutionClass::from_f32_bits(1.0f32.to_bits()), Ok(ResolutionClass::One));
    assert_eq!(ResolutionClass::from_f32_bits(0.25f32.to_bits()), Ok(ResolutionClass::Quarter));
    for v in [0.5f32, -1.0, -0.25, 0.0, 2.0, 0.2499] {
        assert_eq!(
            ResolutionClass::from_f32_bits(v.to_bits()),
            Err(WallpaperError::InvalidMegapixels(v.to_bits()))
        );
    }
}

#[test]
fn resolution_class_round_trips() {
    for c in [ResolutionClass::One, ResolutionClass::Quarter] {
        assert_eq!(ResolutionClass::from_f32_bits(c.to_f32_bits()), Ok(c));
    }
    assert_eq!(f32::from_bits(ResolutionClass::One.to_f32_bits()), 1.0);
    assert_eq!(f32::from_bits(ResolutionClass::Quarter.to_f32_bits()), 0.25);
}

#[test]
fn env_reference_is_recognized() {
    assert_eq!(env_reference(&"${FOO}".to_string()), Some("FOO".to_string()));
    assert_eq!(env_reference(&"${}".to_string()), Some("".to_string()));
    assert_eq!(env_reference(&"plain-key".to_string()), None);
    assert_eq!(env_reference(&"${FOO".to_string()), None);
    assert_eq!(env_reference(&"$FOO}".to_string()), None);
}

#[test]
fn unset_variable_fails_naming_it() {
    assert_eq!(
        resolve_credential(&"${FOO}".to_string(), None),
        Err(WallpaperError::MissingEnvVar("FOO".to_string()))
    );
}

#[test]
fn plain_credential_passes_unchanged() {
    assert_eq!(resolve_credential(&"plain-key".to_string(), None), Ok("plain-key".to_string()));
}

#[test]
fn set_variable_is_substituted() {
    assert_eq!(
        resolve_credential(&"${FOO}".to_string(), Some("secret".to_string())),
        Ok("secret".to_string())
    );
}

#[test]
fn config_resolves_keys_and_class() {
    let cfg = AppConfig::resolve(raw("${A}", "plain", 0.25), Some("from-env".to_string()), None)
        .unwrap();
    assert_eq!(cfg.llm_api.api_key, "from-env");
    assert_eq!(cfg.diffusion.api.api_key, "plain");
    assert_eq!(cfg.diffusion.megapixels, ResolutionClass::Quarter);
    assert_eq!(cfg.diffusion.aspect_ratio, "16:9");
    assert_eq!(cfg.default_keywords, vec!["sky".to_string()]);
}

#[test]
fn config_errors_come_in_order() {
    let both_missing = AppConfig::resolve(raw("${A}", "${B}", 0.5), None, None);
    assert_eq!(both_missing.unwrap_err(), WallpaperError::MissingEnvVar("A".to_string()));
    let second_missing = AppConfig::resolve(raw("k", "${B}", 0.5), None, None);
    assert_eq!(second_missing.unwrap_err(), WallpaperError::MissingEnvVar("B".to_string()));
    let bad_class = AppConfig::resolve(raw("k", "k", 0.5), None, None);
    assert_eq!(bad_class.unwrap_err(), WallpaperError::InvalidMegapixels(0.5f32.to_bits()));
}
