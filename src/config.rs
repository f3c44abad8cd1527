use vstd::prelude::*;
use crate::error::WallpaperError;

verus! {

/// Endpoint, model and credential of one remote service.
#[derive(Debug)]
pub struct ApiConfig {
    pub url: String,
    pub model: String,
    pub api_key: String,
}

/// Bit pattern of the `f32` value `1.0`.
pub const ONE_MEGAPIXEL_BITS: u32 = 0x3F80_0000;

/// Bit pattern of the `f32` value `0.25`.
pub const QUARTER_MEGAPIXEL_BITS: u32 = 0x3E80_0000;

/// The output-size selector of the image service.
#[derive(Debug, Clone, Copy, PartialEq, Eq, Structural)]
pub enum ResolutionClass {
    /// `1.0` megapixels.
    One,
    /// `0.25` megapixels.
    Quarter,
}

/// The class whose `f32` value has this bit pattern, if any.
pub open spec fn class_of_bits(bits: u32) -> Option<ResolutionClass> {
    if bits == ONE_MEGAPIXEL_BITS {
        Some(ResolutionClass::One)
    } else if bits == QUARTER_MEGAPIXEL_BITS {
        Some(ResolutionClass::Quarter)
    } else {
        None
    }
}

/// The bit pattern of the class's `f32` value.
pub open spec fn bits_of_class(c: ResolutionClass) -> u32 {
    match c {
        ResolutionClass::One => ONE_MEGAPIXEL_BITS,
        ResolutionClass::Quarter => QUARTER_MEGAPIXEL_BITS,
    }
}

impl ResolutionClass {
    /// Validates a configured megapixel value, given as the bit pattern of
    /// its `f32` (`f32::to_bits`). Only `1.0` and `0.25` are accepted. Both
    /// are finite and non-zero, so an `f32` equals one of them exactly when
    /// its bits equal that one's bits.
    pub fn from_f32_bits(bits: u32) -> (r: Result<ResolutionClass, WallpaperError>)
        ensures
            class_of_bits(bits) matches Some(c) ==> r == Ok::<ResolutionClass, WallpaperError>(c),
            class_of_bits(bits) is None ==> r == Err::<ResolutionClass, WallpaperError>(
                WallpaperError::InvalidMegapixels(bits),
            ),
    {
        if bits == ONE_MEGAPIXEL_BITS {
            Ok(ResolutionClass::One)
        } else if bits == QUARTER_MEGAPIXEL_BITS {
            Ok(ResolutionClass::Quarter)
        } else {
            Err(WallpaperError::InvalidMegapixels(bits))
        }
    }

    /// The bit pattern of this class's `f32` value (`f32::from_bits` gives
    /// the value back).
    pub fn to_f32_bits(&self) -> (r: u32)
        ensures
            r == bits_of_class(*self),
    {
        match self {
            ResolutionClass::One => ONE_MEGAPIXEL_BITS,
            ResolutionClass::Quarter => QUARTER_MEGAPIXEL_BITS,
        }
    }
}

/// Validation accepts exactly the two classes' values, and converting a
/// class to its value and validating that value gives the class back.
pub proof fn lemma_resolution_round_trip(bits: u32, c: ResolutionClass)
    ensures
        class_of_bits(bits) is Some <==> (bits == ONE_MEGAPIXEL_BITS || bits
            == QUARTER_MEGAPIXEL_BITS),
        class_of_bits(bits) matches Some(d) ==> bits_of_class(d) == bits,
        class_of_bits(bits_of_class(c)) == Some(c),
{
}


/// The variable name in a credential of the form `${NAME}`, if it has that
/// form.
pub open spec fn env_reference_of(v: Seq<char>) -> Option<Seq<char>> {
    if v.len() >= 3 && v[0] == '$' && v[1] == '{' && v[v.len() - 1] == '}' {
        Some(v.subrange(2, v.len() - 1))
    } else {
        None
    }
}

/// The name of the environment variable a credential refers to, when the
/// credential is written `${NAME}`; `None` for a credential given literally.
pub fn env_reference(value: &String) -> (r: Option<String>)
    ensures
        env_reference_of(value@) matches Some(n) ==> (r matches Some(s) && s@ == n),
        env_reference_of(value@) is None ==> r is None,
{
    let s = value.as_str();
    let n = s.unicode_len();
    if n >= 3 && s.get_char(0) == '$' && s.get_char(1) == '{' && s.get_char(n - 1) == '}' {
        Some(s.substring_char(2, n - 1).to_string())
    } else {
        None
    }
}

/// Resolves a credential. A credential written `${NAME}` is replaced by
/// `env_value`, the value of `NAME` in the environment (`None` when it is
/// not set), and fails naming `NAME` when it is not set; any other
/// credential is kept as it is.
pub fn resolve_credential(value: &String, env_value: Option<String>) -> (r: Result<
    String,
    WallpaperError,
>)
    ensures
        env_reference_of(value@) is None ==> (r matches Ok(s) && s@ == value@),
        env_reference_of(value@) matches Some(n) ==> match env_value {
            Some(e) => r matches Ok(s) && s@ == e@,
            None => r matches Err(WallpaperError::MissingEnvVar(m)) && m@ == n,
        },
{
    match env_reference(value) {
        None => Ok(value.clone()),
        Some(name) => match env_value {
            Some(e) => Ok(e),
            None => Err(WallpaperError::MissingEnvVar(name)),
        },
    }
}


/// Settings of the image service.
#[derive(Debug)]
pub struct DiffusionConfig {
    pub api: ApiConfig,
    pub aspect_ratio: String,
    pub megapixels: ResolutionClass,
}

/// The validated configuration of a run.
#[derive(Debug)]
pub struct AppConfig {
    pub llm_api: ApiConfig,
    pub diffusion: DiffusionConfig,
    pub default_keywords: Vec<String>,
}

/// The configuration as written in the file, before credentials are resolved
/// and the resolution class is validated.
#[derive(Debug)]
pub struct RawConfig {
    pub llm_api: ApiConfig,
    pub diffusion_api: ApiConfig,
    pub aspect_ratio: String,
    /// Bit pattern of the configured `f32` megapixel value.
    pub megapixel_bits: u32,
    pub default_keywords: Vec<String>,
}

/// The credential refers to a variable that the environment lacks.
pub open spec fn credential_missing(value: Seq<char>, env_value: Option<String>) -> bool {
    env_reference_of(value) is Some && env_value is None
}

/// The credential after resolution, where it does not fail.
pub open spec fn resolved_credential(value: Seq<char>, env_value: Option<String>) -> Seq<char> {
    match env_reference_of(value) {
        None => value,
        Some(_) => env_value->Some_0@,
    }
}

/// The configured service with its credential resolved.
pub open spec fn api_resolved(a: ApiConfig, raw: ApiConfig, env_value: Option<String>) -> bool {
    &&& a.url == raw.url
    &&& a.model == raw.model
    &&& a.api_key@ == resolved_credential(raw.api_key@, env_value)
}

impl AppConfig {
    /// Resolves both credentials (the chat service's first) and validates the
    /// resolution class, failing on the first problem found. `llm_key_env`
    /// and `diffusion_key_env` are the environment's values of the variables
    /// that the two credentials refer to, if they refer to one.
    pub fn resolve(
        raw: RawConfig,
        llm_key_env: Option<String>,
        diffusion_key_env: Option<String>,
    ) -> (r: Result<AppConfig, WallpaperError>)
        ensures
            credential_missing(raw.llm_api.api_key@, llm_key_env) ==> (r matches Err(
                WallpaperError::MissingEnvVar(m),
            ) && m@ == env_reference_of(raw.llm_api.api_key@)->Some_0),
            !credential_missing(raw.llm_api.api_key@, llm_key_env) && credential_missing(
                raw.diffusion_api.api_key@,
                diffusion_key_env,
            ) ==> (r matches Err(WallpaperError::MissingEnvVar(m)) && m@ == env_reference_of(
                raw.diffusion_api.api_key@,
            )->Some_0),
            !credential_missing(raw.llm_api.api_key@, llm_key_env) && !credential_missing(
                raw.diffusion_api.api_key@,
                diffusion_key_env,
            ) ==> match class_of_bits(raw.megapixel_bits) {
                None => r == Err::<AppConfig, WallpaperError>(
                    WallpaperError::InvalidMegapixels(raw.megapixel_bits),
                ),
                Some(c) => r matches Ok(cfg) && api_resolved(cfg.llm_api, raw.llm_api, llm_key_env)
                    && api_resolved(cfg.diffusion.api, raw.diffusion_api, diffusion_key_env)
                    && cfg.diffusion.aspect_ratio == raw.aspect_ratio && cfg.diffusion.megapixels
                    == c && cfg.default_keywords == raw.default_keywords,
            },
    {
        let llm_key = match resolve_credential(&raw.llm_api.api_key, llm_key_env) {
            Ok(k) => k,
            Err(e) => return Err(e),
        };
        let diffusion_key = match resolve_credential(&raw.diffusion_api.api_key, diffusion_key_env) {
            Ok(k) => k,
            Err(e) => return Err(e),
        };
        let megapixels = match ResolutionClass::from_f32_bits(raw.megapixel_bits) {
            Ok(c) => c,
            Err(e) => return Err(e),
        };
        Ok(AppConfig {
            llm_api: ApiConfig { url: raw.llm_api.url, model: raw.llm_api.model, api_key: llm_key },
            diffusion: DiffusionConfig {
                api: ApiConfig {
                    url: raw.diffusion_api.url,
                    model: raw.diffusion_api.model,
                    api_key: diffusion_key,
                },
                aspect_ratio: raw.aspect_ratio,
                megapixels,
            },
            default_keywords: raw.default_keywords,
        })
    }
}

} // verus!
