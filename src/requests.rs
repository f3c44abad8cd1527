use vstd::prelude::*;
use crate::config::ResolutionClass;
use crate::error::{ResponseField, WallpaperError};
use crate::json::{JsonMember, JsonValue, field_of, is_str, member_is, str_of};

verus! {

/// The job-status endpoint's base.
pub open spec fn status_base() -> Seq<char> {
    "https://api.replicate.com"@
}

/// `{base}/v1/chat/completions`.
pub fn chat_url(base: &String) -> (r: String)
    ensures
        r@ == base@ + "/v1/chat/completions"@,
{
    base.clone().concat("/v1/chat/completions")
}

/// `{base}/v1/models/{model}/predictions`: where jobs are created.
pub fn prediction_url(base: &String, model: &String) -> (r: String)
    ensures
        r@ == base@ + "/v1/models/"@ + model@ + "/predictions"@,
{
    base.clone().concat("/v1/models/").concat(model.as_str()).concat("/predictions")
}

/// `{status base}/v1/predictions/{id}`: where a job's status is polled.
pub fn status_url(job_id: &String) -> (r: String)
    ensures
        r@ == status_base() + "/v1/predictions/"@ + job_id@,
{
    "https://api.replicate.com".to_string().concat("/v1/predictions/").concat(job_id.as_str())
}

/// The value of the `Authorization` header: `Bearer {key}`.
pub fn bearer_header(api_key: &String) -> (r: String)
    ensures
        r@ == "Bearer "@ + api_key@,
{
    "Bearer ".to_string().concat(api_key.as_str())
}

/// Accepts a 2xx HTTP status and turns any other into a remote error.
pub fn check_http_status(code: u16) -> (r: Result<(), WallpaperError>)
    ensures
        200 <= code <= 299 ==> r is Ok,
        !(200 <= code <= 299) ==> r == Err::<(), WallpaperError>(WallpaperError::Remote(code)),
{
    if 200 <= code && code <= 299 {
        Ok(())
    } else {
        Err(WallpaperError::Remote(code))
    }
}

/// The text sent as the `megapixels` input: the class's value as `f32`
/// prints it.
pub open spec fn megapixels_text(c: ResolutionClass) -> Seq<char> {
    match c {
        ResolutionClass::One => "1"@,
        ResolutionClass::Quarter => "0.25"@,
    }
}

impl ResolutionClass {
    /// The text sent as the `megapixels` input.
    pub fn request_text(&self) -> (r: String)
        ensures
            r@ == megapixels_text(*self),
    {
        match self {
            ResolutionClass::One => "1".to_string(),
            ResolutionClass::Quarter => "0.25".to_string(),
        }
    }
}

/// The value is the number written `text`.
pub open spec fn is_number(v: JsonValue, text: Seq<char>) -> bool {
    v matches JsonValue::Number(n) && n@ == text
}

/// `r` is the job-creation request `{"input": {"prompt": prompt, "guidance":
/// 3.5, "aspect_ratio": aspect_ratio, "megapixels": megapixels, "output_format":
/// "png"}}`.
pub open spec fn is_prediction_request(
    r: JsonValue,
    prompt: Seq<char>,
    aspect_ratio: Seq<char>,
    megapixels: Seq<char>,
) -> bool {
    match r {
        JsonValue::Object(top) => top@.len() == 1 && top@[0].key@ == "input"@ && match top@[0].value {
            JsonValue::Object(f) => f@.len() == 5 && member_is(
                f@[0],
                "prompt"@,
                |v: JsonValue| is_str(v, prompt),
            ) && member_is(f@[1], "guidance"@, |v: JsonValue| is_number(v, "3.5"@)) && member_is(
                f@[2],
                "aspect_ratio"@,
                |v: JsonValue| is_str(v, aspect_ratio),
            ) && member_is(f@[3], "megapixels"@, |v: JsonValue| is_str(v, megapixels))
                && member_is(f@[4], "output_format"@, |v: JsonValue| is_str(v, "png"@)),
            _ => false,
        },
        _ => false,
    }
}

/// The request that creates an image-generation job.
pub fn prediction_request_body(
    prompt: &String,
    aspect_ratio: &String,
    megapixels: ResolutionClass,
) -> (r: JsonValue)
    ensures
        is_prediction_request(r, prompt@, aspect_ratio@, megapixels_text(megapixels)),
{
    let input = JsonValue::Object(
        vec![
            JsonMember { key: "prompt".to_string(), value: JsonValue::Str(prompt.clone()) },
            JsonMember { key: "guidance".to_string(), value: JsonValue::Number("3.5".to_string()) },
            JsonMember {
                key: "aspect_ratio".to_string(),
                value: JsonValue::Str(aspect_ratio.clone()),
            },
            JsonMember {
                key: "megapixels".to_string(),
                value: JsonValue::Str(megapixels.request_text()),
            },
            JsonMember { key: "output_format".to_string(), value: JsonValue::Str("png".to_string()) },
        ],
    );
    JsonValue::Object(vec![JsonMember { key: "input".to_string(), value: input }])
}

/// The `id` of a job-creation response, when it is a string.
pub open spec fn job_id_of(resp: JsonValue) -> Option<Seq<char>> {
    match field_of(resp, "id"@) {
        Some(v) => str_of(v),
        None => None,
    }
}

/// The handle of the job a creation response announces.
pub fn job_id(resp: &JsonValue) -> (r: Result<String, WallpaperError>)
    ensures
        job_id_of(*resp) matches Some(id) ==> (r matches Ok(s) && s@ == id),
        job_id_of(*resp) is None ==> r == Err::<String, WallpaperError>(
            WallpaperError::MalformedResponse(ResponseField::JobId),
        ),
{
    match resp.get(&"id".to_string()) {
        Some(v) => match v.as_str() {
            Some(s) => Ok(s.clone()),
            None => Err(WallpaperError::MalformedResponse(ResponseField::JobId)),
        },
        None => Err(WallpaperError::MalformedResponse(ResponseField::JobId)),
    }
}

} // verus!
