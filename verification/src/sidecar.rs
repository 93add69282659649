//! Per-directory policy overrides.
//!
//! A source directory may hold a small sidecar file with a partial
//! encoding policy in JSON. Resolution reads it and merges it field by
//! field over the global default; if the file is absent, is not valid
//! JSON, or holds a field of the wrong type, the global default applies
//! verbatim. Reading the file is the caller's business; this module takes
//! its contents, if any, and decides.
//!
//! JSON itself is parsed by the `serde_json` crate behind the trusted
//! declarations below. Contracts speak of `JsonVal`, the mathematical
//! content of a parsed value: `json_value_of` names what a text denotes,
//! `json_model` names what a parsed value holds, and each accessor
//! wrapper states its result over that model, so that everything above
//! the parse — schema, typing, merging — is verified.

use vstd::prelude::*;

use crate::policy::spec_merge;
use crate::policy::DirectoryLevelConfig;
use crate::policy::PolicyView;

verus! {

#[verifier::external_type_specification]
#[verifier::external_body]
pub struct ExValue(serde_json::Value);

/// The mathematical content of a JSON value. A number is `Int` when the
/// parser stores it integrally (an integer literal in machine range) and
/// `Float` otherwise; an object maps each key to its member, the last
/// occurrence of a repeated key winning.
pub ghost enum JsonVal {
    Null,
    Bool(bool),
    Int(int),
    Float,
    Str(Seq<char>),
    Arr(Seq<JsonVal>),
    Obj(Map<Seq<char>, JsonVal>),
}

/// What `serde_json::from_str` makes of a text, a function of the text
/// alone: the content of the value it returns, or `None` where it refuses
/// the text.
pub uninterp spec fn json_value_of(s: Seq<char>) -> Option<JsonVal>;

/// Whether a string is valid JSON: exactly when `serde_json::from_str`
/// accepts it.
pub open spec fn json_parses(s: Seq<char>) -> bool {
    json_value_of(s) is Some
}

/// The content of a parsed `serde_json::Value`.
pub uninterp spec fn json_model(v: serde_json::Value) -> JsonVal;

/// Relies on serde_json::from_str: parsing a `Value` succeeds exactly on
/// valid JSON text, and what it yields is a function of the text alone.
#[verifier::external_body]
pub(crate) fn parse_json_value(s: &str) -> (r: Option<serde_json::Value>)
    ensures
        (r is Some) == json_parses(s@),
        (r matches Some(v) ==> json_value_of(s@) == Some(json_model(v))),
{
    serde_json::from_str::<serde_json::Value>(s).ok()
}

/// Relies on serde_json::Value::get with a string index: on an object it
/// returns the member under the key, and `None` for a missing key or any
/// non-object.
#[verifier::external_body]
pub(crate) fn json_get<'a>(v: &'a serde_json::Value, key: &str) -> (r: Option<
    &'a serde_json::Value,
>)
    ensures
        (match json_model(*v) {
            JsonVal::Obj(m) => {
                if m.dom().contains(key@) {
                    r matches Some(f) && json_model(*f) == m[key@]
                } else {
                    r is None
                }
            },
            _ => r is None,
        }),
{
    v.get(key)
}

/// Relies on serde_json::Value::is_object.
#[verifier::external_body]
pub(crate) fn json_is_object(v: &serde_json::Value) -> (r: bool)
    ensures
        r == (json_model(*v) is Obj),
{
    v.is_object()
}

/// Relies on serde_json::Value::is_null.
#[verifier::external_body]
pub(crate) fn json_is_null(v: &serde_json::Value) -> (r: bool)
    ensures
        r == (json_model(*v) is Null),
{
    v.is_null()
}

/// Relies on serde_json::Value::as_i64: `Some` exactly for a number the
/// parser stored integrally that fits in an `i64`.
#[verifier::external_body]
pub(crate) fn json_as_i64(v: &serde_json::Value) -> (r: Option<i64>)
    ensures
        r == (match json_model(*v) {
            JsonVal::Int(n) => {
                if i64::MIN <= n <= i64::MAX {
                    Some(n as i64)
                } else {
                    None
                }
            },
            _ => None::<i64>,
        }),
{
    v.as_i64()
}

/// Relies on serde_json::Value::as_str: `Some` exactly for a string value,
/// handing its characters out.
#[verifier::external_body]
pub(crate) fn json_as_str(v: &serde_json::Value) -> (r: Option<String>)
    ensures
        (match json_model(*v) {
            JsonVal::Str(s) => r matches Some(x) && x@ == s,
            _ => r is None,
        }),
{
    v.as_str().map(|s| s.to_owned())
}

/// The value of an optional integer field of a JSON object: `None` for a
/// type error (a non-integer, or an integer outside the field's range),
/// `Some(None)` for an absent or null member, `Some(Some(n))` otherwise.
pub open spec fn spec_field_i32(j: JsonVal, key: Seq<char>) -> Option<Option<i32>> {
    match j {
        JsonVal::Obj(m) => {
            if !m.dom().contains(key) {
                Some(None)
            } else {
                match m[key] {
                    JsonVal::Null => Some(None),
                    JsonVal::Int(n) => {
                        if i32::MIN <= n <= i32::MAX {
                            Some(Some(n as i32))
                        } else {
                            None
                        }
                    },
                    _ => None,
                }
            }
        },
        _ => Some(None),
    }
}

/// The value of an optional string field of a JSON object, as
/// `spec_field_i32` with strings.
pub open spec fn spec_field_string(j: JsonVal, key: Seq<char>) -> Option<Option<Seq<char>>> {
    match j {
        JsonVal::Obj(m) => {
            if !m.dom().contains(key) {
                Some(None)
            } else {
                match m[key] {
                    JsonVal::Null => Some(None),
                    JsonVal::Str(s) => Some(Some(s)),
                    _ => None,
                }
            }
        },
        _ => Some(None),
    }
}

/// An optional integer field: absent or null means unset; anything other
/// than an integer that fits the field's range is a type error.
pub(crate) fn field_i32(v: &serde_json::Value, key: &str) -> (r: Result<Option<i32>, ()>)
    ensures
        (match r {
            Ok(x) => spec_field_i32(json_model(*v), key@) == Some(x),
            Err(_) => spec_field_i32(json_model(*v), key@) is None,
        }),
{
    match json_get(v, key) {
        None => Ok(None),
        Some(f) => {
            if json_is_null(f) {
                Ok(None)
            } else {
                match json_as_i64(f) {
                    Some(n) => {
                        if i32::MIN as i64 <= n && n <= i32::MAX as i64 {
                            Ok(Some(n as i32))
                        } else {
                            Err(())
                        }
                    },
                    None => Err(()),
                }
            }
        },
    }
}

/// An optional string field: absent or null means unset; any other
/// non-string value is a type error.
pub(crate) fn field_string(v: &serde_json::Value, key: &str) -> (r: Result<Option<String>, ()>)
    ensures
        (match r {
            Ok(x) => spec_field_string(json_model(*v), key@) == Some(x.deep_view()),
            Err(_) => spec_field_string(json_model(*v), key@) is None,
        }),
{
    match json_get(v, key) {
        None => Ok(None),
        Some(f) => {
            if json_is_null(f) {
                Ok(None)
            } else {
                match json_as_str(f) {
                    Some(s) => Ok(Some(s)),
                    None => Err(()),
                }
            }
        },
    }
}

/// Whether a JSON value fits the sidecar schema: an object whose known
/// fields, where present, have the right types. Unknown keys are ignored.
pub open spec fn spec_directory_config_ok(j: JsonVal) -> bool {
    &&& j is Obj
    &&& spec_field_i32(j, "lossless"@) is Some
    &&& spec_field_i32(j, "quality"@) is Some
    &&& spec_field_string(j, "preset"@) is Some
    &&& spec_field_i32(j, "method"@) is Some
    &&& spec_field_string(j, "image_hint"@) is Some
    &&& spec_field_i32(j, "target_size"@) is Some
    &&& spec_field_i32(j, "target_psnr"@) is Some
    &&& spec_field_i32(j, "segments"@) is Some
    &&& spec_field_i32(j, "sns_strength"@) is Some
    &&& spec_field_i32(j, "filter_strength"@) is Some
    &&& spec_field_i32(j, "filter_sharpness"@) is Some
    &&& spec_field_i32(j, "filter_type"@) is Some
    &&& spec_field_i32(j, "autofilter"@) is Some
    &&& spec_field_i32(j, "alpha_compression"@) is Some
    &&& spec_field_i32(j, "alpha_filtering"@) is Some
    &&& spec_field_i32(j, "alpha_quality"@) is Some
    &&& spec_field_i32(j, "pass"@) is Some
    &&& spec_field_i32(j, "preprocessing"@) is Some
    &&& spec_field_i32(j, "partitions"@) is Some
    &&& spec_field_i32(j, "partition_limit"@) is Some
    &&& spec_field_i32(j, "emulate_jpeg_size"@) is Some
    &&& spec_field_i32(j, "thread_level"@) is Some
    &&& spec_field_i32(j, "low_memory"@) is Some
    &&& spec_field_i32(j, "near_lossless"@) is Some
    &&& spec_field_i32(j, "exact"@) is Some
    &&& spec_field_i32(j, "use_delta_palette"@) is Some
    &&& spec_field_i32(j, "use_sharp_yuv"@) is Some
}

/// The partial policy a JSON value denotes under the sidecar schema, or
/// `None` when the value does not fit it.
pub open spec fn spec_directory_config(j: JsonVal) -> Option<PolicyView> {
    if spec_directory_config_ok(j) {
        Some(
            PolicyView {
                lossless: spec_field_i32(j, "lossless"@)->Some_0,
                quality: spec_field_i32(j, "quality"@)->Some_0,
                preset: spec_field_string(j, "preset"@)->Some_0,
                method: spec_field_i32(j, "method"@)->Some_0,
                image_hint: spec_field_string(j, "image_hint"@)->Some_0,
                target_size: spec_field_i32(j, "target_size"@)->Some_0,
                target_psnr: spec_field_i32(j, "target_psnr"@)->Some_0,
                segments: spec_field_i32(j, "segments"@)->Some_0,
                sns_strength: spec_field_i32(j, "sns_strength"@)->Some_0,
                filter_strength: spec_field_i32(j, "filter_strength"@)->Some_0,
                filter_sharpness: spec_field_i32(j, "filter_sharpness"@)->Some_0,
                filter_type: spec_field_i32(j, "filter_type"@)->Some_0,
                autofilter: spec_field_i32(j, "autofilter"@)->Some_0,
                alpha_compression: spec_field_i32(j, "alpha_compression"@)->Some_0,
                alpha_filtering: spec_field_i32(j, "alpha_filtering"@)->Some_0,
                alpha_quality: spec_field_i32(j, "alpha_quality"@)->Some_0,
                pass: spec_field_i32(j, "pass"@)->Some_0,
                preprocessing: spec_field_i32(j, "preprocessing"@)->Some_0,
                partitions: spec_field_i32(j, "partitions"@)->Some_0,
                partition_limit: spec_field_i32(j, "partition_limit"@)->Some_0,
                emulate_jpeg_size: spec_field_i32(j, "emulate_jpeg_size"@)->Some_0,
                thread_level: spec_field_i32(j, "thread_level"@)->Some_0,
                low_memory: spec_field_i32(j, "low_memory"@)->Some_0,
                near_lossless: spec_field_i32(j, "near_lossless"@)->Some_0,
                exact: spec_field_i32(j, "exact"@)->Some_0,
                use_delta_palette: spec_field_i32(j, "use_delta_palette"@)->Some_0,
                use_sharp_yuv: spec_field_i32(j, "use_sharp_yuv"@)->Some_0,
            },
        )
    } else {
        None
    }
}

/// Reads a partial policy out of a parsed JSON value, by the sidecar
/// schema.
pub(crate) fn parse_directory_config(v: &serde_json::Value) -> (r: Option<DirectoryLevelConfig>)
    ensures
        (match r {
            Some(p) => spec_directory_config(json_model(*v)) == Some(p@),
            None => spec_directory_config(json_model(*v)) is None,
        }),
{
    if !json_is_object(v) {
        return None;
    }
    let lossless = match field_i32(v, "lossless") {
        Ok(x) => x,
        Err(_) => return None,
    };
    let quality = match field_i32(v, "quality") {
        Ok(x) => x,
        Err(_) => return None,
    };
    let preset = match field_string(v, "preset") {
        Ok(x) => x,
        Err(_) => return None,
    };
    let method = match field_i32(v, "method") {
        Ok(x) => x,
        Err(_) => return None,
    };
    let image_hint = match field_string(v, "image_hint") {
        Ok(x) => x,
        Err(_) => return None,
    };
    let target_size = match field_i32(v, "target_size") {
        Ok(x) => x,
        Err(_) => return None,
    };
    let target_psnr = match field_i32(v, "target_psnr") {
        Ok(x) => x,
        Err(_) => return None,
    };
    let segments = match field_i32(v, "segments") {
        Ok(x) => x,
        Err(_) => return None,
    };
    let sns_strength = match field_i32(v, "sns_strength") {
        Ok(x) => x,
        Err(_) => return None,
    };
    let filter_strength = match field_i32(v, "filter_strength") {
        Ok(x) => x,
        Err(_) => return None,
    };
    let filter_sharpness = match field_i32(v, "filter_sharpness") {
        Ok(x) => x,
        Err(_) => return None,
    };
    let filter_type = match field_i32(v, "filter_type") {
        Ok(x) => x,
        Err(_) => return None,
    };
    let autofilter = match field_i32(v, "autofilter") {
        Ok(x) => x,
        Err(_) => return None,
    };
    let alpha_compression = match field_i32(v, "alpha_compression") {
        Ok(x) => x,
        Err(_) => return None,
    };
    let alpha_filtering = match field_i32(v, "alpha_filtering") {
        Ok(x) => x,
        Err(_) => return None,
    };
    let alpha_quality = match field_i32(v, "alpha_quality") {
        Ok(x) => x,
        Err(_) => return None,
    };
    let pass = match field_i32(v, "pass") {
        Ok(x) => x,
        Err(_) => return None,
    };
    let preprocessing = match field_i32(v, "preprocessing") {
        Ok(x) => x,
        Err(_) => return None,
    };
    let partitions = match field_i32(v, "partitions") {
        Ok(x) => x,
        Err(_) => return None,
    };
    let partition_limit = match field_i32(v, "partition_limit") {
        Ok(x) => x,
        Err(_) => return None,
    };
    let emulate_jpeg_size = match field_i32(v, "emulate_jpeg_size") {
        Ok(x) => x,
        Err(_) => return None,
    };
    let thread_level = match field_i32(v, "thread_level") {
        Ok(x) => x,
        Err(_) => return None,
    };
    let low_memory = match field_i32(v, "low_memory") {
        Ok(x) => x,
        Err(_) => return None,
    };
    let near_lossless = match field_i32(v, "near_lossless") {
        Ok(x) => x,
        Err(_) => return None,
    };
    let exact = match field_i32(v, "exact") {
        Ok(x) => x,
        Err(_) => return None,
    };
    let use_delta_palette = match field_i32(v, "use_delta_palette") {
        Ok(x) => x,
        Err(_) => return None,
    };
    let use_sharp_yuv = match field_i32(v, "use_sharp_yuv") {
        Ok(x) => x,
        Err(_) => return None,
    };
    let p = DirectoryLevelConfig {
        lossless,
        quality,
        preset,
        method,
        image_hint,
        target_size,
        target_psnr,
        segments,
        sns_strength,
        filter_strength,
        filter_sharpness,
        filter_type,
        autofilter,
        alpha_compression,
        alpha_filtering,
        alpha_quality,
        pass,
        preprocessing,
        partitions,
        partition_limit,
        emulate_jpeg_size,
        thread_level,
        low_memory,
        near_lossless,
        exact,
        use_delta_palette,
        use_sharp_yuv,
    };
    proof {
        assert(spec_directory_config(json_model(*v)) == Some(p@)) by {
            assert(spec_directory_config_ok(json_model(*v)));
            assert(spec_directory_config(json_model(*v))->Some_0 =~= p@);
        }
    }
    Some(p)
}

/// What resolution yields for one sidecar text over a global default: the
/// merge of the override the text denotes, or the default verbatim when
/// the text does not fit the schema.
pub open spec fn spec_resolved_policy(t: Seq<char>, g: PolicyView) -> PolicyView {
    match spec_directory_config(json_value_of(t)->Some_0) {
        Some(p) => spec_merge(p, g),
        None => g,
    }
}

impl DirectoryLevelConfig {
    /// Resolves the policy for one directory from the contents of its
    /// sidecar file, if it had one: a readable override merges over the
    /// global default field by field; an absent, unreadable, malformed or
    /// ill-typed one leaves the global default to apply verbatim. The
    /// result is the caller's own copy either way.
    pub fn detect(sidecar_text: Option<&str>, global_config: &DirectoryLevelConfig) -> (r:
        DirectoryLevelConfig)
        ensures
            (match sidecar_text {
                None => r == *global_config,
                Some(t) => {
                    &&& !json_parses(t@) ==> r == *global_config
                    &&& json_parses(t@) ==> r@ == spec_resolved_policy(t@, global_config@)
                },
            }),
    {
        match sidecar_text {
            None => global_config.duplicate(),
            Some(t) => {
                match parse_json_value(t) {
                    None => global_config.duplicate(),
                    Some(v) => {
                        match parse_directory_config(&v) {
                            None => global_config.duplicate(),
                            Some(p) => p.merged_over(global_config),
                        }
                    },
                }
            },
        }
    }
}

} // verus!
