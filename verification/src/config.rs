//! Service configuration.
//!
//! The service reads one JSON configuration file at startup: listen host
//! and port (both optional, with defaults), the source image root, the
//! derivative cache root, and the global encoding policy. The file read
//! and the process bootstrap stay with the caller; this module parses and
//! defaults, with the contract stated over the JSON content model of the
//! sidecar module.

use vstd::prelude::*;

use crate::policy::DirectoryLevelConfig;
use crate::policy::PolicyView;
use crate::sidecar::field_string;
use crate::sidecar::json_as_i64;
use crate::sidecar::json_get;
use crate::sidecar::json_is_null;
use crate::sidecar::json_is_object;
use crate::sidecar::json_model;
use crate::sidecar::json_parses;
use crate::sidecar::json_value_of;
use crate::sidecar::parse_directory_config;
use crate::sidecar::parse_json_value;
use crate::sidecar::spec_directory_config;
use crate::sidecar::spec_field_string;
use crate::sidecar::JsonVal;
use crate::text::dec_digits;
use crate::text::u64_to_dec_string;

verus! {

/// The service-wide configuration.
#[derive(Clone, Debug, PartialEq)]
pub struct WebPServerConfig {
    pub host: String,
    pub port: u16,
    pub img_path: String,
    pub webp_path: String,
    pub global_config: DirectoryLevelConfig,
}

/// The content of a configuration, field for field.
#[verifier::ext_equal]
pub ghost struct ServerConfigView {
    pub host: Seq<char>,
    pub port: u16,
    pub img_path: Seq<char>,
    pub webp_path: Seq<char>,
    pub global_config: PolicyView,
}

impl View for WebPServerConfig {
    type V = ServerConfigView;

    open spec fn view(&self) -> ServerConfigView {
        ServerConfigView {
            host: self.host@,
            port: self.port,
            img_path: self.img_path@,
            webp_path: self.webp_path@,
            global_config: self.global_config@,
        }
    }
}

/// The listen port used when the configuration file names none.
pub fn config_default_3333u16() -> (r: u16)
    ensures
        r == 3333u16,
{
    3333
}

/// The listen host used when the configuration file names none.
pub fn config_default_127_0_0_1() -> (r: String)
    ensures
        r@ == "127.0.0.1"@,
{
    String::from_str("127.0.0.1")
}

/// The value of an optional port field of a JSON object: `None` for a
/// type error, `Some(None)` for an absent or null member, `Some(Some(p))`
/// for an integer that is a port number.
pub open spec fn spec_field_u16(j: JsonVal, key: Seq<char>) -> Option<Option<u16>> {
    match j {
        JsonVal::Obj(m) => {
            if !m.dom().contains(key) {
                Some(None)
            } else {
                match m[key] {
                    JsonVal::Null => Some(None),
                    JsonVal::Int(n) => {
                        if 0 <= n <= u16::MAX {
                            Some(Some(n as u16))
                        } else {
                            None
                        }
                    },
                    _ => None,
                }
            }
        },
        _ => Some(None),
    }
}

/// An optional port field: absent or null means the default applies; any
/// other value must be an integer in the range of a port number.
fn field_u16(v: &serde_json::Value, key: &str) -> (r: Result<Option<u16>, ()>)
    ensures
        (match r {
            Ok(x) => spec_field_u16(json_model(*v), key@) == Some(x),
            Err(_) => spec_field_u16(json_model(*v), key@) is None,
        }),
{
    match json_get(v, key) {
        None => Ok(None),
        Some(f) => {
            if json_is_null(f) {
                Ok(None)
            } else {
                match json_as_i64(f) {
                    Some(n) => {
                        if 0 <= n && n <= u16::MAX as i64 {
                            Ok(Some(n as u16))
                        } else {
                            Err(())
                        }
                    },
                    None => Err(()),
                }
            }
        },
    }
}

/// Whether a JSON value fits the configuration schema: an object where
/// `host` and `port`, if present, are well typed, `img_path` and
/// `webp_path` are strings, and `global_config` fits the policy schema.
pub open spec fn spec_server_config_ok(j: JsonVal) -> bool {
    &&& j is Obj
    &&& spec_field_string(j, "host"@) is Some
    &&& spec_field_u16(j, "port"@) is Some
    &&& (spec_field_string(j, "img_path"@) matches Some(Some(_)))
    &&& (spec_field_string(j, "webp_path"@) matches Some(Some(_)))
    &&& (match j {
        JsonVal::Obj(m) => m.dom().contains("global_config"@) && spec_directory_config(
            m["global_config"@],
        ) is Some,
        _ => false,
    })
}

/// The configuration a JSON value denotes: the named fields, with the
/// host and port defaults filled in where the file names none; `None`
/// when the value does not fit the schema.
pub open spec fn spec_server_config(j: JsonVal) -> Option<ServerConfigView> {
    if spec_server_config_ok(j) {
        Some(
            ServerConfigView {
                host: match spec_field_string(j, "host"@)->Some_0 {
                    Some(h) => h,
                    None => "127.0.0.1"@,
                },
                port: match spec_field_u16(j, "port"@)->Some_0 {
                    Some(p) => p,
                    None => 3333,
                },
                img_path: spec_field_string(j, "img_path"@)->Some_0->Some_0,
                webp_path: spec_field_string(j, "webp_path"@)->Some_0->Some_0,
                global_config: match j {
                    JsonVal::Obj(m) => spec_directory_config(m["global_config"@])->Some_0,
                    _ => spec_directory_config(j)->Some_0,
                },
            },
        )
    } else {
        None
    }
}

/// Parses the configuration file's contents. `host` and `port` default
/// when absent; `img_path`, `webp_path` and `global_config` are required;
/// any ill-typed field rejects the whole file, and the caller refuses to
/// start, as a service without its paths cannot run.
pub fn parse_server_config(text: &str) -> (r: Option<WebPServerConfig>)
    ensures
        !json_parses(text@) ==> r is None,
        json_parses(text@) ==> (match r {
            Some(c) => spec_server_config(json_value_of(text@)->Some_0) == Some(c@),
            None => spec_server_config(json_value_of(text@)->Some_0) is None,
        }),
{
    let v = match parse_json_value(text) {
        None => return None,
        Some(v) => v,
    };
    if !json_is_object(&v) {
        return None;
    }
    let host = match field_string(&v, "host") {
        Err(_) => return None,
        Ok(Some(h)) => h,
        Ok(None) => config_default_127_0_0_1(),
    };
    let port = match field_u16(&v, "port") {
        Err(_) => return None,
        Ok(Some(p)) => p,
        Ok(None) => config_default_3333u16(),
    };
    let img_path = match field_string(&v, "img_path") {
        Err(_) => return None,
        Ok(None) => return None,
        Ok(Some(s)) => s,
    };
    let webp_path = match field_string(&v, "webp_path") {
        Err(_) => return None,
        Ok(None) => return None,
        Ok(Some(s)) => s,
    };
    let gv = match json_get(&v, "global_config") {
        None => return None,
        Some(g) => g,
    };
    let global_config = match parse_directory_config(gv) {
        None => return None,
        Some(c) => c,
    };
    let c = WebPServerConfig { host, port, img_path, webp_path, global_config };
    proof {
        assert(spec_server_config(json_model(v)) == Some(c@)) by {
            assert(spec_server_config_ok(json_model(v)));
            assert(spec_server_config(json_model(v))->Some_0 =~= c@);
        }
    }
    Some(c)
}

/// The `host:port` string the server binds to.
pub fn get_server_listen_options(config: &WebPServerConfig) -> (r: String)
    ensures
        r@ == config.host@ + seq![':'] + dec_digits(config.port as nat),
{
    proof {
        reveal_strlit(":");
    }
    let mut s = config.host.clone();
    s.append(":");
    let p = u64_to_dec_string(config.port as u64);
    s.append(p.as_str());
    proof {
        assert(s@ =~= config.host@ + seq![':'] + dec_digits(config.port as nat));
    }
    s
}

} // verus!
