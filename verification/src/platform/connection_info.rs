//! Connection information of the platform: the broker to reach, the name of
//! the platform, the credentials and the service settings, read from and
//! written to JSON.
use vstd::prelude::*;
use crate::json::{
    JsonValue, JsonView, JsonNumber, NumberView, json_view, entries_view, entries_get, view_get, view_as_str,
    view_as_u64, view_as_bool, get_then_str, json_parse, json_text, parse_json_text, json_to_text,
    lemma_entries_view,
};

verus! {

/// Name of the platform when the file gives none.
pub const DEFAULT_PLATFORM_NAME: &'static str = "default_name";

/// Connection information.
#[derive(Debug)]
pub struct Info {
    pub broker_addr: String,
    pub broker_port: u16,
    pub credentials_user: Option<String>,
    pub credentials_pass: Option<String>,
    pub platform_name: String,
    pub services_retry_delay: u32,
    pub services_enable_plbd: bool,
}

/// The content of connection information.
pub struct InfoView {
    pub broker_addr: Seq<char>,
    pub broker_port: u16,
    pub credentials_user: Option<Seq<char>>,
    pub credentials_pass: Option<Seq<char>>,
    pub platform_name: Seq<char>,
    pub services_retry_delay: u32,
    pub services_enable_plbd: bool,
}

/// The text of an optional string.
pub open spec fn opt_view(s: Option<String>) -> Option<Seq<char>> {
    match s {
        Some(x) => Some(x@),
        None => None,
    }
}

impl Info {
    /// The connection information written when the user asks for a default
    /// one: a broker on `localhost` port 1883, no credentials, the default
    /// platform name and the default services.
    pub fn default_info() -> (i: Info)
        ensures
            i.view_info() == (InfoView {
                broker_addr: "localhost"@,
                broker_port: 1883,
                credentials_user: None,
                credentials_pass: None,
                platform_name: DEFAULT_PLATFORM_NAME@,
                services_retry_delay: 1,
                services_enable_plbd: false,
            }),
    {
        Info {
            broker_addr: String::from_str("localhost"),
            broker_port: 1883,
            credentials_user: None,
            credentials_pass: None,
            platform_name: String::from_str(DEFAULT_PLATFORM_NAME),
            services_retry_delay: 1,
            services_enable_plbd: false,
        }
    }

    pub open spec fn view_info(&self) -> InfoView {
        InfoView {
            broker_addr: self.broker_addr@,
            broker_port: self.broker_port,
            credentials_user: opt_view(self.credentials_user),
            credentials_pass: opt_view(self.credentials_pass),
            platform_name: self.platform_name@,
            services_retry_delay: self.services_retry_delay,
            services_enable_plbd: self.services_enable_plbd,
        }
    }
}

/// Kinds of connection information errors.
#[derive(Debug, Clone, Copy, PartialEq, Eq, Structural)]
pub enum ErrorType {
    FileDoesNotExist,
    ContentBadFormat,
    MandatoryFieldMissing,
}

/// A connection information error: its kind and its message.
#[derive(Debug)]
pub struct ConnectionInfoError {
    pub err_type: ErrorType,
    pub message: String,
}

/// Whether `r` is the error of kind `t` with message `m`.
pub open spec fn is_error<T>(r: Result<T, ConnectionInfoError>, t: ErrorType, m: Seq<char>) -> bool {
    r matches Err(e) && e.err_type == t && e.message@ == m
}

/// A `u64` setting, 1 when absent or not such a number.
pub open spec fn retry_delay_of(services: Option<JsonView>) -> u64 {
    match services {
        Some(s) => match view_get(s, "retry_delay"@) {
            Some(v) => match view_as_u64(v) {
                Some(n) => n,
                None => 1,
            },
            None => 1,
        },
        None => 1,
    }
}

/// The `enable_plbd` setting, `false` when absent or not a boolean.
pub open spec fn enable_plbd_of(services: Option<JsonView>) -> bool {
    match services {
        Some(s) => match view_get(s, "enable_plbd"@) {
            Some(v) => match view_as_bool(v) {
                Some(b) => b,
                None => false,
            },
            None => false,
        },
        None => false,
    }
}

/// The platform name, the default one when absent or not a string.
pub open spec fn platform_name_of(platform: Option<JsonView>) -> Seq<char> {
    match platform {
        Some(p) => match get_then_str(view_get(p, "name"@)) {
            Some(n) => n,
            None => DEFAULT_PLATFORM_NAME@,
        },
        None => DEFAULT_PLATFORM_NAME@,
    }
}

/// A credential field, absent when the section or the field is absent or
/// not a string.
pub open spec fn credential_of(credentials: Option<JsonView>, field: Seq<char>) -> Option<Seq<char>> {
    match credentials {
        Some(c) => get_then_str(view_get(c, field)),
        None => None,
    }
}

/// The connection information that the entries of the root object give:
/// the broker section with a string address and a `u64` port (kept modulo
/// 2^16) is mandatory; the other sections have defaults.
pub open spec fn spec_parse_map(entries: Seq<(Seq<char>, JsonView)>) -> Result<InfoView, (ErrorType, Seq<char>)> {
    match entries_get(entries, "broker"@) {
        None => Err((ErrorType::MandatoryFieldMissing, "[broker] section must be provided"@)),
        Some(broker) => match view_get(broker, "addr"@) {
            None => Err((ErrorType::MandatoryFieldMissing, "[broker.addr] must be provided"@)),
            Some(addr) => match view_as_str(addr) {
                None => Err((ErrorType::ContentBadFormat, "[broker.addr] must be a string"@)),
                Some(addr) => match view_get(broker, "port"@) {
                    None => Err((ErrorType::MandatoryFieldMissing, "[broker.port] must be provided"@)),
                    Some(port) => match view_as_u64(port) {
                        None => Err((ErrorType::ContentBadFormat, "[broker.port] must be a number"@)),
                        Some(port) => Ok(
                            InfoView {
                                broker_addr: addr,
                                broker_port: port as u16,
                                credentials_user: credential_of(entries_get(entries, "credentials"@), "user"@),
                                credentials_pass: credential_of(entries_get(entries, "credentials"@), "pass"@),
                                platform_name: platform_name_of(entries_get(entries, "platform"@)),
                                services_retry_delay: retry_delay_of(entries_get(entries, "services"@)) as u32,
                                services_enable_plbd: enable_plbd_of(entries_get(entries, "services"@)),
                            },
                        ),
                    },
                },
            },
        },
    }
}

/// Whether `r` is what `spec_parse_map` gives.
pub open spec fn parse_result_is(
    r: Result<Info, ConnectionInfoError>,
    expected: Result<InfoView, (ErrorType, Seq<char>)>,
) -> bool {
    match expected {
        Ok(v) => r matches Ok(info) && info.view_info() == v,
        Err((t, m)) => is_error(r, t, m),
    }
}

fn error(err_type: ErrorType, message: &str) -> (e: ConnectionInfoError)
    ensures
        e.err_type == err_type,
        e.message@ == message@,
{
    ConnectionInfoError { err_type, message: String::from_str(message) }
}

fn opt_string(s: Option<&String>) -> (r: Option<String>)
    ensures
        opt_view(r) == match s {
            Some(x) => Some(x@),
            None => None,
        },
{
    match s {
        Some(x) => Some(x.clone()),
        None => None,
    }
}

/// Creates the connection information from the entries of the root object.
pub fn parse_map_object(map_obj: &Vec<(String, JsonValue)>) -> (r: Result<Info, ConnectionInfoError>)
    ensures
        parse_result_is(r, spec_parse_map(entries_view(map_obj@))),
{
    let root = map_obj;
    proof {
        lemma_entries_view(root@);
    }
    let broker = match crate::json::object_get(root, "broker") {
        Some(b) => b,
        None => {
            return Err(error(ErrorType::MandatoryFieldMissing, "[broker] section must be provided"));
        },
    };
    let broker_addr = match broker.get("addr") {
        None => {
            return Err(error(ErrorType::MandatoryFieldMissing, "[broker.addr] must be provided"));
        },
        Some(a) => match a.as_str() {
            None => {
                return Err(error(ErrorType::ContentBadFormat, "[broker.addr] must be a string"));
            },
            Some(s) => s.clone(),
        },
    };
    let broker_port = match broker.get("port") {
        None => {
            return Err(error(ErrorType::MandatoryFieldMissing, "[broker.port] must be provided"));
        },
        Some(p) => match p.as_u64() {
            None => {
                return Err(error(ErrorType::ContentBadFormat, "[broker.port] must be a number"));
            },
            Some(n) => n as u16,
        },
    };
    let platform_name = match crate::json::object_get(root, "platform") {
        Some(p) => match p.get("name") {
            Some(n) => match n.as_str() {
                Some(s) => s.clone(),
                None => String::from_str(DEFAULT_PLATFORM_NAME),
            },
            None => String::from_str(DEFAULT_PLATFORM_NAME),
        },
        None => String::from_str(DEFAULT_PLATFORM_NAME),
    };
    let credentials = crate::json::object_get(root, "credentials");
    let (credentials_user, credentials_pass) = match credentials {
        Some(c) => {
            let user = match c.get("user") {
                Some(u) => opt_string(u.as_str()),
                None => None,
            };
            let pass = match c.get("pass") {
                Some(p) => opt_string(p.as_str()),
                None => None,
            };
            (user, pass)
        },
        None => (None, None),
    };
    let services = crate::json::object_get(root, "services");
    let (retry, plbd) = match services {
        Some(s) => {
            let retry = match s.get("retry_delay") {
                Some(v) => match v.as_u64() {
                    Some(n) => n,
                    None => 1,
                },
                None => 1,
            };
            let plbd = match s.get("enable_plbd") {
                Some(v) => match v.as_bool() {
                    Some(b) => b,
                    None => false,
                },
                None => false,
            };
            (retry, plbd)
        },
        None => (1, false),
    };
    Ok(
        Info {
            broker_addr,
            broker_port,
            credentials_user,
            credentials_pass,
            platform_name,
            services_retry_delay: retry as u32,
            services_enable_plbd: plbd,
        },
    )
}

/// Creates the connection information from a JSON value, which must be an
/// object.
pub fn parse_json_obj(json_obj: &JsonValue) -> (r: Result<Info, ConnectionInfoError>)
    ensures
        match json_view(*json_obj) {
            JsonView::Object(entries) => parse_result_is(r, spec_parse_map(entries)),
            _ => is_error(r, ErrorType::ContentBadFormat, "Except a JSON object at file root"@),
        },
{
    match json_obj.as_object() {
        None => Err(error(ErrorType::ContentBadFormat, "Except a JSON object at file root")),
        Some(o) => parse_map_object(o),
    }
}

/// Deserializes a JSON text into connection information. A text that is not
/// JSON is a bad format error with the parser's message.
pub fn deserialize(json_string: &str) -> (r: Result<Info, ConnectionInfoError>)
    ensures
        match json_parse(json_string@) {
            None => r matches Err(e) && e.err_type == ErrorType::ContentBadFormat,
            Some(JsonView::Object(entries)) => parse_result_is(r, spec_parse_map(entries)),
            Some(_) => is_error(r, ErrorType::ContentBadFormat, "Except a JSON object at file root"@),
        },
{
    match parse_json_text(json_string) {
        Err(message) => Err(ConnectionInfoError { err_type: ErrorType::ContentBadFormat, message }),
        Ok(v) => parse_json_obj(&v),
    }
}

/// An optional text as JSON: the string, or `null`.
pub open spec fn opt_json(s: Option<Seq<char>>) -> JsonView {
    match s {
        Some(x) => JsonView::Str(x),
        None => JsonView::Null,
    }
}

/// The JSON object that `serialize` writes for connection information.
pub open spec fn info_json(v: InfoView) -> JsonView {
    JsonView::Object(
        seq![
            ("broker"@, JsonView::Object(seq![
                ("addr"@, JsonView::Str(v.broker_addr)),
                ("port"@, JsonView::Number(NumberView::PosInt(v.broker_port as u64))),
            ])),
            ("platform"@, JsonView::Object(seq![("name"@, JsonView::Str(v.platform_name))])),
            ("credentials"@, JsonView::Object(seq![
                ("user"@, opt_json(v.credentials_user)),
                ("pass"@, opt_json(v.credentials_pass)),
            ])),
            ("services"@, JsonView::Object(seq![
                ("retry_delay"@, JsonView::Number(NumberView::PosInt(v.services_retry_delay as u64))),
                ("enable_plbd"@, JsonView::Bool(v.services_enable_plbd)),
            ])),
        ],
    )
}

fn opt_string_json(s: &Option<String>) -> (j: JsonValue)
    ensures
        json_view(j) == opt_json(opt_view(*s)),
{
    match s {
        Some(x) => JsonValue::String(x.clone()),
        None => JsonValue::Null,
    }
}

/// An object of two entries.
fn object2(k1: &str, v1: JsonValue, k2: &str, v2: JsonValue) -> (j: JsonValue)
    ensures
        json_view(j) == JsonView::Object(seq![(k1@, json_view(v1)), (k2@, json_view(v2))]),
{
    let ghost g1 = json_view(v1);
    let ghost g2 = json_view(v2);
    let entries = vec![(String::from_str(k1), v1), (String::from_str(k2), v2)];
    proof {
        lemma_entries_view(entries@);
        assert(entries_view(entries@) =~= seq![(k1@, g1), (k2@, g2)]);
    }
    JsonValue::Object(entries)
}

/// Serializes connection information into a compact JSON text.
pub fn serialize(info: &Info) -> (r: Result<String, crate::error::Error>)
    ensures
        r matches Ok(s) && s@ == json_text(info_json(info.view_info())),
{
    let broker = object2(
        "addr",
        JsonValue::String(info.broker_addr.clone()),
        "port",
        JsonValue::Number(JsonNumber::PosInt(info.broker_port as u64)),
    );
    let platform_entries = vec![(String::from_str("name"), JsonValue::String(info.platform_name.clone()))];
    proof {
        lemma_entries_view(platform_entries@);
        assert(entries_view(platform_entries@) =~= seq![("name"@, JsonView::Str(info.platform_name@))]);
    }
    let platform = JsonValue::Object(platform_entries);
    let credentials = object2(
        "user",
        opt_string_json(&info.credentials_user),
        "pass",
        opt_string_json(&info.credentials_pass),
    );
    let services = object2(
        "retry_delay",
        JsonValue::Number(JsonNumber::PosInt(info.services_retry_delay as u64)),
        "enable_plbd",
        JsonValue::Bool(info.services_enable_plbd),
    );
    let ghost gb = json_view(broker);
    let ghost gp = json_view(platform);
    let ghost gc = json_view(credentials);
    let ghost gs = json_view(services);
    let root = vec![
        (String::from_str("broker"), broker),
        (String::from_str("platform"), platform),
        (String::from_str("credentials"), credentials),
        (String::from_str("services"), services),
    ];
    proof {
        lemma_entries_view(root@);
        assert(entries_view(root@) =~= seq![
            ("broker"@, gb),
            ("platform"@, gp),
            ("credentials"@, gc),
            ("services"@, gs),
        ]);
    }
    let value = JsonValue::Object(root);
    assert(json_view(value) == info_json(info.view_info()));
    Ok(json_to_text(&value))
}

/// Law: reading back the JSON object that `serialize` writes gives the same
/// connection information.
pub proof fn lemma_serialize_then_parse(v: InfoView)
    ensures
        info_json(v) matches JsonView::Object(entries) && spec_parse_map(entries) == Ok::<
            InfoView,
            (ErrorType, Seq<char>),
        >(v),
{
    reveal_with_fuel(entries_get, 5);
    let entries = match info_json(v) {
        JsonView::Object(e) => e,
        _ => Seq::empty(),
    };
    assert(("broker"@) != ("platform"@)) by {
        reveal_strlit("broker");
        reveal_strlit("platform");
        assert(("broker"@)[0] != ("platform"@)[0]);
    }
    assert(("broker"@) != ("credentials"@)) by {
        reveal_strlit("broker");
        reveal_strlit("credentials");
        assert(("broker"@)[0] != ("credentials"@)[0]);
    }
    assert(("broker"@) != ("services"@)) by {
        reveal_strlit("broker");
        reveal_strlit("services");
        assert(("broker"@)[0] != ("services"@)[0]);
    }
    assert(("platform"@) != ("credentials"@)) by {
        reveal_strlit("platform");
        reveal_strlit("credentials");
        assert(("platform"@)[0] != ("credentials"@)[0]);
    }
    assert(("platform"@) != ("services"@)) by {
        reveal_strlit("platform");
        reveal_strlit("services");
        assert(("platform"@)[0] != ("services"@)[0]);
    }
    assert(("credentials"@) != ("services"@)) by {
        reveal_strlit("credentials");
        reveal_strlit("services");
        assert(("credentials"@)[0] != ("services"@)[0]);
    }
    assert(("addr"@) != ("port"@)) by {
        reveal_strlit("addr");
        reveal_strlit("port");
        assert(("addr"@)[0] != ("port"@)[0]);
    }
    assert(("user"@) != ("pass"@)) by {
        reveal_strlit("user");
        reveal_strlit("pass");
        assert(("user"@)[0] != ("pass"@)[0]);
    }
    assert(("retry_delay"@) != ("enable_plbd"@)) by {
        reveal_strlit("retry_delay");
        reveal_strlit("enable_plbd");
        assert(("retry_delay"@)[0] != ("enable_plbd"@)[0]);
    }
    assert((v.broker_port as u64) as u16 == v.broker_port);
    assert((v.services_retry_delay as u64) as u32 == v.services_retry_delay);
}

/// Law: once the broker section is read, each other setting comes from its
/// section exactly when the section holds an entry of that name and of the
/// right type, and takes its default otherwise: plbd is enabled only by an
/// `enable_plbd` entry that is the boolean `true`; the retry delay is an
/// unsigned `retry_delay` (kept modulo 2^32) or 1; the platform name is a
/// string `name` or the default name; a credential is a string entry or
/// nothing.
pub proof fn lemma_settings_from_sections(entries: Seq<(Seq<char>, JsonView)>)
    ensures
        spec_parse_map(entries) matches Ok(v) ==> ({
            let services = entries_get(entries, "services"@);
            let platform = entries_get(entries, "platform"@);
            let credentials = entries_get(entries, "credentials"@);
            &&& v.services_enable_plbd <==> (services matches Some(s) && view_get(s, "enable_plbd"@) == Some(
                JsonView::Bool(true),
            ))
            &&& v.services_retry_delay == match services {
                Some(s) => match view_get(s, "retry_delay"@) {
                    Some(JsonView::Number(NumberView::PosInt(n))) => n as u32,
                    _ => 1u32,
                },
                None => 1u32,
            }
            &&& v.platform_name == match platform {
                Some(p) => match view_get(p, "name"@) {
                    Some(JsonView::Str(n)) => n,
                    _ => DEFAULT_PLATFORM_NAME@,
                },
                None => DEFAULT_PLATFORM_NAME@,
            }
            &&& v.credentials_user == match credentials {
                Some(c) => match view_get(c, "user"@) {
                    Some(JsonView::Str(u)) => Some(u),
                    _ => None,
                },
                None => None,
            }
            &&& v.credentials_pass == match credentials {
                Some(c) => match view_get(c, "pass"@) {
                    Some(JsonView::Str(p)) => Some(p),
                    _ => None,
                },
                None => None,
            }
        }),
{
}

} // verus!
