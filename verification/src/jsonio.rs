//! JSON support for the debug configuration: reading the stored
//! configuration through serde_json (trusted at a narrow interface), and
//! emitting the adapter configuration as JSON text with a verified,
//! character-exact serializer.

use vstd::prelude::*;

use crate::errors::Error;
use crate::strutil::opt_view;

verus! {

#[verifier::external_type_specification]
#[verifier::external_body]
pub struct ExValue(serde_json::Value);

/// A JSON object field as this crate reads it: absent, null, a string, a
/// boolean, an array of values, or anything else.
pub enum JsonField {
    Absent,
    Null,
    Str(String),
    Boolean(bool),
    Arr(Vec<serde_json::Value>),
    Other,
}

/// The JSON value a string parses to, if it parses: a function of the
/// string alone.
pub uninterp spec fn spec_parse_json(s: Seq<char>) -> Option<serde_json::Value>;

/// Relies on serde_json::from_str::<Value>: parses a string as JSON;
/// whether it parses, and to which value, depends on the string alone.
#[verifier::external_body]
pub(crate) fn parse_json(s: &str) -> (r: Result<serde_json::Value, String>)
    ensures
        (r is Ok) == (spec_parse_json(s@) is Some),
        r matches Ok(v) ==> Some(v) == spec_parse_json(s@),
{
    match serde_json::from_str(s) {
        Ok(v) => Ok(v),
        Err(e) => Err(e.to_string()),
    }
}

/// The field of a JSON value under a key, classified by variant: a
/// function of the value and the key alone.
pub uninterp spec fn spec_json_field(v: serde_json::Value, key: Seq<char>) -> JsonField;

/// Relies on serde_json::Value::get: looks a key up in a JSON object
/// (absent on non-objects and missing keys) and classifies the field.
#[verifier::external_body]
pub(crate) fn json_field(v: &serde_json::Value, key: &str) -> (r: JsonField)
    ensures
        r == spec_json_field(*v, key@),
{
    match v.get(key) {
        None => JsonField::Absent,
        Some(serde_json::Value::Null) => JsonField::Null,
        Some(serde_json::Value::String(s)) => JsonField::Str(s.clone()),
        Some(serde_json::Value::Bool(b)) => JsonField::Boolean(*b),
        Some(serde_json::Value::Array(a)) => JsonField::Arr(a.clone()),
        Some(_) => JsonField::Other,
    }
}

/// The string content of a JSON string value, `None` for every other
/// variant: a function of the value alone.
pub uninterp spec fn spec_json_as_str(v: serde_json::Value) -> Option<Seq<char>>;

/// Relies on serde_json::Value::as_str: the content of a string value.
#[verifier::external_body]
pub(crate) fn json_as_str(v: &serde_json::Value) -> (r: Option<String>)
    ensures
        (r is Some) == (spec_json_as_str(*v) is Some),
        r matches Some(s) ==> Some(s@) == spec_json_as_str(*v),
{
    match v.as_str() {
        Some(s) => Some(s.to_string()),
        None => None,
    }
}

/// The debug configuration carried inside a debug scenario: the build
/// context, the Dockerfile being built, the request kind, pass-through
/// build arguments, and the optional stop-on-entry and target-stage
/// fields. Optional fields have an explicit unset representation so the
/// default-injection rule can be stated exactly.
pub struct DockerfileDebugConfig {
    pub context_path: Option<String>,
    pub dockerfile: Option<String>,
    pub request: String,
    pub args: Vec<String>,
    pub stop_on_entry: Option<bool>,
    pub target: Option<String>,
}

/// The mathematical content of a `DockerfileDebugConfig`.
#[verifier::ext_equal]
pub ghost struct ConfigView {
    pub context_path: Option<Seq<char>>,
    pub dockerfile: Option<Seq<char>>,
    pub request: Seq<char>,
    pub args: Seq<Seq<char>>,
    pub stop_on_entry: Option<bool>,
    pub target: Option<Seq<char>>,
}

impl View for DockerfileDebugConfig {
    type V = ConfigView;

    open spec fn view(&self) -> ConfigView {
        ConfigView {
            context_path: opt_view(self.context_path),
            dockerfile: opt_view(self.dockerfile),
            request: self.request@,
            args: self.args@.map_values(|s: String| s@),
            stop_on_entry: self.stop_on_entry,
            target: opt_view(self.target),
        }
    }
}

/// A hexadecimal digit (lower case).
pub open spec fn spec_hex_digit(n: int) -> char {
    if n < 10 {
        ((48 + n) as u8) as char
    } else {
        ((87 + n) as u8) as char
    }
}

fn hex_digit(n: u32) -> (c: char)
    requires
        n < 16,
    ensures
        c == spec_hex_digit(n as int),
{
    if n < 10 {
        (48 + n as u8) as char
    } else {
        (87 + n as u8) as char
    }
}

/// How one character appears inside a JSON string literal: quote,
/// backslash and the named control characters get two-character escapes,
/// other control characters a `\u00XX` escape, everything else itself.
pub open spec fn spec_escape_char(c: char) -> Seq<char> {
    if c == '"' {
        "\\\""@
    } else if c == '\\' {
        "\\\\"@
    } else if c == '\n' {
        "\\n"@
    } else if c == '\r' {
        "\\r"@
    } else if c == '\t' {
        "\\t"@
    } else if c == '\u{08}' {
        "\\b"@
    } else if c == '\u{0c}' {
        "\\f"@
    } else if (c as u32) < 32 {
        "\\u00"@ + seq![
            spec_hex_digit((c as u32) as int / 16),
            spec_hex_digit((c as u32) as int % 16),
        ]
    } else {
        seq![c]
    }
}

/// A character sequence escaped for a JSON string literal.
pub open spec fn spec_escape(s: Seq<char>) -> Seq<char>
    decreases s.len(),
{
    if s.len() == 0 {
        Seq::empty()
    } else {
        spec_escape(s.drop_last()) + spec_escape_char(s.last())
    }
}

/// A JSON string literal: quotes around the escaped content.
pub open spec fn spec_json_string(s: Seq<char>) -> Seq<char> {
    "\""@ + spec_escape(s) + "\""@
}

/// An optional string as JSON: `null` when unset.
pub open spec fn spec_opt_string_json(o: Option<Seq<char>>) -> Seq<char> {
    match o {
        None => "null"@,
        Some(s) => spec_json_string(s),
    }
}

/// An optional boolean as JSON: `null` when unset.
pub open spec fn spec_opt_bool_json(o: Option<bool>) -> Seq<char> {
    match o {
        None => "null"@,
        Some(b) => if b {
            "true"@
        } else {
            "false"@
        },
    }
}

/// The comma-separated items of a JSON array of strings.
pub open spec fn spec_args_items(args: Seq<Seq<char>>) -> Seq<char>
    decreases args.len(),
{
    if args.len() == 0 {
        Seq::empty()
    } else if args.len() == 1 {
        spec_json_string(args[0])
    } else {
        spec_args_items(args.drop_last()) + ","@ + spec_json_string(args.last())
    }
}

/// A JSON array of strings.
pub open spec fn spec_args_json(args: Seq<Seq<char>>) -> Seq<char> {
    "["@ + spec_args_items(args) + "]"@
}

/// The JSON text of a debug configuration, fields in declaration order,
/// unset fields as `null`.
pub open spec fn spec_config_json(c: ConfigView) -> Seq<char> {
    "{\"contextPath\":"@ + spec_opt_string_json(c.context_path) + ",\"dockerfile\":"@
        + spec_opt_string_json(c.dockerfile) + ",\"request\":"@ + spec_json_string(c.request)
        + ",\"args\":"@ + spec_args_json(c.args) + ",\"stopOnEntry\":"@ + spec_opt_bool_json(
        c.stop_on_entry,
    ) + ",\"target\":"@ + spec_opt_string_json(c.target) + "}"@
}

fn append_escaped(out: &mut String, s: &str)
    ensures
        final(out)@ == old(out)@ + spec_escape(s@),
{
    let n = s.unicode_len();
    let mut i: usize = 0;
    while i < n
        invariant
            n == s@.len(),
            i <= n,
            out@ == old(out)@ + spec_escape(s@.subrange(0, i as int)),
        decreases n - i,
    {
        let c = s.get_char(i);
        if c == '"' {
            out.append("\\\"");
        } else if c == '\\' {
            out.append("\\\\");
        } else if c == '\n' {
            out.append("\\n");
        } else if c == '\r' {
            out.append("\\r");
        } else if c == '\t' {
            out.append("\\t");
        } else if c == '\u{08}' {
            out.append("\\b");
        } else if c == '\u{0c}' {
            out.append("\\f");
        } else if (c as u32) < 32 {
            let code = c as u32;
            out.append("\\u00");
            out.push(hex_digit(code / 16));
            out.push(hex_digit(code % 16));
        } else {
            out.push(c);
        }
        proof {
            assert(s@.subrange(0, i + 1 as int).drop_last() =~= s@.subrange(0, i as int));
            assert(s@.subrange(0, i + 1 as int).last() == s@[i as int]);
            assert(out@ =~= old(out)@ + spec_escape(s@.subrange(0, i + 1 as int)));
        }
        i = i + 1;
    }
    proof {
        assert(s@.subrange(0, n as int) =~= s@);
    }
}

fn append_json_string(out: &mut String, s: &str)
    ensures
        final(out)@ == old(out)@ + spec_json_string(s@),
{
    out.append("\"");
    append_escaped(out, s);
    out.append("\"");
    proof {
        assert(out@ =~= old(out)@ + spec_json_string(s@));
    }
}

fn append_opt_string(out: &mut String, o: &Option<String>)
    ensures
        final(out)@ == old(out)@ + spec_opt_string_json(opt_view(*o)),
{
    match o {
        None => out.append("null"),
        Some(s) => append_json_string(out, s.as_str()),
    }
}

fn append_opt_bool(out: &mut String, o: &Option<bool>)
    ensures
        final(out)@ == old(out)@ + spec_opt_bool_json(*o),
{
    match o {
        None => out.append("null"),
        Some(b) => {
            if *b {
                out.append("true")
            } else {
                out.append("false")
            }
        },
    }
}

fn append_args(out: &mut String, args: &Vec<String>)
    ensures
        final(out)@ == old(out)@ + spec_args_json(args@.map_values(|s: String| s@)),
{
    let ghost view: Seq<Seq<char>> = args@.map_values(|s: String| s@);
    out.append("[");
    let n = args.len();
    let mut i: usize = 0;
    while i < n
        invariant
            n == args@.len(),
            i <= n,
            view == args@.map_values(|s: String| s@),
            out@ == old(out)@ + "["@ + spec_args_items(view.subrange(0, i as int)),
        decreases n - i,
    {
        if i > 0 {
            out.append(",");
        }
        append_json_string(out, args[i].as_str());
        proof {
            assert(view.subrange(0, i + 1 as int).drop_last() =~= view.subrange(0, i as int));
            assert(view.subrange(0, i + 1 as int).last() == view[i as int]);
            assert(view[i as int] == args@[i as int]@);
            assert(out@ =~= old(out)@ + "["@ + spec_args_items(view.subrange(0, i + 1 as int)));
        }
        i = i + 1;
    }
    out.append("]");
    proof {
        assert(view.subrange(0, n as int) =~= view);
        assert(out@ =~= old(out)@ + spec_args_json(view));
    }
}

/// Serializes a debug configuration as JSON text, exactly as
/// `spec_config_json` states it.
pub fn serialize_config(c: &DockerfileDebugConfig) -> (r: String)
    ensures
        r@ == spec_config_json(c@),
{
    let mut out = String::new();
    out.append("{\"contextPath\":");
    append_opt_string(&mut out, &c.context_path);
    out.append(",\"dockerfile\":");
    append_opt_string(&mut out, &c.dockerfile);
    out.append(",\"request\":");
    append_json_string(&mut out, c.request.as_str());
    out.append(",\"args\":");
    append_args(&mut out, &c.args);
    out.append(",\"stopOnEntry\":");
    append_opt_bool(&mut out, &c.stop_on_entry);
    out.append(",\"target\":");
    append_opt_string(&mut out, &c.target);
    out.append("}");
    proof {
        assert(out@ =~= spec_config_json(c@));
    }
    out
}

/// How an optional string field reads: absent and null are unset, a
/// string is its content, anything else is a type error.
pub open spec fn spec_opt_str_field(f: JsonField) -> Option<Option<Seq<char>>> {
    match f {
        JsonField::Absent => Some(None),
        JsonField::Null => Some(None),
        JsonField::Str(s) => Some(Some(s@)),
        _ => None,
    }
}

/// How the required request field reads: only a string is accepted.
pub open spec fn spec_req_field(f: JsonField) -> Option<Seq<char>> {
    match f {
        JsonField::Str(s) => Some(s@),
        _ => None,
    }
}

/// How an optional boolean field reads.
pub open spec fn spec_opt_bool_field(f: JsonField) -> Option<Option<bool>> {
    match f {
        JsonField::Absent => Some(None),
        JsonField::Null => Some(None),
        JsonField::Boolean(b) => Some(Some(b)),
        _ => None,
    }
}

/// How the args field reads: absent defaults to the empty list; an array
/// is accepted when every element is a string; anything else is a type
/// error.
pub open spec fn spec_args_field(f: JsonField) -> Option<Seq<Seq<char>>> {
    match f {
        JsonField::Absent => Some(Seq::empty()),
        JsonField::Arr(a) => if forall|i: int| 0 <= i < a@.len() ==> spec_json_as_str(a@[i]) is Some {
            Some(Seq::new(a@.len(), |i: int| spec_json_as_str(a@[i])->Some_0))
        } else {
            None
        },
        _ => None,
    }
}

/// What a JSON value reads as a debug configuration, if it does.
pub open spec fn spec_parse_config(v: serde_json::Value) -> Option<ConfigView> {
    let cp = spec_opt_str_field(spec_json_field(v, "contextPath"@));
    let df = spec_opt_str_field(spec_json_field(v, "dockerfile"@));
    let rq = spec_req_field(spec_json_field(v, "request"@));
    let ar = spec_args_field(spec_json_field(v, "args"@));
    let se = spec_opt_bool_field(spec_json_field(v, "stopOnEntry"@));
    let tg = spec_opt_str_field(spec_json_field(v, "target"@));
    if cp is Some && df is Some && rq is Some && ar is Some && se is Some && tg is Some {
        Some(
            ConfigView {
                context_path: cp->Some_0,
                dockerfile: df->Some_0,
                request: rq->Some_0,
                args: ar->Some_0,
                stop_on_entry: se->Some_0,
                target: tg->Some_0,
            },
        )
    } else {
        None
    }
}

fn bad_field(key: &str) -> (r: Error)
    ensures
        r is InvalidConfig,
{
    let mut m = String::from_str("`config` is not a valid Dockerfile config: unexpected value for field `");
    m.append(key);
    m.append("`");
    Error::InvalidConfig { message: m }
}

fn opt_str_field(v: &serde_json::Value, key: &str) -> (r: Result<Option<String>, Error>)
    ensures
        (r is Ok) == (spec_opt_str_field(spec_json_field(*v, key@)) is Some),
        r matches Ok(o) ==> Some(opt_view(o)) == spec_opt_str_field(spec_json_field(*v, key@)),
        r matches Err(e) ==> e is InvalidConfig,
{
    match json_field(v, key) {
        JsonField::Absent => Ok(None),
        JsonField::Null => Ok(None),
        JsonField::Str(s) => Ok(Some(s)),
        _ => Err(bad_field(key)),
    }
}

fn req_field(v: &serde_json::Value, key: &str) -> (r: Result<String, Error>)
    ensures
        (r is Ok) == (spec_req_field(spec_json_field(*v, key@)) is Some),
        r matches Ok(s) ==> Some(s@) == spec_req_field(spec_json_field(*v, key@)),
        r matches Err(e) ==> e is InvalidConfig,
{
    match json_field(v, key) {
        JsonField::Str(s) => Ok(s),
        _ => Err(bad_field(key)),
    }
}

fn opt_bool_field(v: &serde_json::Value, key: &str) -> (r: Result<Option<bool>, Error>)
    ensures
        (r is Ok) == (spec_opt_bool_field(spec_json_field(*v, key@)) is Some),
        r matches Ok(o) ==> Some(o) == spec_opt_bool_field(spec_json_field(*v, key@)),
        r matches Err(e) ==> e is InvalidConfig,
{
    match json_field(v, key) {
        JsonField::Absent => Ok(None),
        JsonField::Null => Ok(None),
        JsonField::Boolean(b) => Ok(Some(b)),
        _ => Err(bad_field(key)),
    }
}

fn args_field(v: &serde_json::Value, key: &str) -> (r: Result<Vec<String>, Error>)
    ensures
        (r is Ok) == (spec_args_field(spec_json_field(*v, key@)) is Some),
        r matches Ok(a) ==> Some(a@.map_values(|s: String| s@)) == spec_args_field(
            spec_json_field(*v, key@),
        ),
        r matches Err(e) ==> e is InvalidConfig,
{
    match json_field(v, key) {
        JsonField::Absent => Ok(Vec::new()),
        JsonField::Arr(items) => {
            let mut out: Vec<String> = Vec::new();
            let n = items.len();
            let mut i: usize = 0;
            while i < n
                invariant
                    spec_json_field(*v, key@) == JsonField::Arr(items),
                    n == items@.len(),
                    i <= n,
                    out@.len() == i,
                    forall|j: int|
                        0 <= j < i ==> spec_json_as_str(items@[j]) is Some && Some(out@[j]@)
                            == spec_json_as_str(items@[j]),
                decreases n - i,
            {
                match json_as_str(&items[i]) {
                    Some(s) => out.push(s),
                    None => {
                        proof {
                            assert(spec_json_as_str(items@[i as int]) is None);
                            assert(!(forall|k: int|
                                0 <= k < items@.len() ==> spec_json_as_str(items@[k]) is Some));
                        }
                        return Err(bad_field(key));
                    },
                }
                i = i + 1;
            }
            proof {
                assert(out@.map_values(|s: String| s@) =~= Seq::new(
                    items@.len(),
                    |j: int| spec_json_as_str(items@[j])->Some_0,
                ));
            }
            Ok(out)
        },
        _ => Err(bad_field(key)),
    }
}

/// Reads a JSON value as a debug configuration, exactly as
/// `spec_parse_config` states it; fails with `InvalidConfig` otherwise.
pub fn parse_debug_config(v: &serde_json::Value) -> (r: Result<DockerfileDebugConfig, Error>)
    ensures
        (r is Ok) == (spec_parse_config(*v) is Some),
        r matches Ok(c) ==> Some(c@) == spec_parse_config(*v),
        r matches Err(e) ==> e is InvalidConfig,
{
    let context_path = match opt_str_field(v, "contextPath") {
        Ok(x) => x,
        Err(e) => {
            return Err(e);
        },
    };
    let dockerfile = match opt_str_field(v, "dockerfile") {
        Ok(x) => x,
        Err(e) => {
            return Err(e);
        },
    };
    let request = match req_field(v, "request") {
        Ok(x) => x,
        Err(e) => {
            return Err(e);
        },
    };
    let args = match args_field(v, "args") {
        Ok(x) => x,
        Err(e) => {
            return Err(e);
        },
    };
    let stop_on_entry = match opt_bool_field(v, "stopOnEntry") {
        Ok(x) => x,
        Err(e) => {
            return Err(e);
        },
    };
    let target = match opt_str_field(v, "target") {
        Ok(x) => x,
        Err(e) => {
            return Err(e);
        },
    };
    let c = DockerfileDebugConfig { context_path, dockerfile, request, args, stop_on_entry, target };
    proof {
        assert(c@ =~= spec_parse_config(*v)->Some_0);
    }
    Ok(c)
}

} // verus!
