//! Rendering of the provisioning file that pins a server URL for managed
//! installations, and the boolean convention its inputs use.

use vstd::prelude::*;

use crate::json::{append_json_string, json_string};
use crate::text::{ascii_lower, to_ascii_lower, trim_spaces, trim_str};

verus! {

/// The affirmative spellings: `1`, `true`, `yes` and `y`, after trimming
/// and lowering; everything else is false.
pub open spec fn spec_parse_bool(value: Seq<char>) -> bool {
    let t = ascii_lower(trim_spaces(value));
    t == "1"@ || t == "true"@ || t == "yes"@ || t == "y"@
}

/// Reads a configuration boolean.
pub fn parse_bool(value: &str) -> (r: bool)
    ensures
        r == spec_parse_bool(value@),
{
    let trimmed = trim_str(value);
    let lowered = to_ascii_lower(trimmed.as_str());
    let t = lowered.as_str();
    crate::text::str_eq(t, "1") || crate::text::str_eq(t, "true") || crate::text::str_eq(t, "yes")
        || crate::text::str_eq(t, "y")
}

/// The provisioning file's content: a pretty-printed JSON object holding
/// the server URL and whether the connection mode is locked.
pub open spec fn provisioning_config_spec(server_url: Seq<char>, lock: bool) -> Seq<char> {
    "{\n  \"serverUrl\": "@ + json_string(server_url) + ",\n  \"lockConnectionMode\": "@ + (if lock {
        "true"@
    } else {
        "false"@
    }) + "\n}"@
}

/// Renders the provisioning file's content.
pub fn render_provisioning_config(server_url: &str, lock: bool) -> (r: String)
    ensures
        r@ == provisioning_config_spec(server_url@, lock),
{
    let mut out = "{\n  \"serverUrl\": ".to_owned();
    append_json_string(&mut out, server_url);
    out.append(",\n  \"lockConnectionMode\": ");
    if lock {
        out.append("true");
    } else {
        out.append("false");
    }
    out.append("\n}");
    proof {
        assert(out@ =~= provisioning_config_spec(server_url@, lock));
    }
    out
}

} // verus!
