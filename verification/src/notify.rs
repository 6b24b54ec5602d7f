//! The two messages posted to the notification channel.

use vstd::prelude::*;
use vstd::string::*;
use crate::text::{trim, trimmed};

verus! {

/// The JSON string literal that serde_json writes for `text`: the text in
/// double quotes, with the characters escaped that JSON wants escaped.
pub uninterp spec fn json_string(text: Seq<char>) -> Seq<char>;

/// Makes a `serde_json::Value` of `text` and serialises it with the
/// value's `Display`. The contract only gives the result its name.
#[verifier::external_body]
fn quote(text: &str) -> (r: String)
    ensures
        r@ == json_string(text@),
{
    serde_json::Value::from(text).to_string()
}

/// `text` between backticks, which the channel shows as code.
pub open spec fn code_spec(text: Seq<char>) -> Seq<char> {
    "`"@ + text + "`"@
}

/// The body of the message sent before the launch: a greeting under the
/// application's name, with one embed that lists level, version, host and
/// shutdown time.
pub open spec fn launch_body_spec(
    app_name: Seq<char>,
    level_name: Seq<char>,
    version: Seq<char>,
    host: Seq<char>,
    scheduled: Seq<char>,
) -> Seq<char> {
    "{\"avatar_url\":\"https://i.imgur.com/KeSlNUv.png\",\"content\":\"Launching server...\",\"embeds\":[{\"color\":3451439,\"fields\":[{\"inline\":true,\"name\":\"Level Name:\",\"value\":"@
        + json_string(code_spec(level_name))
        + "},{\"inline\":true,\"name\":\"Minecraft Version:\",\"value\":"@
        + json_string(code_spec(version))
        + "},{\"inline\":true,\"name\":\"Server Host:\",\"value\":"@
        + json_string(code_spec(host))
        + "},{\"name\":\"Shutdown scheduled for:\",\"value\":"@
        + json_string(code_spec(scheduled))
        + "}],\"footer\":{\"icon_url\":\"https://i.imgur.com/DHgRvnF.png\",\"text\":\"Server Info\"}}],\"username\":"@
        + json_string(app_name) + "}"@
}

/// The body of the message sent once the server is down.
pub open spec fn shutdown_body_spec(app_name: Seq<char>) -> Seq<char> {
    "{\"avatar_url\":\"https://i.imgur.com/KeSlNUv.png\",\"content\":\"Server has shutdown.\",\"username\":"@
        + json_string(app_name) + "}"@
}

/// Appends to `out` the JSON string for `text` shown as code.
fn push_code(out: &mut String, text: &str)
    ensures
        final(out)@ == old(out)@ + json_string(code_spec(text@)),
{
    let shown = crate::text::join3("`", text, "`");
    let quoted = quote(shown.as_str());
    out.append(quoted.as_str());
}

/// Builds the JSON body of the launch message.
pub fn launch_body(
    app_name: &str,
    level_name: &str,
    version: &str,
    host: &str,
    scheduled: &str,
) -> (r: String)
    ensures
        r@ == launch_body_spec(app_name@, level_name@, version@, host@, scheduled@),
{
    let mut out = String::from_str(
        "{\"avatar_url\":\"https://i.imgur.com/KeSlNUv.png\",\"content\":\"Launching server...\",\"embeds\":[{\"color\":3451439,\"fields\":[{\"inline\":true,\"name\":\"Level Name:\",\"value\":",
    );
    push_code(&mut out, level_name);
    out.append("},{\"inline\":true,\"name\":\"Minecraft Version:\",\"value\":");
    push_code(&mut out, version);
    out.append("},{\"inline\":true,\"name\":\"Server Host:\",\"value\":");
    push_code(&mut out, host);
    out.append("},{\"name\":\"Shutdown scheduled for:\",\"value\":");
    push_code(&mut out, scheduled);
    out.append(
        "}],\"footer\":{\"icon_url\":\"https://i.imgur.com/DHgRvnF.png\",\"text\":\"Server Info\"}}],\"username\":",
    );
    let name = quote(app_name);
    out.append(name.as_str());
    out.append("}");
    out
}

/// Builds the JSON body of the shutdown message.
pub fn shutdown_body(app_name: &str) -> (r: String)
    ensures
        r@ == shutdown_body_spec(app_name@),
{
    let mut out = String::from_str(
        "{\"avatar_url\":\"https://i.imgur.com/KeSlNUv.png\",\"content\":\"Server has shutdown.\",\"username\":",
    );
    let name = quote(app_name);
    out.append(name.as_str());
    out.append("}");
    out
}

/// The channel's address as its file gives it: the contents without the
/// whitespace around them.
pub fn webhook_address(contents: &str) -> (r: String)
    ensures
        r@ == trimmed(contents@),
{
    String::from_str(trim(contents))
}

} // verus!
