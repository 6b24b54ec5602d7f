//! The lines typed into the server's console.

use vstd::prelude::*;
use vstd::string::*;
use crate::supervisor::{Notice, ServerCommand};

verus! {

/// The command that shows `message` to every player, coloured, with the
/// scheduled shutdown time in a tooltip.
pub open spec fn tellraw_spec(message: Seq<char>, scheduled: Seq<char>) -> Seq<char> {
    "tellraw @a {\"text\":\""@ + message
        + "\",\"color\":\"#FBA800\",\"hoverEvent\":{\"action\":\"show_text\",\"contents\":{\"text\":\"Scheduled shutdown time: "@
        + scheduled + "\"}}}"@
}

/// Builds the command that shows `message` to every player.
pub fn tellraw(message: &str, scheduled: &str) -> (r: String)
    ensures
        r@ == tellraw_spec(message@, scheduled@),
{
    let mut out = String::from_str("tellraw @a {\"text\":\"");
    out.append(message);
    out.append(
        "\",\"color\":\"#FBA800\",\"hoverEvent\":{\"action\":\"show_text\",\"contents\":{\"text\":\"Scheduled shutdown time: ",
    );
    out.append(scheduled);
    out.append("\"}}}");
    out
}

/// Ends `input` with a line feed, as the console expects it.
pub fn console_line(input: &str) -> (r: String)
    ensures
        r@ == input@ + "\n"@,
{
    let mut out = String::from_str(input);
    out.append("\n");
    out
}

/// The console line that announces `notice`.
pub fn announcement_line(notice: Notice, scheduled: &str) -> (r: String)
    ensures
        r@ == tellraw_spec(notice.text_spec(), scheduled@) + "\n"@,
{
    let command = tellraw(notice.text(), scheduled);
    console_line(command.as_str())
}

/// The console line that gives `command`.
pub fn command_line(command: ServerCommand) -> (r: String)
    ensures
        r@ == command.text_spec() + "\n"@,
{
    console_line(command.text())
}

} // verus!
