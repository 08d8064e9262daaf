//! What the bot answers to its simpler commands.

use crate::text::{decimal, decimal_string, join, joined};
use vstd::prelude::*;
use vstd::string::*;

verus! {

/// Where the bot's source is kept.
pub const GITHUB_URL: &'static str = "https://github.com/JohnTheCoolingFan/rusted-motorchik";

/// What stands for the second home of the bot's source.
pub const GITLAB_URL: &'static str = "Sorry, not available yet";

/// The answer that says where the source is.
pub open spec fn source_text() -> Seq<char> {
    "Choose whichever you want:\nGitHub: "@ + GITHUB_URL@ + "\nGitLab: "@ + GITLAB_URL@
}

/// Says where the source is.
pub fn source_reply() -> (text: String)
    ensures
        text@ == source_text(),
{
    let mut text = String::from_str("Choose whichever you want:\nGitHub: ");
    text.append(GITHUB_URL);
    text.append("\nGitLab: ");
    text.append(GITLAB_URL);
    text
}

/// Passes a private message on to the bot's owner: who wrote it, and what.
pub fn dm_redirect_text(author_tag: &str, content: &str) -> (text: String)
    ensures
        text@ == "I have received a message from "@ + author_tag@ + ":\n"@ + content@,
{
    let mut text = String::from_str("I have received a message from ");
    text.append(author_tag);
    text.append(":\n");
    text.append(content);
    text
}

/// The arguments of a command, with a comma and a space between each two.
pub fn argument_list(arguments: &Vec<String>) -> (text: String)
    ensures
        text@ == joined(arguments.deep_view(), ", "@),
{
    join(arguments, ", ")
}

/// Says how many arguments a command was given, and which.
pub fn arguments_reply(count: usize, arguments: &str) -> (text: String)
    ensures
        text@ == "Passed "@ + decimal(count as nat) + " arguments: "@ + arguments@,
{
    let mut text = String::from_str("Passed ");
    text.append(decimal_string(count as u64).as_str());
    text.append(" arguments: ");
    text.append(arguments);
    text
}

/// Says how many messages were deleted.
pub fn deleted_reply(count: usize) -> (text: String)
    ensures
        text@ == "Deleted "@ + decimal(count as nat) + " message(s)"@,
{
    let mut text = String::from_str("Deleted ");
    text.append(decimal_string(count as u64).as_str());
    text.append(" message(s)");
    text
}

} // verus!
