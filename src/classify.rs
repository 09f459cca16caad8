//! Decides from a `User-Agent` value whether the caller is a command-line
//! fetch tool or an interactive browser.

use vstd::prelude::*;

verus! {

/// The tool names that mark a command-line client, each of which must be
/// followed by a `/` in the user agent.
pub open spec fn cli_tool_names() -> Seq<Seq<char>> {
    seq!["curl"@, "wget"@, "Wget"@, "fetch slibfetch"@]
}

/// The tool name `name` followed by `/` starts at position `at` of `ua`, and
/// no line break follows it up to the end of `ua`.
pub open spec fn cli_tool_at(ua: Seq<char>, name: Seq<char>, at: int) -> bool {
    &&& 0 <= at
    &&& at + name.len() + 1 <= ua.len()
    &&& ua.subrange(at, at + name.len()) == name
    &&& ua[at + name.len()] == '/'
    &&& forall|j: int| at + name.len() + 1 <= j < ua.len() ==> ua[j] != '\n'
}

/// A user agent names a command-line client when one of the tool names,
/// followed by `/`, occurs in it with no line break after it.
pub open spec fn is_cli_agent(ua: Seq<char>) -> bool {
    exists|t: int, at: int|
        0 <= t < cli_tool_names().len() && #[trigger] cli_tool_at(ua, cli_tool_names()[t], at)
}

/// Relies on regex::Regex::new and regex::Regex::is_match for the one
/// pattern `(curl|wget|Wget|fetch slibfetch)/.*$`: it compiles, and a search
/// finds it somewhere in `text` exactly when one of the alternatives and a
/// `/` occur there and `.*$` reaches the end of `text`; `.` matches every
/// character but `\n` and `$` matches only at the end of the text.
#[verifier::external_body]
fn cli_pattern_is_match(pattern: &str, text: &str) -> (r: bool)
    requires
        pattern@ == "(curl|wget|Wget|fetch slibfetch)/.*$"@,
    ensures
        r == is_cli_agent(text@),
{
    match regex::Regex::new(pattern) {
        Ok(re) => re.is_match(text),
        Err(_) => false,
    }
}

/// Classifies a client by its `User-Agent` value (the empty string when the
/// header is absent): true for a command-line fetch tool.
pub fn is_cli(user_agent: &str) -> (r: bool)
    ensures
        r == is_cli_agent(user_agent@),
{
    cli_pattern_is_match("(curl|wget|Wget|fetch slibfetch)/.*$", user_agent)
}

} // verus!
