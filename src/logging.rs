use vstd::prelude::*;

verus! {

/// Verbosity chosen for the server's own log targets.
#[derive(Clone, Copy, Debug, PartialEq, Eq, Structural)]
pub enum LogLevel {
    Error,
    Info,
    Debug,
}

/// Lower-case name of a level, as it appears in a filter directive.
pub open spec fn level_name(level: LogLevel) -> Seq<char> {
    match level {
        LogLevel::Error => "error"@,
        LogLevel::Info => "info"@,
        LogLevel::Debug => "debug"@,
    }
}

/// Filter directive that sets the server's targets to `level` and keeps
/// whatever the environment asked for after it.
pub open spec fn directive(level: LogLevel, env: Seq<char>) -> Seq<char> {
    "hickory_="@ + level_name(level) + ","@ + env
}

pub fn level_str(level: LogLevel) -> (r: &'static str)
    ensures
        r@ == level_name(level),
{
    match level {
        LogLevel::Error => "error",
        LogLevel::Info => "info",
        LogLevel::Debug => "debug",
    }
}

/// Builds the filter directive for `level` followed by the environment's own.
pub fn filter_directive(level: LogLevel, env: &str) -> (r: String)
    ensures
        r@ == directive(level, env@),
{
    let mut s = String::from_str("hickory_=");
    s.append(level_str(level));
    s.append(",");
    s.append(env);
    s
}

/// Directive for debug output.
pub fn debug(env: &str) -> (r: String)
    ensures
        r@ == directive(LogLevel::Debug, env@),
{
    filter_directive(LogLevel::Debug, env)
}

/// Directive for the usual informational output.
pub fn default(env: &str) -> (r: String)
    ensures
        r@ == directive(LogLevel::Info, env@),
{
    filter_directive(LogLevel::Info, env)
}

/// Directive for quiet output: errors only.
pub fn quiet(env: &str) -> (r: String)
    ensures
        r@ == directive(LogLevel::Error, env@),
{
    filter_directive(LogLevel::Error, env)
}

/// Lines that announce the server once it is configured.
pub open spec fn banner_lines() -> Seq<Seq<char>> {
    seq![""@, " Hickory DNS"@, ""@]
}

/// The announcement, one log line per element.
pub fn banner() -> (r: Vec<String>)
    ensures
        r@.map_values(|l: String| l@) == banner_lines(),
{
    let r = vec![String::from_str(""), String::from_str(" Hickory DNS"), String::from_str("")];
    proof {
        assert(r@.map_values(|l: String| l@) =~= banner_lines());
    }
    r
}

} // verus!
