//! Build-time version information and its display rendering.

use vstd::prelude::*;

verus! {

/// Version information about the running binary, gathered at build time.
#[derive(Clone, Copy, Debug)]
pub struct VersionInfo {
    /// Name of the system component.
    pub name: &'static str,
    /// Version string (e.g., "1.0.0").
    pub version: &'static str,
    /// Git branch, if available.
    pub branch: Option<&'static str>,
    /// Git commit hash, if available.
    pub commit_hash: Option<&'static str>,
    /// Compiler used for building.
    pub compiler: &'static str,
    /// Compile timestamp, as an RFC 2822 date.
    pub compile_time: &'static str,
}

/// An optional field's text: its value, or "None".
pub open spec fn optional_text(o: Option<&'static str>) -> Seq<char> {
    match o {
        Some(s) => s@,
        None => "None"@,
    }
}

impl VersionInfo {
    /// The display text, given the already-formatted compile time.
    pub open spec fn render_spec(&self, formatted_compile_time: Seq<char>) -> Seq<char> {
        "Module Name:   "@ + self.name@ + "\nVersion:       "@ + self.version@
            + "\nBranch:        "@ + optional_text(self.branch) + "\nCommit Hash:   "@
            + optional_text(self.commit_hash) + "\nCompiler:      "@ + self.compiler@
            + "\nCompile Time:  "@ + formatted_compile_time
    }

    /// Renders the version information, taking the compile time already
    /// formatted for the machine's locale, since that formatting is the
    /// time-zone-dependent part.
    pub fn render(&self, formatted_compile_time: &str) -> (r: String)
        ensures
            r@ == self.render_spec(formatted_compile_time@),
    {
        let mut r = String::from_str("Module Name:   ");
        r.append(self.name);
        r.append("\nVersion:       ");
        r.append(self.version);
        r.append("\nBranch:        ");
        match self.branch {
            Some(b) => r.append(b),
            None => r.append("None"),
        }
        r.append("\nCommit Hash:   ");
        match self.commit_hash {
            Some(c) => r.append(c),
            None => r.append("None"),
        }
        r.append("\nCompiler:      ");
        r.append(self.compiler);
        r.append("\nCompile Time:  ");
        r.append(formatted_compile_time);
        r
    }

    /// The display text of this version information, with the compile time
    /// rendered in the machine's local time zone.
    pub fn display_text(&self) -> (r: String)
        ensures
            exists|t: Seq<char>| r@ == self.render_spec(t),
    {
        let formatted = format_compile_time_local(self.compile_time);
        let r = self.render(formatted.as_str());
        proof {
            assert(r@ == self.render_spec(formatted@));
        }
        r
    }
}

/// Relies on chrono's `DateTime::parse_from_rfc2822`, `with_timezone` with
/// the machine's local zone, and `format("%Y-%m-%d %H:%M:%S")`, falling
/// back to the epoch when the input does not parse. The text depends on
/// the machine's time zone, so nothing is stated of it.
#[verifier::external_body]
fn format_compile_time_local(compile_time: &str) -> (r: String) {
    let dt = chrono::DateTime::parse_from_rfc2822(compile_time).unwrap_or_default();
    let local_dt = dt.with_timezone(&chrono::Local);
    local_dt.format("%Y-%m-%d %H:%M:%S").to_string()
}

} // verus!
