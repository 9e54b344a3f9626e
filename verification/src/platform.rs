//! The two supported install platforms and their canonical textual form.

use vstd::prelude::*;

use crate::error::ConfigError;
use crate::strutil::str_eq;

verus! {

/// Pointer-width variant of the dependent third-party installation.
#[derive(Clone, Copy, Debug, PartialEq, Eq, Structural, Hash)]
pub enum Platform {
    X64,
    X32,
}

/// Canonical lowercase rendering of a platform.
pub open spec fn platform_word(p: Platform) -> Seq<char> {
    match p {
        Platform::X64 => "x64"@,
        Platform::X32 => "x32"@,
    }
}

/// The platform a string denotes: exactly the two canonical renderings
/// parse, everything else is rejected.
pub open spec fn platform_of_word(w: Seq<char>) -> Option<Platform> {
    if w == "x64"@ {
        Some(Platform::X64)
    } else if w == "x32"@ {
        Some(Platform::X32)
    } else {
        None
    }
}

impl Platform {
    /// The canonical textual form, `"x64"` or `"x32"`.
    pub fn as_str(&self) -> (r: &'static str)
        ensures
            r@ == platform_word(*self),
    {
        match self {
            Platform::X64 => "x64",
            Platform::X32 => "x32",
        }
    }

    /// Parses the canonical textual form; any other input fails.
    pub fn from_str(s: &str) -> (r: Result<Platform, ConfigError>)
        ensures
            r is Ok <==> platform_of_word(s@) is Some,
            r matches Ok(p) ==> platform_of_word(s@) == Some(p),
            r matches Err(e) ==> e.is_parse(),
    {
        if str_eq(s, "x64") {
            Ok(Platform::X64)
        } else if str_eq(s, "x32") {
            Ok(Platform::X32)
        } else {
            Err(ConfigError::Parse(String::from_str("Invalid platform")))
        }
    }
}

impl Default for Platform {
    /// The native default platform of the reference hosts.
    fn default() -> (r: Self)
        ensures
            r == Platform::X64,
    {
        Platform::X64
    }
}

/// Law: rendering a platform and parsing the rendering yields the platform
/// back; the parser accepts nothing but the two canonical renderings.
pub proof fn lemma_platform_round_trip(p: Platform)
    ensures
        platform_of_word(platform_word(p)) == Some(p),
{
    reveal_strlit("x64");
    reveal_strlit("x32");
    assert("x64"@[0] == 'x' && "x64"@[1] == '6');
    assert("x32"@[1] == '3');
}

} // verus!
