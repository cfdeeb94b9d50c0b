use vstd::prelude::*;

verus! {

/// Why loading the configuration or signing the token failed. Each variant
/// keeps the diagnostic of the step that failed.
#[derive(Debug, PartialEq)]
pub enum JwtError {
    /// The configuration file could not be read.
    ReadFileErr(String),
    /// The claims could not be serialised or signed.
    CreateTokenErr(String),
    /// The configuration text is not TOML, or lacks `payload` or `secretkey.value`.
    TomlErr(String),
}

impl JwtError {
    /// The diagnostic carried by the error.
    pub open spec fn detail(&self) -> String {
        match self {
            JwtError::ReadFileErr(m) => *m,
            JwtError::CreateTokenErr(m) => *m,
            JwtError::TomlErr(m) => *m,
        }
    }

    /// The step of the pipeline that failed, as it is named to a user.
    pub fn stage(&self) -> (r: &'static str)
        ensures
            self is ReadFileErr ==> r@ == "reading the configuration file"@,
            self is CreateTokenErr ==> r@ == "signing the token"@,
            self is TomlErr ==> r@ == "parsing the configuration"@,
    {
        match self {
            JwtError::ReadFileErr(_) => "reading the configuration file",
            JwtError::CreateTokenErr(_) => "signing the token",
            JwtError::TomlErr(_) => "parsing the configuration",
        }
    }

    /// The diagnostic carried by the error, as it is shown to a user.
    pub fn message(&self) -> (r: &String)
        ensures
            *r == self.detail(),
    {
        match self {
            JwtError::ReadFileErr(m) => m,
            JwtError::CreateTokenErr(m) => m,
            JwtError::TomlErr(m) => m,
        }
    }
}

} // verus!
