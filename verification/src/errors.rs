use vstd::prelude::*;

verus! {

use vstd::string::StringExecFns;

/// Errors surfaced by the library. Configuration problems are fatal at
/// startup: a config that cannot be used is reported, never partially
/// applied.
#[derive(Debug)]
pub enum VibinRemoteError {
    /// The configuration could not be loaded or parsed; carries a
    /// human-readable description.
    AppConfigError(String),
    /// A configured key name matched no recognized key.
    InvalidKeyName { key_name: String },
}

impl VibinRemoteError {
    /// Human-readable description of the error, suitable for a log line.
    pub fn message(&self) -> (r: String)
        ensures
            match self {
                VibinRemoteError::AppConfigError(m) => r@ == m@,
                VibinRemoteError::InvalidKeyName { key_name } => r@ == "Provided key name was invalid: "@
                    + key_name@,
            },
    {
        match self {
            VibinRemoteError::AppConfigError(message) => message.clone(),
            VibinRemoteError::InvalidKeyName { key_name } => String::from_str(
                "Provided key name was invalid: ",
            ).concat(key_name.as_str()),
        }
    }
}

} // verus!
