use vstd::prelude::*;
use vstd::string::*;

verus! {

/// Why loading a plugin or creating a capability object from it failed.
#[derive(Debug)]
pub enum PluginError {
    /// The operating system has no known naming convention for shared libraries.
    UnsupportedPlatform,
    /// The dynamic loader could not map the library; holds its diagnostic.
    Load(String),
    /// The library does not export the requested factory; holds the diagnostic.
    Symbol(String),
    /// The plugin's factory reported a failure; holds its message.
    Factory(String),
}

impl PluginError {
    /// The text that describes this error to a user.
    pub open spec fn spec_message(&self) -> Seq<char> {
        match self {
            PluginError::UnsupportedPlatform => "Unsupported operating system"@,
            PluginError::Load(diagnostic) => diagnostic@,
            PluginError::Symbol(diagnostic) => diagnostic@,
            PluginError::Factory(message) => message@,
        }
    }

    pub fn message(&self) -> (r: String)
        ensures
            r@ == self.spec_message(),
    {
        match self {
            PluginError::UnsupportedPlatform => String::from_str("Unsupported operating system"),
            PluginError::Load(diagnostic) => diagnostic.clone(),
            PluginError::Symbol(diagnostic) => diagnostic.clone(),
            PluginError::Factory(message) => message.clone(),
        }
    }
}

} // verus!
