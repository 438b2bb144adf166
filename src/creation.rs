use vstd::prelude::*;

use crate::error::PluginError;

verus! {

/// One of the three kinds of object that a plugin may produce.
#[derive(Debug, Clone, Copy, PartialEq, Eq, Structural)]
pub enum Capability {
    Importer,
    Exporter,
    Transformer,
}

impl Capability {
    /// The symbol under which a plugin exports the factory of this capability.
    pub open spec fn spec_symbol(self) -> Seq<char> {
        match self {
            Capability::Importer => "create_importer"@,
            Capability::Exporter => "create_exporter"@,
            Capability::Transformer => "create_transformer"@,
        }
    }

    pub fn symbol_name(&self) -> (r: &'static str)
        ensures
            r@ == self.spec_symbol(),
    {
        match self {
            Capability::Importer => "create_importer",
            Capability::Exporter => "create_exporter",
            Capability::Transformer => "create_transformer",
        }
    }
}

/// What a load attempt comes to: the loaded library, or `Load` with the
/// dynamic loader's diagnostic.
pub open spec fn load_outcome<L>(loaded: Result<L, String>) -> Result<L, PluginError> {
    match loaded {
        Ok(library) => Ok(library),
        Err(diagnostic) => Err(PluginError::Load(diagnostic)),
    }
}

/// What follows the lookup of a factory symbol: where the symbol was found,
/// the factory is called with the discriminator as given; where it was not,
/// the creation fails with `Symbol` and the loader's diagnostic.
pub open spec fn lookup_outcome(lookup: Result<(), String>, discriminator: Option<String>) -> Result<
    Option<String>,
    PluginError,
> {
    match lookup {
        Ok(_) => Ok(discriminator),
        Err(diagnostic) => Err(PluginError::Symbol(diagnostic)),
    }
}

/// What a creation returns once the factory has answered: its object, or
/// `Factory` with its message.
pub open spec fn factory_outcome<T>(answer: Result<T, String>) -> Result<T, PluginError> {
    match answer {
        Ok(object) => Ok(object),
        Err(message) => Err(PluginError::Factory(message)),
    }
}

/// Turns the result of asking the dynamic loader for a library into the
/// result of loading the plugin.
pub fn after_load<L>(loaded: Result<L, String>) -> (r: Result<L, PluginError>)
    ensures
        r == load_outcome(loaded),
{
    match loaded {
        Ok(library) => Ok(library),
        Err(diagnostic) => Err(PluginError::Load(diagnostic)),
    }
}

/// Decides, from the result of looking up a factory symbol, the argument that
/// the factory is to be called with.
pub fn after_lookup(lookup: Result<(), String>, discriminator: Option<String>) -> (r: Result<
    Option<String>,
    PluginError,
>)
    ensures
        r == lookup_outcome(lookup, discriminator),
{
    match lookup {
        Ok(_) => Ok(discriminator),
        Err(diagnostic) => Err(PluginError::Symbol(diagnostic)),
    }
}

/// Turns the answer of a plugin's factory into the result of the creation.
pub fn after_factory<T>(answer: Result<T, String>) -> (r: Result<T, PluginError>)
    ensures
        r == factory_outcome(answer),
{
    match answer {
        Ok(object) => Ok(object),
        Err(message) => Err(PluginError::Factory(message)),
    }
}

/// Each capability is looked up under a symbol of its own, so whether one
/// capability can be created does not depend on the others; and a capability
/// whose symbol is missing fails with `Symbol`, whatever discriminator was asked for.
pub proof fn lemma_capabilities_resolve_independently(
    c: Capability,
    d: Capability,
    diagnostic: String,
    discriminator: Option<String>,
)
    ensures
        c != d ==> c.spec_symbol() != d.spec_symbol(),
        lookup_outcome(Err(diagnostic), discriminator) == Err::<Option<String>, PluginError>(
            PluginError::Symbol(diagnostic),
        ),
{
    reveal_strlit("create_importer");
    reveal_strlit("create_exporter");
    reveal_strlit("create_transformer");
    if c != d {
        assert(c.spec_symbol()[7] != d.spec_symbol()[7]);
    }
}

/// Once the factory symbol is found, the discriminator reaches the factory
/// exactly as the caller gave it.
pub proof fn lemma_discriminator_forwarded(discriminator: Option<String>)
    ensures
        lookup_outcome(Ok(()), discriminator) == Ok::<Option<String>, PluginError>(discriminator),
{
}

} // verus!
