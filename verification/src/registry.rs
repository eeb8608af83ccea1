//! Generators by plugin name.
use vstd::prelude::*;

use crate::generators::interface::Generator;
use crate::named_map::NamedMap;

verus! {

/// A generator as the registry holds it.
pub struct Registered {
    pub generator: Box<dyn Generator>,
}

/// The generators the build can run, by plugin name.
pub struct PluginRegistry {
    generators: NamedMap<Registered>,
}

impl View for PluginRegistry {
    type V = Map<Seq<char>, Registered>;

    closed spec fn view(&self) -> Map<Seq<char>, Registered> {
        self.generators@
    }
}

impl PluginRegistry {
    /// A registry with no generators.
    pub fn new() -> (r: Self)
        ensures
            r@ == Map::<Seq<char>, Registered>::empty(),
    {
        PluginRegistry { generators: NamedMap::new() }
    }

    /// Registers `generator` under `name`, replacing any earlier one.
    pub fn register(&mut self, name: &str, generator: Box<dyn Generator>)
        ensures
            final(self)@ == old(self)@.insert(name@, Registered { generator }),
    {
        self.generators.insert(name.to_string(), Registered { generator });
    }

    /// The generator registered under `name`, as the registry holds it.
    pub fn get(&self, name: &str) -> (r: Option<&Registered>)
        ensures
            match r {
                Some(g) => self@.contains_key(name@) && self@[name@] === *g,
                None => !self@.contains_key(name@),
            },
    {
        let r = self.generators.get(name);
        match r {
            Some(entry) => {
                assert(self@[name@] === *entry);
            },
            None => {},
        }
        r
    }
}

} // verus!
