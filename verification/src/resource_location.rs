//! Namespaced keys under which textures and sounds are looked up.

use vstd::prelude::*;
use vstd::string::StringExecFns;

verus! {

/// A key of two parts, a namespace and a path, written `namespace:path`.
#[derive(Debug)]
pub struct ResourceLocation {
    pub namespace: String,
    pub path: String,
}

/// The two parts of a key as sequences of characters.
pub struct ResourceLocationView {
    pub namespace: Seq<char>,
    pub path: Seq<char>,
}

impl ResourceLocationView {
    /// The canonical string form: the namespace, a colon, the path.
    pub open spec fn canonical(self) -> Seq<char> {
        self.namespace + seq![':'] + self.path
    }
}

impl View for ResourceLocation {
    type V = ResourceLocationView;

    open spec fn view(&self) -> ResourceLocationView {
        ResourceLocationView { namespace: self.namespace@, path: self.path@ }
    }
}

impl ResourceLocation {
    /// The key `namespace:path`.
    pub fn new(namespace: &str, path: &str) -> (r: ResourceLocation)
        ensures
            r@.namespace == namespace@,
            r@.path == path@,
    {
        ResourceLocation { namespace: String::from_str(namespace), path: String::from_str(path) }
    }

    /// The key whose two parts are both empty.
    pub fn empty() -> (r: ResourceLocation)
        ensures
            r@.namespace == Seq::<char>::empty(),
            r@.path == Seq::<char>::empty(),
    {
        ResourceLocation { namespace: String::new(), path: String::new() }
    }

    /// The canonical string form, by which catalogs are keyed.
    pub fn to_string(&self) -> (s: String)
        ensures
            s@ == self@.canonical(),
    {
        let s = self.namespace.clone();
        let s = s.concat(":");
        proof {
            reveal_strlit(":");
            assert(":"@ =~= seq![':']);
        }
        s.concat(self.path.as_str())
    }

    /// Whether two keys have the same namespace and the same path.
    pub fn same(&self, other: &ResourceLocation) -> (r: bool)
        ensures
            r == (self@ == other@),
    {
        self.namespace == other.namespace && self.path == other.path
    }
}

impl Clone for ResourceLocation {
    fn clone(&self) -> (r: Self)
        ensures
            r@ == self@,
    {
        ResourceLocation { namespace: self.namespace.clone(), path: self.path.clone() }
    }
}

} // verus!
