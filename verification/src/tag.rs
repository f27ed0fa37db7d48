//! Tag names, and which of them name components.
use vstd::prelude::*;

verus! {

/// The name in an opening tag, in one of its three forms.
#[derive(Debug, PartialEq, Eq)]
pub enum TagName {
    /// A simple identifier: `div`, `Card`.
    Ident(String),
    /// A qualified name: `Menu.Item`.
    Member(String),
    /// A name with a namespace: `svg:rect`.
    Namespaced(String),
}

impl Clone for TagName {
    fn clone(&self) -> (copy: TagName)
        ensures
            copy == *self,
    {
        match self {
            TagName::Ident(name) => TagName::Ident(name.clone()),
            TagName::Member(name) => TagName::Member(name.clone()),
            TagName::Namespaced(name) => TagName::Namespaced(name.clone()),
        }
    }
}

/// One of the letters `A` to `Z`.
pub open spec fn is_uppercase(c: char) -> bool {
    'A' <= c <= 'Z'
}

impl TagName {
    /// The name is that of a component: a simple identifier that begins with
    /// an uppercase letter, or a qualified name. Every other name, the empty
    /// one too, is that of a host element.
    pub open spec fn is_custom(self) -> bool {
        match self {
            TagName::Ident(name) => name@.len() > 0 && is_uppercase(name@[0]),
            TagName::Member(_) => true,
            TagName::Namespaced(_) => false,
        }
    }

    /// The name is that of a host element.
    pub open spec fn is_host(self) -> bool {
        !self.is_custom()
    }

    /// Whether the name is that of a component.
    pub fn custom(&self) -> (custom: bool)
        ensures
            custom == self.is_custom(),
    {
        match self {
            TagName::Ident(name) => {
                if name.as_str().is_empty() {
                    false
                } else {
                    let first = name.as_str().get_char(0);
                    'A' <= first && first <= 'Z'
                }
            },
            TagName::Member(_) => true,
            TagName::Namespaced(_) => false,
        }
    }

    /// Whether the name is that of a host element.
    pub fn host(&self) -> (host: bool)
        ensures
            host == self.is_host(),
    {
        !self.custom()
    }
}

} // verus!
