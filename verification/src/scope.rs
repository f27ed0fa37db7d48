//! The declarations that own the markup written inside them.
use vstd::prelude::*;

verus! {

/// What a variable declarator binds.
#[derive(Debug, PartialEq, Eq)]
pub enum Binding {
    /// A simple identifier.
    Ident(String),
    /// A destructuring pattern.
    Pattern,
}

/// A declaration that may define a component.
#[derive(Debug, PartialEq, Eq)]
pub enum Declaration {
    /// A function declaration, with its name.
    Function(String),
    /// A variable declaration, with what each of its declarators binds.
    Variable(Vec<Binding>),
    /// A class declaration, with its name.
    Class(String),
    /// A default-exported function expression, with its name if it has one.
    DefaultFunction(Option<String>),
}

impl Declaration {
    /// The name under which the declaration owns the markup inside it: the
    /// name of a function or a class, the identifier that the first
    /// declarator of a variable declaration binds, the name of a
    /// default-exported function that has one. `None` for a declaration that
    /// opens no scope.
    pub open spec fn scope_name(self) -> Option<Seq<char>> {
        match self {
            Declaration::Function(name) => Some(name@),
            Declaration::Variable(bindings) => if bindings@.len() > 0 {
                match bindings@[0] {
                    Binding::Ident(name) => Some(name@),
                    Binding::Pattern => None,
                }
            } else {
                None
            },
            Declaration::Class(name) => Some(name@),
            Declaration::DefaultFunction(Some(name)) => Some(name@),
            Declaration::DefaultFunction(None) => None,
        }
    }

    /// The name that the declaration pushes, if it pushes one.
    pub fn name(&self) -> (name: Option<String>)
        ensures
            match name {
                Some(n) => self.scope_name() == Some(n@),
                None => self.scope_name() is None,
            },
    {
        match self {
            Declaration::Function(name) => Some(name.clone()),
            Declaration::Variable(bindings) => {
                if bindings.len() > 0 {
                    match &bindings[0] {
                        Binding::Ident(name) => Some(name.clone()),
                        Binding::Pattern => None,
                    }
                } else {
                    None
                }
            },
            Declaration::Class(name) => Some(name.clone()),
            Declaration::DefaultFunction(Some(name)) => Some(name.clone()),
            Declaration::DefaultFunction(None) => None,
        }
    }
}

/// The name that owns an element visited under the given open scopes: the
/// innermost one.
pub open spec fn owner(scopes: Seq<Seq<char>>) -> Option<Seq<char>> {
    if scopes.len() > 0 {
        Some(scopes.last())
    } else {
        None
    }
}

} // verus!
