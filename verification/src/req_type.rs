//! The two kinds of visit and the filter that a partial reload carries.
use vstd::prelude::*;

verus! {

/// The name of a client-side page component.
#[derive(PartialEq, Eq, Debug, Clone)]
pub struct Component(pub String);

/// What a partial reload asks for: the component it targets and the
/// property names to keep (`only`) or to leave out (`except`).
#[derive(Eq, PartialEq, Debug, Clone)]
pub struct PartialComponent {
    pub component: Component,
    pub only: Vec<String>,
    pub except: Vec<String>,
}

/// How a request is to be served: with the page's full set of properties
/// or with the subset that a partial reload selects.
#[derive(Eq, PartialEq, Debug, Clone)]
pub enum InertiaRequestType {
    Standard,
    Partial(PartialComponent),
}

/// The set of names that a list of strings holds.
pub open spec fn name_set(names: Seq<String>) -> Set<Seq<char>> {
    Set::new(|k: Seq<char>| exists|i: int| 0 <= i < names.len() && #[trigger] names[i]@ == k)
}

/// Whether `key` is one of `names`.
pub fn contains_name(names: &Vec<String>, key: &String) -> (found: bool)
    ensures
        found == name_set(names@).contains(key@),
{
    let mut i: usize = 0;
    while i < names.len()
        invariant
            i <= names.len(),
            forall|j: int| 0 <= j < i ==> #[trigger] names[j]@ != key@,
        decreases names.len() - i,
    {
        if names[i] == *key {
            return true;
        }
        i += 1;
    }
    false
}

impl PartialComponent {
    /// The names listed under `only`.
    pub open spec fn only_names(&self) -> Set<Seq<char>> {
        name_set(self.only@)
    }

    /// The names listed under `except`.
    pub open spec fn except_names(&self) -> Set<Seq<char>> {
        name_set(self.except@)
    }

    /// Whether the filter lets the property named `key` through. A
    /// non-empty `only` list decides alone; `except` counts only when
    /// `only` is empty.
    pub open spec fn selects(&self, key: Seq<char>) -> bool {
        if self.only@.len() > 0 {
            self.only_names().contains(key)
        } else {
            !self.except_names().contains(key)
        }
    }
}

impl InertiaRequestType {
    pub fn is_standard(&self) -> (standard: bool)
        ensures
            standard == (self is Standard),
    {
        matches!(*self, InertiaRequestType::Standard)
    }

    pub fn is_partial(&self) -> (partial: bool)
        ensures
            partial == (self is Partial),
    {
        !self.is_standard()
    }

    /// The filter of a partial reload. A standard visit has none, so the
    /// caller must hold a partial one.
    pub fn unwrap_partial(self) -> (partials: PartialComponent)
        requires
            self is Partial,
        ensures
            self == InertiaRequestType::Partial(partials),
    {
        match self {
            InertiaRequestType::Standard => vstd::pervasive::unreached(),
            InertiaRequestType::Partial(reqs) => reqs,
        }
    }

    pub fn partials(&self) -> (partials: Option<&PartialComponent>)
        ensures
            match partials {
                Some(reqs) => *self == InertiaRequestType::Partial(*reqs),
                None => self is Standard,
            },
    {
        match self {
            InertiaRequestType::Partial(reqs) => Some(reqs),
            InertiaRequestType::Standard => None,
        }
    }
}

} // verus!
