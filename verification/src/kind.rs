use vstd::prelude::*;

verus! {

/// The kinds of entity an alias can name. Each kind fixes the path segment
/// used on the wire and whether an alias of that kind is resolved relative
/// to a parent context.
#[derive(Clone, Copy, PartialEq, Eq, Structural, Debug)]
pub enum EntityKind {
    Context,
    Identity,
    Application,
}

impl EntityKind {
    /// Whether aliases of this kind are scoped: identities are unique per
    /// context, so an identity alias is only meaningful relative to one.
    pub open spec fn requires_scope_spec(self) -> bool {
        self is Identity
    }

    pub fn requires_scope(self) -> (r: bool)
        ensures
            r == self.requires_scope_spec(),
    {
        match self {
            EntityKind::Identity => true,
            EntityKind::Context => false,
            EntityKind::Application => false,
        }
    }

    /// The path segment that names this kind in a request path.
    pub open spec fn segment_spec(self) -> Seq<char> {
        match self {
            EntityKind::Context => "context"@,
            EntityKind::Identity => "identity"@,
            EntityKind::Application => "application"@,
        }
    }

    pub fn segment(self) -> (r: &'static str)
        ensures
            r@ == self.segment_spec(),
    {
        match self {
            EntityKind::Context => "context",
            EntityKind::Identity => "identity",
            EntityKind::Application => "application",
        }
    }
}

} // verus!
