use vstd::prelude::*;
use vstd::string::StrSliceExecFns;

use crate::error::ClientError;
use crate::kind::EntityKind;

verus! {

/// Alias names stay short enough to splice into a request path.
pub const MAX_ALIAS_LENGTH: usize = 50;

/// The characters an alias name may hold: ASCII letters and digits plus
/// `-`, `_` and `.`. Nothing here can break a path or a header.
pub open spec fn valid_alias_char(c: char) -> bool {
    ||| ('a' <= c && c <= 'z')
    ||| ('A' <= c && c <= 'Z')
    ||| ('0' <= c && c <= '9')
    ||| c == '-'
    ||| c == '_'
    ||| c == '.'
}

/// A well-formed alias name: non-empty, bounded, and drawn from the
/// accepted character set.
pub open spec fn valid_alias_text(t: Seq<char>) -> bool {
    &&& 1 <= t.len() <= MAX_ALIAS_LENGTH
    &&& forall|i: int| 0 <= i < t.len() ==> valid_alias_char(#[trigger] t[i])
}

/// A human-chosen name for one entity of one kind. Two aliases with the
/// same text but different kinds name different things and are never
/// interchangeable, so the kind travels with the text.
#[derive(Debug)]
pub struct AliasName {
    kind: EntityKind,
    text: String,
}

impl View for AliasName {
    type V = Seq<char>;

    closed spec fn view(&self) -> Seq<char> {
        self.text@
    }
}

impl AliasName {
    #[verifier::type_invariant]
    spec fn inv(self) -> bool {
        valid_alias_text(self.text@)
    }

    /// The entity kind this alias is bound to.
    pub closed spec fn kind_spec(&self) -> EntityKind {
        self.kind
    }

    /// Accepts exactly the well-formed alias texts.
    pub fn new(kind: EntityKind, text: String) -> (r: Result<AliasName, ClientError>)
        ensures
            valid_alias_text(text@) ==> (r matches Ok(a) && a@ == text@ && a.kind_spec()
                == kind),
            !valid_alias_text(text@) ==> (r matches Err(e) && e is InvalidAlias),
    {
        if check_alias_text(text.as_str()) {
            Ok(AliasName { kind, text })
        } else {
            Err(ClientError::InvalidAlias)
        }
    }

    pub fn kind(&self) -> (k: EntityKind)
        ensures
            k == self.kind_spec(),
    {
        self.kind
    }

    pub fn as_str(&self) -> (r: &str)
        ensures
            r@ == self@,
            valid_alias_text(r@),
    {
        proof {
            use_type_invariant(self);
        }
        self.text.as_str()
    }
}

/// Decides `valid_alias_text` for a piece of text.
pub fn check_alias_text(text: &str) -> (r: bool)
    ensures
        r == valid_alias_text(text@),
{
    let n = text.unicode_len();
    if n < 1 || n > MAX_ALIAS_LENGTH {
        return false;
    }
    let mut i: usize = 0;
    while i < n
        invariant
            0 <= i <= n,
            n == text@.len(),
            forall|j: int| 0 <= j < i ==> valid_alias_char(#[trigger] text@[j]),
        decreases n - i,
    {
        let c = text.get_char(i);
        let ok = ('a' <= c && c <= 'z') || ('A' <= c && c <= 'Z') || ('0' <= c && c <= '9') || c
            == '-' || c == '_' || c == '.';
        if !ok {
            return false;
        }
        i += 1;
    }
    true
}

/// A well-formed alias never holds a slash or whitespace, so splicing it
/// into a request path cannot change the path's shape, and a scope
/// segment can never be mistaken for part of the alias.
pub proof fn lemma_alias_text_is_path_safe(t: Seq<char>)
    requires
        valid_alias_text(t),
    ensures
        forall|i: int| 0 <= i < t.len() ==> #[trigger] t[i] != '/' && t[i] != ' ',
{
    assert forall|i: int| 0 <= i < t.len() implies #[trigger] t[i] != '/' && t[i] != ' ' by {
        assert(valid_alias_char(t[i]));
    }
}

/// The alias text that callers use, by convention, for a standing default
/// binding. The resolver does not treat it specially; this constructor
/// only spares call sites the validity argument.
pub fn default_alias(kind: EntityKind) -> (r: AliasName)
    ensures
        r@ == "default"@,
        r.kind_spec() == kind,
{
    proof {
        reveal_strlit("default");
        assert(valid_alias_text("default"@));
    }
    AliasName { kind, text: String::from_str("default") }
}

} // verus!
