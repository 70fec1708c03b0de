//! Conversation roles and the completion-provider abstraction.

use vstd::prelude::*;

verus! {

/// The author of one chat message.
#[derive(Clone, Copy, Debug, Eq, PartialEq, Structural)]
pub enum Role {
    User,
    Assistant,
    System,
}

impl Role {
    /// The label shown for this role.
    pub open spec fn display_spec(self) -> Seq<char> {
        match self {
            Role::User => "User"@,
            Role::Assistant => "Assistant"@,
            Role::System => "System"@,
        }
    }

    /// The label shown for this role.
    pub fn display_name(&self) -> (r: String)
        ensures
            r@ == self.display_spec(),
    {
        match *self {
            Role::User => String::from_str("User"),
            Role::Assistant => String::from_str("Assistant"),
            Role::System => String::from_str("System"),
        }
    }

    /// The deterministic successor in the cyclic order
    /// User -> Assistant -> System -> User.
    pub open spec fn cycle_spec(self) -> Role {
        match self {
            Role::User => Role::Assistant,
            Role::Assistant => Role::System,
            Role::System => Role::User,
        }
    }

    /// Replaces this role with its cyclic successor.
    pub fn cycle(&mut self)
        ensures
            *final(self) == old(self).cycle_spec(),
    {
        *self = match *self {
            Role::User => Role::Assistant,
            Role::Assistant => Role::System,
            Role::System => Role::User,
        }
    }
}

/// Cycling the roles is a fixed-point-free permutation that returns to the
/// starting role after exactly three steps, the size of the role set.
pub proof fn lemma_role_cycle_permutes(r: Role)
    ensures
        r.cycle_spec() != r,
        r.cycle_spec().cycle_spec() != r,
        r.cycle_spec().cycle_spec().cycle_spec() == r,
{
}

/// A credential for a completion provider, as the credential collaborator
/// reports it.
#[derive(Clone, Debug, PartialEq, Eq)]
pub enum ProviderCredential {
    Credentials { api_key: String },
    NoCredentials,
    NotNeeded,
}

/// A completion request that can serialize itself to its wire form.
pub trait CompletionRequest {
    /// The exact wire text of this request.
    spec fn spec_data(&self) -> Seq<char>;

    fn data(&self) -> (r: String)
        ensures
            r@ == self.spec_data(),
    ;
}

} // verus!
