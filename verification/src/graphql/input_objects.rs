//! Query arguments that select and order messages.

use vstd::prelude::*;

verus! {

/// Retrieve objects that are private, public, or both.
#[derive(Debug, Clone, Copy, PartialEq, Eq, Structural)]
pub enum Privacy {
    /// Both public and private.
    All,
    /// Only private.
    Private,
    /// Only public.
    Public,
}

/// Retrieve objects ordered by asserted publish time or by received time.
#[derive(Debug, Clone, Copy, PartialEq, Eq, Structural)]
pub enum OrderBy {
    /// Order by the time the author claims to have published the message.
    Asserted,
    /// Order by the time the message was inserted into this database.
    Received,
}

/// The value a message's `is_decrypted` flag must have to be selected, or
/// `None` when both are selected.
pub fn decryption_filter(privacy: Privacy) -> (flag: Option<bool>)
    ensures
        match privacy {
            Privacy::All => flag is None,
            Privacy::Private => flag == Some(true),
            Privacy::Public => flag == Some(false),
        },
{
    match privacy {
        Privacy::All => None,
        Privacy::Private => Some(true),
        Privacy::Public => Some(false),
    }
}

} // verus!
