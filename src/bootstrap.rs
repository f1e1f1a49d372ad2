use vstd::prelude::*;

use crate::error::WalletError;

verus! {

/// How the client is brought up.
#[derive(Debug, Clone, Copy, PartialEq, Eq, Structural)]
pub enum BootstrapPath {
    /// The store already holds an initialized identity: open it, with no network access.
    Open,
    /// Download the configuration the invite code refers to and join the federation.
    Join,
}

/// The path taken for a store that is (or is not) `initialized`, with or
/// without an invite code.
pub open spec fn bootstrap_choice(initialized: bool, has_invite_code: bool) -> Result<BootstrapPath, WalletError> {
    if initialized {
        Ok(BootstrapPath::Open)
    } else if has_invite_code {
        Ok(BootstrapPath::Join)
    } else {
        Err(WalletError::ConfigurationMissing)
    }
}

/// Decides how to bring the client up: an existing identity is opened and any
/// invite code ignored; otherwise an invite code is needed to join.
pub fn choose_bootstrap_path(initialized: bool, has_invite_code: bool) -> (r: Result<BootstrapPath, WalletError>)
    ensures
        r == bootstrap_choice(initialized, has_invite_code),
{
    if initialized {
        Ok(BootstrapPath::Open)
    } else if has_invite_code {
        Ok(BootstrapPath::Join)
    } else {
        Err(WalletError::ConfigurationMissing)
    }
}

/// Once a fresh store has been bootstrapped (which leaves it initialized), a
/// later bootstrap of the same store opens the stored identity, whether or not
/// an invite code is supplied, and never joins again.
pub proof fn lemma_bootstrap_resumes(first_has_invite_code: bool, later_has_invite_code: bool)
    requires
        bootstrap_choice(false, first_has_invite_code) is Ok,
    ensures
        bootstrap_choice(false, first_has_invite_code) == Ok::<BootstrapPath, WalletError>(BootstrapPath::Join),
        bootstrap_choice(true, later_has_invite_code) == Ok::<BootstrapPath, WalletError>(BootstrapPath::Open),
{
}

/// A fresh store without an invite code cannot be bootstrapped.
pub proof fn lemma_fresh_store_needs_invite()
    ensures
        bootstrap_choice(false, false) == Err::<BootstrapPath, WalletError>(WalletError::ConfigurationMissing),
{
}

} // verus!
