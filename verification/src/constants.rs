//! The namespace tags that tell the roles of the derived accounts apart.

use vstd::prelude::*;

verus! {

/// Tag of the shared reward vault: the bytes of `vault`.
pub const VAULT_SEED: [u8; 5] = [118, 97, 117, 108, 116];

/// Tag of a user's stake record: the bytes of `stake_info`.
pub const STAKE_INFO_SEED: [u8; 10] = [115, 116, 97, 107, 101, 95, 105, 110, 102, 111];

/// Tag of a user's holding account: the bytes of `token`.
pub const TOKEN_SEED: [u8; 5] = [116, 111, 107, 101, 110];

} // verus!
