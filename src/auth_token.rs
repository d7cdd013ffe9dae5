//! The rules of the token store that do not depend on where the token is
//! kept: an empty stored value counts as no token, "not found" is not an
//! error, and an update that repeats the stored token changes nothing.
use vstd::prelude::*;

verus! {

/// What reading the stored token from a storage backend gave.
#[derive(Clone, Debug, PartialEq, Eq)]
pub enum StoredTokenRead {
    /// A value is stored; it may be empty.
    Value(String),
    /// Nothing is stored under the token's key.
    NotFound,
    /// The read failed for another reason, with its description.
    Failed(String),
}

/// The token that a read stands for: `Ok(None)` where there is none,
/// `Err` with the description where the read failed.
pub open spec fn loaded_token(read: StoredTokenRead) -> Result<Option<Seq<char>>, Seq<char>> {
    match read {
        StoredTokenRead::Value(s) => if s@.len() == 0 {
            Ok(None)
        } else {
            Ok(Some(s@))
        },
        StoredTokenRead::NotFound => Ok(None),
        StoredTokenRead::Failed(m) => Err(m@),
    }
}

/// The token that a read of the store stands for.
pub fn load_auth_token(read: StoredTokenRead) -> (r: Result<Option<String>, String>)
    ensures
        match (r, loaded_token(read)) {
            (Ok(None), Ok(None)) => true,
            (Ok(Some(t)), Ok(Some(u))) => t@ == u,
            (Err(m), Err(n)) => m@ == n,
            _ => false,
        },
{
    match read {
        StoredTokenRead::Value(s) => {
            if s.as_str().is_empty() {
                Ok(None)
            } else {
                Ok(Some(s))
            }
        },
        StoredTokenRead::NotFound => Ok(None),
        StoredTokenRead::Failed(m) => Err(m),
    }
}

/// Whether setting `new_token` changes anything: it does unless it equals the
/// stored token. When it does not, the token is neither written nor is the
/// client rebuilt.
pub fn auth_token_update_needed(stored: &Option<String>, new_token: &str) -> (r: bool)
    ensures
        r == !(stored matches Some(t) && t@ == new_token@),
{
    match stored {
        Some(t) => {
            let new_owned = new_token.to_owned();
            !(*t == new_owned)
        },
        None => true,
    }
}

} // verus!
