use crate::among_us::GameInstance;
use vstd::prelude::*;

verus! {

/// Reported when a command reaches a voice channel that has no session.
pub const NO_SESSION: &'static str = "Games Instance object could not be found";

/// Reported when the caller's voice channel is not known.
pub const NO_CHANNEL: &'static str = "Channel ID could not be found";

/// Turns a missing value into an error message that names what was missing.
pub trait ToResult<T>: Sized {
    fn to_result(self) -> Result<T, &'static str>;
}

impl ToResult<GameInstance> for Option<GameInstance> {
    fn to_result(self) -> (r: Result<GameInstance, &'static str>)
        ensures
            r == match self {
                Some(g) => Ok(g),
                None => Err::<GameInstance, &'static str>(NO_SESSION),
            },
    {
        match self {
            Some(g) => Ok(g),
            None => Err(NO_SESSION),
        }
    }
}

impl ToResult<u64> for Option<u64> {
    fn to_result(self) -> (r: Result<u64, &'static str>)
        ensures
            r == match self {
                Some(c) => Ok(c),
                None => Err::<u64, &'static str>(NO_CHANNEL),
            },
    {
        match self {
            Some(c) => Ok(c),
            None => Err(NO_CHANNEL),
        }
    }
}

} // verus!
