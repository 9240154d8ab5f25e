//! Game sessions bound to voice channels: who leads each session, who is
//! dead, whether the channel is in its muted phase, and how all of that
//! follows members as they join and leave.

pub mod among_us;
pub mod option_to_result;
pub mod registry;
pub mod mention;
pub mod prefix;
pub mod laws;

pub use among_us::GameInstance;
pub use option_to_result::ToResult;
pub use prefix::PrefixMap;
pub use registry::Games;
