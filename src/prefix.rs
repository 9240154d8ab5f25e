use std::collections::HashMap;
use vstd::prelude::*;

verus! {

broadcast use vstd::std_specs::hash::group_hash_axioms;

/// The command prefix of a group that has not chosen one.
pub const DEFAULT_PREFIX: &'static str = "!";

/// Reported when somebody without the Administrator permission tries to
/// change the prefix.
pub const NOT_ADMINISTRATOR: &'static str =
    "The Administrator permission is needed to change my prefix.";

/// What the `prefix` command answers.
#[derive(Debug, PartialEq, Eq)]
pub enum PrefixReply {
    /// No new prefix was given: this is the prefix in force.
    Current(String),
    /// The prefix in force is now this one.
    Changed(String),
}

/// The command prefix chosen by each group, keyed by group id. A group that
/// is not in the map uses `DEFAULT_PREFIX`.
pub struct PrefixMap {
    prefixes: HashMap<u64, String>,
}

impl View for PrefixMap {
    type V = Map<u64, Seq<char>>;

    closed spec fn view(&self) -> Map<u64, Seq<char>> {
        self.prefixes@.map_values(|p: String| p@)
    }
}

/// The prefix in force in `guild`.
pub open spec fn prefix_in(m: Map<u64, Seq<char>>, guild: u64) -> Seq<char> {
    if m.contains_key(guild) {
        m[guild]
    } else {
        DEFAULT_PREFIX@
    }
}

/// The map after `guild` chose `p`: choosing the default forgets the choice.
pub open spec fn with_prefix(m: Map<u64, Seq<char>>, guild: u64, p: Seq<char>) -> Map<
    u64,
    Seq<char>,
> {
    if p == DEFAULT_PREFIX@ {
        m.remove(guild)
    } else {
        m.insert(guild, p)
    }
}

impl PrefixMap {
    pub fn new() -> (r: PrefixMap)
        ensures
            r@ == Map::<u64, Seq<char>>::empty(),
    {
        let r = PrefixMap { prefixes: HashMap::new() };
        proof {
            assert(r@ =~= Map::<u64, Seq<char>>::empty());
        }
        r
    }

    /// The prefix in force in `guild`.
    pub fn prefix_of(&self, guild: u64) -> (r: String)
        ensures
            r@ == prefix_in(self@, guild),
    {
        match self.prefixes.get(&guild) {
            Some(p) => p.clone(),
            None => DEFAULT_PREFIX.to_owned(),
        }
    }

    /// Makes `p` the prefix of `guild`.
    pub fn set_prefix(&mut self, guild: u64, p: String)
        ensures
            final(self)@ == with_prefix(old(self)@, guild, p@),
            prefix_in(final(self)@, guild) == p@,
    {
        let default = DEFAULT_PREFIX.to_owned();
        if p == default {
            self.prefixes.remove(&guild);
            proof {
                assert(self@ =~= old(self)@.remove(guild));
            }
        } else {
            self.prefixes.insert(guild, p);
            proof {
                assert(self@ =~= old(self)@.insert(guild, p@));
            }
        }
    }

    /// The `prefix` command of `guild`: without an argument it tells the
    /// prefix in force; with one, it makes that the prefix, which only an
    /// administrator may do.
    pub fn prefix_command(&mut self, guild: u64, arg: Option<String>, is_admin: bool) -> (r: Result<
        PrefixReply,
        &'static str,
    >)
        ensures
            arg is None ==> final(self)@ == old(self)@ && (r matches Ok(PrefixReply::Current(p))
                && p@ == prefix_in(old(self)@, guild)),
            arg is Some && !is_admin ==> final(self)@ == old(self)@ && r == Err::<
                PrefixReply,
                &'static str,
            >(NOT_ADMINISTRATOR),
            arg is Some && is_admin ==> final(self)@ == with_prefix(old(self)@, guild, arg->Some_0@)
                && (r matches Ok(PrefixReply::Changed(p)) && p@ == arg->Some_0@),
    {
        match arg {
            None => Ok(PrefixReply::Current(self.prefix_of(guild))),
            Some(p) => {
                if !is_admin {
                    return Err(NOT_ADMINISTRATOR);
                }
                let shown = p.clone();
                self.set_prefix(guild, p);
                Ok(PrefixReply::Changed(shown))
            },
        }
    }
}

} // verus!
