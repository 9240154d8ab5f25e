use crate::among_us::{
    alive_members, fresh_session, GameInstance, KillOutcome, ReviveOutcome, SessionView, NO_LEADER,
};
use crate::option_to_result::{ToResult, NO_SESSION};
use std::collections::HashMap;
use vstd::prelude::*;

verus! {

broadcast use vstd::std_specs::hash::group_hash_axioms;

/// How authorization let a command through.
#[derive(Debug, Clone, Copy, PartialEq, Eq, Structural)]
pub enum Admission {
    /// The caller's channel had no session: one was created with the caller
    /// as its leader.
    Created,
    /// The session had no leader: the caller took the seat.
    Claimed,
    /// The caller already leads the session.
    Leader,
    /// The caller is in no voice channel, and the command does not need one.
    NoVoiceNeeded,
}

/// Why authorization refused a command.
#[derive(Debug, Clone, Copy, PartialEq, Eq, Structural)]
pub enum Rejection {
    /// The caller is in no voice channel and the command needs one.
    NotInVoice,
    /// Somebody else leads the caller's session.
    HasLeader,
}

/// The reply to a caller who is in no voice channel.
pub const NOT_IN_VOICE: &'static str = "Please enter Voice Chat before using Game commands.";

/// The reply to a caller whose session somebody else leads.
pub const HAS_LEADER: &'static str = "Access denied. Your Game Instance already has a Leader.";

impl Rejection {
    /// The reply posted to the caller.
    pub fn message(&self) -> (r: &'static str)
        ensures
            r == match self {
                Rejection::NotInVoice => NOT_IN_VOICE,
                Rejection::HasLeader => HAS_LEADER,
            },
    {
        match self {
            Rejection::NotInVoice => NOT_IN_VOICE,
            Rejection::HasLeader => HAS_LEADER,
        }
    }
}

/// What a member's departure from a voice channel did to its session.
#[derive(Debug, Clone, Copy, PartialEq, Eq, Structural)]
pub struct Departure {
    /// The text channel where the session posts its announcements.
    pub announce_to: u64,
    /// The departing member was the leader, and the seat is now free.
    pub stepped_down: bool,
    /// Nobody is left in the channel, and the session is gone.
    pub ended: bool,
}

/// Whether `command` needs its caller in a voice channel: every command
/// does but `help` and `prefix`.
pub open spec fn needs_voice(command: Seq<char>) -> bool {
    command != "help"@ && command != "prefix"@
}

/// What authorization answers to `caller` sending `command` from `text_channel`,
/// while in the voice channel `voice` (if any), against the registry `g`.
pub open spec fn authorize_outcome(
    g: Map<u64, SessionView>,
    command: Seq<char>,
    caller: u64,
    voice: Option<u64>,
) -> Result<Admission, Rejection> {
    match voice {
        None => if needs_voice(command) {
            Err(Rejection::NotInVoice)
        } else {
            Ok(Admission::NoVoiceNeeded)
        },
        Some(c) => if !g.contains_key(c) {
            Ok(Admission::Created)
        } else if g[c].leader == caller {
            Ok(Admission::Leader)
        } else if g[c].leader == NO_LEADER {
            Ok(Admission::Claimed)
        } else {
            Err(Rejection::HasLeader)
        },
    }
}

/// The registry after authorization has answered.
pub open spec fn authorize_state(
    g: Map<u64, SessionView>,
    caller: u64,
    voice: Option<u64>,
    text_channel: u64,
) -> Map<u64, SessionView> {
    match voice {
        None => g,
        Some(c) => if !g.contains_key(c) {
            g.insert(c, fresh_session(caller, text_channel))
        } else if g[c].leader == caller || g[c].leader == NO_LEADER {
            g.insert(c, SessionView { leader: caller, text_channel, ..g[c] })
        } else {
            g
        },
    }
}

/// A session after `member` left its channel: they lead no more and are
/// not dead any more.
pub open spec fn departed(s: SessionView, member: u64) -> SessionView {
    SessionView {
        leader: if s.leader == member { NO_LEADER } else { s.leader },
        dead: s.dead.remove(member),
        ..s
    }
}

/// The registry after `member` left channel `c`, leaving `remaining`
/// members there.
pub open spec fn leave_state(
    g: Map<u64, SessionView>,
    c: u64,
    member: u64,
    remaining: nat,
) -> Map<u64, SessionView> {
    if !g.contains_key(c) {
        g
    } else if remaining == 0 {
        g.remove(c)
    } else {
        g.insert(c, departed(g[c], member))
    }
}

pub open spec fn leave_outcome(
    g: Map<u64, SessionView>,
    c: u64,
    member: u64,
    remaining: nat,
) -> Option<Departure> {
    if !g.contains_key(c) {
        None
    } else {
        Some(
            Departure {
                announce_to: g[c].text_channel,
                stepped_down: g[c].leader == member && member != NO_LEADER,
                ended: remaining == 0,
            },
        )
    }
}

/// Whether a member who joins channel `c` with their mute flag `muted` is
/// to be unmuted: yes, unless the session there is in its play phase.
pub open spec fn join_unmutes(g: Map<u64, SessionView>, c: u64, muted: bool) -> bool {
    muted && !(g.contains_key(c) && !g[c].global_unmute)
}

/// The sessions of all voice channels, at most one per channel.
pub struct Games {
    sessions: HashMap<u64, GameInstance>,
}

/// Whether `command` needs its caller in a voice channel.
pub fn command_needs_voice(command: &str) -> (r: bool)
    ensures
        r == needs_voice(command@),
{
    let name = command.to_owned();
    let help = "help".to_owned();
    let prefix = "prefix".to_owned();
    !(name == help) && !(name == prefix)
}

proof fn lemma_view_insert(m: Map<u64, GameInstance>, k: u64, v: GameInstance)
    ensures
        m.insert(k, v).map_values(|g: GameInstance| g@) =~= m.map_values(
            |g: GameInstance| g@,
        ).insert(k, v@),
{
}

proof fn lemma_view_remove(m: Map<u64, GameInstance>, k: u64)
    ensures
        m.remove(k).map_values(|g: GameInstance| g@) =~= m.map_values(|g: GameInstance| g@).remove(
            k,
        ),
{
}

impl View for Games {
    type V = Map<u64, SessionView>;

    closed spec fn view(&self) -> Map<u64, SessionView> {
        self.sessions@.map_values(|g: GameInstance| g@)
    }
}

impl Games {
    pub fn new() -> (r: Games)
        ensures
            r@ == Map::<u64, SessionView>::empty(),
    {
        let r = Games { sessions: HashMap::new() };
        proof {
            assert(r@ =~= Map::<u64, SessionView>::empty());
        }
        r
    }

    /// The session of channel `c`, if there is one.
    pub fn session(&self, c: u64) -> (r: Option<&GameInstance>)
        ensures
            match r {
                Some(g) => self@.contains_key(c) && g@ == self@[c],
                None => !self@.contains_key(c),
            },
    {
        self.sessions.get(&c)
    }

    /// Authorization, run before every command. A caller in a voice
    /// channel with no session creates one and leads it; a caller whose
    /// session has no leader takes the seat; the leader is let through and
    /// the session remembers the text channel; anyone else is refused. A
    /// caller in no voice channel may only ask for help or the prefix.
    pub fn authorize(&mut self, command: &str, caller: u64, voice: Option<u64>, text_channel: u64) -> (r:
        Result<Admission, Rejection>)
        ensures
            r == authorize_outcome(old(self)@, command@, caller, voice),
            final(self)@ == authorize_state(old(self)@, caller, voice, text_channel),
    {
        let c = match voice {
            None => {
                if command_needs_voice(command) {
                    return Err(Rejection::NotInVoice);
                } else {
                    return Ok(Admission::NoVoiceNeeded);
                }
            },
            Some(c) => c,
        };
        let ghost before = self.sessions@;
        match self.sessions.remove(&c) {
            None => {
                let g = GameInstance::new(caller, text_channel);
                proof {
                    lemma_view_insert(self.sessions@, c, g);
                    assert(self.sessions@ =~= before);
                }
                self.sessions.insert(c, g);
                Ok(Admission::Created)
            },
            Some(mut g) => {
                proof {
                    lemma_view_remove(before, c);
                    lemma_view_insert(self.sessions@, c, g);
                    assert(self.sessions@.insert(c, g) =~= before);
                }
                let r = if g.leader_user_id == caller {
                    g.recent_text_channel_id = text_channel;
                    Ok(Admission::Leader)
                } else if g.leader_user_id == NO_LEADER {
                    g.leader_user_id = caller;
                    g.recent_text_channel_id = text_channel;
                    Ok(Admission::Claimed)
                } else {
                    Err(Rejection::HasLeader)
                };
                proof {
                    lemma_view_insert(self.sessions@, c, g);
                    assert(self@.remove(c).insert(c, g@) =~= old(self)@.insert(c, g@));
                }
                self.sessions.insert(c, g);
                r
            },
        }
    }

    /// Takes the session of channel `c` out of the registry to change it.
    fn take(&mut self, c: u64) -> (r: Result<GameInstance, &'static str>)
        ensures
            final(self)@ == old(self)@.remove(c),
            old(self)@.contains_key(c) ==> r is Ok && r->Ok_0@ == old(self)@[c],
            !old(self)@.contains_key(c) ==> r == Err::<GameInstance, &'static str>(NO_SESSION),
    {
        proof {
            lemma_view_remove(self.sessions@, c);
        }
        self.sessions.remove(&c).to_result()
    }

    /// Puts a session taken out by `take` back.
    fn put(&mut self, c: u64, g: GameInstance)
        ensures
            final(self)@ == old(self)@.insert(c, g@),
    {
        proof {
            lemma_view_insert(self.sessions@, c, g);
        }
        self.sessions.insert(c, g);
    }

    /// `play` in channel `c`: the session enters its play phase, and every
    /// member of the channel is to be muted.
    pub fn play(&mut self, c: u64) -> (r: Result<(), &'static str>)
        ensures
            old(self)@.contains_key(c) ==> r is Ok && final(self)@ == old(self)@.insert(
                c,
                old(self)@[c].with_global_unmute(false),
            ),
            !old(self)@.contains_key(c) ==> r == Err::<(), &'static str>(NO_SESSION) && final(self)@ == old(self)@,
    {
        let mut g = match self.take(c) {
            Ok(g) => g,
            Err(e) => {
                proof {
                    assert(self@ =~= old(self)@);
                }
                return Err(e);
            },
        };
        g.mute_all();
        self.put(c, g);
        proof {
            assert(self@ =~= old(self)@.insert(c, old(self)@[c].with_global_unmute(false)));
        }
        Ok(())
    }

    /// `discuss` in channel `c`, whose members are `roster`: the session
    /// enters its discussion phase, and the living members of the roster,
    /// which are returned, are to be unmuted.
    pub fn discuss(&mut self, c: u64, roster: &Vec<u64>) -> (r: Result<Vec<u64>, &'static str>)
        ensures
            old(self)@.contains_key(c) ==> r is Ok && r->Ok_0@ == alive_members(
                roster@,
                old(self)@[c].dead,
            ) && final(self)@ == old(self)@.insert(c, old(self)@[c].with_global_unmute(true)),
            !old(self)@.contains_key(c) ==> r == Err::<Vec<u64>, &'static str>(NO_SESSION) && final(self)@ == old(self)@,
    {
        let mut g = match self.take(c) {
            Ok(g) => g,
            Err(e) => {
                proof {
                    assert(self@ =~= old(self)@);
                }
                return Err(e);
            },
        };
        let alive = g.unmute_all_except_dead(roster);
        self.put(c, g);
        proof {
            assert(self@ =~= old(self)@.insert(c, old(self)@[c].with_global_unmute(true)));
        }
        Ok(alive)
    }

    /// `kill member` in channel `c`.
    pub fn kill(&mut self, c: u64, member: u64) -> (r: Result<KillOutcome, &'static str>)
        ensures
            old(self)@.contains_key(c) ==> r == Ok::<KillOutcome, &'static str>(
                old(self)@[c].kill_outcome(member),
            ) && final(self)@ == old(self)@.insert(c, old(self)@[c].killed(member)),
            !old(self)@.contains_key(c) ==> r == Err::<KillOutcome, &'static str>(NO_SESSION)
                && final(self)@ == old(self)@,
    {
        let mut g = match self.take(c) {
            Ok(g) => g,
            Err(e) => {
                proof {
                    assert(self@ =~= old(self)@);
                }
                return Err(e);
            },
        };
        let out = g.kill(member);
        self.put(c, g);
        proof {
            assert(self@ =~= old(self)@.insert(c, old(self)@[c].killed(member)));
        }
        Ok(out)
    }

    /// `revive member` in channel `c`.
    pub fn revive(&mut self, c: u64, member: u64) -> (r: Result<ReviveOutcome, &'static str>)
        ensures
            old(self)@.contains_key(c) ==> r == Ok::<ReviveOutcome, &'static str>(
                old(self)@[c].revive_outcome(member),
            ) && final(self)@ == old(self)@.insert(c, old(self)@[c].revived(member)),
            !old(self)@.contains_key(c) ==> r == Err::<ReviveOutcome, &'static str>(NO_SESSION)
                && final(self)@ == old(self)@,
    {
        let mut g = match self.take(c) {
            Ok(g) => g,
            Err(e) => {
                proof {
                    assert(self@ =~= old(self)@);
                }
                return Err(e);
            },
        };
        let out = g.revive(member);
        self.put(c, g);
        proof {
            assert(self@ =~= old(self)@.insert(c, old(self)@[c].revived(member)));
        }
        Ok(out)
    }

    /// `reset` in channel `c`: nobody dead, discussion phase, and every
    /// member of the channel is to be unmuted.
    pub fn reset(&mut self, c: u64) -> (r: Result<(), &'static str>)
        ensures
            old(self)@.contains_key(c) ==> r is Ok && final(self)@ == old(self)@.insert(
                c,
                old(self)@[c].reset(),
            ),
            old(self)@.contains_key(c) ==> final(self)@[c].dead.is_empty() && final(self)@[c].global_unmute,
            !old(self)@.contains_key(c) ==> r == Err::<(), &'static str>(NO_SESSION) && final(self)@ == old(self)@,
    {
        let mut g = match self.take(c) {
            Ok(g) => g,
            Err(e) => {
                proof {
                    assert(self@ =~= old(self)@);
                }
                return Err(e);
            },
        };
        g.reset();
        self.put(c, g);
        proof {
            assert(self@ =~= old(self)@.insert(c, old(self)@[c].reset()));
        }
        Ok(())
    }

    /// `member` left voice channel `c`, where `remaining` members are still
    /// present. A leader who leaves frees the seat; a dead member who leaves
    /// is dead no more; a channel left empty loses its session. Returns what
    /// is to be announced, or `None` where `c` has no session.
    pub fn member_left(&mut self, c: u64, member: u64, remaining: usize) -> (r: Option<Departure>)
        ensures
            r == leave_outcome(old(self)@, c, member, remaining as nat),
            final(self)@ == leave_state(old(self)@, c, member, remaining as nat),
            final(self)@.contains_key(c) ==> !final(self)@[c].dead.contains(member),
            final(self)@.contains_key(c) ==> final(self)@[c].leader != member || member == NO_LEADER,
    {
        let mut g = match self.take(c) {
            Ok(g) => g,
            Err(_) => {
                proof {
                    assert(self@ =~= old(self)@);
                }
                return None;
            },
        };
        let stepped_down = g.leader_user_id == member && member != NO_LEADER;
        if g.leader_user_id == member {
            g.leader_user_id = NO_LEADER;
        }
        if g.dead_players.contains_key(&member) {
            g.dead_players.remove(&member);
        }
        proof {
            assert(g@.dead =~= old(self)@[c].dead.remove(member));
            assert(g@ == departed(old(self)@[c], member));
        }
        let out = Departure { announce_to: g.recent_text_channel_id, stepped_down, ended: remaining == 0 };
        if remaining != 0 {
            self.put(c, g);
            proof {
                assert(self@ =~= old(self)@.insert(c, departed(old(self)@[c], member)));
            }
        }
        Some(out)
    }

    /// Whether a member who joined voice channel `c` with their mute flag
    /// `muted` is to be unmuted: a joiner stays muted only where the session
    /// of `c` is in its play phase.
    pub fn member_joined(&self, c: u64, muted: bool) -> (r: bool)
        ensures
            r == join_unmutes(self@, c, muted),
    {
        let game_muted = match self.sessions.get(&c) {
            Some(g) => !g.global_unmute,
            None => false,
        };
        muted && !game_muted
    }
}

} // verus!
