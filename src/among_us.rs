use std::collections::HashMap;
use vstd::prelude::*;

verus! {

broadcast use vstd::std_specs::hash::group_hash_axioms;

/// The member id that stands for "this session has no leader".
/// Member ids handed out by the chat platform are never zero.
pub const NO_LEADER: u64 = 0;

/// What a session is, mathematically.
pub struct SessionView {
    pub leader: u64,
    pub text_channel: u64,
    pub global_unmute: bool,
    pub dead: Set<u64>,
}

/// The state of the game played in one voice channel.
#[derive(Debug)]
pub struct GameInstance {
    pub leader_user_id: u64,
    pub recent_text_channel_id: u64,
    pub global_unmute: bool,
    pub dead_players: HashMap<u64, bool>,
}

impl View for GameInstance {
    type V = SessionView;

    open spec fn view(&self) -> SessionView {
        SessionView {
            leader: self.leader_user_id,
            text_channel: self.recent_text_channel_id,
            global_unmute: self.global_unmute,
            dead: self.dead_players@.dom(),
        }
    }
}

/// A session just created by `leader` from `text_channel`.
pub open spec fn fresh_session(leader: u64, text_channel: u64) -> SessionView {
    SessionView { leader, text_channel, global_unmute: true, dead: Set::empty() }
}

/// What `kill` reports.
#[derive(Debug, Clone, Copy, PartialEq, Eq, Structural)]
pub enum KillOutcome {
    /// The member is now dead and is to be muted.
    Killed,
    /// The member was dead already; nothing changed.
    AlreadyKilled,
}

/// What `revive` reports.
#[derive(Debug, Clone, Copy, PartialEq, Eq, Structural)]
pub enum ReviveOutcome {
    /// The member is alive again; `unmute` says whether to unmute them now.
    Revived { unmute: bool },
    /// The member was not dead; nothing changed.
    NotKilled,
}

impl SessionView {
    pub open spec fn with_global_unmute(self, on: bool) -> SessionView {
        SessionView { global_unmute: on, ..self }
    }

    pub open spec fn with_dead(self, dead: Set<u64>) -> SessionView {
        SessionView { dead, ..self }
    }

    /// The session after `kill(member)`.
    pub open spec fn killed(self, member: u64) -> SessionView {
        self.with_dead(self.dead.insert(member))
    }

    pub open spec fn kill_outcome(self, member: u64) -> KillOutcome {
        if self.dead.contains(member) {
            KillOutcome::AlreadyKilled
        } else {
            KillOutcome::Killed
        }
    }

    /// The session after `revive(member)`.
    pub open spec fn revived(self, member: u64) -> SessionView {
        self.with_dead(self.dead.remove(member))
    }

    pub open spec fn revive_outcome(self, member: u64) -> ReviveOutcome {
        if self.dead.contains(member) {
            ReviveOutcome::Revived { unmute: self.global_unmute }
        } else {
            ReviveOutcome::NotKilled
        }
    }

    /// The session after `reset`: everybody alive, discussion phase.
    pub open spec fn reset(self) -> SessionView {
        SessionView { global_unmute: true, dead: Set::empty(), ..self }
    }
}

/// The members of `roster` that are not in `dead`, in roster order.
pub open spec fn alive_members(roster: Seq<u64>, dead: Set<u64>) -> Seq<u64>
    decreases roster.len(),
{
    if roster.len() == 0 {
        Seq::empty()
    } else {
        let rest = alive_members(roster.drop_last(), dead);
        if dead.contains(roster.last()) {
            rest
        } else {
            rest.push(roster.last())
        }
    }
}

impl GameInstance {
    /// A new session led by `leader`, in its discussion phase, nobody dead.
    pub fn new(leader: u64, text_channel: u64) -> (r: GameInstance)
        ensures
            r@ == fresh_session(leader, text_channel),
    {
        let dead_players: HashMap<u64, bool> = HashMap::new();
        proof {
            assert(dead_players@.dom() =~= Set::<u64>::empty());
        }
        GameInstance {
            leader_user_id: leader,
            recent_text_channel_id: text_channel,
            global_unmute: true,
            dead_players,
        }
    }

    pub fn is_dead(&self, member: u64) -> (r: bool)
        ensures
            r == self@.dead.contains(member),
    {
        self.dead_players.contains_key(&member)
    }

    /// Play phase: every member of the channel is to be muted, dead or not.
    pub fn mute_all(&mut self)
        ensures
            final(self)@ == old(self)@.with_global_unmute(false),
    {
        self.global_unmute = false;
    }

    /// Discussion phase: returns the members of `roster` to unmute, which
    /// are those that are not dead.
    pub fn unmute_all_except_dead(&mut self, roster: &Vec<u64>) -> (r: Vec<u64>)
        ensures
            final(self)@ == old(self)@.with_global_unmute(true),
            r@ == alive_members(roster@, old(self)@.dead),
    {
        let mut alive: Vec<u64> = Vec::new();
        let mut i: usize = 0;
        while i < roster.len()
            invariant
                i <= roster@.len(),
                alive@ == alive_members(roster@.take(i as int), self@.dead),
            decreases roster@.len() - i,
        {
            let member = roster[i];
            proof {
                assert(roster@.take(i + 1).drop_last() =~= roster@.take(i as int));
            }
            if !self.dead_players.contains_key(&member) {
                alive.push(member);
            }
            i = i + 1;
        }
        proof {
            assert(roster@.take(roster@.len() as int) =~= roster@);
        }
        self.global_unmute = true;
        alive
    }

    /// Marks `member` dead. A member killed here is to be muted whatever the
    /// phase; killing a dead member changes nothing.
    pub fn kill(&mut self, member: u64) -> (r: KillOutcome)
        ensures
            r == old(self)@.kill_outcome(member),
            final(self)@ == old(self)@.killed(member),
    {
        if self.dead_players.contains_key(&member) {
            proof {
                assert(self@.dead.insert(member) =~= self@.dead);
                assert(self@ == self@.killed(member));
            }
            KillOutcome::AlreadyKilled
        } else {
            self.dead_players.insert(member, true);
            proof {
                assert(self@.dead =~= old(self)@.dead.insert(member));
            }
            KillOutcome::Killed
        }
    }

    /// Brings `member` back to life. They are to be unmuted only in the
    /// discussion phase; reviving a living member changes nothing.
    pub fn revive(&mut self, member: u64) -> (r: ReviveOutcome)
        ensures
            r == old(self)@.revive_outcome(member),
            final(self)@ == old(self)@.revived(member),
    {
        if self.dead_players.contains_key(&member) {
            self.dead_players.remove(&member);
            proof {
                assert(self@.dead =~= old(self)@.dead.remove(member));
            }
            ReviveOutcome::Revived { unmute: self.global_unmute }
        } else {
            proof {
                assert(self@.dead.remove(member) =~= self@.dead);
                assert(self@ == self@.revived(member));
            }
            ReviveOutcome::NotKilled
        }
    }

    /// Nobody dead and the discussion phase, whatever came before. Every
    /// member of the channel is to be unmuted.
    pub fn reset(&mut self)
        ensures
            final(self)@ == old(self)@.reset(),
            final(self)@.dead.is_empty(),
            final(self)@.global_unmute,
    {
        self.dead_players = HashMap::new();
        self.global_unmute = true;
        proof {
            assert(self@.dead =~= Set::<u64>::empty());
        }
    }
}

} // verus!
