use crate::among_us::{KillOutcome, ReviveOutcome, SessionView, NO_LEADER};
use crate::registry::{
    departed, authorize_outcome, authorize_state, leave_state, Admission, Rejection,
};
use vstd::prelude::*;

verus! {

/// The members present in voice channel `c`, where `rosters` holds the
/// members of each channel and a channel missing from it is empty.
pub open spec fn roster_of(rosters: Map<u64, Set<u64>>, c: u64) -> Set<u64> {
    if rosters.contains_key(c) {
        rosters[c]
    } else {
        Set::empty()
    }
}

/// The registry `g` agrees with the voice rosters: the leader of every
/// session is either vacant or present in the session's channel, and no
/// session outlives the last member of its channel.
pub open spec fn consistent(g: Map<u64, SessionView>, rosters: Map<u64, Set<u64>>) -> bool {
    forall|c: u64|
        #[trigger] g.contains_key(c) ==> {
            &&& g[c].leader == NO_LEADER || roster_of(rosters, c).contains(g[c].leader)
            &&& roster_of(rosters, c) != Set::<u64>::empty()
        }
}

/// The rosters after `member` left channel `c`.
pub open spec fn roster_left(rosters: Map<u64, Set<u64>>, c: u64, member: u64) -> Map<
    u64,
    Set<u64>,
> {
    rosters.insert(c, roster_of(rosters, c).remove(member))
}

/// The rosters after `member` joined channel `c`.
pub open spec fn roster_joined(rosters: Map<u64, Set<u64>>, c: u64, member: u64) -> Map<
    u64,
    Set<u64>,
> {
    rosters.insert(c, roster_of(rosters, c).insert(member))
}

/// Authorization creates a session only for a channel that has none and keeps
/// the phase and the dead of a session that exists. Afterwards the channel
/// has its one session, so a later request on it creates none.
pub proof fn lemma_one_session_per_channel(
    g: Map<u64, SessionView>,
    c: u64,
    first: u64,
    first_command: Seq<char>,
    first_text: u64,
    second: u64,
    second_command: Seq<char>,
)
    ensures
        (authorize_outcome(g, first_command, first, Some(c)) == Ok::<Admission, Rejection>(
            Admission::Created,
        )) <==> !g.contains_key(c),
        authorize_state(g, first, Some(c), first_text).dom() == g.dom().insert(c),
        g.contains_key(c) ==> authorize_state(g, first, Some(c), first_text)[c].dead == g[c].dead
            && authorize_state(g, first, Some(c), first_text)[c].global_unmute == g[c].global_unmute,
        authorize_outcome(authorize_state(g, first, Some(c), first_text), second_command, second, Some(c))
            != Ok::<Admission, Rejection>(Admission::Created),
{
    assert(authorize_state(g, first, Some(c), first_text).dom() =~= g.dom().insert(c));
}

/// Two members of one channel whose session has no leader (or who have no
/// session yet) ask at once: the registry serves them one after the other,
/// the first becomes leader and the second is refused.
pub proof fn lemma_one_leader_wins(
    g: Map<u64, SessionView>,
    c: u64,
    first: u64,
    first_command: Seq<char>,
    first_text: u64,
    second: u64,
    second_command: Seq<char>,
    second_text: u64,
)
    requires
        first != second,
        first != NO_LEADER,
        second != NO_LEADER,
        !g.contains_key(c) || g[c].leader == NO_LEADER,
    ensures
        authorize_outcome(g, first_command, first, Some(c)) is Ok,
        authorize_outcome(authorize_state(g, first, Some(c), first_text), second_command, second, Some(c))
            == Err::<Admission, Rejection>(Rejection::HasLeader),
        authorize_state(authorize_state(g, first, Some(c), first_text), second, Some(c), second_text)[c].leader
            == first,
{
}

/// Authorization keeps the registry consistent with the rosters when the caller
/// is present in the voice channel they ask from.
pub proof fn lemma_authorize_keeps_consistent(
    g: Map<u64, SessionView>,
    rosters: Map<u64, Set<u64>>,
    caller: u64,
    voice: Option<u64>,
    text_channel: u64,
)
    requires
        consistent(g, rosters),
        voice matches Some(c) ==> roster_of(rosters, c).contains(caller),
    ensures
        consistent(authorize_state(g, caller, voice, text_channel), rosters),
{
    let g2 = authorize_state(g, caller, voice, text_channel);
    assert forall|d: u64| #[trigger] g2.contains_key(d) implies {
        &&& g2[d].leader == NO_LEADER || roster_of(rosters, d).contains(g2[d].leader)
        &&& roster_of(rosters, d) != Set::<u64>::empty()
    } by {
        if voice == Some(d) {
            assert(roster_of(rosters, d).contains(caller));
        } else {
            assert(g.contains_key(d));
        }
    }
}

/// A member leaving a channel keeps the registry consistent with the
/// rosters: a departing leader frees the seat, and the session of a channel
/// left empty goes.
pub proof fn lemma_leave_keeps_consistent(
    g: Map<u64, SessionView>,
    rosters: Map<u64, Set<u64>>,
    c: u64,
    member: u64,
    remaining: nat,
)
    requires
        consistent(g, rosters),
        roster_of(rosters, c).remove(member).finite(),
        remaining == roster_of(rosters, c).remove(member).len(),
    ensures
        consistent(leave_state(g, c, member, remaining), roster_left(rosters, c, member)),
{
    let g2 = leave_state(g, c, member, remaining);
    let r2 = roster_left(rosters, c, member);
    assert forall|d: u64| #[trigger] g2.contains_key(d) implies {
        &&& g2[d].leader == NO_LEADER || roster_of(r2, d).contains(g2[d].leader)
        &&& roster_of(r2, d) != Set::<u64>::empty()
    } by {
        assert(g.contains_key(d));
        if d == c {
            let left = roster_of(rosters, c).remove(member);
            assert(roster_of(r2, d) == left);
            assert(remaining != 0);
            if left == Set::<u64>::empty() {
                assert(left.len() == 0);
            }
            assert(g2[d] == departed(g[d], member));
        } else {
            assert(roster_of(r2, d) == roster_of(rosters, d));
        }
    }
}

/// A member joining a channel keeps the registry consistent with the
/// rosters.
pub proof fn lemma_join_keeps_consistent(
    g: Map<u64, SessionView>,
    rosters: Map<u64, Set<u64>>,
    c: u64,
    member: u64,
)
    requires
        consistent(g, rosters),
    ensures
        consistent(g, roster_joined(rosters, c, member)),
{
    let r2 = roster_joined(rosters, c, member);
    assert forall|d: u64| #[trigger] g.contains_key(d) implies {
        &&& g[d].leader == NO_LEADER || roster_of(r2, d).contains(g[d].leader)
        &&& roster_of(r2, d) != Set::<u64>::empty()
    } by {
        if d == c {
            assert(roster_of(r2, d).contains(member));
        } else {
            assert(roster_of(r2, d) == roster_of(rosters, d));
        }
    }
}

/// The commands of a session's leader keep the registry consistent with
/// the rosters: none of them moves the seat or creates a session.
pub proof fn lemma_commands_keep_consistent(
    g: Map<u64, SessionView>,
    rosters: Map<u64, Set<u64>>,
    c: u64,
    member: u64,
)
    requires
        consistent(g, rosters),
        g.contains_key(c),
    ensures
        consistent(g.insert(c, g[c].with_global_unmute(false)), rosters),
        consistent(g.insert(c, g[c].with_global_unmute(true)), rosters),
        consistent(g.insert(c, g[c].killed(member)), rosters),
        consistent(g.insert(c, g[c].revived(member)), rosters),
        consistent(g.insert(c, g[c].reset()), rosters),
{
    assert forall|s: SessionView| s.leader == g[c].leader implies consistent(g.insert(c, s), rosters) by {
        assert forall|d: u64| #[trigger] g.insert(c, s).contains_key(d) implies {
            &&& g.insert(c, s)[d].leader == NO_LEADER || roster_of(rosters, d).contains(
                g.insert(c, s)[d].leader,
            )
            &&& roster_of(rosters, d) != Set::<u64>::empty()
        } by {
            assert(g.contains_key(d));
        }
    }
}

/// With the session in its discussion phase, reviving a member who was just
/// killed unmutes them and gives back the session as it was before the kill.
pub proof fn lemma_revive_undoes_kill(s: SessionView, member: u64)
    requires
        s.global_unmute,
    ensures
        s.killed(member).revive_outcome(member) == (ReviveOutcome::Revived { unmute: true }),
        !s.dead.contains(member) ==> s.kill_outcome(member) == KillOutcome::Killed
            && s.killed(member).revived(member) == s,
{
    if !s.dead.contains(member) {
        assert(s.dead.insert(member).remove(member) =~= s.dead);
    }
}

/// Killing a member who is dead already is reported as such and changes
/// nothing.
pub proof fn lemma_kill_dead_is_noop(s: SessionView, member: u64)
    requires
        s.dead.contains(member),
    ensures
        s.kill_outcome(member) == KillOutcome::AlreadyKilled,
        s.killed(member) == s,
{
    assert(s.dead.insert(member) =~= s.dead);
}

} // verus!
