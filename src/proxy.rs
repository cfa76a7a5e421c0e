//! Process-wide session bookkeeping: the count of connected players, who is
//! admitted, and the counts that status responses report.
use vstd::prelude::*;
use crate::cfg::Players;

verus! {

/// The mutable part of the proxy's shared state.
pub struct MutableProxyInfo {
    pub current_players: i32,
}

/// The player counts of a status response.
#[derive(Debug, Clone, Copy, PartialEq, Eq, Structural)]
pub struct StatusPlayers {
    pub max: i32,
    pub online: i32,
}

/// Whether a new player is let in while `current` are connected: always,
/// but under a capped policy once the cap is reached.
pub open spec fn admits(players: Players, current: int) -> bool {
    match players {
        Players::Capped { max_players } => current < max_players,
        _ => true,
    }
}

/// One event of a player session, as the shared counter sees it.
pub enum SessionEvent {
    /// A player finished logging in and asks to be admitted.
    Arrive,
    /// An admitted player's session ended, normally or on an error.
    Leave,
}

/// The counter after a player arrives or leaves.
pub open spec fn count_step(players: Players, count: int, ev: SessionEvent) -> int {
    match ev {
        SessionEvent::Arrive => if admits(players, count) { count + 1 } else { count },
        SessionEvent::Leave => count - 1,
    }
}

/// The counter after a run of events, from zero.
pub open spec fn count_after(players: Players, evs: Seq<SessionEvent>) -> int
    decreases evs.len(),
{
    if evs.len() == 0 {
        0
    } else {
        count_step(players, count_after(players, evs.drop_last()), evs.last())
    }
}

/// Sessions admitted in a run of events.
pub open spec fn admitted_in(players: Players, evs: Seq<SessionEvent>) -> int
    decreases evs.len(),
{
    if evs.len() == 0 {
        0
    } else {
        let before = admitted_in(players, evs.drop_last());
        match evs.last() {
            SessionEvent::Arrive => if admits(players, count_after(players, evs.drop_last())) {
                before + 1
            } else {
                before
            },
            SessionEvent::Leave => before,
        }
    }
}

/// Sessions ended in a run of events.
pub open spec fn ended_in(evs: Seq<SessionEvent>) -> int
    decreases evs.len(),
{
    if evs.len() == 0 {
        0
    } else {
        ended_in(evs.drop_last()) + if evs.last() is Leave { 1int } else { 0int }
    }
}

/// Only admitted sessions end, each once: at every point no more sessions
/// have ended than were admitted.
pub open spec fn sessions_well_formed(players: Players, evs: Seq<SessionEvent>) -> bool {
    forall|k: int| 0 <= k <= evs.len() ==> ended_in(#[trigger] evs.subrange(0, k)) <= admitted_in(
        players,
        evs.subrange(0, k),
    )
}

/// Whatever the order of arrivals, refusals and departures (a session that
/// ends on an error leaves like any other), the counter equals the number
/// of sessions admitted and not yet ended: it never goes below zero and is
/// zero again once every admitted session has ended.
pub proof fn lemma_player_count_balanced(players: Players, evs: Seq<SessionEvent>)
    requires
        sessions_well_formed(players, evs),
    ensures
        count_after(players, evs) == admitted_in(players, evs) - ended_in(evs),
        count_after(players, evs) >= 0,
        ended_in(evs) == admitted_in(players, evs) ==> count_after(players, evs) == 0,
    decreases evs.len(),
{
    assert(evs.subrange(0, evs.len() as int) =~= evs);
    if evs.len() > 0 {
        let init = evs.drop_last();
        assert forall|k: int| 0 <= k <= init.len() implies ended_in(#[trigger] init.subrange(0, k)) <= admitted_in(
            players,
            init.subrange(0, k),
        ) by {
            assert(init.subrange(0, k) =~= evs.subrange(0, k));
        }
        lemma_player_count_balanced(players, init);
    }
}

/// One session, seen from the counter: whether or not the player is
/// admitted, and however the admitted session ends, the counter is back
/// where it started once the session is over.
pub proof fn lemma_session_restores_count(players: Players, n: int)
    requires
        n >= 0,
    ensures
        admits(players, n) ==> count_step(players, count_step(players, n, SessionEvent::Arrive), SessionEvent::Leave)
            == n,
        !admits(players, n) ==> count_step(players, n, SessionEvent::Arrive) == n,
{
}

impl MutableProxyInfo {
    /// No players connected.
    pub fn new() -> (r: MutableProxyInfo)
        ensures
            r.current_players == 0,
    {
        MutableProxyInfo { current_players: 0 }
    }

    /// Admits a player unless the policy's cap is reached; the counter
    /// grows by one for an admitted player.
    pub fn try_admit(&mut self, players: &Players) -> (r: bool)
        requires
            admits(*players, old(self).current_players as int) ==> old(self).current_players < i32::MAX,
        ensures
            r == admits(*players, old(self).current_players as int),
            final(self).current_players == count_step(*players, old(self).current_players as int, SessionEvent::Arrive),
            final(self).current_players == if r {
                old(self).current_players + 1
            } else {
                old(self).current_players as int
            },
    {
        match players {
            Players::Capped { max_players } => {
                if self.current_players >= *max_players {
                    return false;
                }
            },
            _ => {},
        }
        self.current_players = self.current_players + 1;
        true
    }

    /// Records that an admitted player's session ended.
    pub fn release(&mut self)
        requires
            old(self).current_players > 0,
        ensures
            final(self).current_players == old(self).current_players - 1,
            forall|players: Players|
                final(self).current_players == count_step(
                    players,
                    old(self).current_players as int,
                    SessionEvent::Leave,
                ),
    {
        self.current_players = self.current_players - 1;
    }
}

/// The counts a status response reports while `current` players are
/// connected.
pub open spec fn status_counts(players: Players, current: i32) -> StatusPlayers {
    match players {
        Players::Incremental => StatusPlayers { max: (current + 1) as i32, online: current },
        Players::Static { max_players, online_players } => StatusPlayers { max: max_players, online: online_players },
        Players::Capped { max_players } => StatusPlayers { max: max_players, online: current },
    }
}

/// Computes the counts of a status response.
pub fn status_players(players: &Players, current: i32) -> (r: StatusPlayers)
    requires
        *players is Incremental ==> current < i32::MAX,
    ensures
        r == status_counts(*players, current),
{
    match players {
        Players::Incremental => StatusPlayers { max: current + 1, online: current },
        Players::Static { max_players, online_players } => StatusPlayers { max: *max_players, online: *online_players },
        Players::Capped { max_players } => StatusPlayers { max: *max_players, online: current },
    }
}

} // verus!
