use vstd::prelude::*;
use crate::components::client::{ClientPacketQueue, PacketEncoder};
use crate::crypto::random_keep_alive_id;
use crate::error::PacketIoError;
use crate::handlers::{queue_view, send_packet};
use crate::protocol::bytebuf::encode_i64;
use crate::protocol::client::play::CKeepAlive;
use crate::protocol::server::play::SKeepAlive;
use crate::protocol::var_int::VarInt;
use crate::protocol::ClientPacket;

verus! {

/// What the server knows of a player's last keep-alive. Times are in
/// milliseconds on a clock that does not run backwards.
#[derive(Debug, Clone, Copy, PartialEq, Eq, Structural)]
pub struct KeepAliveState {
    /// Whether the client answered the last keep-alive.
    pub got_keepalive: bool,
    /// The id of the last keep-alive.
    pub last_keepalive_id: i64,
    /// When the last keep-alive was sent.
    pub last_send: u64,
}

/// How often the server asks.
#[derive(Debug, Clone, Copy, PartialEq, Eq, Structural)]
pub struct KeepAliveSettings {
    /// The time between two keep-alives, in milliseconds.
    pub period: u64,
}

impl Default for KeepAliveSettings {
    fn default() -> (settings: Self)
        ensures
            settings.period == 8000,
    {
        Self { period: 8000 }
    }
}

impl KeepAliveState {
    /// The state of a player that enters the game at `now`: nothing is awaited.
    pub fn new(now: u64) -> (state: Self)
        ensures
            state == (KeepAliveState { got_keepalive: true, last_keepalive_id: 0, last_send: now }),
    {
        Self { got_keepalive: true, last_keepalive_id: 0, last_send: now }
    }
}

/// What a tick does about a player's keep-alive.
#[derive(Debug, Clone, Copy, PartialEq, Eq, Structural)]
pub enum KeepAliveAction {
    /// It is not time yet.
    Wait,
    /// A keep-alive was sent.
    Sent,
    /// The last keep-alive was never answered: the player is to be
    /// disconnected.
    TimedOut,
}

/// Whether a period has gone by since the last keep-alive.
pub open spec fn is_due(state: KeepAliveState, settings: KeepAliveSettings, now: u64) -> bool {
    now >= state.last_send && now - state.last_send >= settings.period
}

/// What a tick at `now` does.
pub open spec fn tick_action(state: KeepAliveState, settings: KeepAliveSettings, now: u64) -> KeepAliveAction {
    if !is_due(state, settings, now) {
        KeepAliveAction::Wait
    } else if state.got_keepalive {
        KeepAliveAction::Sent
    } else {
        KeepAliveAction::TimedOut
    }
}

/// The state after a tick at `now` that would send `id`.
pub open spec fn tick_state(
    state: KeepAliveState,
    settings: KeepAliveSettings,
    now: u64,
    id: i64,
) -> KeepAliveState {
    if tick_action(state, settings, now) == KeepAliveAction::Sent {
        KeepAliveState { got_keepalive: false, last_keepalive_id: id, last_send: now }
    } else {
        state
    }
}

/// A tick of the keep-alive with an id that the caller drew. Once a period
/// has gone by since the last keep-alive, the next one is sent if the last
/// was answered, and the player has timed out if it was not. A keep-alive
/// that cannot be sent changes nothing.
pub fn keepalive_tick(
    enc: &mut PacketEncoder,
    state: &mut KeepAliveState,
    settings: &KeepAliveSettings,
    now: u64,
    id: i64,
) -> (r: Result<KeepAliveAction, PacketIoError>)
    ensures
        tick_action(*old(state), *settings, now) != KeepAliveAction::Sent ==> r == Ok::<
            KeepAliveAction,
            PacketIoError,
        >(tick_action(*old(state), *settings, now)) && *final(state) == *old(state) && final(enc)@ == old(enc)@,
        tick_action(*old(state), *settings, now) == KeepAliveAction::Sent ==> match old(enc)@.append(CKeepAlive::packet_id(), encode_i64(id)) {
            Ok(next) => r == Ok::<KeepAliveAction, PacketIoError>(KeepAliveAction::Sent) && final(enc)@ == next && *final(state) == tick_state(*old(state), *settings, now, id),
            Err(e) => r == Err::<KeepAliveAction, PacketIoError>(PacketIoError::Packet(e))
                && final(enc)@ == old(enc)@ && *final(state) == *old(state),
        },
{
    if now >= state.last_send && now - state.last_send >= settings.period {
        if state.got_keepalive {
            send_packet(enc, &CKeepAlive { keep_alive_id: id })?;
            state.got_keepalive = false;
            state.last_keepalive_id = id;
            state.last_send = now;
            Ok(KeepAliveAction::Sent)
        } else {
            Ok(KeepAliveAction::TimedOut)
        }
    } else {
        Ok(KeepAliveAction::Wait)
    }
}

/// A tick of the keep-alive, with an id drawn by chance: whatever the id,
/// the tick is `keepalive_tick` with it, and the id is the one that the state
/// holds after a keep-alive was sent.
pub fn send_keepalive(
    enc: &mut PacketEncoder,
    state: &mut KeepAliveState,
    settings: &KeepAliveSettings,
    now: u64,
) -> (r: Result<KeepAliveAction, PacketIoError>)
    ensures
        tick_action(*old(state), *settings, now) != KeepAliveAction::Sent ==> r == Ok::<
            KeepAliveAction,
            PacketIoError,
        >(tick_action(*old(state), *settings, now)) && *final(state) == *old(state) && final(enc)@ == old(enc)@,
        tick_action(*old(state), *settings, now) == KeepAliveAction::Sent ==> exists|id: i64|
            match #[trigger] old(enc)@.append(CKeepAlive::packet_id(), encode_i64(id)) {
                Ok(next) => r == Ok::<KeepAliveAction, PacketIoError>(KeepAliveAction::Sent)
                    && final(enc)@ == next && *final(state) == tick_state(
                    *old(state),
                    *settings,
                    now,
                    id,
                ),
                Err(e) => r == Err::<KeepAliveAction, PacketIoError>(PacketIoError::Packet(e))
                    && final(enc)@ == old(enc)@ && *final(state) == *old(state),
            },
{
    let id = random_keep_alive_id();
    keepalive_tick(enc, state, settings, now, id)
}

/// What the answer `keep_alive_id` does to the state, and whether the player
/// stays. An answer that is not awaited changes nothing. An awaited answer
/// with the id of the last keep-alive is taken; with any other id the player
/// is to be disconnected.
pub open spec fn answered(state: KeepAliveState, keep_alive_id: i64) -> (KeepAliveState, bool) {
    if state.got_keepalive {
        (state, true)
    } else if keep_alive_id != state.last_keepalive_id {
        (state, false)
    } else {
        (
            KeepAliveState {
                got_keepalive: true,
                last_keepalive_id: state.last_keepalive_id,
                last_send: state.last_send,
            },
            true,
        )
    }
}

/// What the packets of one tick do to the state: every keep-alive answer
/// among them is looked at in its turn; a packet that is none, or that is too
/// short to be one, is passed over. The first answer with a wrong id ends
/// the connection.
pub open spec fn answers_handled(state: KeepAliveState, packets: Seq<(VarInt, Seq<u8>)>) -> (
    KeepAliveState,
    bool,
)
    decreases packets.len(),
{
    if packets.len() == 0 {
        (state, true)
    } else if packets[0].0.0 != SKeepAlive::PACKET_ID {
        answers_handled(state, packets.skip(1))
    } else {
        match SKeepAlive::parse(packets[0].1).0 {
            Err(_) => answers_handled(state, packets.skip(1)),
            Ok(answer) => {
                let (next, stays) = answered(state, answer.keep_alive_id);
                if stays {
                    answers_handled(next, packets.skip(1))
                } else {
                    (next, false)
                }
            },
        }
    }
}

/// Looks at the keep-alive answers among the packets of one tick.
pub fn handle_keepalive(queue: &ClientPacketQueue, state: &mut KeepAliveState) -> (r: Result<
    (),
    PacketIoError,
>)
    ensures
        *final(state) == answers_handled(*old(state), queue_view(*queue)).0,
        answers_handled(*old(state), queue_view(*queue)).1 ==> r == Ok::<(), PacketIoError>(()),
        !answers_handled(*old(state), queue_view(*queue)).1 ==> r == Err::<(), PacketIoError>(
            PacketIoError::Disconnect,
        ),
{
    let ghost packets = queue_view(*queue);
    let mut i: usize = 0;
    assert(packets.skip(0) =~= packets);
    while i < queue.0.len()
        invariant
            i <= queue.0@.len(),
            packets == queue_view(*queue),
            answers_handled(*old(state), packets) == answers_handled(
                *state,
                packets.skip(i as int),
            ),
        decreases queue.0@.len() - i,
    {
        let ghost left = packets.skip(i as int);
        let mut packet = queue.0[i].clone();
        assert(left[0] == (packet.id, packet.bytebuf@));
        assert(left.skip(1) =~= packets.skip(i + 1));
        if packet.id.0 == SKeepAlive::PACKET_ID {
            if let Ok(answer) = SKeepAlive::read(&mut packet.bytebuf) {
                if !state.got_keepalive {
                    if answer.keep_alive_id != state.last_keepalive_id {
                        return Err(PacketIoError::Disconnect);
                    }
                    state.got_keepalive = true;
                }
            }
        }
        i = i + 1;
    }
    assert(packets.skip(i as int) =~= Seq::<(VarInt, Seq<u8>)>::empty());
    Ok(())
}

/// A player whose keep-alive was sent at `sent` and who answers it with its
/// id stays, and no tick after that times the player out, whenever it comes.
pub proof fn law_answered_keep_alive_stays(
    settings: KeepAliveSettings,
    sent: u64,
    id: i64,
    later: u64,
)
    ensures
        ({
            let waiting = KeepAliveState {
                got_keepalive: false,
                last_keepalive_id: id,
                last_send: sent,
            };
            let (after, stays) = answered(waiting, id);
            stays && after.got_keepalive && tick_action(after, settings, later)
                != KeepAliveAction::TimedOut
        }),
{
}

/// A player whose keep-alive was sent at `sent` and who answers with another
/// id is disconnected at once.
pub proof fn law_wrong_keep_alive_disconnects(sent: u64, id: i64, other: i64)
    requires
        other != id,
    ensures
        !answered(
            KeepAliveState { got_keepalive: false, last_keepalive_id: id, last_send: sent },
            other,
        ).1,
{
}

/// The first of some ticks at which a period has gone by since `sent`; the
/// number of ticks where there is none.
pub open spec fn first_due(ticks: Seq<u64>, sent: u64, period: u64) -> int
    decreases ticks.len(),
{
    if ticks.len() == 0 {
        0
    } else if ticks[0] - sent >= period {
        0
    } else {
        1 + first_due(ticks.skip(1), sent, period)
    }
}

/// A player whose keep-alive was sent at `sent` and who does not answer is
/// timed out at the first tick at which a period has gone by, and at none
/// before. Where the ticks follow `sent` and each other by at most a period,
/// and go on until a period has gone by, that tick comes no later than two
/// periods after `sent`.
pub proof fn law_unanswered_keep_alive_times_out(
    settings: KeepAliveSettings,
    sent: u64,
    id: i64,
    ticks: Seq<u64>,
)
    requires
        ticks.len() > 0,
        sent <= ticks[0] <= sent + settings.period,
        forall|k: int| 0 <= k < ticks.len() - 1 ==> ticks[k] <= #[trigger] ticks[k + 1] <= ticks[k]
            + settings.period,
        ticks.last() - sent >= settings.period,
    ensures
        ({
            let waiting = KeepAliveState {
                got_keepalive: false,
                last_keepalive_id: id,
                last_send: sent,
            };
            let at = first_due(ticks, sent, settings.period);
            &&& 0 <= at < ticks.len()
            &&& tick_action(waiting, settings, ticks[at]) == KeepAliveAction::TimedOut
            &&& ticks[at] <= sent + 2 * settings.period
            &&& forall|k: int|
                0 <= k < at ==> tick_action(waiting, settings, #[trigger] ticks[k])
                    == KeepAliveAction::Wait
        }),
{
    if ticks[0] - sent < settings.period {
        lemma_due_within(settings, sent, id, ticks, sent);
    }
}

/// The ticks after one that came too early, which `previous` is.
proof fn lemma_due_within(
    settings: KeepAliveSettings,
    sent: u64,
    id: i64,
    ticks: Seq<u64>,
    previous: u64,
)
    requires
        ticks.len() > 0,
        sent <= previous,
        previous - sent < settings.period,
        previous <= ticks[0] <= previous + settings.period,
        forall|k: int| 0 <= k < ticks.len() - 1 ==> ticks[k] <= #[trigger] ticks[k + 1] <= ticks[k]
            + settings.period,
        ticks.last() - sent >= settings.period,
    ensures
        ({
            let waiting = KeepAliveState {
                got_keepalive: false,
                last_keepalive_id: id,
                last_send: sent,
            };
            let at = first_due(ticks, sent, settings.period);
            &&& 0 <= at < ticks.len()
            &&& tick_action(waiting, settings, ticks[at]) == KeepAliveAction::TimedOut
            &&& ticks[at] <= sent + 2 * settings.period
            &&& forall|k: int|
                0 <= k < at ==> tick_action(waiting, settings, #[trigger] ticks[k])
                    == KeepAliveAction::Wait
        }),
    decreases ticks.len(),
{
    let period = settings.period;
    if ticks[0] - sent >= period {
    } else {
        let rest = ticks.skip(1);
        assert(rest.len() > 0) by {
            if ticks.len() == 1 {
                assert(ticks.last() == ticks[0]);
            }
        }
        assert(rest.last() == ticks.last());
        assert forall|k: int| 0 <= k < rest.len() - 1 implies rest[k] <= #[trigger] rest[k + 1]
            <= rest[k] + period by {
            assert(rest[k] == ticks[k + 1]);
            assert(rest[k + 1] == ticks[k + 1 + 1]);
        }
        assert(rest[0] == ticks[1]);
        lemma_due_within(settings, sent, id, rest, ticks[0]);
        let at = first_due(rest, sent, period);
        assert(first_due(ticks, sent, period) == at + 1);
        assert(ticks[at + 1] == rest[at]);
        let waiting = KeepAliveState { got_keepalive: false, last_keepalive_id: id, last_send: sent };
        assert forall|k: int| 0 <= k < at + 1 implies tick_action(
            waiting,
            settings,
            #[trigger] ticks[k],
        ) == KeepAliveAction::Wait by {
            if k > 0 {
                assert(ticks[k] == rest[k - 1]);
            }
        }
    }
}

} // verus!
