//! Voice-channel decisions: whether a join, leave or play request is
//! granted, and the denial message shown when it is not.
//!
//! A join is granted only when an administrator other than the bot itself
//! is present among the occupants of the invoking user's voice channel.
//! The unverified driver gathers the occupants and their permissions,
//! asks [`decide_join`], and performs (or refuses) the connection.

use vstd::prelude::*;
use vstd::string::StringExecFns;

verus! {

/// One current occupant of a voice channel: the platform user id, and
/// whether that member holds administrator permission in the channel.
/// Where the driver could not fetch the membership or the permissions,
/// it reports `is_admin` as false.
#[derive(Clone, Copy, Debug, PartialEq, Eq, Structural)]
pub struct Occupant {
    pub user_id: u64,
    pub is_admin: bool,
}

/// Outcome of a join request.
#[derive(Clone, Copy, Debug, PartialEq, Eq, Structural)]
pub enum JoinDecision {
    /// The invoking user is not in a voice channel.
    NotInVoiceChannel,
    /// The target channel has no occupants.
    ChannelEmpty,
    /// No administrator other than the bot is present in the channel.
    NoAdminPresent,
    /// Connect to this channel, replacing any existing connection for
    /// the same guild.
    Connect { channel_id: u64 },
}

/// Whether some occupant other than the bot itself holds administrator
/// permission.
pub open spec fn admin_present(occupants: Seq<Occupant>, bot_user_id: u64) -> bool {
    exists|i: int|
        0 <= i < occupants.len() && occupants[i].user_id != bot_user_id && occupants[i].is_admin
}

/// The join rule: deny without a channel, deny an empty channel, deny
/// without an administrator present, and otherwise connect to the
/// invoking user's channel.
pub open spec fn spec_decide_join(
    invoker_channel: Option<u64>,
    occupants: Seq<Occupant>,
    bot_user_id: u64,
) -> JoinDecision {
    match invoker_channel {
        Option::None => JoinDecision::NotInVoiceChannel,
        Option::Some(channel_id) => if occupants.len() == 0 {
            JoinDecision::ChannelEmpty
        } else if admin_present(occupants, bot_user_id) {
            JoinDecision::Connect { channel_id }
        } else {
            JoinDecision::NoAdminPresent
        },
    }
}

/// Decides a join request: `invoker_channel` is the invoking user's
/// current voice channel, `occupants` the current occupants of that
/// channel (empty where there is no channel), and `bot_user_id` the
/// bot's own user id.
pub fn decide_join(
    invoker_channel: Option<u64>,
    occupants: &Vec<Occupant>,
    bot_user_id: u64,
) -> (decision: JoinDecision)
    ensures
        decision == spec_decide_join(invoker_channel, occupants@, bot_user_id),
{
    let channel_id = match invoker_channel {
        Option::None => {
            return JoinDecision::NotInVoiceChannel;
        },
        Option::Some(channel_id) => channel_id,
    };
    if occupants.len() == 0 {
        return JoinDecision::ChannelEmpty;
    }
    let mut i: usize = 0;
    while i < occupants.len()
        invariant
            i <= occupants@.len(),
            occupants@.len() > 0,
            invoker_channel == Option::Some(channel_id),
            !admin_present(occupants@.subrange(0, i as int), bot_user_id),
        decreases occupants@.len() - i,
    {
        let occupant = occupants[i];
        if occupant.user_id != bot_user_id && occupant.is_admin {
            proof {
                assert(admin_present(occupants@, bot_user_id)) by {
                    assert((i as int) < occupants@.len());
                    assert(occupants@[i as int].user_id != bot_user_id);
                    assert(occupants@[i as int].is_admin);
                }
            }
            return JoinDecision::Connect { channel_id };
        }
        proof {
            let pre = occupants@.subrange(0, i as int);
            let ext = occupants@.subrange(0, i + 1 as int);
            assert forall|j: int| 0 <= j < ext.len() implies !(ext[j].user_id != bot_user_id
                && ext[j].is_admin) by {
                if j < i {
                    assert(ext[j] == pre[j]);
                } else {
                    assert(ext[j] == occupants@[i as int]);
                }
            }
        }
        i = i + 1;
    }
    proof {
        assert(occupants@.subrange(0, occupants@.len() as int) =~= occupants@);
    }
    JoinDecision::NoAdminPresent
}

impl JoinDecision {
    /// The denial message shown to the invoking user for a refused join;
    /// nothing where the join is granted.
    pub fn refusal_message(&self) -> (message: Option<String>)
        ensures
            self is NotInVoiceChannel ==> (message matches Some(m) && m@
                == "You need to be in a voice channel"@),
            self is ChannelEmpty ==> (message matches Some(m) && m@
                == "Voice channel is empty."@),
            self is NoAdminPresent ==> (message matches Some(m) && m@
                == "I can only join if there is an admin present in the voice channel."@),
            self is Connect ==> message is None,
    {
        match self {
            JoinDecision::NotInVoiceChannel => Option::Some(
                String::from_str("You need to be in a voice channel"),
            ),
            JoinDecision::ChannelEmpty => Option::Some(String::from_str("Voice channel is empty.")),
            JoinDecision::NoAdminPresent => Option::Some(
                String::from_str("I can only join if there is an admin present in the voice channel."),
            ),
            JoinDecision::Connect { .. } => Option::None,
        }
    }
}

/// Law: without an administrator among the occupants (the bot itself
/// aside), a join request is never granted, whatever channel the
/// invoking user is in.
pub proof fn lemma_join_refused_without_admin(
    invoker_channel: Option<u64>,
    occupants: Seq<Occupant>,
    bot_user_id: u64,
)
    requires
        !admin_present(occupants, bot_user_id),
    ensures
        spec_decide_join(invoker_channel, occupants, bot_user_id) !is Connect,
{
}

/// Law: with at least one administrator other than the bot present
/// among the occupants of the invoking user's channel, the join is
/// granted, to that channel.
pub proof fn lemma_join_granted_with_admin(
    channel_id: u64,
    occupants: Seq<Occupant>,
    bot_user_id: u64,
)
    requires
        admin_present(occupants, bot_user_id),
    ensures
        spec_decide_join(Option::Some(channel_id), occupants, bot_user_id)
            == (JoinDecision::Connect { channel_id }),
{
    let i = choose|i: int|
        0 <= i < occupants.len() && occupants[i].user_id != bot_user_id && occupants[i].is_admin;
    assert(occupants.len() > 0);
}

/// Outcome of a leave request.
#[derive(Clone, Copy, Debug, PartialEq, Eq, Structural)]
pub enum LeaveDecision {
    /// Disconnect from the guild's current voice connection.
    Disconnect,
    /// There is nothing to leave.
    NotConnected,
}

/// The leave rule: disconnect exactly when a connection exists.
pub open spec fn spec_decide_leave(connected: bool) -> LeaveDecision {
    if connected {
        LeaveDecision::Disconnect
    } else {
        LeaveDecision::NotConnected
    }
}

/// Decides a leave request, given whether the bot currently holds a
/// voice connection for the guild.
pub fn decide_leave(connected: bool) -> (decision: LeaveDecision)
    ensures
        decision == spec_decide_leave(connected),
{
    if connected {
        LeaveDecision::Disconnect
    } else {
        LeaveDecision::NotConnected
    }
}

/// Outcome of a play request.
#[derive(Clone, Copy, Debug, PartialEq, Eq, Structural)]
pub enum PlayDecision {
    /// The invoking user is not in a voice channel: refuse.
    NotInVoiceChannel,
    /// Play on the guild's existing voice connection.
    PlayOnExisting,
    /// Connect to this channel first, then play.
    JoinThenPlay { channel_id: u64 },
}

/// The play rule: refuse without a channel; with an existing connection
/// play there; otherwise join the invoking user's channel first.
pub open spec fn spec_decide_play(invoker_channel: Option<u64>, connected: bool) -> PlayDecision {
    match invoker_channel {
        Option::None => PlayDecision::NotInVoiceChannel,
        Option::Some(channel_id) => if connected {
            PlayDecision::PlayOnExisting
        } else {
            PlayDecision::JoinThenPlay { channel_id }
        },
    }
}

/// Decides a play request, given the invoking user's current voice
/// channel and whether the bot already holds a connection for the guild.
pub fn decide_play(invoker_channel: Option<u64>, connected: bool) -> (decision: PlayDecision)
    ensures
        decision == spec_decide_play(invoker_channel, connected),
{
    match invoker_channel {
        Option::None => PlayDecision::NotInVoiceChannel,
        Option::Some(channel_id) => if connected {
            PlayDecision::PlayOnExisting
        } else {
            PlayDecision::JoinThenPlay { channel_id }
        },
    }
}

} // verus!
