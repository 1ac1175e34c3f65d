use vstd::prelude::*;
use core::any::TypeId;

pub mod broadcast;
pub mod channel;
pub mod error;
pub mod lifecycle;
pub mod registry;
pub mod tag;

pub use broadcast::{Broadcast, Recv, Subscription, CAPACITY, create};
pub use channel::{Channel, EndType, StartType};
pub use error::{SimmerError, SimmerResult};
pub use lifecycle::Lifecycle;
pub use registry::{
    ActorChannel, ChannelRegistry, Direction, Key, KeyView, Opaque, OpaqueChannel, RegistryAction,
    RegistryEvent, Side, registry_step,
};
pub use tag::msg_type;

use registry::{resolve_chan, resolve_dir};

verus! {

/// The reserved channel name of the readiness handshake.
pub const ONLINE: &'static str = "SIMMER_CHANNEL_ONLINE";

/// One resolution against the directory, seen from a caller: the channel the
/// identity resolved to, and what the directory became. The identity is bound
/// to that channel afterwards, whether it was a hit or a miss.
pub open spec fn resolved(
    pre: ChannelRegistry,
    post: ChannelRegistry,
    kv: KeyView,
    chan: usize,
) -> bool {
    &&& chan == resolve_chan(pre.dir(), kv, pre.chan_count())
    &&& post.dir() == resolve_dir(pre.dir(), kv, pre.chan_count())
    &&& post.chan_count() == if pre.dir().contains_key(kv) {
        pre.chan_count() as int
    } else {
        pre.chan_count() + 1
    }
    &&& post.dir().contains_key(kv)
    &&& post.dir()[kv] == chan
}

/// Resolve a channel for a typed caller: build the request with `T`'s runtime
/// tag, resolve it against the directory, and recover the static type from
/// the erased reply. With the tag taken from `T` itself the recovery cannot
/// miss, so the resolution always succeeds; the side of the reply is the side
/// asked for. The identity the request resolves under is the actor, the
/// channel name and the tag of `T` — not the direction.
pub fn get_channel<T: 'static>(
    channels: &mut ChannelRegistry,
    actor: &'static str,
    channel_name: &'static str,
    direction: Direction,
    side: Side,
) -> (r: SimmerResult<Channel<T>>)
    requires
        old(channels).wf(),
    ensures
        final(channels).wf(),
        r is Ok,
        r matches Ok(c) ==> ((c is Start) <==> (side is Start)) && exists|tid: TypeId|
            #[trigger] resolved(
                *old(channels),
                *final(channels),
                (actor@, channel_name@, tid),
                c.chan(),
            ),
{
    let tid = msg_type::<T>();
    let request = ActorChannel { actor, channel_name, direction, side, msg_type: tid };
    let oc = channels.get_or_create(&request);
    let r = Channel::<T>::try_from(oc, tid);
    proof {
        let kv = (actor@, channel_name@, tid);
        assert(request.key_view() == kv);
        if r is Ok {
            assert(resolved(*old(channels), *channels, kv, (r->Ok_0).chan()));
        }
    }
    r
}

/// Resolve a channel and insist on the publishing handle. Since the side asked
/// for is `Start`, the reply is always the publishing side and the call always
/// succeeds.
pub fn get_channel_start<T: 'static>(
    channels: &mut ChannelRegistry,
    actor: &'static str,
    channel_name: &'static str,
    direction: Direction,
) -> (r: SimmerResult<StartType<T>>)
    requires
        old(channels).wf(),
    ensures
        final(channels).wf(),
        r is Ok,
        r matches Ok(s) ==> exists|tid: TypeId|
            #[trigger] resolved(
                *old(channels),
                *final(channels),
                (actor@, channel_name@, tid),
                s.chan,
            ),
{
    match get_channel::<T>(channels, actor, channel_name, direction, Side::Start) {
        Ok(c) => {
            proof {
                let tid0 = choose|tid: TypeId|
                    resolved(
                        *old(channels),
                        *channels,
                        (actor@, channel_name@, tid),
                        c.chan(),
                    );
                assert(resolved(*old(channels), *channels, (actor@, channel_name@, tid0), c.chan()));
            }
            StartType::try_from(c)
        },
        Err(e) => Err(e),
    }
}

/// Resolve a channel and insist on the receiving handle. Since the side asked
/// for is `End`, the reply is always the receiving side and the call always
/// succeeds; each such call stands for its own, independent subscription to
/// the one underlying channel.
pub fn get_channel_end<T: 'static>(
    channels: &mut ChannelRegistry,
    actor: &'static str,
    channel_name: &'static str,
    direction: Direction,
) -> (r: SimmerResult<EndType<T>>)
    requires
        old(channels).wf(),
    ensures
        final(channels).wf(),
        r is Ok,
        r matches Ok(e) ==> exists|tid: TypeId|
            #[trigger] resolved(
                *old(channels),
                *final(channels),
                (actor@, channel_name@, tid),
                e.chan,
            ),
{
    match get_channel::<T>(channels, actor, channel_name, direction, Side::End) {
        Ok(c) => {
            proof {
                let tid0 = choose|tid: TypeId|
                    resolved(
                        *old(channels),
                        *channels,
                        (actor@, channel_name@, tid),
                        c.chan(),
                    );
                assert(resolved(*old(channels), *channels, (actor@, channel_name@, tid0), c.chan()));
            }
            EndType::try_from(c)
        },
        Err(e) => Err(e),
    }
}

/// Identity stability, seen from the accessors: two resolutions of the same
/// identity, one after the other, name the same underlying channel — whatever
/// direction or side either request carried. What is published through the
/// first handle is therefore published on the very channel the second one
/// subscribes to.
pub proof fn lemma_same_identity_same_channel(
    s0: ChannelRegistry,
    s1: ChannelRegistry,
    s2: ChannelRegistry,
    kv: KeyView,
    chan1: usize,
    chan2: usize,
)
    requires
        resolved(s0, s1, kv, chan1),
        resolved(s1, s2, kv, chan2),
    ensures
        chan1 == chan2,
{
}

/// What one receive attempt on the readiness channel reported.
#[derive(Copy, Clone, PartialEq, Eq, Structural, Debug)]
pub enum RecvSignal {
    Value,
    Lagged,
    Closed,
}

/// What the caller waiting for a peer must do next.
#[derive(Copy, Clone, PartialEq, Eq, Structural, Debug)]
pub enum WaitAction {
    Done,
    Retry,
    Fatal,
}

/// The decision `wait_till_online` takes after each receive on the readiness
/// channel: a value means the peer announced itself and the wait is over; lag
/// is passed over transparently and the receive retried; a closed channel
/// after a successful resolution breaks the invariant that the directory holds
/// a live publishing handle, and is fatal.
pub fn wait_till_online_step(signal: RecvSignal) -> (a: WaitAction)
    ensures
        (a is Done) <==> (signal is Value),
        (a is Retry) <==> (signal is Lagged),
        (a is Fatal) <==> (signal is Closed),
{
    match signal {
        RecvSignal::Value => WaitAction::Done,
        RecvSignal::Lagged => WaitAction::Retry,
        RecvSignal::Closed => WaitAction::Fatal,
    }
}

} // verus!
