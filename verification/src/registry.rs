use vstd::prelude::*;
use core::any::TypeId;
use crate::tag::{str_eq, type_id_eq};

verus! {

/// The requester's intended transfer direction. Descriptive metadata only: it
/// is deliberately not part of the channel identity, so two requests that
/// differ only in direction resolve to the same underlying channel.
#[derive(Hash, Copy, Clone, Eq, PartialEq, Structural, Debug)]
pub enum Direction {
    In,
    Out,
}

/// Which end of the channel the requester wants: `Start` asks for the
/// publishing handle itself, `End` for a freshly subscribed receiving handle.
#[derive(Hash, Copy, Clone, Eq, PartialEq, Structural, Debug)]
pub enum Side {
    Start,
    End,
}

/// One channel request as the registry task sees it: the identity fields plus
/// the requester's declared intent.
#[derive(Copy, Clone)]
pub struct ActorChannel {
    pub actor: &'static str,
    pub channel_name: &'static str,
    pub direction: Direction,
    pub side: Side,
    pub msg_type: TypeId,
}

/// The identity a channel is stored under: owning actor, channel name and the
/// runtime tag of the message type. Direction and side are left out.
#[derive(Copy, Clone)]
pub struct Key {
    pub actor: &'static str,
    pub channel_name: &'static str,
    pub msg_type: TypeId,
}

/// A channel identity as the specifications see it.
pub type KeyView = (Seq<char>, Seq<char>, TypeId);

impl View for Key {
    type V = KeyView;

    open spec fn view(&self) -> KeyView {
        (self.actor@, self.channel_name@, self.msg_type)
    }
}

impl ActorChannel {
    /// The identity this request resolves under.
    pub open spec fn key_view(&self) -> KeyView {
        (self.actor@, self.channel_name@, self.msg_type)
    }
}

impl Key {
    pub fn from_request(request: &ActorChannel) -> (k: Key)
        ensures
            k@ == request.key_view(),
    {
        Key {
            actor: request.actor,
            channel_name: request.channel_name,
            msg_type: request.msg_type,
        }
    }
}

fn key_eq(a: &Key, b: &Key) -> (r: bool)
    ensures
        r == (a@ == b@),
{
    str_eq(a.actor, b.actor) && str_eq(a.channel_name, b.channel_name) && type_id_eq(
        &a.msg_type,
        &b.msg_type,
    )
}

/// The type-erased publishing handle as the directory stores it: the number of
/// the underlying channel plus the runtime tag of its message type.
#[derive(Copy, Clone)]
pub struct Opaque {
    pub chan: usize,
    pub msg_type: TypeId,
}

/// A type-erased reply, tagged with the side the requester asked for.
#[derive(Copy, Clone)]
pub enum OpaqueChannel {
    Start(Opaque),
    End(Opaque),
}

/// An erased handle tagged with the side a request asked for.
pub open spec fn tagged(side: Side, o: Opaque) -> OpaqueChannel {
    if side is Start {
        OpaqueChannel::Start(o)
    } else {
        OpaqueChannel::End(o)
    }
}

impl OpaqueChannel {
    /// The erased handle under either tag.
    pub open spec fn payload(self) -> Opaque {
        match self {
            OpaqueChannel::Start(o) => o,
            OpaqueChannel::End(o) => o,
        }
    }

    /// Tag an erased handle with the side a request asked for.
    pub fn from_side(side: Side, opaque_channel: Opaque) -> (r: OpaqueChannel)
        ensures
            r == tagged(side, opaque_channel),
    {
        match side {
            Side::Start => OpaqueChannel::Start(opaque_channel),
            Side::End => OpaqueChannel::End(opaque_channel),
        }
    }
}

/// The channel an identity resolves to: the existing binding on a hit, the
/// fresh number on a miss.
pub open spec fn resolve_chan(dir: Map<KeyView, usize>, key: KeyView, fresh: usize) -> usize {
    if dir.contains_key(key) {
        dir[key]
    } else {
        fresh
    }
}

/// The directory after a resolution: unchanged on a hit, extended by the fresh
/// binding on a miss. An entry, once made, is never updated or removed.
pub open spec fn resolve_dir(
    dir: Map<KeyView, usize>,
    key: KeyView,
    fresh: usize,
) -> Map<KeyView, usize> {
    if dir.contains_key(key) {
        dir
    } else {
        dir.insert(key, fresh)
    }
}

/// The type-erased directory. It has a single owner, the registry task, which
/// serializes all access; it therefore performs no locking of its own.
pub struct ChannelRegistry {
    registry: Vec<(Key, Opaque)>,
    index: Ghost<Map<KeyView, usize>>,
}

impl ChannelRegistry {
    /// The directory as a mapping from channel identity to channel number.
    pub closed spec fn dir(&self) -> Map<KeyView, usize> {
        self.index@
    }

    /// How many channels exist; also the number the next fresh channel gets.
    pub closed spec fn chan_count(&self) -> usize {
        self.registry.len()
    }

    pub closed spec fn wf(&self) -> bool {
        let s = self.registry@;
        let m = self.index@;
        &&& forall|i: int|
            0 <= i < s.len() ==> {
                let (k, o) = #[trigger] s[i];
                &&& o.chan == i
                &&& o.msg_type == k.msg_type
                &&& m.contains_key(k@)
                &&& m[k@] == i
            }
        &&& forall|kv: KeyView| #[trigger]
            m.contains_key(kv) ==> exists|i: int| 0 <= i < s.len() && (#[trigger] s[i]).0@ == kv
    }

    pub fn new() -> (r: ChannelRegistry)
        ensures
            r.wf(),
            r.dir() == Map::<KeyView, usize>::empty(),
            r.chan_count() == 0,
    {
        ChannelRegistry { registry: Vec::new(), index: Ghost(Map::empty()) }
    }

    /// Resolve a request against the directory: on a hit the stored handle is
    /// returned, on a miss a fresh channel is entered under the request's
    /// identity and returned. Either way the reply is tagged with the side the
    /// request asked for.
    pub fn get_or_create(&mut self, request: &ActorChannel) -> (r: OpaqueChannel)
        requires
            old(self).wf(),
        ensures
            get_or_create_post(*old(self), *final(self), *request, r),
    {
        let key = Key::from_request(request);
        let ghost kv = key@;
        let n = self.registry.len();
        let mut i: usize = 0;
        while i < n
            invariant
                *self == *old(self),
                old(self).wf(),
                n == self.registry@.len(),
                0 <= i <= n,
                kv == request.key_view(),
                key@ == kv,
                key.msg_type == request.msg_type,
                forall|j: int| 0 <= j < i ==> (#[trigger] self.registry@[j]).0@ != kv,
            decreases n - i,
        {
            let hit = key_eq(&self.registry[i].0, &key);
            if hit {
                let o = self.registry[i].1;
                proof {
                    assert(self.registry@[i as int].0@ == kv);
                    assert(self.dir().contains_key(kv) && self.dir()[kv] == i);
                }
                return OpaqueChannel::from_side(request.side, o);
            }
            i += 1;
        }
        proof {
            if self.dir().contains_key(kv) {
                let s0 = self.registry@;
                let j = choose|j: int| 0 <= j < s0.len() && (#[trigger] s0[j]).0@ == kv;
                assert((self.registry@[j]).0@ != kv);
            }
        }
        let chan = self.registry.len();
        let opaque_channel = Opaque { chan, msg_type: key.msg_type };
        self.registry.push((key, opaque_channel));
        self.index = Ghost(self.index@.insert(kv, chan));
        proof {
            let s = self.registry@;
            let m = self.index@;
            assert forall|i2: int| 0 <= i2 < s.len() implies {
                let (k, o) = #[trigger] s[i2];
                &&& o.chan == i2
                &&& o.msg_type == k.msg_type
                &&& m.contains_key(k@)
                &&& m[k@] == i2
            } by {
                if i2 < s.len() - 1 {
                    assert(s[i2] == old(self).registry@[i2]);
                    assert((old(self).registry@[i2]).0@ != kv);
                } else {
                    assert(s[i2] == (key, opaque_channel));
                }
            }
            assert forall|kv2: KeyView| #[trigger]
                m.contains_key(kv2) implies exists|i2: int|
                0 <= i2 < s.len() && (#[trigger] s[i2]).0@ == kv2 by {
                if kv2 == kv {
                    assert(0 <= s.len() - 1 < s.len() && (s[s.len() - 1]).0@ == kv2);
                } else {
                    assert(old(self).index@.contains_key(kv2));
                    let j = choose|j: int|
                        0 <= j < old(self).registry@.len() && (#[trigger] old(
                            self,
                        ).registry@[j]).0@ == kv2;
                    assert(0 <= j < s.len() && (s[j]).0@ == kv2);
                }
            }
        }
        OpaqueChannel::from_side(request.side, opaque_channel)
    }
}

/// What one resolution does to the directory and hands back: the full contract
/// of `get_or_create`, shared with the registry task's step function.
pub open spec fn get_or_create_post(
    pre: ChannelRegistry,
    post: ChannelRegistry,
    request: ActorChannel,
    r: OpaqueChannel,
) -> bool {
    let kv = request.key_view();
    &&& post.wf()
    &&& r == tagged(request.side, r.payload())
    &&& r.payload().msg_type == request.msg_type
    &&& r.payload().chan == resolve_chan(pre.dir(), kv, pre.chan_count())
    &&& post.dir() == resolve_dir(pre.dir(), kv, pre.chan_count())
    &&& post.chan_count() == if pre.dir().contains_key(kv) {
        pre.chan_count() as int
    } else {
        pre.chan_count() + 1
    }
}

/// What the registry task reacts to on one turn of its loop: a request from
/// the intake queue, the shutdown signal, or the intake queue being closed.
pub enum RegistryEvent {
    Request(ActorChannel),
    Shutdown,
    Closed,
}

/// What the shell running the loop must do after one turn: deliver the reply
/// on the request's private reply channel, or stop the loop.
pub enum RegistryAction {
    Reply(OpaqueChannel),
    Stop,
}

/// One turn of the registry task's loop: a request is resolved against the
/// directory and answered; the shutdown signal, or a closed intake queue,
/// stops the loop and leaves the directory untouched.
pub fn registry_step(channels: &mut ChannelRegistry, event: RegistryEvent) -> (a: RegistryAction)
    requires
        old(channels).wf(),
    ensures
        final(channels).wf(),
        match event {
            RegistryEvent::Request(rq) => a matches RegistryAction::Reply(r)
                && get_or_create_post(*old(channels), *final(channels), rq, r),
            RegistryEvent::Shutdown => a is Stop && *final(channels) == *old(channels),
            RegistryEvent::Closed => a is Stop && *final(channels) == *old(channels),
        },
{
    match event {
        RegistryEvent::Request(request) => RegistryAction::Reply(
            channels.get_or_create(&request),
        ),
        RegistryEvent::Shutdown => RegistryAction::Stop,
        RegistryEvent::Closed => RegistryAction::Stop,
    }
}

/// Identity stability, one step: resolving an identity twice yields the same
/// channel both times, and the second resolution changes nothing.
pub proof fn lemma_identity_stability(
    dir: Map<KeyView, usize>,
    key: KeyView,
    fresh1: usize,
    fresh2: usize,
)
    ensures
        resolve_chan(resolve_dir(dir, key, fresh1), key, fresh2) == resolve_chan(dir, key, fresh1),
        resolve_dir(resolve_dir(dir, key, fresh1), key, fresh2) == resolve_dir(dir, key, fresh1),
{
}

/// Distinct identities never interfere: a resolution of one identity leaves
/// every other identity's presence and binding exactly as they were.
pub proof fn lemma_identity_isolation(
    dir: Map<KeyView, usize>,
    key: KeyView,
    other: KeyView,
    fresh: usize,
)
    requires
        other != key,
    ensures
        resolve_dir(dir, key, fresh).contains_key(other) == dir.contains_key(other),
        dir.contains_key(other) ==> resolve_dir(dir, key, fresh)[other] == dir[other],
{
}

/// Identity stability, in general: once an identity is bound to a channel,
/// any sequence of later resolutions, of whatever identities, leaves that
/// binding in place unchanged. Every later hit on the identity therefore
/// returns the same channel.
pub proof fn lemma_binding_persists(
    dirs: Seq<Map<KeyView, usize>>,
    keys: Seq<KeyView>,
    freshes: Seq<usize>,
    k: KeyView,
)
    requires
        dirs.len() == keys.len() + 1,
        freshes.len() == keys.len(),
        forall|i: int|
            0 <= i < keys.len() ==> dirs[i + 1] == resolve_dir(#[trigger] dirs[i], keys[i], freshes[i]),
        dirs[0].contains_key(k),
    ensures
        forall|i: int|
            0 <= i < dirs.len() ==> (#[trigger] dirs[i]).contains_key(k) && dirs[i][k] == dirs[0][k],
    decreases dirs.len(),
{
    if keys.len() > 0 {
        let dirs2 = dirs.subrange(1, dirs.len() as int);
        let keys2 = keys.subrange(1, keys.len() as int);
        let freshes2 = freshes.subrange(1, freshes.len() as int);
        assert(dirs2[0] == resolve_dir(dirs[0], keys[0], freshes[0]));
        assert forall|i: int|
            0 <= i < keys2.len() implies dirs2[i + 1] == resolve_dir(
            #[trigger] dirs2[i],
            keys2[i],
            freshes2[i],
        ) by {
            assert(dirs2[i] == dirs[i + 1]);
            assert(dirs2[i + 1] == dirs[i + 2]);
            assert(keys2[i] == keys[i + 1]);
            assert(freshes2[i] == freshes[i + 1]);
        }
        lemma_binding_persists(dirs2, keys2, freshes2, k);
        assert forall|i: int|
            0 <= i < dirs.len() implies (#[trigger] dirs[i]).contains_key(k) && dirs[i][k]
            == dirs[0][k] by {
            if i >= 1 {
                assert(dirs[i] == dirs2[i - 1]);
            }
        }
    }
}

} // verus!
