use vstd::prelude::*;
use core::any::TypeId;
use core::marker::PhantomData;
use crate::error::{SimmerError, SimmerResult};
use crate::registry::{Opaque, OpaqueChannel};
use crate::tag::type_id_eq;

verus! {

/// The typed publishing handle recovered from an erased reply: it names the
/// underlying channel, and its message type is the static `T` again.
pub struct StartType<T> {
    pub chan: usize,
    pub _t: PhantomData<T>,
}

/// The typed receiving handle recovered from an erased reply: it names the
/// underlying channel a subscription cursor is to be attached to.
pub struct EndType<T> {
    pub chan: usize,
    pub _t: PhantomData<T>,
}

/// A channel as a typed caller receives it: the publishing handle itself, or
/// the receiving side of the same underlying channel.
pub enum Channel<T> {
    Start(StartType<T>),
    End(EndType<T>),
}

impl<T> Channel<T> {
    /// The number of the underlying channel, whichever side this is.
    pub open spec fn chan(self) -> usize {
        match self {
            Channel::Start(s) => s.chan,
            Channel::End(e) => e.chan,
        }
    }

    /// Recover the static type from an erased reply. `want` is the runtime tag
    /// the requester derived from `T`; recovery succeeds exactly when the
    /// stored value carries that tag, and otherwise reports the downcast
    /// error — a wrongly typed handle is never returned silently. The side tag
    /// of the reply is kept.
    pub fn try_from(cs: OpaqueChannel, want: TypeId) -> (r: SimmerResult<Channel<T>>)
        ensures
            r is Ok <==> cs.payload().msg_type == want,
            r matches Ok(c) ==> c.chan() == cs.payload().chan && ((c is Start) <==> (cs
                is Start)),
            r matches Err(e) ==> e is DowncastError,
    {
        match cs {
            OpaqueChannel::Start(p) => {
                if type_id_eq(&p.msg_type, &want) {
                    Ok(Channel::Start(StartType { chan: p.chan, _t: PhantomData }))
                } else {
                    Err(SimmerError::DowncastError)
                }
            },
            OpaqueChannel::End(p) => {
                if type_id_eq(&p.msg_type, &want) {
                    Ok(Channel::End(EndType { chan: p.chan, _t: PhantomData }))
                } else {
                    Err(SimmerError::DowncastError)
                }
            },
        }
    }
}

impl<T> StartType<T> {
    /// Insist a recovered channel is the publishing side; the receiving side
    /// is the wrong one and is reported as such.
    pub fn try_from(c: Channel<T>) -> (r: SimmerResult<StartType<T>>)
        ensures
            c matches Channel::Start(s) ==> (r matches Ok(rs) && rs == s),
            c is End ==> (r matches Err(e) && e matches SimmerError::WrongSide(want, got)
                && want@ == "Start"@ && got@ == "End"@),
    {
        match c {
            Channel::Start(s) => Ok(s),
            Channel::End(_) => Err(SimmerError::WrongSide("Start", "End")),
        }
    }
}

impl<T> EndType<T> {
    /// Insist a recovered channel is the receiving side; the publishing side
    /// is the wrong one and is reported as such.
    pub fn try_from(c: Channel<T>) -> (r: SimmerResult<EndType<T>>)
        ensures
            c matches Channel::End(e) ==> (r matches Ok(re) && re == e),
            c is Start ==> (r matches Err(e) && e matches SimmerError::WrongSide(want, got)
                && want@ == "End"@ && got@ == "Start"@),
    {
        match c {
            Channel::End(e) => Ok(e),
            Channel::Start(_) => Err(SimmerError::WrongSide("End", "Start")),
        }
    }
}

} // verus!
