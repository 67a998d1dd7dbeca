use vstd::prelude::*;

use crate::types::{Error, InputEvent, CONFIG_DATA_LEN};

verus! {

/// A call the driver makes on its transport.
#[derive(Clone, Copy, Debug, PartialEq, Eq, Structural)]
pub enum TransportCall {
    BeginInit(u64),
    FinishInit,
    QueueSet(u16, u16),
    QueueUnset(u16),
    Notify(u16),
    AckInterrupt,
    WriteConfigSelect(u8),
    WriteConfigSubsel(u8),
    ReadConfigSize,
    ReadConfigData,
}

/// What a transport call handed back when it succeeded.
#[derive(Clone, Copy, Debug)]
pub enum Reply {
    /// The call returns no value.
    Done,
    /// The answer of `ack_interrupt`.
    Flag(bool),
    /// The value read from the size register.
    Size(u8),
    /// The block read from the data registers.
    Data([u8; CONFIG_DATA_LEN]),
}

/// A call the driver makes on a virtqueue, with what it returned.
#[derive(Clone, Copy, Debug)]
pub enum QueueCall {
    /// `add(slot)` and the token or error it returned.
    Add(u16, Result<u16, Error>),
    /// `peek_used()` and the token it reported.
    PeekUsed(Option<u16>),
    /// `pop_used(token)` and the record it handed back, or its error.
    PopUsed(u16, Result<InputEvent, Error>),
    /// `should_notify()` and its answer.
    ShouldNotify(bool),
}

/// The reply of a call that returns no value.
pub open spec fn done<V>(r: Result<V, Error>) -> Result<Reply, Error> {
    match r {
        Ok(_) => Ok(Reply::Done),
        Err(e) => Err(e),
    }
}

/// The reply of `ack_interrupt`.
pub open spec fn flag(r: Result<bool, Error>) -> Result<Reply, Error> {
    match r {
        Ok(b) => Ok(Reply::Flag(b)),
        Err(e) => Err(e),
    }
}

/// The reply of a read of the size register.
pub open spec fn size_reply(r: Result<u8, Error>) -> Result<Reply, Error> {
    match r {
        Ok(n) => Ok(Reply::Size(n)),
        Err(e) => Err(e),
    }
}

/// The reply of a read of the data block.
pub open spec fn data_reply(r: Result<[u8; CONFIG_DATA_LEN], Error>) -> Result<Reply, Error> {
    match r {
        Ok(d) => Ok(Reply::Data(d)),
        Err(e) => Err(e),
    }
}

/// The transport a virtio device is reached through (MMIO or PCI).
///
/// Implemented by the platform. Each method appends the call and what it
/// returned to `log`, the device's view of what the driver asked of it.
pub trait Transport {
    /// The virtqueues this transport registers with the device.
    type Queue: VirtQueue;

    /// Every call made on this transport so far, with what it returned.
    spec fn log(&self) -> Seq<(TransportCall, Result<Reply, Error>)>;

    /// Acknowledges the device, negotiates `features` against those the
    /// device offers and confirms the negotiated set.
    fn begin_init(&mut self, features: u64) -> (r: Result<(), Error>)
        ensures
            final(self).log() == old(self).log().push((TransportCall::BeginInit(features), done(r))),
    ;

    /// Signals that the driver is ready.
    fn finish_init(&mut self) -> (r: Result<(), Error>)
        ensures
            final(self).log() == old(self).log().push((TransportCall::FinishInit, done(r))),
    ;

    /// Allocates a queue of `size` descriptors and registers it with the
    /// device at index `queue`. A new queue has had no call and holds no
    /// completion.
    fn queue_set(&mut self, queue: u16, size: u16) -> (r: Result<Self::Queue, Error>)
        ensures
            final(self).log() == old(self).log().push(
                (TransportCall::QueueSet(queue, size), done(r)),
            ),
            r matches Ok(q) ==> q.log() == Seq::<QueueCall>::empty() && q.used() == Seq::<
                (u16, InputEvent),
            >::empty(),
    ;

    /// Revokes the device's access to the queue at index `queue`.
    fn queue_unset(&mut self, queue: u16) -> (r: Result<(), Error>)
        ensures
            final(self).log() == old(self).log().push((TransportCall::QueueUnset(queue), done(r))),
    ;

    /// Notifies the device that queue `queue` has new buffers.
    fn notify(&mut self, queue: u16) -> (r: Result<(), Error>)
        ensures
            final(self).log() == old(self).log().push((TransportCall::Notify(queue), done(r))),
    ;

    /// Acknowledges a pending interrupt; returns whether it came from this device.
    fn ack_interrupt(&mut self) -> (r: Result<bool, Error>)
        ensures
            final(self).log() == old(self).log().push((TransportCall::AckInterrupt, flag(r))),
    ;

    /// Writes the select register of the config space.
    fn write_config_select(&mut self, select: u8) -> (r: Result<(), Error>)
        ensures
            final(self).log() == old(self).log().push((TransportCall::WriteConfigSelect(select), done(r))),
    ;

    /// Writes the subsel register of the config space.
    fn write_config_subsel(&mut self, subsel: u8) -> (r: Result<(), Error>)
        ensures
            final(self).log() == old(self).log().push((TransportCall::WriteConfigSubsel(subsel), done(r))),
    ;

    /// Reads the size register of the config space.
    fn read_config_size(&mut self) -> (r: Result<u8, Error>)
        ensures
            final(self).log() == old(self).log().push((TransportCall::ReadConfigSize, size_reply(r))),
    ;

    /// Reads the data block of the config space.
    fn read_config_data(&mut self) -> (r: Result<[u8; CONFIG_DATA_LEN], Error>)
        ensures
            final(self).log() == old(self).log().push((TransportCall::ReadConfigData, data_reply(r))),
    ;
}

/// A virtqueue whose buffers are the driver's event slots, addressed by index.
///
/// The implementation owns the memory each slot index maps to, shares it with
/// the device while the slot is posted, and copies the record the device wrote
/// out when the slot's completion is retired. The device may complete posted
/// slots at any time, so `used` may grow during any call. Each call is
/// appended to `log` with what it returned.
pub trait VirtQueue {
    /// Every call made on this queue so far, with what it returned.
    spec fn log(&self) -> Seq<QueueCall>;

    /// The completions not yet retired, oldest first: each token with the
    /// record the device wrote into its slot.
    spec fn used(&self) -> Seq<(u16, InputEvent)>;

    /// Posts slot `slot` to the device as a device-writable buffer of one
    /// event record; returns the token of the new descriptor chain.
    fn add(&mut self, slot: u16) -> (r: Result<u16, Error>)
        ensures
            final(self).log() == old(self).log().push(QueueCall::Add(slot, r)),
            old(self).used().is_prefix_of(final(self).used()),
    ;

    /// The token of the oldest completion not yet retired, if any.
    fn peek_used(&mut self) -> (r: Option<u16>)
        ensures
            final(self).log() == old(self).log().push(QueueCall::PeekUsed(r)),
            old(self).used().is_prefix_of(final(self).used()),
            r == (if final(self).used().len() > 0 {
                Some(final(self).used()[0].0)
            } else {
                None::<u16>
            }),
    ;

    /// Retires the oldest completion, which must carry `token`, and hands
    /// the record the device wrote into its slot back through `slot`.
    fn pop_used(&mut self, token: u16, slot: &mut InputEvent) -> (r: Result<(), Error>)
        ensures
            r.is_ok() ==> {
                &&& old(self).used().len() > 0
                &&& old(self).used()[0].0 == token
                &&& *final(slot) == old(self).used()[0].1
                &&& old(self).used().drop_first().is_prefix_of(final(self).used())
                &&& final(self).log() == old(self).log().push(
                    QueueCall::PopUsed(token, Ok(old(self).used()[0].1)),
                )
            },
            r matches Err(e) ==> {
                &&& *final(slot) == *old(slot)
                &&& old(self).used().is_prefix_of(final(self).used())
                &&& final(self).log() == old(self).log().push(QueueCall::PopUsed(token, Err(e)))
            },
    ;

    /// Whether the device, as it stands now, asks to be notified of newly
    /// posted buffers.
    fn should_notify(&mut self) -> (r: bool)
        ensures
            final(self).log() == old(self).log().push(QueueCall::ShouldNotify(r)),
            old(self).used().is_prefix_of(final(self).used()),
    ;
}

} // verus!
