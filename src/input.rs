use vstd::prelude::*;

use crate::config::copied;
use crate::transport::{done, flag, QueueCall, Reply, Transport, TransportCall, VirtQueue};
use crate::config::copy_config_response;
use crate::types::{Error, InputConfigSelect, InputEvent, CONFIG_DATA_LEN, QUEUE_EVENT, QUEUE_SIZE, QUEUE_STATUS};

verus! {

/// Feature bits this driver requests: none (no event index).
pub const SUPPORTED_FEATURES: u64 = 0;

/// Virtual human interface devices such as keyboards, mice and tablets.
///
/// Dropping the driver does not revoke the device's access to its queues:
/// call `teardown` first, and only drop the driver once it has succeeded.
pub struct VirtIOInput<T: Transport> {
    transport: T,
    event_queue: T::Queue,
    status_queue: T::Queue,
    event_buf: Vec<InputEvent>,
    posted: Vec<bool>,
    queues_set: bool,
}

/// Refuses a token that differs from the slot it was expected for.
fn check_token(expected: u16, got: u16) -> (r: Result<(), Error>)
    ensures
        got == expected <==> r.is_ok(),
        r.is_err() ==> r == Err::<(), Error>(Error::WrongToken),
{
    if got == expected {
        Ok(())
    } else {
        Err(Error::WrongToken)
    }
}

/// The transport calls of a successful start, in order: no optional
/// features, the event queue, the status queue, a notification if the
/// event queue asks for one once primed, and driver-ready last.
pub open spec fn init_calls(notified: bool) -> Seq<(TransportCall, Result<Reply, Error>)> {
    let registered = Seq::empty().push(
        (TransportCall::BeginInit(SUPPORTED_FEATURES), Ok::<Reply, Error>(Reply::Done)),
    ).push((TransportCall::QueueSet(QUEUE_EVENT, QUEUE_SIZE as u16), Ok::<Reply, Error>(Reply::Done))).push(
        (TransportCall::QueueSet(QUEUE_STATUS, QUEUE_SIZE as u16), Ok::<Reply, Error>(Reply::Done)),
    );
    let primed = if notified {
        registered.push((TransportCall::Notify(QUEUE_EVENT), Ok::<Reply, Error>(Reply::Done)))
    } else {
        registered
    };
    primed.push((TransportCall::FinishInit, Ok::<Reply, Error>(Reply::Done)))
}

/// The transport calls of a start that failed with `e`: the calls of a
/// successful start up to some step, then that step failing with `e`; or the
/// calls up to the status queue, where posting a slot failed.
pub open spec fn init_failed(
    before: Seq<(TransportCall, Result<Reply, Error>)>,
    after: Seq<(TransportCall, Result<Reply, Error>)>,
    e: Error,
) -> bool {
    ||| exists|notified: bool, k: int|
        0 <= k < init_calls(notified).len() && after == before + init_calls(notified).subrange(
            0,
            k,
        ).push((#[trigger] init_calls(notified)[k].0, Err::<Reply, Error>(e)))
    ||| after == before + init_calls(false).subrange(0, 3)
}

/// The event-queue calls of a successful priming: slot `i` is posted by the
/// `i`-th call and its token is `i`.
pub open spec fn priming_calls() -> Seq<QueueCall> {
    Seq::new(QUEUE_SIZE as nat, |i: int| QueueCall::Add(i as u16, Ok::<u16, Error>(i as u16)))
}

/// The first failure of two calls made in turn, or success.
pub open spec fn first_failure(first: Result<Reply, Error>, second: Result<Reply, Error>) -> Result<(), Error> {
    match first {
        Err(e) => Err(e),
        Ok(_) => match second {
            Err(e) => Err(e),
            Ok(_) => Ok(()),
        },
    }
}

/// Number of `true` entries of `s`.
pub open spec fn count_posted(s: Seq<bool>) -> nat
    decreases s.len(),
{
    if s.len() == 0 {
        0
    } else {
        count_posted(s.drop_last()) + if s.last() { 1nat } else { 0nat }
    }
}

impl<T: Transport> VirtIOInput<T> {
    /// The records held in the event slots, by slot index.
    pub closed spec fn slots(&self) -> Seq<InputEvent> {
        self.event_buf@
    }

    /// For each slot, whether the driver has it posted to the device.
    pub closed spec fn posted_slots(&self) -> Seq<bool> {
        self.posted@
    }

    /// Whether both queues are still registered with the transport.
    pub closed spec fn live(&self) -> bool {
        self.queues_set
    }

    /// The calls made on the transport, with their outcomes.
    pub closed spec fn transport_log(&self) -> Seq<(TransportCall, Result<Reply, Error>)> {
        self.transport.log()
    }

    /// The calls made on the event queue.
    pub closed spec fn event_log(&self) -> Seq<QueueCall> {
        self.event_queue.log()
    }

    /// The calls made on the status queue.
    pub closed spec fn status_log(&self) -> Seq<QueueCall> {
        self.status_queue.log()
    }

    /// The completions of the event queue not yet retired, oldest first.
    pub closed spec fn pending(&self) -> Seq<(u16, InputEvent)> {
        self.event_queue.used()
    }

    /// Whether a completion reported for `token` may be retired: it names a
    /// slot that is outstanding.
    pub open spec fn accepts(&self, token: u16) -> bool {
        token < QUEUE_SIZE && self.outstanding(token as int)
    }

    /// The slot pool has exactly one entry per queue descriptor.
    pub open spec fn wf(&self) -> bool {
        &&& self.slots().len() == QUEUE_SIZE
        &&& self.posted_slots().len() == QUEUE_SIZE
    }

    /// Whether slot `i` is outstanding with the device.
    pub open spec fn outstanding(&self, i: int) -> bool {
        self.live() && self.posted_slots()[i]
    }

    /// Number of slots outstanding with the device.
    pub open spec fn outstanding_total(&self) -> nat {
        if self.live() {
            count_posted(self.posted_slots())
        } else {
            0
        }
    }

    /// Steady state: every slot is outstanding with the device.
    pub open spec fn fully_posted(&self) -> bool {
        &&& self.live()
        &&& forall|i: int| 0 <= i < QUEUE_SIZE ==> #[trigger] self.posted_slots()[i]
    }

    /// What one call of `pop_pending_event` may do, from `self` to `next`
    /// with result `r`.
    pub open spec fn pop_step(self, next: Self, r: Result<Option<InputEvent>, Error>) -> bool {
        &&& next.wf()
        &&& next.live() == self.live()
        &&& forall|i: int|
            0 <= i < QUEUE_SIZE && !self.outstanding(i) ==> #[trigger] next.slots()[i]
                == self.slots()[i] && next.posted_slots()[i] == self.posted_slots()[i]
        &&& (r matches Ok(None) ==> next.slots() == self.slots() && next.posted_slots()
            == self.posted_slots())
        &&& (r matches Ok(Some(e)) ==> next.posted_slots() == self.posted_slots() && exists|t: int|
            0 <= t < QUEUE_SIZE && #[trigger] self.outstanding(t) && next.slots()
                == self.slots().update(t, e))
        &&& (r.is_err() ==> next.posted_slots() == self.posted_slots() || exists|t: int|
            0 <= t < QUEUE_SIZE && #[trigger] self.outstanding(t) && next.posted_slots()
                == self.posted_slots().update(t, false))
    }

    /// Exactly what one call of `pop_pending_event` does, from `self` to
    /// `next` with result `r`, over the calls it makes: it asks the event
    /// queue for a completion; with none it returns `None`; a completion for a
    /// slot that is not outstanding is refused; otherwise the completion is
    /// retired once, the record handed back stored and returned, the same slot
    /// re-posted, and the device notified if it asks for it. Each failing call
    /// ends the poll with its error.
    pub open spec fn poll_effect(self, next: Self, r: Result<Option<InputEvent>, Error>) -> bool {
        let n = self.event_log().len() as int;
        let m = self.transport_log().len() as int;
        let log = next.event_log();
        let untouched = next.slots() == self.slots() && next.posted_slots()
            == self.posted_slots() && next.transport_log() == self.transport_log();
        &&& next.status_log() == self.status_log()
        &&& next.live() == self.live()
        &&& n < log.len()
        &&& log.subrange(0, n) == self.event_log()
        &&& log[n] matches QueueCall::PeekUsed(seen)
        &&& self.pending().len() > 0 ==> seen == Some(self.pending()[0].0)
        &&& match seen {
            None => r == Ok::<Option<InputEvent>, Error>(None) && log.len() == n + 1 && untouched
                && self.pending().is_prefix_of(next.pending()),
            Some(t) => if !self.accepts(t) {
                &&& r == Err::<Option<InputEvent>, Error>(Error::WrongToken)
                &&& log.len() == n + 1
                &&& untouched
                &&& self.pending().is_prefix_of(next.pending())
            } else {
                &&& n + 1 < log.len()
                &&& log[n + 1] matches QueueCall::PopUsed(tok, popped)
                &&& tok == t
                &&& match popped {
                    Err(e) => r == Err::<Option<InputEvent>, Error>(e) && log.len() == n + 2
                        && untouched && self.pending().is_prefix_of(next.pending()),
                    Ok(rec) => {
                        &&& self.pending().len() > 0 ==> rec == self.pending()[0].1
                            && self.pending().drop_first().is_prefix_of(next.pending())
                        &&& next.slots() == self.slots().update(t as int, rec)
                        &&& n + 2 < log.len()
                        &&& log[n + 2] matches QueueCall::Add(s, added)
                        &&& s == t
                        &&& if added == Ok::<u16, Error>(t) {
                            &&& next.posted_slots() == self.posted_slots()
                            &&& log.len() == n + 4
                            &&& log[n + 3] matches QueueCall::ShouldNotify(asked)
                            &&& if asked {
                                &&& next.transport_log().len() == m + 1
                                &&& next.transport_log().subrange(0, m) == self.transport_log()
                                &&& next.transport_log()[m].0 == TransportCall::Notify(QUEUE_EVENT)
                                &&& r == match next.transport_log()[m].1 {
                                    Ok(_) => Ok::<Option<InputEvent>, Error>(Some(rec)),
                                    Err(e) => Err(e),
                                }
                            } else {
                                next.transport_log() == self.transport_log()
                                    && r == Ok::<Option<InputEvent>, Error>(Some(rec))
                            }
                        } else {
                            &&& next.posted_slots() == self.posted_slots().update(t as int, false)
                            &&& log.len() == n + 3
                            &&& next.transport_log() == self.transport_log()
                            &&& r == match added {
                                Err(e) => Err(e),
                                Ok(_) => Err::<Option<InputEvent>, Error>(Error::WrongToken),
                            }
                        }
                    },
                }
            },
        }
    }

    /// Runs the handshake: negotiates no optional features, registers the
    /// event and the status queue, posts slot `i` of the event queue for each
    /// `i` in turn, notifies the device if it asks for it, and signals
    /// driver-ready. The first failing step ends the handshake with its error,
    /// and no later step is taken.
    fn start(transport: &mut T) -> (r: Result<(T::Queue, T::Queue), Error>)
        ensures
            r matches Ok((eq, sq)) ==> {
                &&& eq.log().len() == QUEUE_SIZE + 1
                &&& eq.log().subrange(0, QUEUE_SIZE as int) == priming_calls()
                &&& eq.log()[QUEUE_SIZE as int] matches QueueCall::ShouldNotify(asked)
                &&& final(transport).log() == old(transport).log() + init_calls(asked)
                &&& sq.log() == Seq::<QueueCall>::empty()
            },
            r matches Err(e) ==> init_failed(old(transport).log(), final(transport).log(), e),
    {
        let ghost old_log = transport.log();
        let ghost full = init_calls(false);
        let begun = transport.begin_init(SUPPORTED_FEATURES);
        if let Err(e) = begun {
            assert(transport.log() =~= old_log + init_calls(false).subrange(0, 0).push(
                (init_calls(false)[0].0, Err(e)),
            ));
            return Err(e);
        }
        let event_set = transport.queue_set(QUEUE_EVENT, QUEUE_SIZE as u16);
        let mut event_queue = match event_set {
            Ok(q) => q,
            Err(e) => {
                assert(full.subrange(0, 1) =~= full.subrange(0, 0).push(full[0]));
                assert(transport.log() =~= old_log + full.subrange(0, 1).push((full[1].0, Err(e))));
                return Err(e);
            },
        };
        let status_set = transport.queue_set(QUEUE_STATUS, QUEUE_SIZE as u16);
        let status_queue = match status_set {
            Ok(q) => q,
            Err(e) => {
                assert(full.subrange(0, 2) =~= full.subrange(0, 1).push(full[1]));
                assert(transport.log() =~= old_log + full.subrange(0, 2).push((full[2].0, Err(e))));
                return Err(e);
            },
        };
        let ghost set_log = transport.log();
        assert(full.subrange(0, 1) =~= full.subrange(0, 0).push(full[0]));
        assert(full.subrange(0, 2) =~= full.subrange(0, 1).push(full[1]));
        assert(full.subrange(0, 3) =~= full.subrange(0, 2).push(full[2]));
        assert(set_log =~= old_log + full.subrange(0, 3));
        let mut slot: usize = 0;
        while slot < QUEUE_SIZE
            invariant
                slot <= QUEUE_SIZE,
                event_queue.log() == priming_calls().subrange(0, slot as int),
                status_queue.log() == Seq::<QueueCall>::empty(),
                transport.log() == set_log,
                set_log == old_log + init_calls(false).subrange(0, 3),
                old_log == old(transport).log(),
            decreases QUEUE_SIZE - slot,
        {
            let token = event_queue.add(slot as u16)?;
            check_token(slot as u16, token)?;
            assert(event_queue.log() =~= priming_calls().subrange(0, slot + 1));
            slot = slot + 1;
        }
        assert(event_queue.log() =~= priming_calls());
        let notified = event_queue.should_notify();
        assert(event_queue.log().subrange(0, QUEUE_SIZE as int) =~= priming_calls());
        assert(init_calls(notified).subrange(0, 3) =~= init_calls(false).subrange(0, 3));
        if notified {
            let sent = transport.notify(QUEUE_EVENT);
            if let Err(e) = sent {
                assert(transport.log() =~= old_log + init_calls(true).subrange(0, 3).push(
                    (init_calls(true)[3].0, Err(e)),
                ));
                return Err(e);
            }
        }
        let ghost k: int = if notified { 4 } else { 3 };
        let finished = transport.finish_init();
        if let Err(e) = finished {
            assert(transport.log() =~= old_log + init_calls(notified).subrange(0, k).push(
                (init_calls(notified)[k].0, Err(e)),
            ));
            return Err(e);
        }
        assert(transport.log() =~= old_log + init_calls(notified));
        Ok((event_queue, status_queue))
    }

    /// Creates the driver: negotiates features, registers the event and the
    /// status queue, posts every event slot and signals the device ready.
    ///
    /// On success every slot holds a zero record and is outstanding, slot `i`
    /// was posted by the `i`-th submission with token `i`, the status queue
    /// was registered and left untouched, and the transport saw exactly the
    /// handshake of `init_calls`. On failure the error of the first failing
    /// step is returned and no later step is taken (see `start`).
    pub fn new(mut transport: T) -> (r: Result<Self, Error>)
        ensures
            r matches Ok(d) ==> {
                &&& d.wf()
                &&& d.fully_posted()
                &&& d.slots() == Seq::new(QUEUE_SIZE as nat, |i: int| InputEvent::zero())
                &&& d.event_log().len() == QUEUE_SIZE + 1
                &&& d.event_log().subrange(0, QUEUE_SIZE as int) == priming_calls()
                &&& d.event_log()[QUEUE_SIZE as int] matches QueueCall::ShouldNotify(asked)
                &&& d.transport_log() == transport.log() + init_calls(asked)
                &&& d.status_log() == Seq::<QueueCall>::empty()
            },
    {
        let (event_queue, status_queue) = Self::start(&mut transport)?;
        let mut event_buf: Vec<InputEvent> = Vec::new();
        let mut i: usize = 0;
        while i < QUEUE_SIZE
            invariant
                i <= QUEUE_SIZE,
                event_buf@ == Seq::new(i as nat, |k: int| InputEvent::zero()),
            decreases QUEUE_SIZE - i,
        {
            event_buf.push(InputEvent::default());
            i = i + 1;
        }
        let mut posted: Vec<bool> = Vec::new();
        let mut slot: usize = 0;
        while slot < QUEUE_SIZE
            invariant
                slot <= QUEUE_SIZE,
                posted@ == Seq::new(slot as nat, |k: int| true),
            decreases QUEUE_SIZE - slot,
        {
            posted.push(true);
            slot = slot + 1;
        }
        Ok(VirtIOInput { transport, event_queue, status_queue, event_buf, posted, queues_set: true })
    }

    /// Acknowledges a pending interrupt; returns whether it came from this device.
    ///
    /// The event slots are not touched.
    pub fn ack_interrupt(&mut self) -> (r: Result<bool, Error>)
        ensures
            final(self).transport_log() == old(self).transport_log().push(
                (TransportCall::AckInterrupt, flag(r)),
            ),
            final(self).event_log() == old(self).event_log(),
            final(self).status_log() == old(self).status_log(),
            final(self).pending() == old(self).pending(),
            final(self).slots() == old(self).slots(),
            final(self).posted_slots() == old(self).posted_slots(),
            final(self).live() == old(self).live(),
    {
        self.transport.ack_interrupt()
    }

    /// Takes the next event the device has completed, if any, and posts its
    /// slot again at once.
    ///
    /// Only a slot that is outstanding is ever delivered: a completion for
    /// any other token is refused with `WrongToken`, and a slot that is not
    /// outstanding is neither read nor re-posted. On success every slot is
    /// posted exactly as before the call.
    pub fn pop_pending_event(&mut self) -> (r: Result<Option<InputEvent>, Error>)
        requires
            old(self).wf(),
        ensures
            old(self).pop_step(*final(self), r),
            old(self).poll_effect(*final(self), r),
    {
        let ghost log0 = self.event_queue.log();
        let ghost used0 = self.event_queue.used();
        let seen = self.event_queue.peek_used();
        let ghost used1 = self.event_queue.used();
        assert(used0.len() > 0 ==> used1[0] == used0[0]) by {
            if used0.len() > 0 {
                assert(used1.subrange(0, used0.len() as int)[0] == used1[0]);
            }
        }
        assert(self.event_queue.log().subrange(0, log0.len() as int) =~= log0);
        let token = match seen {
            Some(token) => token,
            None => return Ok(None),
        };
        if !self.queues_set || token as usize >= QUEUE_SIZE || !self.posted[token as usize] {
            return Err(Error::WrongToken);
        }
        let t: usize = token as usize;
        let mut record = self.event_buf[t];
        let popped = self.event_queue.pop_used(token, &mut record);
        assert(self.event_queue.log().subrange(0, log0.len() as int) =~= log0);
        proof {
            let used2 = self.event_queue.used();
            if popped.is_ok() && used0.len() > 0 {
                assert(used0.drop_first() =~= used1.drop_first().subrange(0, used0.len() - 1));
                assert(used2.subrange(0, used0.len() - 1) =~= used1.drop_first().subrange(
                    0,
                    used0.len() - 1,
                ));
            }
        }
        if let Err(e) = popped {
            return Err(e);
        }
        self.posted.set(t, false);
        self.event_buf.set(t, record);
        assert(old(self).outstanding(t as int));
        assert(self.posted@ =~= old(self).posted@.update(t as int, false));
        let event_saved = self.event_buf[t];
        let added = self.event_queue.add(token);
        assert(self.event_queue.log().subrange(0, log0.len() as int) =~= log0);
        let new_token = match added {
            Ok(new_token) => new_token,
            Err(e) => return Err(e),
        };
        check_token(token, new_token)?;
        self.posted.set(t, true);
        assert(self.posted@ =~= old(self).posted@);
        let asked = self.event_queue.should_notify();
        assert(self.event_queue.log().subrange(0, log0.len() as int) =~= log0);
        if asked {
            let notified = self.transport.notify(QUEUE_EVENT);
            assert(self.transport.log().subrange(0, old(self).transport.log().len() as int)
                =~= old(self).transport.log());
            if let Err(e) = notified {
                return Err(e);
            }
        }
        Ok(Some(event_saved))
    }

    /// Queries the config space for the metadata addressed by `select` and
    /// `subsel`, copies the response into the front of `out` and returns its size.
    ///
    /// The select register is written before the subsel register. A response
    /// longer than `out` is refused with `BufferTooSmall`, never truncated;
    /// on any error `out` is left as it was. The event slots are not touched.
    pub fn query_config_select(&mut self, select: InputConfigSelect, subsel: u8, out: &mut [u8]) -> (r: Result<u8, Error>)
        ensures
            final(self).event_log() == old(self).event_log(),
            final(self).status_log() == old(self).status_log(),
            final(self).pending() == old(self).pending(),
            ({
                let m = old(self).transport_log().len() as int;
                let log = final(self).transport_log();
                &&& m < log.len() <= m + 4
                &&& log.subrange(0, m) == old(self).transport_log()
                &&& log[m].0 == TransportCall::WriteConfigSelect(select.spec_code())
                &&& log.len() > m + 1 ==> log[m].1 is Ok && log[m + 1].0
                    == TransportCall::WriteConfigSubsel(subsel)
                &&& log.len() > m + 2 ==> log[m + 1].1 is Ok && log[m + 2].0
                    == TransportCall::ReadConfigSize
                &&& log.len() > m + 3 ==> log[m + 2].1 is Ok && log[m + 3].0
                    == TransportCall::ReadConfigData
                &&& log.len() < m + 4 ==> log.last().1 is Err
                &&& log.last().1 matches Err(e) ==> r == Err::<u8, Error>(e)
                &&& log.len() == m + 4 && log[m + 3].1 is Ok ==> (log[m + 2].1 matches Ok(Reply::Size(size)) && log[m
                    + 3].1 matches Ok(Reply::Data(data)) && copied(
                    size,
                    data@,
                    old(out)@,
                    final(out)@,
                    r,
                ))
            }),
            final(self).slots() == old(self).slots(),
            final(self).posted_slots() == old(self).posted_slots(),
            final(self).live() == old(self).live(),
            r.is_err() ==> final(out)@ == old(out)@,
            r matches Ok(n) ==> n as nat <= CONFIG_DATA_LEN && n as nat <= old(out)@.len() && exists|
                data: Seq<u8>,
            |
                data.len() == CONFIG_DATA_LEN && #[trigger] final(out)@ == data.subrange(0, n as int)
                    + old(out)@.subrange(n as int, old(out)@.len() as int),
    {
        let ghost start = self.transport.log();
        let selected = self.transport.write_config_select(select.code());
        assert(self.transport.log().subrange(0, start.len() as int) =~= start);
        selected?;
        let subselected = self.transport.write_config_subsel(subsel);
        assert(self.transport.log().subrange(0, start.len() as int) =~= start);
        subselected?;
        let size_read = self.transport.read_config_size();
        assert(self.transport.log().subrange(0, start.len() as int) =~= start);
        let size = size_read?;
        let data_read = self.transport.read_config_data();
        assert(self.transport.log().subrange(0, start.len() as int) =~= start);
        let data = data_read?;
        copy_config_response(size, &data, out)
    }

    /// Revokes the device's access to both queues, the event queue first,
    /// so that the slot memory can be released.
    ///
    /// Both queues are unset even where the first attempt fails; the first
    /// failure is returned. Afterwards no slot is outstanding, and a second
    /// call does nothing.
    pub fn teardown(&mut self) -> (r: Result<(), Error>)
        ensures
            !final(self).live(),
            final(self).slots() == old(self).slots(),
            final(self).posted_slots() == old(self).posted_slots(),
            final(self).event_log() == old(self).event_log(),
            final(self).status_log() == old(self).status_log(),
            !old(self).live() ==> r.is_ok() && final(self).transport_log() == old(
                self,
            ).transport_log(),
            old(self).live() ==> {
                let m = old(self).transport_log().len() as int;
                let log = final(self).transport_log();
                &&& log.len() == m + 2
                &&& log.subrange(0, m) == old(self).transport_log()
                &&& log[m].0 == TransportCall::QueueUnset(QUEUE_EVENT)
                &&& log[m + 1].0 == TransportCall::QueueUnset(QUEUE_STATUS)
                &&& r == first_failure(log[m].1, log[m + 1].1)
            },
    {
        if !self.queues_set {
            return Ok(());
        }
        self.queues_set = false;
        let event_result = self.transport.queue_unset(QUEUE_EVENT);
        let status_result = self.transport.queue_unset(QUEUE_STATUS);
        assert(self.transport.log().subrange(0, old(self).transport.log().len() as int)
            =~= old(self).transport.log());
        match (event_result, status_result) {
            (Err(e), _) => Err(e),
            (Ok(_), Err(e)) => Err(e),
            (Ok(_), Ok(_)) => Ok(()),
        }
    }

    /// Whether slot `slot` is outstanding with the device.
    pub fn is_outstanding(&self, slot: usize) -> (r: bool)
        requires
            self.wf(),
        ensures
            r == (slot < QUEUE_SIZE && self.outstanding(slot as int)),
    {
        self.queues_set && slot < QUEUE_SIZE && self.posted[slot]
    }

    /// Number of slots outstanding with the device.
    pub fn outstanding_count(&self) -> (r: usize)
        requires
            self.wf(),
        ensures
            r == self.outstanding_total(),
    {
        if !self.queues_set {
            return 0;
        }
        let mut n: usize = 0;
        let mut i: usize = 0;
        while i < QUEUE_SIZE
            invariant
                self.wf(),
                i <= QUEUE_SIZE,
                n <= i,
                n == count_posted(self.posted@.subrange(0, i as int)),
            decreases QUEUE_SIZE - i,
        {
            assert(self.posted@.subrange(0, i + 1).drop_last() =~= self.posted@.subrange(0, i as int));
            if self.posted[i] {
                n = n + 1;
            }
            i = i + 1;
        }
        assert(self.posted@.subrange(0, QUEUE_SIZE as int) =~= self.posted@);
        n
    }
}

/// A sequence whose entries are all `true` counts every entry.
pub proof fn lemma_count_all_posted(s: Seq<bool>)
    requires
        forall|i: int| 0 <= i < s.len() ==> #[trigger] s[i],
    ensures
        count_posted(s) == s.len(),
    decreases s.len(),
{
    if s.len() > 0 {
        lemma_count_all_posted(s.drop_last());
    }
}

/// Ring capacity: in steady state all slots are outstanding before a poll,
/// and after every poll that succeeds all of them are outstanding again.
pub proof fn pop_keeps_capacity<T: Transport>(
    before: VirtIOInput<T>,
    after: VirtIOInput<T>,
    r: Result<Option<InputEvent>, Error>,
)
    requires
        before.wf(),
        before.fully_posted(),
        before.pop_step(after, r),
        r.is_ok(),
    ensures
        before.outstanding_total() == QUEUE_SIZE,
        after.fully_posted(),
        after.outstanding_total() == QUEUE_SIZE,
{
    lemma_count_all_posted(before.posted_slots());
    lemma_count_all_posted(after.posted_slots());
}

/// Token stability: a delivered event comes from a slot that was
/// outstanding, that is outstanding again afterwards, and that holds the
/// delivered record.
pub proof fn pop_reposts_same_slot<T: Transport>(
    before: VirtIOInput<T>,
    after: VirtIOInput<T>,
    e: InputEvent,
)
    requires
        before.wf(),
        before.pop_step(after, Ok(Some(e))),
    ensures
        exists|t: int|
            0 <= t < QUEUE_SIZE && before.outstanding(t) && #[trigger] after.outstanding(t)
                && after.slots()[t] == e,
{
    let t = choose|t: int|
        0 <= t < QUEUE_SIZE && #[trigger] before.outstanding(t) && after.slots()
            == before.slots().update(t, e);
    assert(after.outstanding(t));
}

/// No double delivery: a poll neither delivers from nor re-posts a slot that
/// was not outstanding, whatever completion the ring reported.
pub proof fn pop_skips_idle_slot<T: Transport>(
    before: VirtIOInput<T>,
    after: VirtIOInput<T>,
    r: Result<Option<InputEvent>, Error>,
    i: int,
)
    requires
        before.wf(),
        before.pop_step(after, r),
        0 <= i < QUEUE_SIZE,
        !before.outstanding(i),
    ensures
        after.slots()[i] == before.slots()[i],
        !after.outstanding(i),
        r matches Ok(Some(e)) ==> exists|t: int|
            0 <= t < QUEUE_SIZE && t != i && #[trigger] before.outstanding(t) && after.slots()[t]
                == e,
{
    if let Ok(Some(e)) = r {
        let t = choose|t: int|
            0 <= t < QUEUE_SIZE && #[trigger] before.outstanding(t) && after.slots()
                == before.slots().update(t, e);
        assert(t != i);
        assert(after.slots()[t] == e);
    }
}

/// Teardown safety: once the queues are unset, no slot is outstanding.
pub proof fn teardown_leaves_nothing_outstanding<T: Transport>(d: VirtIOInput<T>)
    requires
        !d.live(),
    ensures
        d.outstanding_total() == 0,
        forall|i: int| 0 <= i < QUEUE_SIZE ==> !#[trigger] d.outstanding(i),
{
}

/// Completion order: a poll that delivers while completions were pending
/// delivers the oldest one, re-posts its slot, and leaves the younger ones
/// pending in the order the device completed them.
pub proof fn poll_delivers_oldest<T: Transport>(
    before: VirtIOInput<T>,
    after: VirtIOInput<T>,
    e: InputEvent,
)
    requires
        before.wf(),
        before.poll_effect(after, Ok(Some(e))),
        before.pending().len() > 0,
    ensures
        e == before.pending()[0].1,
        after.outstanding(before.pending()[0].0 as int),
        after.slots()[before.pending()[0].0 as int] == e,
        before.pending().drop_first().is_prefix_of(after.pending()),
{
}

} // verus!
