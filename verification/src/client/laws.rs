//! What holds of a client over many events.
use vstd::prelude::*;

use crate::client::session::Session;
use crate::clock::Duration;
use crate::options::MqttOptions;
use crate::packet::{ConnectReturnCode, PacketIdentifier, Publish, QoS};

verus! {

/// Something that happens to a client.
pub enum Event {
    /// The client opens a connection.
    Connect,
    /// The broker answers the request for a connection.
    Connack(ConnectReturnCode),
    /// The client publishes.
    Publish(Publish, Duration),
    /// The broker acknowledges a publish.
    Puback(PacketIdentifier),
    /// A control packet is sent.
    Flush(Duration),
    /// The client asks to ping.
    Ping(Duration),
    /// The broker answers a ping.
    Pingresp,
    /// The client asks to subscribe.
    Subscribe(Duration),
    /// A packet identifier is taken.
    TakePkid,
    /// The connection is over.
    Disconnect,
}

impl Session {
    /// The state after `event`.
    pub open spec fn step(self, event: Event) -> Session {
        match event {
            Event::Connect => self.connecting(),
            Event::Connack(code) => self.answered(code),
            Event::Publish(publish, now) => self.published(publish, now),
            Event::Puback(pkid) => self.acknowledged(pkid),
            Event::Flush(now) => self.flushed(now),
            Event::Ping(now) => self.pinged(now),
            Event::Pingresp => self.ping_answered(),
            Event::Subscribe(now) => self.subscribed(now),
            Event::TakePkid => Session {
                last_pkid: crate::client::session::following_pkid(self.last_pkid),
                ..self
            },
            Event::Disconnect => self.disconnected(),
        }
    }

    /// The state after `events`, in their order.
    pub open spec fn run(self, events: Seq<Event>) -> Session
        decreases events.len(),
    {
        if events.len() == 0 {
            self
        } else {
            self.run(events.drop_last()).step(events.last())
        }
    }
}

/// The `n`th of the identifiers that are handed out after `last`.
pub open spec fn nth_pkid(last: PacketIdentifier, n: nat) -> PacketIdentifier
    decreases n,
{
    if n == 0 {
        last
    } else {
        crate::client::session::following_pkid(nth_pkid(last, (n - 1) as nat))
    }
}

/// Identifiers count from 1 to 65535 and start again: the `n`th one after `last`
/// is `last + n`, wrapped around so that 0 is never handed out.
pub proof fn law_pkids_count_up(last: PacketIdentifier, n: nat)
    requires
        n > 0,
    ensures
        nth_pkid(last, n).0 == (last.0 + n - 1) % 65_535 + 1,
        nth_pkid(last, n).0 != 0,
    decreases n,
{
    if n > 1 {
        law_pkids_count_up(last, (n - 1) as nat);
    } else {
        assert(nth_pkid(last, 0) == last);
    }
}

/// No identifier comes again before all 65535 of them have been handed out.
pub proof fn law_pkids_differ(last: PacketIdentifier, m: nat, n: nat)
    requires
        0 < m < n < m + 65_535,
    ensures
        nth_pkid(last, m) != nth_pkid(last, n),
{
    law_pkids_count_up(last, m);
    law_pkids_count_up(last, n);
}

/// Only publishes that the broker can acknowledge are ever queued.
pub proof fn law_queue_stays_well_formed(session: Session, event: Event)
    requires
        session.wf(),
    ensures
        session.step(event).wf(),
{
    if let Event::Puback(pkid) = event {
        if session.pending(pkid) {
            lemma_slot(session, pkid);
        }
    }
}

/// Whatever happens to a new client, its queue is well formed.
pub proof fn law_reachable_queue_is_well_formed(
    opts: MqttOptions,
    started: std::time::Instant,
    events: Seq<Event>,
)
    ensures
        Session::fresh(opts, started).run(events).wf(),
    decreases events.len(),
{
    if events.len() > 0 {
        let before = events.drop_last();
        law_reachable_queue_is_well_formed(opts, started, before);
        law_queue_stays_well_formed(Session::fresh(opts, started).run(before), events.last());
    }
}

impl Session {
    /// Whether `event` draws a packet identifier.
    pub open spec fn draws(self, event: Event) -> bool {
        match event {
            Event::Publish(publish, _) => publish.qos == QoS::AtLeastOnce && publish.pid is None
                && publish.payload@.len() <= self.opts.max_packet_size,
            Event::Subscribe(_) => true,
            Event::TakePkid => true,
            _ => false,
        }
    }

    /// How many packet identifiers `events` draw.
    pub open spec fn drawn(self, events: Seq<Event>) -> nat
        decreases events.len(),
    {
        if events.len() == 0 {
            0
        } else {
            let before = events.drop_last();
            self.drawn(before) + if self.run(before).draws(events.last()) {
                1nat
            } else {
                0
            }
        }
    }

    /// The identifier of the pending publish at index `i`, or 0 if it has none.
    pub open spec fn pkid_at(self, i: int) -> u16 {
        match self.outgoing_pub[i].pid {
            Some(pkid) => pkid.0,
            None => 0,
        }
    }

    /// Whether the pending publishes stand in the order of their identifiers, all
    /// of which have been handed out since they last started again from 1.
    pub open spec fn in_pkid_order(self) -> bool {
        &&& forall|i: int|
            0 <= i < self.outgoing_pub.len() ==> 0 < #[trigger] self.pkid_at(i) <= self.last_pkid.0
        &&& forall|i: int, j: int|
            0 <= i < j < self.outgoing_pub.len() ==> #[trigger] self.pkid_at(i)
                < #[trigger] self.pkid_at(j)
    }
}

/// Until the identifiers start again from 1, no event takes a queue out of the
/// order of its identifiers, if publishes come without one. So no two pending
/// publishes share one.
pub proof fn law_queue_stays_in_pkid_order(session: Session, event: Event)
    requires
        session.in_pkid_order(),
        session.draws(event) ==> session.last_pkid.0 < 65_535,
        event matches Event::Publish(publish, _) ==> publish.pid is None,
    ensures
        session.step(event).in_pkid_order(),
        session.step(event).last_pkid.0 == session.last_pkid.0 + if session.draws(event) {
            1int
        } else {
            0
        },
{
    let after = session.step(event);
    let gone = match event {
        Event::Puback(pkid) if session.pending(pkid) => session.slot(pkid),
        _ => session.outgoing_pub.len() as int,
    };
    if let Event::Puback(pkid) = event {
        if session.pending(pkid) {
            lemma_slot(session, pkid);
        }
    }
    // Every publish but a new one keeps its identifier, at its place or, if it
    // stood behind the acknowledged one, at the place before.
    assert forall|i: int|
        0 <= i < after.outgoing_pub.len() && i < session.outgoing_pub.len() implies (
    #[trigger] after.pkid_at(i)) == session.pkid_at(
        if i < gone {
            i
        } else {
            i + 1
        },
    ) by {}
}

/// From the start of a client whose publishes come without an identifier until it
/// has drawn all 65535 of them, its queue is in the order of the identifiers, and
/// the last one drawn says how many have been drawn.
pub proof fn law_reachable_queue_is_in_pkid_order(
    opts: MqttOptions,
    started: std::time::Instant,
    events: Seq<Event>,
)
    requires
        Session::fresh(opts, started).drawn(events) <= 65_535,
        forall|i: int|
            0 <= i < events.len() ==> (#[trigger] events[i] matches Event::Publish(publish, _)
                ==> publish.pid is None),
    ensures
        Session::fresh(opts, started).run(events).in_pkid_order(),
        Session::fresh(opts, started).run(events).last_pkid.0 == Session::fresh(
            opts,
            started,
        ).drawn(events),
    decreases events.len(),
{
    if events.len() > 0 {
        let before = events.drop_last();
        law_reachable_queue_is_in_pkid_order(opts, started, before);
        law_queue_stays_in_pkid_order(Session::fresh(opts, started).run(before), events.last());
    }
}

/// A queue in the order of its identifiers leaves the next one free.
pub proof fn law_next_pkid_is_free(session: Session)
    requires
        session.in_pkid_order(),
        session.last_pkid.0 < 65_535,
    ensures
        !session.pending(crate::client::session::following_pkid(session.last_pkid)),
{
    let next = crate::client::session::following_pkid(session.last_pkid);
    assert forall|i: int| 0 <= i < session.outgoing_pub.len() implies (
    #[trigger] session.outgoing_pub[i]).pid != Some(next) by {
        assert(session.pkid_at(i) <= session.last_pkid.0);
    }
}

/// A pending identifier has exactly one oldest publish.
proof fn lemma_slot(session: Session, pkid: PacketIdentifier)
    requires
        session.pending(pkid),
    ensures
        session.is_slot(pkid, session.slot(pkid)),
        forall|i: int| session.is_slot(pkid, i) ==> i == session.slot(pkid),
{
    let i = choose|i: int|
        0 <= i < session.outgoing_pub.len() && (#[trigger] session.outgoing_pub[i]).pid == Some(
            pkid,
        );
    lemma_first(session, pkid, i);
}

/// Some publish under `pkid` is the oldest one, if there is one at all.
proof fn lemma_first(session: Session, pkid: PacketIdentifier, i: int)
    requires
        0 <= i < session.outgoing_pub.len(),
        session.outgoing_pub[i].pid == Some(pkid),
    ensures
        exists|j: int| session.is_slot(pkid, j),
    decreases i,
{
    if exists|j: int| 0 <= j < i && (#[trigger] session.outgoing_pub[j]).pid == Some(pkid) {
        let j = choose|j: int|
            0 <= j < i && (#[trigger] session.outgoing_pub[j]).pid == Some(pkid);
        lemma_first(session, pkid, j);
    } else {
        assert(session.is_slot(pkid, i));
    }
}

/// The acknowledgement of a publish undoes its queueing: what comes back is the
/// publish as it was sent, and what is left is the queue as it was before. The
/// identifier must not have been pending already.
pub proof fn law_ack_takes_back_publish(session: Session, publish: Publish, now: Duration)
    requires
        session.queues(publish),
        !session.pending(session.outgoing(publish).pid->0),
    ensures
        ({
            let sent = session.outgoing(publish);
            let queued = session.published(publish, now);
            &&& sent.pid is Some
            &&& queued.pending(sent.pid->0)
            &&& queued.outgoing_pub[queued.slot(sent.pid->0)] == sent
            &&& queued.acknowledged(sent.pid->0).outgoing_pub == session.outgoing_pub
        }),
{
    let sent = session.outgoing(publish);
    let queued = session.published(publish, now);
    let last = session.outgoing_pub.len() as int;
    let pkid = sent.pid->0;
    assert(queued.is_slot(pkid, last));
    lemma_slot(queued, pkid);
    assert(queued.outgoing_pub.remove(last) =~= session.outgoing_pub);
}

/// An acknowledgement takes one publish, and no other identifier is touched: it
/// is pending after it if it was before, with the same publish.
pub proof fn law_ack_leaves_others(
    session: Session,
    pkid: PacketIdentifier,
    other: PacketIdentifier,
)
    requires
        session.pending(pkid),
        other != pkid,
    ensures
        session.acknowledged(pkid).outgoing_pub.len() == session.outgoing_pub.len() - 1,
        session.acknowledged(pkid).pending(other) == session.pending(other),
        session.pending(other) ==> {
            let after = session.acknowledged(pkid);
            after.outgoing_pub[after.slot(other)] == session.outgoing_pub[session.slot(other)]
        },
{
    lemma_slot(session, pkid);
    let gone = session.slot(pkid);
    let after = session.acknowledged(pkid);
    if session.pending(other) {
        lemma_slot(session, other);
        let i = session.slot(other);
        let moved = if i < gone {
            i
        } else {
            i - 1
        };
        assert(after.is_slot(other, moved));
        lemma_slot(after, other);
    }
}

/// The history of a queue: the publishes that ever entered it, in the order in
/// which they did, and which of them have been acknowledged.
pub struct Ledger {
    pub sent: Seq<Publish>,
    pub acked: Seq<bool>,
}

impl Ledger {
    /// Whether entry `k` is the oldest one under `pkid` that is not acknowledged.
    pub open spec fn is_oldest(self, pkid: PacketIdentifier, k: int) -> bool {
        &&& 0 <= k < self.sent.len()
        &&& self.sent[k].pid == Some(pkid) && !self.acked[k]
        &&& forall|j: int|
            0 <= j < k ==> ((#[trigger] self.sent[j]).pid != Some(pkid) || self.acked[j])
    }

    /// A publish enters the queue.
    pub open spec fn entered(self, publish: Publish) -> Ledger {
        Ledger { sent: self.sent.push(publish), acked: self.acked.push(false) }
    }

    /// The oldest entry under `pkid` that is not acknowledged becomes so, if there
    /// is one.
    pub open spec fn acknowledged(self, pkid: PacketIdentifier) -> Ledger {
        if exists|k: int| self.is_oldest(pkid, k) {
            Ledger { acked: self.acked.update(choose|k: int| self.is_oldest(pkid, k), true), ..self }
        } else {
            self
        }
    }

    /// The entries that are not acknowledged, in their order.
    pub open spec fn unacknowledged(self) -> Seq<Publish>
        decreases self.sent.len(),
    {
        if self.sent.len() == 0 {
            Seq::empty()
        } else if self.acked.last() {
            self.all_but_last().unacknowledged()
        } else {
            self.all_but_last().unacknowledged().push(self.sent.last())
        }
    }

    /// The history without its last entry.
    pub open spec fn all_but_last(self) -> Ledger {
        Ledger { sent: self.sent.drop_last(), acked: self.acked.drop_last() }
    }
}

impl Session {
    /// The history that starts with the queue of `self` and to which `events` add
    /// each publish that is to arrive at least once and whose payload is within the
    /// limit, under its own identifier or else the next one, and each
    /// acknowledgement.
    pub open spec fn ledger(self, events: Seq<Event>) -> Ledger
        decreases events.len(),
    {
        if events.len() == 0 {
            Ledger {
                sent: self.outgoing_pub,
                acked: Seq::new(self.outgoing_pub.len(), |i: int| false),
            }
        } else {
            let before = events.drop_last();
            let ledger = self.ledger(before);
            match events.last() {
                Event::Publish(publish, _) => if publish.qos == QoS::AtLeastOnce
                    && publish.payload@.len() <= self.opts.max_packet_size {
                    ledger.entered(
                        Publish {
                            pid: if publish.pid is Some {
                                publish.pid
                            } else {
                                Some(
                                    PacketIdentifier(
                                        (self.run(before).last_pkid.0 % 65_535 + 1) as u16,
                                    ),
                                )
                            },
                            ..publish
                        },
                    )
                } else {
                    ledger
                },
                Event::Puback(pkid) => ledger.acknowledged(pkid),
                _ => ledger,
            }
        }
    }
}

/// A history in which nothing is acknowledged is left whole.
proof fn lemma_nothing_acknowledged(ledger: Ledger)
    requires
        ledger.sent.len() == ledger.acked.len(),
        forall|k: int| 0 <= k < ledger.acked.len() ==> !#[trigger] ledger.acked[k],
    ensures
        ledger.unacknowledged() == ledger.sent,
    decreases ledger.sent.len(),
{
    if ledger.sent.len() > 0 {
        lemma_nothing_acknowledged(ledger.all_but_last());
        assert(ledger.sent.drop_last().push(ledger.sent.last()) =~= ledger.sent);
    }
}

/// An identifier under which every entry is acknowledged is none of those left.
proof fn lemma_all_acknowledged(ledger: Ledger, pkid: PacketIdentifier)
    requires
        ledger.sent.len() == ledger.acked.len(),
        forall|k: int|
            0 <= k < ledger.sent.len() ==> ((#[trigger] ledger.sent[k]).pid != Some(pkid)
                || ledger.acked[k]),
    ensures
        forall|i: int|
            0 <= i < ledger.unacknowledged().len() ==> (#[trigger] ledger.unacknowledged()[i]).pid
                != Some(pkid),
    decreases ledger.sent.len(),
{
    if ledger.sent.len() > 0 {
        let rest = ledger.all_but_last();
        assert forall|k: int| 0 <= k < rest.sent.len() implies ((#[trigger] rest.sent[k]).pid
            != Some(pkid) || rest.acked[k]) by {
            assert(rest.sent[k] == ledger.sent[k]);
        }
        lemma_all_acknowledged(rest, pkid);
    }
}

/// To acknowledge the oldest entry under `pkid` takes the oldest one under it out
/// of those left.
proof fn lemma_oldest_acknowledged(ledger: Ledger, pkid: PacketIdentifier, k: int) -> (i: int)
    requires
        ledger.sent.len() == ledger.acked.len(),
        ledger.is_oldest(pkid, k),
    ensures
        0 <= i < ledger.unacknowledged().len(),
        ledger.unacknowledged()[i].pid == Some(pkid),
        forall|j: int| 0 <= j < i ==> (#[trigger] ledger.unacknowledged()[j]).pid != Some(pkid),
        (Ledger { acked: ledger.acked.update(k, true), ..ledger }).unacknowledged()
            == ledger.unacknowledged().remove(i),
    decreases ledger.sent.len(),
{
    let rest = ledger.all_but_last();
    let after = Ledger { acked: ledger.acked.update(k, true), ..ledger };
    if k == ledger.sent.len() - 1 {
        assert forall|j: int| 0 <= j < rest.sent.len() implies ((#[trigger] rest.sent[j]).pid
            != Some(pkid) || rest.acked[j]) by {
            assert(rest.sent[j] == ledger.sent[j]);
        }
        lemma_all_acknowledged(rest, pkid);
        let i = rest.unacknowledged().len() as int;
        assert(after.acked.drop_last() =~= rest.acked);
        assert(after.all_but_last() == rest);
        assert(ledger.unacknowledged().remove(i) =~= rest.unacknowledged());
        i
    } else {
        assert(rest.is_oldest(pkid, k)) by {
            assert forall|j: int| 0 <= j < k implies ((#[trigger] rest.sent[j]).pid != Some(pkid)
                || rest.acked[j]) by {
                assert(rest.sent[j] == ledger.sent[j]);
            }
        }
        let i = lemma_oldest_acknowledged(rest, pkid, k);
        assert(after.acked.drop_last() =~= rest.acked.update(k, true));
        assert(after.unacknowledged() =~= ledger.unacknowledged().remove(i));
        i
    }
}

/// Some entry under `pkid` is the oldest that is not acknowledged, if there is one
/// at all.
proof fn lemma_oldest(ledger: Ledger, pkid: PacketIdentifier, k: int)
    requires
        0 <= k < ledger.sent.len(),
        ledger.sent[k].pid == Some(pkid),
        !ledger.acked[k],
    ensures
        exists|j: int| ledger.is_oldest(pkid, j),
    decreases k,
{
    if exists|j: int|
        0 <= j < k && (#[trigger] ledger.sent[j]).pid == Some(pkid) && !ledger.acked[j] {
        let j = choose|j: int|
            0 <= j < k && (#[trigger] ledger.sent[j]).pid == Some(pkid) && !ledger.acked[j];
        lemma_oldest(ledger, pkid, j);
    } else {
        assert(ledger.is_oldest(pkid, k));
    }
}

/// In a persistent session the queue is, in their order, exactly the publishes to
/// be acknowledged that the client has been given and the broker has not
/// acknowledged, whatever happens: connections that are lost, refused or opened
/// anew included. These are the ones to send again.
pub proof fn law_persistent_session_retransmits(session: Session, events: Seq<Event>)
    requires
        !session.opts.clean_session,
    ensures
        session.run(events).outgoing_pub == session.ledger(events).unacknowledged(),
        session.run(events).retransmission() == Some(session.ledger(events).unacknowledged()),
        session.ledger(events).sent.len() == session.ledger(events).acked.len(),
    decreases events.len(),
{
    law_options_are_kept(session, events);
    if events.len() == 0 {
        lemma_nothing_acknowledged(session.ledger(events));
    } else {
        let before = events.drop_last();
        law_persistent_session_retransmits(session, before);
        law_options_are_kept(session, before);
        let mid = session.run(before);
        let ledger = session.ledger(before);
        match events.last() {
            Event::Publish(publish, now) => {
                let sent = mid.outgoing(publish);
                let entered = ledger.entered(sent);
                assert(entered.sent.drop_last() =~= ledger.sent);
                assert(entered.acked.drop_last() =~= ledger.acked);
                assert(entered.all_but_last() == ledger);
            },
            Event::Puback(pkid) => {
                if exists|k: int| ledger.is_oldest(pkid, k) {
                    let k = choose|k: int| ledger.is_oldest(pkid, k);
                    let i = lemma_oldest_acknowledged(ledger, pkid, k);
                    assert(mid.is_slot(pkid, i));
                    lemma_slot(mid, pkid);
                } else {
                    assert forall|k: int| 0 <= k < ledger.sent.len() implies (
                    (#[trigger] ledger.sent[k]).pid != Some(pkid) || ledger.acked[k]) by {
                        if ledger.sent[k].pid == Some(pkid) && !ledger.acked[k] {
                            lemma_oldest(ledger, pkid, k);
                        }
                    }
                    lemma_all_acknowledged(ledger, pkid);
                }
            },
            _ => {},
        }
    }
}

/// In a persistent session a publish stays pending until its identifier is
/// acknowledged, whatever else happens.
pub proof fn law_pending_until_acknowledged(
    session: Session,
    pkid: PacketIdentifier,
    events: Seq<Event>,
)
    requires
        !session.opts.clean_session,
        session.pending(pkid),
        forall|i: int| 0 <= i < events.len() ==> #[trigger] events[i] != Event::Puback(pkid),
    ensures
        session.run(events).pending(pkid),
    decreases events.len(),
{
    if events.len() > 0 {
        let before = events.drop_last();
        law_pending_until_acknowledged(session, pkid, before);
        law_options_are_kept(session, before);
        let mid = session.run(before);
        let event = events.last();
        match event {
            Event::Publish(publish, now) => {
                let i = choose|i: int|
                    0 <= i < mid.outgoing_pub.len() && (#[trigger] mid.outgoing_pub[i]).pid == Some(
                        pkid,
                    );
                assert(mid.published(publish, now).outgoing_pub[i] == mid.outgoing_pub[i]);
            },
            Event::Puback(other) => {
                if mid.pending(other) {
                    law_ack_leaves_others(mid, other, pkid);
                }
            },
            _ => {},
        }
    }
}

/// A clean session forgets its queue when the connection is lost and when the
/// broker accepts a new one, and has nothing to send again.
pub proof fn law_clean_session_forgets(session: Session)
    requires
        session.opts.clean_session,
    ensures
        session.disconnected().outgoing_pub.len() == 0,
        session.answered(ConnectReturnCode::Accepted).outgoing_pub.len() == 0,
        session.retransmission() is None,
{
}

/// Events change no option but a missing keep alive time, which opening a
/// connection fills in.
pub proof fn law_options_are_kept(session: Session, events: Seq<Event>)
    ensures
        session.run(events).opts == (MqttOptions {
            keep_alive: session.run(events).opts.keep_alive,
            ..session.opts
        }),
        session.opts.keep_alive is Some ==> session.run(events).opts == session.opts,
        session.connecting().run(events).opts.keep_alive == Some(session.effective_keep_alive()),
    decreases events.len(),
{
    if events.len() > 0 {
        law_options_are_kept(session, events.drop_last());
    }
}

/// The first accepted connection is remembered for good.
pub proof fn law_first_connection_is_remembered(session: Session, events: Seq<Event>)
    ensures
        session.run(events).initial_connect == (session.initial_connect && forall|i: int|
            0 <= i < events.len() ==> #[trigger] events[i] != Event::Connack(
                ConnectReturnCode::Accepted,
            )),
    decreases events.len(),
{
    if events.len() > 0 {
        let before = events.drop_last();
        law_first_connection_is_remembered(session, before);
        assert(events =~= before.push(events.last()));
        assert(session.run(events).initial_connect ==> forall|i: int|
            0 <= i < events.len() ==> #[trigger] events[i] != Event::Connack(
                ConnectReturnCode::Accepted,
            ));
    }
}

/// A client is connected only once the broker accepts, and no longer than until
/// it opens another connection, is refused or loses the connection.
pub proof fn law_only_acceptance_connects(session: Session, event: Event)
    ensures
        session.step(event).connected() == match event {
            Event::Connack(code) => code == ConnectReturnCode::Accepted,
            Event::Connect => false,
            Event::Disconnect => false,
            _ => session.connected(),
        },
{
}

/// While a ping is unanswered no other one may be sent: neither time nor any
/// event but the answer or the loss of the connection changes that.
pub proof fn law_unanswered_ping_blocks_next(session: Session, events: Seq<Event>, now: Duration)
    requires
        session.await_pingresp,
        forall|i: int|
            0 <= i < events.len() ==> !(#[trigger] events[i] is Pingresp) && !(
            events[i] is Disconnect),
    ensures
        session.run(events).await_pingresp,
        !session.run(events).may_ping(now),
    decreases events.len(),
{
    if events.len() > 0 {
        let before = events.drop_last();
        law_unanswered_ping_blocks_next(session, before, now);
    }
}

/// Once a ping sent at the time `now` is answered, another one may be sent, as
/// long as the keep alive time is not exceeded by a second.
pub proof fn law_answered_ping_allows_next(session: Session, now: Duration, later: Duration)
    requires
        session.may_ping(now),
    ensures
        session.pinged(now).await_pingresp,
        session.pinged(now).ping_answered().may_ping(later) <==> later@ < now@
            + crate::client::session::nanoseconds(session.opts.keep_alive->0 + 1),
{
}

/// The wait before a ping is the least number of seconds that is not under nine
/// tenths of the keep alive time.
pub proof fn law_ping_wait_is_rounded_up(keep_alive: u16)
    ensures
        10 * crate::client::session::ping_after(keep_alive) >= 9 * keep_alive,
        10 * (crate::client::session::ping_after(keep_alive) - 1) < 9 * keep_alive,
{
}

/// A ping falls due at least a second before it would come too late: a connected
/// client that owes no answer may ping at any time until a second after the keep
/// alive time, and for all of its last second the ping is due.
pub proof fn law_ping_falls_due_in_time(session: Session, now: Duration)
    requires
        session.connected(),
        !session.await_pingresp,
        session.opts.keep_alive is Some,
        session.idle(now) < crate::client::session::nanoseconds(session.opts.keep_alive->0 + 1),
    ensures
        session.may_ping(now),
        session.idle(now) > crate::client::session::nanoseconds(session.opts.keep_alive->0 as int)
            ==> session.ping_due(now),
{
}

} // verus!
