//! The status publisher: it holds the latest snapshot and hands it to
//! observers. An observer gets the snapshot that is current when it joins,
//! and after that each snapshot that it has not seen; one that falls behind
//! gets the latest and never an older one.

use vstd::prelude::*;
use crate::service::{AnlagenModel, AnlagenStatus};

verus! {

/// Holds the latest snapshot and counts the snapshots that it was given.
pub struct StatusPublisher {
    latest: AnlagenStatus,
    sequence: u64,
}

/// An observer: it remembers which snapshot it saw last.
pub struct Subscriber {
    seen: Option<u64>,
}

/// The publisher as a mathematical value.
pub struct PublisherModel {
    pub latest: AnlagenModel,
    /// The number of the latest snapshot. It starts again at zero after the
    /// largest number.
    pub sequence: u64,
}

impl View for StatusPublisher {
    type V = PublisherModel;

    closed spec fn view(&self) -> PublisherModel {
        PublisherModel { latest: self.latest@, sequence: self.sequence }
    }
}

impl View for Subscriber {
    type V = Option<u64>;

    /// The number of the snapshot seen last, `None` before the first.
    closed spec fn view(&self) -> Option<u64> {
        self.seen
    }
}

impl PublisherModel {
    /// The number that follows the number of the latest snapshot.
    pub open spec fn next_sequence(self) -> u64 {
        if self.sequence == u64::MAX {
            0
        } else {
            (self.sequence + 1) as u64
        }
    }

    /// After a snapshot was published.
    pub open spec fn published(self, status: AnlagenModel) -> PublisherModel {
        PublisherModel { latest: status, sequence: self.next_sequence() }
    }

    /// After the snapshots of a list were published, one after the other.
    pub open spec fn published_all(self, statuses: Seq<AnlagenModel>) -> PublisherModel
        decreases statuses.len(),
    {
        if statuses.len() == 0 {
            self
        } else {
            self.published_all(statuses.drop_last()).published(statuses.last())
        }
    }

    /// What an observer gets that saw the snapshot with number `seen` last:
    /// the latest snapshot, unless that is the one it saw.
    pub open spec fn delivers(self, seen: Option<u64>) -> Option<AnlagenModel> {
        if seen == Some(self.sequence) {
            None
        } else {
            Some(self.latest)
        }
    }
}

impl StatusPublisher {
    /// A publisher that holds `initial`.
    pub fn new(initial: AnlagenStatus) -> (r: Self)
        ensures
            r@ == (PublisherModel { latest: initial@, sequence: 0 }),
    {
        StatusPublisher { latest: initial, sequence: 0 }
    }

    /// Replaces the snapshot that is held.
    pub fn publish(&mut self, new_status: AnlagenStatus)
        ensures
            final(self)@ == old(self)@.published(new_status@),
    {
        self.latest = new_status;
        self.sequence = if self.sequence == u64::MAX { 0 } else { self.sequence + 1 };
    }

    /// The snapshot that is held.
    pub fn current(&self) -> (r: &AnlagenStatus)
        ensures
            r@ == self@.latest,
    {
        &self.latest
    }

    /// A new observer. It has seen nothing, so the first thing it gets is
    /// the snapshot that is held then.
    pub fn subscribe(&self) -> (r: Subscriber)
        ensures
            r@ is None,
    {
        Subscriber { seen: None }
    }

    /// Hands the latest snapshot to an observer that has not seen it, and
    /// `None` to one that has.
    pub fn poll(&self, subscriber: &mut Subscriber) -> (r: Option<AnlagenStatus>)
        ensures
            final(subscriber)@ == Some(self@.sequence),
            match self@.delivers(old(subscriber)@) {
                Some(status) => r is Some && r->Some_0@ == status,
                None => r is None,
            },
    {
        match subscriber.seen {
            Some(seen) => {
                if seen == self.sequence {
                    return None;
                }
            },
            None => {},
        }
        subscriber.seen = Some(self.sequence);
        Some(self.latest.clone())
    }
}

/// An observer that joins after any number of snapshots were published gets
/// the last of them first, and the snapshot that the publisher started with
/// where none was published.
pub proof fn lemma_joining_observer_gets_latest(p: PublisherModel, statuses: Seq<AnlagenModel>)
    ensures
        p.published_all(statuses).delivers(None) == Some(
            if statuses.len() == 0 {
                p.latest
            } else {
                statuses.last()
            },
        ),
{
}

/// An observer that is up to date gets the next snapshot that is published,
/// and nothing a second time.
pub proof fn lemma_next_snapshot_is_delivered(p: PublisherModel, status: AnlagenModel)
    ensures
        p.published(status).delivers(Some(p.sequence)) == Some(status),
        p.published(status).delivers(Some(p.published(status).sequence)) is None,
{
}

/// An observer never gets an older snapshot than the latest: whatever it
/// saw last, what it gets after a list of snapshots was published is the
/// last of them or nothing.
pub proof fn lemma_never_an_older_snapshot(p: PublisherModel, statuses: Seq<AnlagenModel>, seen: Option<u64>)
    requires
        statuses.len() > 0,
    ensures
        p.published_all(statuses).delivers(seen) is Some ==> p.published_all(statuses).delivers(seen)
            == Some(statuses.last()),
{
}

} // verus!
