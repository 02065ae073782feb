//! The receive side: turning the document's update stream into messages,
//! retrying a fetch a bounded number of times while content is still
//! replicating.
//!
//! The receiver only decides. Its caller waits for updates, fetches content,
//! sleeps, and hands back what happened; each step says what to do next.
use vstd::prelude::*;
use crate::message::{decode, Message, MessageModel};

verus! {

/// Fetches that are tried again after the first one fails.
pub const MAX_RETRIES: u8 = 3;

/// The pause before each retry, in milliseconds.
pub const RETRY_DELAY_MS: u64 = 1000;

/// Why the receive side stopped.
#[derive(Clone, Copy, Debug, PartialEq, Eq)]
pub enum ChatError {
    SendError,
    StreamClosed,
}

/// The kind of a notification on the document's update stream.
#[derive(Clone, Copy, Debug, PartialEq, Eq)]
pub enum Update {
    /// An entry written by another peer arrived.
    RemoteInsert,
    /// Anything else: local writes, sync progress, neighbours.
    Other,
}

/// Where the receiver stands.
#[derive(Clone, Copy, Debug, PartialEq, Eq)]
pub enum Phase {
    /// Waiting for the next notification.
    Waiting,
    /// Fetching the content of a remote entry, after `failures` failed fetches.
    Fetching { failures: u8 },
    /// The update stream has ended.
    Closed,
}

/// What the caller does next.
#[derive(Clone, Debug, PartialEq, Eq)]
pub enum Step {
    /// Wait for the next notification.
    AwaitUpdate,
    /// Fetch the content of the entry just notified.
    Fetch,
    /// Sleep `delay_ms` milliseconds, then fetch the same content again.
    RetryFetch { delay_ms: u64 },
    /// A message arrived.
    Deliver(Message),
}

pub enum StepModel {
    AwaitUpdate,
    Fetch,
    RetryFetch { delay_ms: u64 },
    Deliver(MessageModel),
}

impl View for Step {
    type V = StepModel;

    open spec fn view(&self) -> StepModel {
        match self {
            Step::AwaitUpdate => StepModel::AwaitUpdate,
            Step::Fetch => StepModel::Fetch,
            Step::RetryFetch { delay_ms } => StepModel::RetryFetch { delay_ms: *delay_ms },
            Step::Deliver(m) => StepModel::Deliver(m@),
        }
    }
}

/// The phase and the answer after a notification, or the end of the stream
/// (`None`), while waiting.
pub open spec fn after_update(u: Option<Update>) -> (Phase, Result<StepModel, ChatError>) {
    match u {
        None => (Phase::Closed, Err(ChatError::StreamClosed)),
        Some(Update::RemoteInsert) => (Phase::Fetching { failures: 0 }, Ok(StepModel::Fetch)),
        Some(Update::Other) => (Phase::Waiting, Ok(StepModel::AwaitUpdate)),
    }
}

/// The phase and the next step after a fetch that gave `fetched` (`None`
/// when it failed), with `failures` failed fetches of this content before it.
/// Bytes that are no message are skipped; content that cannot be fetched
/// after the last retry is given up.
pub open spec fn after_fetch(failures: u8, fetched: Option<Seq<u8>>) -> (Phase, StepModel) {
    match fetched {
        Some(b) => match decode(b) {
            Some(m) => (Phase::Waiting, StepModel::Deliver(m)),
            None => (Phase::Waiting, StepModel::AwaitUpdate),
        },
        None => if failures < MAX_RETRIES {
            (
                Phase::Fetching { failures: (failures + 1) as u8 },
                StepModel::RetryFetch { delay_ms: RETRY_DELAY_MS },
            )
        } else {
            (Phase::Waiting, StepModel::AwaitUpdate)
        },
    }
}

/// Content that never becomes fetchable is fetched four times: the three
/// retries each wait the retry delay, and after the fourth failure the
/// receiver waits for the next notification.
pub proof fn lemma_retry_bound()
    ensures
        after_fetch(0, None) == (
        Phase::Fetching { failures: 1 },
        StepModel::RetryFetch { delay_ms: 1000 },
        ),
        after_fetch(1, None) == (
        Phase::Fetching { failures: 2 },
        StepModel::RetryFetch { delay_ms: 1000 },
        ),
        after_fetch(2, None) == (
        Phase::Fetching { failures: 3 },
        StepModel::RetryFetch { delay_ms: 1000 },
        ),
        after_fetch(3, None) == (Phase::Waiting, StepModel::AwaitUpdate),
{
}

/// A fetch that leaves an entry unsettled counts one more failure, and the
/// count never passes `MAX_RETRIES`: whatever the fetches give, an entry is
/// settled after at most `MAX_RETRIES + 1` of them.
pub proof fn lemma_fetch_settles(failures: u8, fetched: Option<Seq<u8>>)
    requires
        failures <= MAX_RETRIES,
    ensures
        after_fetch(failures, fetched).0 is Fetching ==> after_fetch(failures, fetched).0
            == (Phase::Fetching { failures: (failures + 1) as u8 }) && failures + 1 <= MAX_RETRIES,
{
}

pub struct Receiver {
    pub phase: Phase,
}

impl Receiver {
    pub fn new() -> (r: Receiver)
        ensures
            r.phase == Phase::Waiting,
    {
        Receiver { phase: Phase::Waiting }
    }

    pub fn phase(&self) -> (r: Phase)
        ensures
            r == self.phase,
    {
        self.phase
    }

    /// Takes the next item of the update stream, `None` when it has ended.
    pub fn on_update(&mut self, update: Option<Update>) -> (r: Result<Step, ChatError>)
        requires
            old(self).phase == Phase::Waiting,
        ensures
            final(self).phase == after_update(update).0,
            match (r, after_update(update).1) {
                (Ok(s), Ok(t)) => s@ == t,
                (Err(e), Err(f)) => e == f,
                _ => false,
            },
    {
        match update {
            None => {
                self.phase = Phase::Closed;
                Err(ChatError::StreamClosed)
            },
            Some(Update::RemoteInsert) => {
                self.phase = Phase::Fetching { failures: 0 };
                Ok(Step::Fetch)
            },
            Some(Update::Other) => Ok(Step::AwaitUpdate),
        }
    }

    /// Takes the result of a fetch: the content's bytes, or `None` when the
    /// fetch failed.
    pub fn on_fetch(&mut self, fetched: Option<Vec<u8>>) -> (r: Step)
        requires
            old(self).phase is Fetching,
            old(self).phase->failures <= MAX_RETRIES,
        ensures
            (final(self).phase, r@) == after_fetch(
                old(self).phase->failures,
                match fetched {
                    Some(b) => Some(b@),
                    None => None,
                },
            ),
            final(self).phase is Fetching ==> final(self).phase->failures <= MAX_RETRIES,
    {
        let failures = match self.phase {
            Phase::Fetching { failures } => failures,
            _ => 0,
        };
        match fetched {
            Some(b) => {
                self.phase = Phase::Waiting;
                match Message::deserialize(b.as_slice()) {
                    Ok(m) => Step::Deliver(m),
                    Err(_) => Step::AwaitUpdate,
                }
            },
            None => {
                if failures < MAX_RETRIES {
                    self.phase = Phase::Fetching { failures: failures + 1 };
                    Step::RetryFetch { delay_ms: RETRY_DELAY_MS }
                } else {
                    self.phase = Phase::Waiting;
                    Step::AwaitUpdate
                }
            },
        }
    }
}

} // verus!
