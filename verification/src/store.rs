//! The record of which task stands for which bot, and the one way to write it.
//!
//! A bot's own record carries a status, and the task metadata record carries
//! the same status beside the task id. The two never move apart: they are
//! written by one transaction of two items, which commits as a whole or not
//! at all.

use crate::identity::{OwnerIdentity, OwnerIdentityView};
use crate::text::text_eq;
use vstd::prelude::*;

verus! {

/// Whether a bot's task runs.
#[derive(Clone, Copy, Debug, PartialEq, Eq, Structural)]
pub enum TaskStatus {
    Running,
    Stopped,
}

/// How the status `Running` is written in the store.
pub const RUNNING: &'static str = "Running";

/// How the status `Stopped` is written in the store.
pub const STOPPED: &'static str = "Stopped";

impl TaskStatus {
    /// The text that stands for a status in the store.
    pub open spec fn text(self) -> Seq<char> {
        match self {
            TaskStatus::Running => RUNNING@,
            TaskStatus::Stopped => STOPPED@,
        }
    }

    /// The status that a text of the store stands for.
    pub open spec fn read(text: Seq<char>) -> Option<TaskStatus> {
        if text == RUNNING@ {
            Some(TaskStatus::Running)
        } else if text == STOPPED@ {
            Some(TaskStatus::Stopped)
        } else {
            None
        }
    }

    /// A status is read back from its own text.
    pub proof fn lemma_text_round_trip(self)
        ensures
            Self::read(self.text()) == Some(self),
    {
        reveal_strlit("Running");
        reveal_strlit("Stopped");
        assert(RUNNING@[0] != STOPPED@[0]);
    }

    /// The text under which the store keeps this status.
    pub fn as_str(&self) -> (text: &'static str)
        ensures
            text@ == self.text(),
    {
        match self {
            TaskStatus::Running => RUNNING,
            TaskStatus::Stopped => STOPPED,
        }
    }

    /// The status that the store keeps under this text.
    pub fn from_text(text: &str) -> (status: Option<TaskStatus>)
        ensures
            status == Self::read(text@),
    {
        if text_eq(text, RUNNING) {
            Some(TaskStatus::Running)
        } else if text_eq(text, STOPPED) {
            Some(TaskStatus::Stopped)
        } else {
            None
        }
    }
}

/// The first item of the transaction: replaces the task metadata record of
/// one bot. The store raises the record's version by one as it does so.
#[derive(Debug)]
pub struct MetadataPut {
    pub user_id: String,
    pub bot_id: String,
    pub status: TaskStatus,
    pub task_id: String,
    pub updated_at: i64,
}

/// The second item of the transaction: sets the status field of the bot's own
/// record, on condition that the bot's record exists.
#[derive(Debug)]
pub struct BotStatusUpdate {
    pub user_id: String,
    pub bot_id: String,
    pub status: TaskStatus,
}

/// A metadata put as plain text and values.
pub struct MetadataPutView {
    pub user_id: Seq<char>,
    pub bot_id: Seq<char>,
    pub status: TaskStatus,
    pub task_id: Seq<char>,
    pub updated_at: i64,
}

/// A status update as plain text and values.
pub struct BotStatusUpdateView {
    pub user_id: Seq<char>,
    pub bot_id: Seq<char>,
    pub status: TaskStatus,
}

impl View for MetadataPut {
    type V = MetadataPutView;

    open spec fn view(&self) -> MetadataPutView {
        MetadataPutView {
            user_id: self.user_id@,
            bot_id: self.bot_id@,
            status: self.status,
            task_id: self.task_id@,
            updated_at: self.updated_at,
        }
    }
}

impl View for BotStatusUpdate {
    type V = BotStatusUpdateView;

    open spec fn view(&self) -> BotStatusUpdateView {
        BotStatusUpdateView { user_id: self.user_id@, bot_id: self.bot_id@, status: self.status }
    }
}

/// The two items of a transaction as plain text and values.
pub struct TransactionWriteView {
    pub put: MetadataPutView,
    pub update: BotStatusUpdateView,
}

impl TransactionWriteView {
    /// Both items speak of the same bot and give it the same status.
    pub open spec fn coherent(self) -> bool {
        &&& self.put.user_id == self.update.user_id
        &&& self.put.bot_id == self.update.bot_id
        &&& self.put.status == self.update.status
    }
}

/// One transactional write of two items. It can only be made by
/// `save_task_metadata`, so its two items always agree.
#[derive(Debug)]
pub struct TransactionWrite {
    put: MetadataPut,
    update: BotStatusUpdate,
}

impl View for TransactionWrite {
    type V = TransactionWriteView;

    closed spec fn view(&self) -> TransactionWriteView {
        TransactionWriteView { put: self.put@, update: self.update@ }
    }
}

/// How the store answered a transaction.
#[derive(Clone, Copy, Debug, PartialEq, Eq, Structural)]
pub enum StoreReply {
    /// Both items were written.
    Committed,
    /// Neither item was written.
    Rejected,
}

/// Why the record was not written.
#[derive(Clone, Copy, Debug, PartialEq, Eq, Structural)]
pub enum StoreError {
    TransactionFailed,
}

/// The transaction that records `task_id` as the current task of `owner`'s
/// bot, with `status` on both the metadata record and the bot's own record.
pub open spec fn save_plan(
    owner: OwnerIdentityView,
    status: TaskStatus,
    task_id: Seq<char>,
    timestamp: i64,
) -> TransactionWriteView {
    TransactionWriteView {
        put: MetadataPutView {
            user_id: owner.user_id,
            bot_id: owner.bot_id,
            status,
            task_id,
            updated_at: timestamp,
        },
        update: BotStatusUpdateView { user_id: owner.user_id, bot_id: owner.bot_id, status },
    }
}

/// What a store's answer means for the caller.
pub open spec fn store_outcome(reply: StoreReply) -> Result<(), StoreError> {
    match reply {
        StoreReply::Committed => Ok(()),
        StoreReply::Rejected => Err(StoreError::TransactionFailed),
    }
}

impl TransactionWrite {
    #[verifier::type_invariant]
    spec fn agrees(self) -> bool {
        self@.coherent()
    }

    /// The item that replaces the metadata record. It names the bot and the
    /// status that the other item names.
    pub fn put(&self) -> (item: &MetadataPut)
        ensures
            item@ == self@.put,
            self@.coherent(),
    {
        proof {
            use_type_invariant(self);
        }
        &self.put
    }

    /// The item that sets the bot's status field. It names the bot and the
    /// status that the other item names.
    pub fn update(&self) -> (item: &BotStatusUpdate)
        ensures
            item@ == self@.update,
            self@.coherent(),
    {
        proof {
            use_type_invariant(self);
        }
        &self.update
    }
}

/// Plans the write of a task metadata record together with the status field
/// of the bot's own record, as one transaction.
pub fn save_task_metadata(
    owner: &OwnerIdentity,
    status: TaskStatus,
    task_id: &str,
    timestamp: i64,
) -> (write: TransactionWrite)
    ensures
        write@ == save_plan(owner@, status, task_id@, timestamp),
        write@.coherent(),
{
    TransactionWrite {
        put: MetadataPut {
            user_id: owner.user_id.clone(),
            bot_id: owner.bot_id.clone(),
            status,
            task_id: task_id.to_owned(),
            updated_at: timestamp,
        },
        update: BotStatusUpdate {
            user_id: owner.user_id.clone(),
            bot_id: owner.bot_id.clone(),
            status,
        },
    }
}

/// Reads the store's answer: a transaction that did not commit is reported,
/// and not tried again.
pub fn store_result(reply: StoreReply) -> (result: Result<(), StoreError>)
    ensures
        result == store_outcome(reply),
{
    match reply {
        StoreReply::Committed => Ok(()),
        StoreReply::Rejected => Err(StoreError::TransactionFailed),
    }
}

} // verus!
