//! A store that keeps the bot's status and its task metadata record in one
//! row, in memory.
//!
//! It takes the place of a backing store that has no transaction of several
//! items: with both in one row, they cannot be seen apart. It answers a
//! transaction as the backing store does, so it also serves wherever the
//! reactor is run without one.

use crate::store::{StoreError, StoreReply, TaskStatus, TransactionWrite, TransactionWriteView};
use crate::text::text_eq;
use vstd::prelude::*;

verus! {

/// The durable record of the task that currently stands for a bot.
#[derive(Debug)]
pub struct TaskMetadataRecord {
    pub status: TaskStatus,
    pub task_id: String,
    /// Unix time in seconds of the last write.
    pub updated_at: i64,
    /// Counts the writes of this record, from 1.
    pub version: u64,
}

/// A record as plain text and values.
pub struct RecordView {
    pub status: TaskStatus,
    pub task_id: Seq<char>,
    pub updated_at: i64,
    pub version: u64,
}

impl View for TaskMetadataRecord {
    type V = RecordView;

    open spec fn view(&self) -> RecordView {
        RecordView {
            status: self.status,
            task_id: self.task_id@,
            updated_at: self.updated_at,
            version: self.version,
        }
    }
}

impl Clone for TaskMetadataRecord {
    fn clone(&self) -> (copy: Self)
        ensures
            copy@ == self@,
    {
        TaskMetadataRecord {
            status: self.status,
            task_id: self.task_id.clone(),
            updated_at: self.updated_at,
            version: self.version,
        }
    }
}

/// What the store holds for one bot: the status field of the bot's own
/// record, and the task metadata record once there has been a write.
pub struct RowView {
    pub status: TaskStatus,
    pub metadata: Option<RecordView>,
}

/// A bot is known by its user and its own id.
pub type BotKey = (Seq<char>, Seq<char>);

/// The store as a map from bots to rows.
pub type TableView = Map<BotKey, RowView>;

impl RowView {
    /// The record, where there is one, bears the status of the bot.
    pub open spec fn together(self) -> bool {
        self.metadata matches Some(record) ==> record.status == self.status
    }
}

/// In every row the record and the bot's status agree.
pub open spec fn all_together(table: TableView) -> bool {
    forall|key: BotKey| table.contains_key(key) ==> (#[trigger] table[key]).together()
}

/// The bot that a transaction writes.
pub open spec fn written_key(write: TransactionWriteView) -> BotKey {
    (write.update.user_id, write.update.bot_id)
}

/// The version that the next write of a record gives it.
pub open spec fn next_version(previous: Option<RecordView>) -> int {
    match previous {
        Some(record) => record.version + 1,
        None => 1,
    }
}

/// A transaction commits where its two items agree, the bot's own record
/// exists, and the version can still be raised.
pub open spec fn commits(table: TableView, write: TransactionWriteView) -> bool {
    &&& write.coherent()
    &&& table.contains_key(written_key(write))
    &&& next_version(table[written_key(write)].metadata) <= u64::MAX
}

/// The row that a committed transaction leaves.
pub open spec fn written_row(previous: RowView, write: TransactionWriteView) -> RowView {
    RowView {
        status: write.update.status,
        metadata: Some(
            RecordView {
                status: write.put.status,
                task_id: write.put.task_id,
                updated_at: write.put.updated_at,
                version: next_version(previous.metadata) as u64,
            },
        ),
    }
}

/// The store after a transaction: both items written, or nothing changed.
pub open spec fn after_commit(table: TableView, write: TransactionWriteView) -> TableView {
    if commits(table, write) {
        table.insert(written_key(write), written_row(table[written_key(write)], write))
    } else {
        table
    }
}

/// A transaction never parts the record from the bot's status: where they
/// agree in every row before, they agree in every row after, whether the
/// transaction commits or not.
pub proof fn lemma_commit_keeps_together(table: TableView, write: TransactionWriteView)
    requires
        all_together(table),
    ensures
        all_together(after_commit(table, write)),
{
    if commits(table, write) {
        let after = after_commit(table, write);
        assert forall|key: BotKey| after.contains_key(key) implies (#[trigger] after[key]).together() by {
            if key != written_key(write) {
                assert(table.contains_key(key));
                assert(after[key] == table[key]);
            }
        }
    }
}

/// A committed transaction replaces the record of its bot and leaves every
/// other row as it was; it adds no row and removes none. The record's version
/// rises by exactly one, from 0 where there was no record.
pub proof fn lemma_commit_overwrites_one_row(table: TableView, write: TransactionWriteView)
    requires
        commits(table, write),
    ensures
        after_commit(table, write).dom() == table.dom(),
        forall|key: BotKey|
            key != written_key(write) ==> after_commit(table, write)[key] == table[key],
        after_commit(table, write)[written_key(write)].status == write.put.status,
        after_commit(table, write)[written_key(write)].metadata matches Some(record) && {
            &&& record.status == write.put.status
            &&& record.task_id == write.put.task_id
            &&& record.updated_at == write.put.updated_at
            &&& record.version == match table[written_key(write)].metadata {
                Some(previous) => previous.version + 1,
                None => 1,
            }
        },
{
    assert(after_commit(table, write).dom() =~= table.dom());
}

/// A transaction that does not commit changes nothing.
pub proof fn lemma_failed_commit_changes_nothing(table: TableView, write: TransactionWriteView)
    requires
        !commits(table, write),
    ensures
        after_commit(table, write) == table,
{
}

struct BotRow {
    user_id: String,
    bot_id: String,
    status: TaskStatus,
    metadata: Option<TaskMetadataRecord>,
}

impl BotRow {
    spec fn key(self) -> BotKey {
        (self.user_id@, self.bot_id@)
    }

    spec fn content(self) -> RowView {
        RowView {
            status: self.status,
            metadata: match self.metadata {
                Some(record) => Some(record@),
                None => None,
            },
        }
    }
}

spec fn holds(rows: Seq<BotRow>, key: BotKey) -> bool {
    exists|i: int| 0 <= i < rows.len() && #[trigger] rows[i].key() == key
}

spec fn place(rows: Seq<BotRow>, key: BotKey) -> int {
    choose|i: int| 0 <= i < rows.len() && #[trigger] rows[i].key() == key
}

spec fn table_of(rows: Seq<BotRow>) -> TableView {
    Map::new(|key: BotKey| holds(rows, key), |key: BotKey| rows[place(rows, key)].content())
}

spec fn distinct(rows: Seq<BotRow>) -> bool {
    forall|i: int, j: int|
        0 <= i < j < rows.len() ==> #[trigger] rows[i].key() != #[trigger] rows[j].key()
}

proof fn lemma_row_in_table(rows: Seq<BotRow>, i: int)
    requires
        distinct(rows),
        0 <= i < rows.len(),
    ensures
        table_of(rows).contains_key(rows[i].key()),
        table_of(rows)[rows[i].key()] == rows[i].content(),
{
    let key = rows[i].key();
    assert(holds(rows, key));
    let p = place(rows, key);
    if p < i {
        assert(rows[p].key() != rows[i].key());
    } else if i < p {
        assert(rows[i].key() != rows[p].key());
    }
}

proof fn lemma_push_row(rows: Seq<BotRow>, row: BotRow)
    requires
        distinct(rows),
        !holds(rows, row.key()),
    ensures
        distinct(rows.push(row)),
        table_of(rows.push(row)) == table_of(rows).insert(row.key(), row.content()),
{
    let grown = rows.push(row);
    assert forall|i: int, j: int| 0 <= i < j < grown.len() implies #[trigger] grown[i].key()
        != #[trigger] grown[j].key() by {
        if j == rows.len() {
            assert(rows[i].key() != row.key());
        } else {
            assert(rows[i].key() != rows[j].key());
        }
    }
    let want = table_of(rows).insert(row.key(), row.content());
    assert forall|key: BotKey| table_of(grown).contains_key(key) <==> want.contains_key(key) by {
        if holds(grown, key) {
            let i = place(grown, key);
            if i < rows.len() {
                assert(rows[i].key() == key);
            }
        }
        if holds(rows, key) {
            let i = place(rows, key);
            assert(grown[i].key() == key);
        }
        if key == row.key() {
            assert(grown[rows.len() as int].key() == key);
        }
    }
    assert forall|key: BotKey| table_of(grown).contains_key(key) implies table_of(grown)[key]
        == want[key] by {
        let i = place(grown, key);
        lemma_row_in_table(grown, i);
        if i < rows.len() {
            lemma_row_in_table(rows, i);
        }
    }
    assert(table_of(grown) =~= want);
}

proof fn lemma_replace_row(rows: Seq<BotRow>, at: int, row: BotRow)
    requires
        distinct(rows),
        0 <= at < rows.len(),
        row.key() == rows[at].key(),
    ensures
        distinct(rows.update(at, row)),
        table_of(rows.update(at, row)) == table_of(rows).insert(row.key(), row.content()),
{
    let changed = rows.update(at, row);
    assert forall|i: int, j: int| 0 <= i < j < changed.len() implies #[trigger] changed[i].key()
        != #[trigger] changed[j].key() by {
        assert(rows[i].key() != rows[j].key());
    }
    let want = table_of(rows).insert(row.key(), row.content());
    assert forall|key: BotKey| table_of(changed).contains_key(key) <==> want.contains_key(key) by {
        if holds(changed, key) {
            let i = place(changed, key);
            assert(rows[i].key() == key);
        }
        if holds(rows, key) {
            let i = place(rows, key);
            assert(changed[i].key() == key);
        }
    }
    assert forall|key: BotKey| table_of(changed).contains_key(key) implies table_of(changed)[key]
        == want[key] by {
        let i = place(changed, key);
        lemma_row_in_table(changed, i);
        lemma_row_in_table(rows, i);
    }
    assert(table_of(changed) =~= want);
}

/// The store. Whatever is done to it, each bot has one row, and in each row
/// the record and the bot's status agree.
pub struct InMemoryStore {
    rows: Vec<BotRow>,
}

impl View for InMemoryStore {
    type V = TableView;

    closed spec fn view(&self) -> TableView {
        table_of(self.rows@)
    }
}

impl InMemoryStore {
    #[verifier::type_invariant]
    spec fn sound(self) -> bool {
        &&& distinct(self.rows@)
        &&& forall|i: int| 0 <= i < self.rows@.len() ==> (#[trigger] self.rows@[i]).content().together()
    }

    /// A store that knows no bot.
    pub fn new() -> (store: Self)
        ensures
            store@ == Map::<BotKey, RowView>::empty(),
    {
        let store = InMemoryStore { rows: Vec::new() };
        assert(store@ =~= Map::<BotKey, RowView>::empty());
        store
    }

    fn find(&self, user_id: &str, bot_id: &str) -> (at: Option<usize>)
        ensures
            match at {
                Some(i) => i < self.rows@.len() && self.rows@[i as int].key() == (
                    user_id@,
                    bot_id@,
                ),
                None => !holds(self.rows@, (user_id@, bot_id@)),
            },
    {
        let mut i: usize = 0;
        while i < self.rows.len()
            invariant
                i <= self.rows@.len(),
                forall|k: int| 0 <= k < i ==> (#[trigger] self.rows@[k]).key() != (user_id@, bot_id@),
            decreases self.rows@.len() - i,
        {
            let row = &self.rows[i];
            if text_eq(row.user_id.as_str(), user_id) && text_eq(row.bot_id.as_str(), bot_id) {
                return Some(i);
            }
            i += 1;
        }
        None
    }

    /// Makes the bot's own record, with the status `Stopped` and no task
    /// metadata record, unless the bot is known already. Says whether it made
    /// one.
    pub fn register_bot(&mut self, user_id: &str, bot_id: &str) -> (added: bool)
        ensures
            added == !old(self)@.contains_key((user_id@, bot_id@)),
            added ==> final(self)@ == old(self)@.insert(
                (user_id@, bot_id@),
                RowView { status: TaskStatus::Stopped, metadata: None },
            ),
            !added ==> final(self)@ == old(self)@,
    {
        proof {
            use_type_invariant(&*self);
        }
        match self.find(user_id, bot_id) {
            Some(i) => {
                proof {
                    lemma_row_in_table(self.rows@, i as int);
                }
                false
            },
            None => {
                let row = BotRow {
                    user_id: user_id.to_owned(),
                    bot_id: bot_id.to_owned(),
                    status: TaskStatus::Stopped,
                    metadata: None,
                };
                proof {
                    lemma_push_row(self.rows@, row);
                }
                // The rows change outside the store and come back whole.
                let mut rows: Vec<BotRow> = Vec::new();
                std::mem::swap(&mut self.rows, &mut rows);
                rows.push(row);
                std::mem::swap(&mut self.rows, &mut rows);
                true
            },
        }
    }

    /// Carries out one transaction: both of its items, or neither.
    pub fn commit(&mut self, write: &TransactionWrite) -> (result: Result<(), StoreError>)
        ensures
            result is Ok <==> commits(old(self)@, write@),
            result matches Err(e) ==> e == StoreError::TransactionFailed,
            final(self)@ == after_commit(old(self)@, write@),
    {
        proof {
            use_type_invariant(&*self);
        }
        let put = write.put();
        let update = write.update();
        let at = match self.find(update.user_id.as_str(), update.bot_id.as_str()) {
            Some(at) => at,
            None => { return Err(StoreError::TransactionFailed); },
        };
        proof {
            lemma_row_in_table(self.rows@, at as int);
        }
        let previous = match &self.rows[at].metadata {
            Some(record) => record.version,
            None => 0,
        };
        if previous == u64::MAX {
            return Err(StoreError::TransactionFailed);
        }
        let row = BotRow {
            user_id: update.user_id.clone(),
            bot_id: update.bot_id.clone(),
            status: update.status,
            metadata: Some(
                TaskMetadataRecord {
                    status: put.status,
                    task_id: put.task_id.clone(),
                    updated_at: put.updated_at,
                    version: previous + 1,
                },
            ),
        };
        proof {
            lemma_replace_row(self.rows@, at as int, row);
            assert(row.content() == written_row(old(self)@[written_key(write@)], write@));
        }
        // The rows change outside the store and come back whole.
        let mut rows: Vec<BotRow> = Vec::new();
        std::mem::swap(&mut self.rows, &mut rows);
        rows.set(at, row);
        std::mem::swap(&mut self.rows, &mut rows);
        Ok(())
    }

    /// Carries out one transaction and answers as a backing store does.
    pub fn answer(&mut self, write: &TransactionWrite) -> (reply: StoreReply)
        ensures
            reply == StoreReply::Committed <==> commits(old(self)@, write@),
            reply == StoreReply::Rejected <==> !commits(old(self)@, write@),
            final(self)@ == after_commit(old(self)@, write@),
    {
        match self.commit(write) {
            Ok(_) => StoreReply::Committed,
            Err(_) => StoreReply::Rejected,
        }
    }

    /// The status field of the bot's own record, where the bot is known.
    pub fn status_of(&self, user_id: &str, bot_id: &str) -> (status: Option<TaskStatus>)
        ensures
            status is Some <==> self@.contains_key((user_id@, bot_id@)),
            status matches Some(s) ==> s == self@[(user_id@, bot_id@)].status,
    {
        proof {
            use_type_invariant(self);
        }
        match self.find(user_id, bot_id) {
            Some(i) => {
                proof {
                    lemma_row_in_table(self.rows@, i as int);
                }
                Some(self.rows[i].status)
            },
            None => None,
        }
    }

    /// The bot's task metadata record, where the bot is known and a record
    /// has been written. Its status is the one that `status_of` gives.
    pub fn metadata_of(&self, user_id: &str, bot_id: &str) -> (record: Option<TaskMetadataRecord>)
        ensures
            match record {
                Some(r) => self@.contains_key((user_id@, bot_id@)) && self@[(
                    user_id@,
                    bot_id@,
                )].metadata == Some(r@) && r.status == self@[(user_id@, bot_id@)].status,
                None => !self@.contains_key((user_id@, bot_id@)) || self@[(
                    user_id@,
                    bot_id@,
                )].metadata is None,
            },
    {
        proof {
            use_type_invariant(self);
        }
        match self.find(user_id, bot_id) {
            Some(i) => {
                proof {
                    lemma_row_in_table(self.rows@, i as int);
                }
                match &self.rows[i].metadata {
                    Some(record) => Some(record.clone()),
                    None => None,
                }
            },
            None => None,
        }
    }

    /// How many bots the store knows.
    pub fn len(&self) -> (n: usize)
        ensures
            n == self@.dom().len(),
            self@.dom().finite(),
    {
        proof {
            use_type_invariant(self);
            lemma_table_size(self.rows@);
        }
        self.rows.len()
    }
}

proof fn lemma_table_size(rows: Seq<BotRow>)
    requires
        distinct(rows),
    ensures
        table_of(rows).dom().finite(),
        table_of(rows).dom().len() == rows.len(),
    decreases rows.len(),
{
    if rows.len() == 0 {
        assert(table_of(rows).dom() =~= Set::<BotKey>::empty());
    } else {
        let front = rows.drop_last();
        assert forall|i: int, j: int| 0 <= i < j < front.len() implies #[trigger] front[i].key()
            != #[trigger] front[j].key() by {
            assert(rows[i].key() != rows[j].key());
        }
        lemma_table_size(front);
        assert(!holds(front, rows.last().key())) by {
            if holds(front, rows.last().key()) {
                let i = place(front, rows.last().key());
                assert(rows[i].key() != rows[rows.len() - 1].key());
            }
        }
        lemma_push_row(front, rows.last());
        assert(front.push(rows.last()) =~= rows);
        assert(table_of(rows).dom() == table_of(front).dom().insert(rows.last().key()));
        assert(!table_of(front).dom().contains(rows.last().key()));
    }
}

} // verus!
