//! The reminder store: every record that was created and not yet deleted,
//! keyed by its identifier.

use vstd::prelude::*;
use crate::ident::is_identifier;
use crate::models::{clone_reminders, Reminder, ReminderView};

verus! {

/// Why the store refused a write.
#[derive(Clone, Copy, Debug, PartialEq, Eq, Structural)]
pub enum StoreError {
    /// A record with the same identifier is already stored.
    DuplicateId,
}

impl StoreError {
    /// The text under which the failure is reported.
    pub fn message(&self) -> (text: String)
        ensures
            text@ == duplicate_id_message(),
    {
        "a reminder with this id is already stored".to_owned()
    }
}

/// The text that reports a duplicate identifier.
pub open spec fn duplicate_id_message() -> Seq<char> {
    "a reminder with this id is already stored"@
}

/// No two records share an identifier.
pub open spec fn distinct_ids(records: Seq<ReminderView>) -> bool {
    forall|i: int, j: int| 0 <= i < j < records.len() ==> records[i].id != records[j].id
}

/// Some record has the identifier.
pub open spec fn holds_id(records: Seq<ReminderView>, id: Seq<char>) -> bool {
    exists|i: int| 0 <= i < records.len() && #[trigger] records[i].id == id
}

/// What a write does to the records: refused where the identifier is taken,
/// appended otherwise.
pub open spec fn inserted(records: Seq<ReminderView>, reminder: ReminderView) -> Result<
    Seq<ReminderView>,
    StoreError,
> {
    if holds_id(records, reminder.id) {
        Err(StoreError::DuplicateId)
    } else {
        Ok(records.push(reminder))
    }
}

/// What deleting everything leaves, and the number of records it removed.
pub open spec fn deleted(records: Seq<ReminderView>) -> (Seq<ReminderView>, nat) {
    (Seq::empty(), records.len())
}

/// Deleting everything leaves nothing to list, and deleting once more
/// removes nothing and again leaves nothing.
pub proof fn lemma_delete_all_idempotent(records: Seq<ReminderView>)
    ensures
        deleted(records).0 == Seq::<ReminderView>::empty(),
        deleted(deleted(records).0) == (Seq::<ReminderView>::empty(), 0nat),
{
}

/// A write that is accepted keeps the identifiers unique, appends the record
/// after those that were there, and changes none of them.
pub proof fn lemma_insert_appends(records: Seq<ReminderView>, reminder: ReminderView)
    requires
        distinct_ids(records),
        inserted(records, reminder) is Ok,
    ensures
        distinct_ids(inserted(records, reminder)->Ok_0),
        inserted(records, reminder)->Ok_0.len() == records.len() + 1,
        inserted(records, reminder)->Ok_0.last() == reminder,
        forall|i: int| 0 <= i < records.len() ==> inserted(records, reminder)->Ok_0[i] == records[i],
{
    let after = records.push(reminder);
    assert forall|i: int, j: int| 0 <= i < j < after.len() implies after[i].id != after[j].id by {
        if j == records.len() {
            assert(records[i].id != reminder.id);
        }
    }
}

/// A store that keeps its records in memory, in the order of their creation.
pub struct ReminderStore {
    records: Vec<Reminder>,
}

impl View for ReminderStore {
    type V = Seq<ReminderView>;

    closed spec fn view(&self) -> Seq<ReminderView> {
        self.records.deep_view()
    }
}

impl ReminderStore {
    /// The store's invariant: identifiers are unique across its records.
    /// `new` establishes it and every operation keeps it.
    pub open spec fn wf(&self) -> bool {
        distinct_ids(self@)
    }

    /// A store without records.
    pub fn new() -> (store: Self)
        ensures
            store.wf(),
            store@ == Seq::<ReminderView>::empty(),
    {
        let store = ReminderStore { records: Vec::new() };
        assert(store@ =~= Seq::<ReminderView>::empty());
        store
    }

    /// The number of records.
    pub fn len(&self) -> (count: usize)
        ensures
            count == self@.len(),
    {
        self.records.len()
    }

    /// Whether a record with the identifier is stored.
    pub fn contains_id(&self, id: &String) -> (found: bool)
        ensures
            found == holds_id(self@, id@),
    {
        let mut i: usize = 0;
        while i < self.records.len()
            invariant
                i <= self.records.len(),
                forall|k: int| 0 <= k < i ==> self@[k].id != id@,
            decreases self.records.len() - i,
        {
            if self.records[i].id == *id {
                assert(self@[i as int].id == id@);
                return true;
            }
            i += 1;
        }
        false
    }

    /// Stores a record under the identifier that it carries. The write is
    /// refused, and the store left as it was, exactly where that identifier
    /// is taken.
    pub fn insert(&mut self, reminder: Reminder) -> (outcome: Result<(), StoreError>)
        requires
            old(self).wf(),
        ensures
            final(self).wf(),
            match inserted(old(self)@, reminder@) {
                Ok(records) => outcome is Ok && final(self)@ == records,
                Err(error) => outcome == Err::<(), StoreError>(error) && final(self)@ == old(self)@,
            },
    {
        if self.contains_id(&reminder.id) {
            return Err(StoreError::DuplicateId);
        }
        let ghost before = self@;
        self.records.push(reminder);
        assert(self@ =~= before.push(reminder@));
        Ok(())
    }

    /// Creates a reminder: draws an identifier, stores the record and
    /// returns it. Message and due time are stored verbatim. The write is
    /// refused where the identifier drawn is already taken, which cannot
    /// happen in an empty store.
    pub fn create(&mut self, message: String, remind_at: String) -> (outcome: Result<
        Reminder,
        StoreError,
    >)
        requires
            old(self).wf(),
        ensures
            final(self).wf(),
            match outcome {
                Ok(reminder) => {
                    &&& is_identifier(reminder.id@)
                    &&& reminder.id@.len() > 0
                    &&& reminder.message@ == message@
                    &&& reminder.remind_at@ == remind_at@
                    &&& !holds_id(old(self)@, reminder.id@)
                    &&& final(self)@ == old(self)@.push(reminder@)
                },
                Err(error) => error == StoreError::DuplicateId && final(self)@ == old(self)@,
            },
            old(self)@.len() == 0 ==> outcome is Ok,
    {
        let reminder = Reminder::new(message, remind_at);
        let copy = reminder.clone();
        match self.insert(reminder) {
            Ok(()) => Ok(copy),
            Err(error) => Err(error),
        }
    }

    /// Every record, in the store's order.
    pub fn list_all(&self) -> (reminders: Vec<Reminder>)
        ensures
            reminders.deep_view() == self@,
    {
        clone_reminders(&self.records)
    }

    /// Removes every record and says how many there were.
    pub fn delete_all(&mut self) -> (count: usize)
        ensures
            final(self).wf(),
            (final(self)@, count as nat) == deleted(old(self)@),
    {
        let count: usize = self.records.len();
        self.records.clear();
        assert(self@ =~= Seq::<ReminderView>::empty());
        count
    }
}

} // verus!
