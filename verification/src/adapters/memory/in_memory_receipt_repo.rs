//! Receipts kept in memory.

use crate::application::entities::receipt_entity::ReceiptEntity;
use crate::application::errors::AppError;
use crate::application::ports::receipt_repository::{ReceiptRecord, ReceiptRepository};
use crate::application::types::{ImageId, ReceiptId};
use vstd::prelude::*;

verus! {

pub open spec fn receipt_record_of(e: ReceiptEntity) -> ReceiptRecord {
    ReceiptRecord { image_id: e.image_id.0, json: e.json@ }
}

/// Receipts kept in a list in memory, with ids counting up from 1.
pub struct InMemoryReceiptRepo {
    entries: Vec<ReceiptEntity>,
    next_id: i32,
    model: Ghost<Map<i32, ReceiptRecord>>,
}

impl InMemoryReceiptRepo {
    /// The last id handed out, 0 before the first one.
    pub closed spec fn last_id(&self) -> i32 {
        self.next_id
    }

    /// An empty store.
    pub fn new() -> (r: Self)
        ensures
            r.well_formed(),
            r.last_id() == 0,
            r.room() == i32::MAX as nat,
            r.receipts() == Map::<i32, ReceiptRecord>::empty(),
    {
        InMemoryReceiptRepo { entries: Vec::new(), next_id: 0, model: Ghost(Map::empty()) }
    }
}

impl ReceiptRepository for InMemoryReceiptRepo {
    closed spec fn receipts(&self) -> Map<i32, ReceiptRecord> {
        self.model@
    }

    /// The ids not handed out yet.
    closed spec fn room(&self) -> nat {
        (i32::MAX - self.next_id) as nat
    }

    closed spec fn well_formed(&self) -> bool {
        &&& 0 <= self.next_id
        &&& forall|i: int|
            0 <= i < self.entries@.len() ==> {
                &&& self.model@.contains_key((#[trigger] self.entries@[i]).id.0)
                &&& self.model@[self.entries@[i].id.0] == receipt_record_of(self.entries@[i])
            }
        &&& forall|k: i32|
            #[trigger] self.model@.contains_key(k) ==> {
                &&& 0 < k <= self.next_id
                &&& exists|i: int|
                    0 <= i < self.entries@.len() && (#[trigger] self.entries@[i]).id.0 == k
            }
        &&& forall|i: int, j: int|
            0 <= i < self.entries@.len() && 0 <= j < self.entries@.len() && i != j ==> (
            #[trigger] self.entries@[i]).id != (#[trigger] self.entries@[j]).id
    }

    fn create(&mut self, image_id: &ImageId, json: &str) -> (r: Result<ReceiptId, AppError>)
        ensures
            (r is Err) == (old(self).last_id() == i32::MAX),
            r matches Ok(id) ==> id.0 == old(self).last_id() + 1 && final(self).last_id() == id.0,
            r is Err ==> final(self).last_id() == old(self).last_id(),
    {
        if self.next_id == i32::MAX {
            return Err(AppError::SQL("receipt id space exhausted".to_owned()));
        }
        let id = self.next_id + 1;
        let entry = ReceiptEntity { id: ReceiptId(id), image_id: ImageId(image_id.0), json: json.to_owned() };
        let ghost before = self.entries@;
        self.entries.push(entry);
        self.next_id = id;
        proof {
            self.model = Ghost(self.model@.insert(id, receipt_record_of(entry)));
            assert forall|k: i32| #[trigger] self.model@.contains_key(k) implies {
                &&& 0 < k <= self.next_id
                &&& exists|j: int|
                    0 <= j < self.entries@.len() && (#[trigger] self.entries@[j]).id.0 == k
            } by {
                if k == id {
                    assert(self.entries@[self.entries@.len() - 1].id.0 == k);
                } else {
                    let j0 = choose|j: int| 0 <= j < before.len() && (#[trigger] before[j]).id.0 == k;
                    assert(self.entries@[j0].id.0 == k);
                }
            }
        }
        Ok(ReceiptId(id))
    }
}

} // verus!
