//! Images kept in memory.

use crate::application::entities::image_entity::ImageEntity;
use crate::application::errors::AppError;
use crate::application::ports::image_repository::{ImageRecord, ImageRepository};
use crate::application::types::{ImageId, UserId};
use vstd::prelude::*;

verus! {

pub open spec fn image_record_of(e: ImageEntity) -> ImageRecord {
    ImageRecord {
        user_id: e.user_id.0,
        file_name: e.file_name@,
        content_type: e.content_type@,
        data_base64: e.data_base64@,
    }
}

/// Images kept in a list in memory, with ids counting up from 1.
pub struct InMemoryImageRepo {
    entries: Vec<ImageEntity>,
    next_id: i32,
    model: Ghost<Map<i32, ImageRecord>>,
}

impl InMemoryImageRepo {
    /// The last id handed out, 0 before the first one.
    pub closed spec fn last_id(&self) -> i32 {
        self.next_id
    }

    /// An empty store.
    pub fn new() -> (r: Self)
        ensures
            r.well_formed(),
            r.last_id() == 0,
            r.room() == i32::MAX as nat,
            r.dependable(),
            r.images() == Map::<i32, ImageRecord>::empty(),
    {
        InMemoryImageRepo { entries: Vec::new(), next_id: 0, model: Ghost(Map::empty()) }
    }
}

impl ImageRepository for InMemoryImageRepo {
    closed spec fn images(&self) -> Map<i32, ImageRecord> {
        self.model@
    }

    /// A store in memory never fails a lookup.
    open spec fn dependable(&self) -> bool {
        true
    }

    /// The ids not handed out yet.
    closed spec fn room(&self) -> nat {
        (i32::MAX - self.next_id) as nat
    }

    closed spec fn well_formed(&self) -> bool {
        &&& 0 <= self.next_id
        &&& forall|i: int|
            0 <= i < self.entries@.len() ==> {
                &&& self.model@.contains_key((#[trigger] self.entries@[i]).id.0)
                &&& self.model@[self.entries@[i].id.0] == image_record_of(self.entries@[i])
            }
        &&& forall|k: i32|
            #[trigger] self.model@.contains_key(k) ==> {
                &&& 0 < k <= self.next_id
                &&& exists|i: int|
                    0 <= i < self.entries@.len() && (#[trigger] self.entries@[i]).id.0 == k
            }
        &&& forall|i: int, j: int|
            0 <= i < self.entries@.len() && 0 <= j < self.entries@.len() && i != j ==> (
            #[trigger] self.entries@[i]).id != (#[trigger] self.entries@[j]).id
    }

    fn create_image(
        &mut self,
        user_id: &UserId,
        file_name: &str,
        content_type: &str,
        data_b64: &str,
    ) -> (r: Result<ImageId, AppError>)
        ensures
            (r is Err) == (old(self).last_id() == i32::MAX),
            r matches Ok(id) ==> id.0 == old(self).last_id() + 1 && final(self).last_id() == id.0,
            r is Err ==> final(self).last_id() == old(self).last_id(),
    {
        if self.next_id == i32::MAX {
            return Err(AppError::SQL("image id space exhausted".to_owned()));
        }
        let id = self.next_id + 1;
        let entry = ImageEntity {
            id: ImageId(id),
            user_id: UserId(user_id.0),
            file_name: file_name.to_owned(),
            content_type: content_type.to_owned(),
            data_base64: data_b64.to_owned(),
        };
        let ghost before = self.entries@;
        self.entries.push(entry);
        self.next_id = id;
        proof {
            self.model = Ghost(self.model@.insert(id, image_record_of(entry)));
            {
                assert forall|k: i32| #[trigger] self.model@.contains_key(k) implies {
                    &&& 0 < k <= self.next_id
                    &&& exists|j: int|
                        0 <= j < self.entries@.len() && (#[trigger] self.entries@[j]).id.0 == k
                } by {
                    if k == id {
                        assert(self.entries@[self.entries@.len() - 1].id.0 == k);
                    } else {
                        let j0 = choose|j: int|
                            0 <= j < before.len() && (#[trigger] before[j]).id.0 == k;
                        assert(self.entries@[j0].id.0 == k);
                    }
                }
            }
        }
        Ok(ImageId(id))
    }

    fn find_image_by_user_id(&self, user_id: &UserId) -> (r: Result<Vec<ImageEntity>, AppError>)
        ensures
            r is Ok,
    {
        let mut found: Vec<ImageEntity> = Vec::new();
        let ghost mut idx: Seq<int> = Seq::empty();
        let mut i: usize = 0;
        while i < self.entries.len()
            invariant
                self.well_formed(),
                i <= self.entries@.len(),
                idx.len() == found@.len(),
                forall|k: int|
                    0 <= k < idx.len() ==> 0 <= #[trigger] idx[k] < i && found@[k]
                        == self.entries@[idx[k]],
                forall|a: int, b: int| 0 <= a < b < idx.len() ==> #[trigger] idx[a] < #[trigger] idx[b],
                forall|k: int| 0 <= k < found@.len() ==> (#[trigger] found@[k]).user_id.0 == user_id.0,
                forall|j: int|
                    0 <= j < i && (#[trigger] self.entries@[j]).user_id.0 == user_id.0 ==> exists|k: int|
                        0 <= k < idx.len() && idx[k] == j,
            decreases self.entries@.len() - i,
        {
            let e = &self.entries[i];
            if e.user_id.0 == user_id.0 {
                let copy = ImageEntity {
                    id: ImageId(e.id.0),
                    user_id: UserId(e.user_id.0),
                    file_name: e.file_name.clone(),
                    content_type: e.content_type.clone(),
                    data_base64: e.data_base64.clone(),
                };
                let ghost prev_idx = idx;
                found.push(copy);
                proof {
                    idx = idx.push(i as int);
                    assert forall|j: int|
                        0 <= j < i + 1 && (#[trigger] self.entries@[j]).user_id.0
                            == user_id.0 implies exists|k: int| 0 <= k < idx.len() && idx[k] == j by {
                        if j < i {
                            let k0 = choose|k: int| 0 <= k < prev_idx.len() && prev_idx[k] == j;
                            assert(idx[k0] == j);
                        } else {
                            assert(idx[prev_idx.len() as int] == j);
                        }
                    }
                }
            }
            i = i + 1;
        }
        proof {
            assert forall|k: int|
                0 <= k < found@.len() implies crate::application::ports::image_repository::image_matches(
                self.model@,
                #[trigger] found@[k],
            ) by {
                assert(found@[k] == self.entries@[idx[k]]);
            }
            assert forall|a: int, b: int|
                0 <= a < found@.len() && 0 <= b < found@.len() && a != b implies (
                #[trigger] found@[a]).id != (#[trigger] found@[b]).id by {
                assert(idx[a] != idx[b]) by {
                    if a < b {
                        assert(idx[a] < idx[b]);
                    } else {
                        assert(idx[b] < idx[a]);
                    }
                }
                assert(self.entries@[idx[a]].id != self.entries@[idx[b]].id);
            }
            assert forall|k: i32|
                self.model@.contains_key(k) && (#[trigger] self.model@[k]).user_id
                    == user_id.0 implies exists|m: int|
                0 <= m < found@.len() && (#[trigger] found@[m]).id.0 == k by {
                let j = choose|j: int|
                    0 <= j < self.entries@.len() && (#[trigger] self.entries@[j]).id.0 == k;
                assert(self.entries@[j].user_id.0 == user_id.0);
                let m = choose|m: int| 0 <= m < idx.len() && idx[m] == j;
                assert(found@[m].id.0 == k);
            }
        }
        Ok(found)
    }
}

} // verus!
