use vstd::prelude::*;
use crate::domain::Image;
use crate::error::ServiceError;

verus! {

/// The first record (in insertion order) whose id reads `id`, if any.
pub open spec fn find_rec(catalog: Seq<Image>, id: Seq<char>) -> Option<Image>
    decreases catalog.len(),
{
    if catalog.len() == 0 {
        None
    } else if catalog[0].id@ == id {
        Some(catalog[0])
    } else {
        find_rec(catalog.drop_first(), id)
    }
}

/// Whether some record carries this id.
pub open spec fn has_id(catalog: Seq<Image>, id: Seq<char>) -> bool {
    find_rec(catalog, id) is Some
}

/// Whether some record carries both this id and this owner.
pub open spec fn has_owned(catalog: Seq<Image>, id: Seq<char>, owner: Seq<char>) -> bool
    decreases catalog.len(),
{
    if catalog.len() == 0 {
        false
    } else {
        (catalog[0].id@ == id && catalog[0].user_id@ == owner)
            || has_owned(catalog.drop_first(), id, owner)
    }
}

/// The catalog with the first record matching both id and owner removed.
pub open spec fn remove_rec(catalog: Seq<Image>, id: Seq<char>, owner: Seq<char>) -> Seq<Image>
    decreases catalog.len(),
{
    if catalog.len() == 0 {
        catalog
    } else if catalog[0].id@ == id && catalog[0].user_id@ == owner {
        catalog.drop_first()
    } else {
        seq![catalog[0]] + remove_rec(catalog.drop_first(), id, owner)
    }
}

/// The records owned by `owner`, most recently inserted first.
pub open spec fn owned_rev(catalog: Seq<Image>, owner: Seq<char>) -> Seq<Image>
    decreases catalog.len(),
{
    if catalog.len() == 0 {
        Seq::empty()
    } else {
        let head: Seq<Image> = if catalog.last().user_id@ == owner {
            seq![catalog.last()]
        } else {
            Seq::empty()
        };
        head + owned_rev(catalog.drop_last(), owner)
    }
}

/// The page of `s` that starts `offset` records in and holds at most `limit`
/// records, clipped to the end of `s`.
pub open spec fn page_of(s: Seq<Image>, offset: int, limit: int) -> Seq<Image> {
    s.subrange(
        vstd::math::min(offset, s.len() as int),
        vstd::math::min(offset + limit, s.len() as int),
    )
}

/// Whether no two records of the catalog carry the same id. An empty
/// catalog has it; `create_image` preserves it, since it only pushes a
/// record whose id is fresh; `delete_image` preserves it, since it only
/// removes a record. So every catalog a service builds satisfies it.
pub open spec fn unique_ids(catalog: Seq<Image>) -> bool {
    forall|i: int, j: int| 0 <= i < j < catalog.len() ==> catalog[i].id@ != catalog[j].id@
}

/// `find_rec` comes up empty exactly when no record carries the id.
pub proof fn lemma_find_rec_none(catalog: Seq<Image>, id: Seq<char>)
    ensures
        (find_rec(catalog, id) is None) <==> (forall|i: int|
            0 <= i < catalog.len() ==> catalog[i].id@ != id),
    decreases catalog.len(),
{
    if catalog.len() > 0 {
        lemma_find_rec_none(catalog.drop_first(), id);
        assert(forall|i: int|
            1 <= i < catalog.len() ==> catalog[i] == catalog.drop_first()[i - 1]);
    }
}

/// Inserting a record under a fresh id keeps ids unique: the invariant
/// `upload_image` maintains, by `create_image`'s freshness guarantee.
pub proof fn lemma_unique_ids_push(catalog: Seq<Image>, img: Image)
    requires
        unique_ids(catalog),
        !has_id(catalog, img.id@),
    ensures
        unique_ids(catalog.push(img)),
{
    lemma_find_rec_none(catalog, img.id@);
}

/// Removing a record keeps ids unique: the invariant `delete_image`
/// maintains.
pub proof fn lemma_unique_ids_remove(catalog: Seq<Image>, id: Seq<char>, owner: Seq<char>)
    requires
        unique_ids(catalog),
    ensures
        unique_ids(remove_rec(catalog, id, owner)),
    decreases catalog.len(),
{
    if catalog.len() > 0 {
        if catalog[0].id@ == id && catalog[0].user_id@ == owner {
        } else {
            assert(forall|i: int, j: int|
                0 <= i < j < catalog.drop_first().len() ==> catalog.drop_first()[i].id@
                    != catalog.drop_first()[j].id@);
            lemma_unique_ids_remove(catalog.drop_first(), id, owner);
            let rest = remove_rec(catalog.drop_first(), id, owner);
            lemma_remove_rec_members(catalog.drop_first(), id, owner);
            assert forall|i: int, j: int|
                0 <= i < j < remove_rec(catalog, id, owner).len() implies remove_rec(
                catalog,
                id,
                owner,
            )[i].id@ != remove_rec(catalog, id, owner)[j].id@ by {
                if i == 0 {
                    assert(remove_rec(catalog, id, owner)[j] == rest[j - 1]);
                } else {
                    assert(remove_rec(catalog, id, owner)[i] == rest[i - 1]);
                    assert(remove_rec(catalog, id, owner)[j] == rest[j - 1]);
                }
            }
        }
    }
}

/// Every record left by a removal stood in the catalog before it.
proof fn lemma_remove_rec_members(catalog: Seq<Image>, id: Seq<char>, owner: Seq<char>)
    ensures
        forall|k: int|
            0 <= k < remove_rec(catalog, id, owner).len() ==> (exists|j: int|
                0 <= j < catalog.len() && #[trigger] remove_rec(catalog, id, owner)[k]
                    == catalog[j]),
    decreases catalog.len(),
{
    if catalog.len() > 0 {
        lemma_remove_rec_members(catalog.drop_first(), id, owner);
        if catalog[0].id@ == id && catalog[0].user_id@ == owner {
            assert(forall|k: int|
                0 <= k < catalog.drop_first().len() ==> catalog.drop_first()[k] == catalog[k
                    + 1]);
        } else {
            let rest = remove_rec(catalog.drop_first(), id, owner);
            assert forall|k: int|
                #![trigger remove_rec(catalog, id, owner)[k]]
                0 <= k < remove_rec(catalog, id, owner).len() implies (exists|j: int|
                0 <= j < catalog.len() && remove_rec(catalog, id, owner)[k] == #[trigger] catalog[j]) by {
                if k == 0 {
                    assert(remove_rec(catalog, id, owner)[0] == catalog[0]);
                } else {
                    assert(remove_rec(catalog, id, owner)[k] == rest[k - 1]);
                    let j = choose|j: int|
                        0 <= j < catalog.drop_first().len() && rest[k - 1]
                            == #[trigger] catalog.drop_first()[j];
                    assert(catalog.drop_first()[j] == catalog[j + 1]);
                }
            }
        }
    }
}

/// On a catalog with unique ids, deleting an owned record makes a later
/// fetch of its id come up empty: with `delete_image`'s and `get_image`'s
/// contracts, a successful delete is followed by `NotFound`.
pub proof fn lemma_delete_then_fetch(catalog: Seq<Image>, id: Seq<char>, owner: Seq<char>)
    requires
        unique_ids(catalog),
        match find_rec(catalog, id) {
            Some(img) => img.user_id@ == owner,
            None => false,
        },
    ensures
        find_rec(remove_rec(catalog, id, owner), id) is None,
    decreases catalog.len(),
{
    if catalog.len() > 0 {
        if catalog[0].id@ == id {
            lemma_find_rec_none(catalog.drop_first(), id);
            assert(forall|i: int|
                0 <= i < catalog.drop_first().len() ==> catalog.drop_first()[i]
                    == catalog[i + 1]);
        } else {
            assert(forall|i: int, j: int|
                0 <= i < j < catalog.drop_first().len() ==> catalog.drop_first()[i].id@
                    != catalog.drop_first()[j].id@);
            lemma_delete_then_fetch(catalog.drop_first(), id, owner);
            let r = remove_rec(catalog, id, owner);
            assert(r[0] == catalog[0]);
            assert(r.drop_first() =~= remove_rec(catalog.drop_first(), id, owner));
        }
    }
}

/// The image catalog: persistent metadata records, queryable by id and by
/// owner with pagination. `catalog()` is the abstract sequence of records in
/// insertion order; `reliable()` holds of backends whose operations cannot
/// fail, such as the in-memory one.
pub trait ImageRepository: Sized {
    spec fn catalog(&self) -> Seq<Image>;

    spec fn reliable(&self) -> bool;

    /// Inserts a record. On success the stored record equals the given one
    /// except that the catalog has assigned `created_at`, and the id was
    /// fresh; duplicate ids are a constraint violation, reported as a
    /// storage failure, and a reliable backend fails only on one.
    fn create_image(&mut self, image: &Image) -> (r: Result<Image, ServiceError>)
        ensures
            match r {
                Ok(stored) => {
                    &&& !has_id(old(self).catalog(), image.id@)
                    &&& stored.id@ == image.id@
                    &&& stored.user_id@ == image.user_id@
                    &&& stored.filename@ == image.filename@
                    &&& stored.original_filename@ == image.original_filename@
                    &&& stored.file_size == image.file_size
                    &&& stored.mime_type@ == image.mime_type@
                    &&& stored.storage_path@ == image.storage_path@
                    &&& stored.created_at is Some
                    &&& final(self).catalog() == old(self).catalog().push(stored)
                    &&& final(self).reliable() == old(self).reliable()
                },
                Err(e) => {
                    &&& final(self).catalog() == old(self).catalog()
                    &&& final(self).reliable() == old(self).reliable()
                    &&& e matches ServiceError::StorageFailure(_)
                    &&& old(self).reliable() ==> has_id(old(self).catalog(), image.id@)
                },
            },
    ;

    /// Looks a record up by id; the result mirrors `find_rec`.
    fn find_by_id(&self, id: &str) -> (r: Result<Option<Image>, ServiceError>)
        ensures
            match r {
                Ok(found) => found == find_rec(self.catalog(), id@),
                Err(e) => {
                    &&& e matches ServiceError::StorageFailure(_)
                    &&& !self.reliable()
                },
            },
    ;

    /// The owner's records, most recently created first, `limit` of them
    /// starting `offset` records in. A successful reply also bounds the
    /// catalog: a backend that answers holds at most `usize::MAX` records.
    fn find_by_user_id(&self, user_id: &str, limit: usize, offset: usize) -> (r: Result<
        Vec<Image>,
        ServiceError,
    >)
        ensures
            r is Ok ==> self.catalog().len() <= usize::MAX,
            match r {
                Ok(v) => v@ == page_of(
                    owned_rev(self.catalog(), user_id@),
                    offset as int,
                    limit as int,
                ),
                Err(e) => {
                    &&& e matches ServiceError::StorageFailure(_)
                    &&& !self.reliable()
                },
            },
    ;

    /// Removes the record matching both id and owner, reporting whether one
    /// existed. The owner scoping is a second line of defense under the
    /// service's own ownership check.
    fn delete_image(&mut self, id: &str, user_id: &str) -> (r: Result<bool, ServiceError>)
        ensures
            final(self).reliable() == old(self).reliable(),
            match r {
                Ok(b) => {
                    &&& b == has_owned(old(self).catalog(), id@, user_id@)
                    &&& final(self).catalog() == remove_rec(old(self).catalog(), id@, user_id@)
                },
                Err(e) => {
                    &&& final(self).catalog() == old(self).catalog()
                    &&& e matches ServiceError::StorageFailure(_)
                    &&& !old(self).reliable()
                },
            },
    ;
}

/// The image store: durable key-to-bytes storage. The key space is
/// caller-controlled; the access service generates the keys. `blobs()` is
/// the abstract map from key to stored bytes.
pub trait ImageStore: Sized {
    spec fn blobs(&self) -> Map<Seq<char>, Seq<u8>>;

    spec fn reliable(&self) -> bool;

    /// Stores bytes under a key, replacing any previous value.
    fn put(&mut self, key: &str, bytes: &[u8]) -> (r: Result<(), ServiceError>)
        ensures
            final(self).reliable() == old(self).reliable(),
            match r {
                Ok(_) => final(self).blobs() == old(self).blobs().insert(key@, bytes@),
                Err(e) => {
                    &&& final(self).blobs() == old(self).blobs()
                    &&& e matches ServiceError::StorageFailure(_)
                    &&& !old(self).reliable()
                },
            },
    ;

    /// Reads the bytes under a key. A reliable store fails only by absence.
    fn get(&self, key: &str) -> (r: Result<Vec<u8>, ServiceError>)
        ensures
            match r {
                Ok(b) => {
                    &&& self.blobs().contains_key(key@)
                    &&& b@ == self.blobs()[key@]
                },
                Err(e) => {
                    &&& (e matches ServiceError::NotFound || e matches ServiceError::StorageFailure(
                        _,
                    ))
                    &&& (e matches ServiceError::NotFound ==> !self.blobs().contains_key(key@))
                    &&& (e matches ServiceError::StorageFailure(_) ==> !self.reliable())
                },
            },
            self.reliable() && self.blobs().contains_key(key@) ==> r is Ok,
    ;

    /// Removes the bytes under a key; removing an absent key is a no-op.
    fn delete(&mut self, key: &str) -> (r: Result<(), ServiceError>)
        ensures
            final(self).reliable() == old(self).reliable(),
            match r {
                Ok(_) => final(self).blobs() == old(self).blobs().remove(key@),
                Err(e) => {
                    &&& final(self).blobs() == old(self).blobs()
                    &&& e matches ServiceError::StorageFailure(_)
                    &&& !old(self).reliable()
                },
            },
    ;
}

} // verus!
