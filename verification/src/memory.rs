use vstd::prelude::*;
use vstd::string::*;
use vstd::slice::slice_to_vec;
use crate::domain::Image;
use crate::error::ServiceError;
use crate::repository::{
    find_rec, has_owned, owned_rev, page_of, remove_rec, ImageRepository, ImageStore,
};

verus! {

/// The index of the first record whose id reads `id`, mirroring `find_rec`.
fn find_index_by_id(records: &Vec<Image>, id: &String) -> (r: Option<usize>)
    ensures
        match r {
            Some(i) => {
                &&& i < records@.len()
                &&& records@[i as int].id@ == id@
                &&& find_rec(records@, id@) == Some(records@[i as int])
            },
            None => find_rec(records@, id@) is None,
        },
{
    let n = records.len();
    let mut i: usize = 0;
    proof {
        assert(records@.skip(0) =~= records@);
    }
    while i < n
        invariant
            i <= n,
            n == records@.len(),
            find_rec(records@, id@) == find_rec(records@.skip(i as int), id@),
        decreases n - i,
    {
        proof {
            assert(records@.skip(i as int).drop_first() =~= records@.skip(i as int + 1));
            assert(records@.skip(i as int)[0] == records@[i as int]);
        }
        if records[i].id == *id {
            return Some(i);
        }
        i += 1;
    }
    proof {
        assert(records@.skip(n as int) =~= Seq::<Image>::empty());
    }
    None
}

/// The catalog variant that keeps its records in memory: insertion order in
/// a vector, and a monotone stamp standing in for the insert timestamp.
pub struct InMemoryImageRepository {
    pub records: Vec<Image>,
    pub next_stamp: u64,
}

impl InMemoryImageRepository {
    pub fn new() -> (r: Self)
        ensures
            r.catalog() == Seq::<Image>::empty(),
            r.reliable(),
    {
        InMemoryImageRepository { records: Vec::new(), next_stamp: 0 }
    }
}

impl ImageRepository for InMemoryImageRepository {
    open spec fn catalog(&self) -> Seq<Image> {
        self.records@
    }

    open spec fn reliable(&self) -> bool {
        true
    }

    fn create_image(&mut self, image: &Image) -> (r: Result<Image, ServiceError>) {
        match find_index_by_id(&self.records, &image.id) {
            Some(_) => Err(
                ServiceError::StorageFailure(String::from_str("duplicate image id")),
            ),
            None => {
                let stamp = self.next_stamp;
                if stamp < u64::MAX {
                    self.next_stamp = stamp + 1;
                }
                let stored = Image {
                    id: image.id.clone(),
                    user_id: image.user_id.clone(),
                    filename: image.filename.clone(),
                    original_filename: image.original_filename.clone(),
                    file_size: image.file_size,
                    mime_type: image.mime_type.clone(),
                    storage_path: image.storage_path.clone(),
                    created_at: Some(stamp),
                };
                self.records.push(stored.clone());
                Ok(stored)
            },
        }
    }

    fn find_by_id(&self, id: &str) -> (r: Result<Option<Image>, ServiceError>) {
        let key = id.to_owned();
        match find_index_by_id(&self.records, &key) {
            Some(i) => Ok(Some(self.records[i].clone())),
            None => Ok(None),
        }
    }

    fn find_by_user_id(&self, user_id: &str, limit: usize, offset: usize) -> (r: Result<
        Vec<Image>,
        ServiceError,
    >) {
        let owner = user_id.to_owned();
        let n = self.records.len();
        let mut owned: Vec<Image> = Vec::new();
        let mut i: usize = n;
        proof {
            assert(self.records@.take(n as int) =~= self.records@);
            assert(owned@ + owned_rev(self.records@.take(n as int), owner@) =~= owned_rev(
                self.records@,
                owner@,
            ));
        }
        while i > 0
            invariant
                i <= n,
                n == self.records@.len(),
                owner@ == user_id@,
                owned_rev(self.records@, user_id@) == owned@ + owned_rev(
                    self.records@.take(i as int),
                    user_id@,
                ),
            decreases i,
        {
            i = i - 1;
            proof {
                assert(self.records@.take(i as int + 1).drop_last() =~= self.records@.take(
                    i as int,
                ));
                assert(self.records@.take(i as int + 1).last() == self.records@[i as int]);
            }
            if self.records[i].user_id == owner {
                owned.push(self.records[i].clone());
                proof {
                    assert(owned@ + owned_rev(self.records@.take(i as int), user_id@)
                        =~= owned@.drop_last() + (seq![self.records@[i as int]] + owned_rev(
                        self.records@.take(i as int),
                        user_id@,
                    )));
                }
            } else {
                proof {
                    assert(Seq::<Image>::empty() + owned_rev(
                        self.records@.take(i as int),
                        user_id@,
                    ) =~= owned_rev(self.records@.take(i as int), user_id@));
                }
            }
        }
        proof {
            assert(self.records@.take(0) =~= Seq::<Image>::empty());
            assert(owned@ + owned_rev(self.records@.take(0), user_id@) =~= owned@);
        }
        let total = owned.len();
        let start = if offset > total {
            total
        } else {
            offset
        };
        let count = total - start;
        let end = if limit > count {
            total
        } else {
            start + limit
        };
        let mut result: Vec<Image> = Vec::new();
        let mut k = start;
        while k < end
            invariant
                start <= k <= end,
                end <= total,
                total == owned@.len(),
                result@ == owned@.subrange(start as int, k as int),
            decreases end - k,
        {
            result.push(owned[k].clone());
            proof {
                assert(owned@.subrange(start as int, k as int + 1) =~= owned@.subrange(
                    start as int,
                    k as int,
                ).push(owned@[k as int]));
            }
            k += 1;
        }
        proof {
            assert(start as int == vstd::math::min(offset as int, owned@.len() as int));
            assert(end as int == vstd::math::min(
                offset as int + limit as int,
                owned@.len() as int,
            ));
            assert(result@ == page_of(owned_rev(self.records@, user_id@), offset as int, limit as int));
        }
        Ok(result)
    }

    fn delete_image(&mut self, id: &str, user_id: &str) -> (r: Result<bool, ServiceError>) {
        let idkey = id.to_owned();
        let owner = user_id.to_owned();
        let n = self.records.len();
        let mut i: usize = 0;
        while i < n
            invariant
                i <= n,
                n == self.records@.len(),
                idkey@ == id@,
                owner@ == user_id@,
                self.records@ == old(self).records@,
                self.next_stamp == old(self).next_stamp,
                forall|j: int|
                    0 <= j < i ==> !(self.records@[j].id@ == id@ && self.records@[j].user_id@
                        == user_id@),
            decreases n - i,
        {
            if self.records[i].id == idkey && self.records[i].user_id == owner {
                proof {
                    lemma_remove_rec_at(self.records@, id@, user_id@, i as int);
                    lemma_has_owned_at(self.records@, id@, user_id@, i as int);
                }
                self.records.remove(i);
                return Ok(true);
            }
            i += 1;
        }
        proof {
            lemma_no_owned_match(self.records@, id@, user_id@);
        }
        Ok(false)
    }
}

/// Where the first record matching id and owner stands at `i`, removing it
/// is removing index `i`.
proof fn lemma_remove_rec_at(s: Seq<Image>, id: Seq<char>, owner: Seq<char>, i: int)
    requires
        0 <= i < s.len(),
        s[i].id@ == id && s[i].user_id@ == owner,
        forall|j: int| 0 <= j < i ==> !(s[j].id@ == id && s[j].user_id@ == owner),
    ensures
        remove_rec(s, id, owner) == s.remove(i),
    decreases i,
{
    if i == 0 {
        assert(s.drop_first() =~= s.remove(0));
    } else {
        assert(forall|j: int|
            0 <= j < i - 1 ==> !(s.drop_first()[j].id@ == id && s.drop_first()[j].user_id@
                == owner));
        lemma_remove_rec_at(s.drop_first(), id, owner, i - 1);
        assert(seq![s[0]] + s.drop_first().remove(i - 1) =~= s.remove(i));
    }
}

/// A record matching id and owner at some index makes `has_owned` true.
proof fn lemma_has_owned_at(s: Seq<Image>, id: Seq<char>, owner: Seq<char>, i: int)
    requires
        0 <= i < s.len(),
        s[i].id@ == id && s[i].user_id@ == owner,
    ensures
        has_owned(s, id, owner),
    decreases i,
{
    if i > 0 {
        lemma_has_owned_at(s.drop_first(), id, owner, i - 1);
    }
}

/// With no record matching id and owner, removal changes nothing.
proof fn lemma_no_owned_match(s: Seq<Image>, id: Seq<char>, owner: Seq<char>)
    requires
        forall|j: int| 0 <= j < s.len() ==> !(s[j].id@ == id && s[j].user_id@ == owner),
    ensures
        !has_owned(s, id, owner),
        remove_rec(s, id, owner) == s,
    decreases s.len(),
{
    if s.len() > 0 {
        assert(forall|j: int|
            0 <= j < s.drop_first().len() ==> !(s.drop_first()[j].id@ == id
                && s.drop_first()[j].user_id@ == owner));
        lemma_no_owned_match(s.drop_first(), id, owner);
        assert(seq![s[0]] + s.drop_first() =~= s);
    }
}

/// The key-to-bytes map an entry sequence denotes; a later entry under the
/// same key wins.
pub open spec fn map_of(s: Seq<(String, Vec<u8>)>) -> Map<Seq<char>, Seq<u8>>
    decreases s.len(),
{
    if s.len() == 0 {
        Map::empty()
    } else {
        map_of(s.drop_last()).insert(s.last().0@, s.last().1@)
    }
}

/// The entry sequence with every entry under `k` dropped.
pub open spec fn kept_of(s: Seq<(String, Vec<u8>)>, k: Seq<char>) -> Seq<(String, Vec<u8>)>
    decreases s.len(),
{
    if s.len() == 0 {
        s
    } else if s.last().0@ == k {
        kept_of(s.drop_last(), k)
    } else {
        kept_of(s.drop_last(), k) + seq![s.last()]
    }
}

/// Removing one entry under `k` does not change what is kept.
proof fn lemma_kept_of_remove(s: Seq<(String, Vec<u8>)>, k: Seq<char>, i: int)
    requires
        0 <= i < s.len(),
        s[i].0@ == k,
    ensures
        kept_of(s.remove(i), k) == kept_of(s, k),
    decreases s.len(),
{
    if i == s.len() - 1 {
        assert(s.remove(i) =~= s.drop_last());
    } else {
        assert(s.remove(i).drop_last() =~= s.drop_last().remove(i));
        assert(s.remove(i).last() == s.last());
        lemma_kept_of_remove(s.drop_last(), k, i);
    }
}

/// With no entry under `k`, nothing is dropped.
proof fn lemma_kept_no_match(s: Seq<(String, Vec<u8>)>, k: Seq<char>)
    requires
        forall|j: int| 0 <= j < s.len() ==> s[j].0@ != k,
    ensures
        kept_of(s, k) == s,
    decreases s.len(),
{
    if s.len() > 0 {
        lemma_kept_no_match(s.drop_last(), k);
        assert(s.drop_last() + seq![s.last()] =~= s);
    }
}

/// Dropping every entry under `k` removes exactly `k` from the denoted map.
proof fn lemma_map_of_kept(s: Seq<(String, Vec<u8>)>, k: Seq<char>)
    ensures
        map_of(kept_of(s, k)) == map_of(s).remove(k),
    decreases s.len(),
{
    if s.len() == 0 {
        assert(map_of(s).remove(k) =~= Map::<Seq<char>, Seq<u8>>::empty());
    } else {
        lemma_map_of_kept(s.drop_last(), k);
        if s.last().0@ == k {
            assert(map_of(s).remove(k) =~= map_of(s.drop_last()).remove(k));
        } else {
            let t = kept_of(s.drop_last(), k) + seq![s.last()];
            assert(t.drop_last() =~= kept_of(s.drop_last(), k));
            assert(t.last() == s.last());
            assert(map_of(t) == map_of(kept_of(s.drop_last(), k)).insert(
                s.last().0@,
                s.last().1@,
            ));
            assert(map_of(s).remove(k) =~= map_of(s.drop_last()).remove(k).insert(
                s.last().0@,
                s.last().1@,
            ));
        }
    }
}

/// The store variant that keeps its blobs in memory.
pub struct InMemoryImageStore {
    pub entries: Vec<(String, Vec<u8>)>,
}

impl InMemoryImageStore {
    pub fn new() -> (r: Self)
        ensures
            r.blobs() == Map::<Seq<char>, Seq<u8>>::empty(),
            r.reliable(),
    {
        InMemoryImageStore { entries: Vec::new() }
    }
}

impl ImageStore for InMemoryImageStore {
    open spec fn blobs(&self) -> Map<Seq<char>, Seq<u8>> {
        map_of(self.entries@)
    }

    open spec fn reliable(&self) -> bool {
        true
    }

    fn put(&mut self, key: &str, bytes: &[u8]) -> (r: Result<(), ServiceError>) {
        let pair = (key.to_owned(), slice_to_vec(bytes));
        self.entries.push(pair);
        proof {
            assert(self.entries@.drop_last() =~= old(self).entries@);
        }
        Ok(())
    }

    fn get(&self, key: &str) -> (r: Result<Vec<u8>, ServiceError>) {
        let k = key.to_owned();
        let n = self.entries.len();
        let mut i: usize = n;
        proof {
            assert(self.entries@.take(n as int) =~= self.entries@);
        }
        while i > 0
            invariant
                i <= n,
                n == self.entries@.len(),
                k@ == key@,
                map_of(self.entries@).contains_key(key@) == map_of(
                    self.entries@.take(i as int),
                ).contains_key(key@),
                map_of(self.entries@).contains_key(key@) ==> map_of(
                    self.entries@.take(i as int),
                )[key@] == map_of(self.entries@)[key@],
            decreases i,
        {
            i = i - 1;
            proof {
                assert(self.entries@.take(i as int + 1).drop_last() =~= self.entries@.take(
                    i as int,
                ));
                assert(self.entries@.take(i as int + 1).last() == self.entries@[i as int]);
            }
            if self.entries[i].0 == k {
                return Ok(slice_to_vec(self.entries[i].1.as_slice()));
            }
        }
        proof {
            assert(self.entries@.take(0) =~= Seq::<(String, Vec<u8>)>::empty());
        }
        Err(ServiceError::NotFound)
    }

    fn delete(&mut self, key: &str) -> (r: Result<(), ServiceError>) {
        let k = key.to_owned();
        let mut i: usize = 0;
        while i < self.entries.len()
            invariant
                i <= self.entries@.len(),
                k@ == key@,
                forall|j: int| 0 <= j < i ==> self.entries@[j].0@ != key@,
                kept_of(self.entries@, key@) == kept_of(old(self).entries@, key@),
            decreases self.entries@.len() - i,
        {
            if self.entries[i].0 == k {
                proof {
                    lemma_kept_of_remove(self.entries@, key@, i as int);
                }
                self.entries.remove(i);
            } else {
                i += 1;
            }
        }
        proof {
            lemma_kept_no_match(self.entries@, key@);
            lemma_map_of_kept(old(self).entries@, key@);
        }
        Ok(())
    }
}

} // verus!
