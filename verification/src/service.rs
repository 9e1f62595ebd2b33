use vstd::prelude::*;
use vstd::string::*;
use crate::domain::{Image, ImageTransformation};
use crate::error::ServiceError;
use crate::repository::{
    find_rec, has_id, has_owned, owned_rev, page_of, remove_rec, ImageRepository, ImageStore,
};

verus! {

/// The largest number of records one `list_images` call returns; a larger
/// requested limit is clamped to this.
pub const MAX_LIST_LIMIT: u64 = 100;

/// Fetching `id` as `caller` succeeds with exactly this record and these
/// bytes: the record is the one filed under `id`, the caller owns it, and
/// the bytes are the ones stored under its storage path.
pub open spec fn fetch_found(
    catalog: Seq<Image>,
    blobs: Map<Seq<char>, Seq<u8>>,
    caller: Seq<char>,
    id: Seq<char>,
    img: Image,
    data: Seq<u8>,
) -> bool {
    &&& find_rec(catalog, id) == Some(img)
    &&& img.user_id@ == caller
    &&& blobs.contains_key(img.storage_path@)
    &&& data == blobs[img.storage_path@]
}

/// A record under `id` exists but belongs to someone other than `caller`.
pub open spec fn fetch_denied(catalog: Seq<Image>, caller: Seq<char>, id: Seq<char>) -> bool {
    match find_rec(catalog, id) {
        Some(img) => img.user_id@ != caller,
        None => false,
    }
}

/// No record under `id` exists.
pub open spec fn fetch_not_found(catalog: Seq<Image>, id: Seq<char>) -> bool {
    find_rec(catalog, id) is None
}

/// The requested limit with the global maximum applied.
pub open spec fn clamped_limit(limit: int) -> int {
    vstd::math::min(limit, MAX_LIST_LIMIT as int)
}

/// What listing returns: the caller's records, most recently created first,
/// paged with a 1-based page number and the clamped limit.
pub open spec fn spec_list(catalog: Seq<Image>, owner: Seq<char>, page: int, limit: int) -> Seq<
    Image,
> {
    page_of(owned_rev(catalog, owner), (page - 1) * clamped_limit(limit), clamped_limit(limit))
}

/// Relies on uuid::Uuid::new_v4 and its Display form: a freshly generated
/// random identifier, rendered in the 36-character hyphenated form. Nothing
/// more is assumed of it; in particular not uniqueness, which the catalog's
/// insert enforces.
#[verifier::external_body]
fn fresh_id() -> (r: String)
    ensures
        r@.len() == 36,
{
    uuid::Uuid::new_v4().to_string()
}

/// The query parameters of a listing request, before defaults are applied.
#[derive(Debug, Clone, Copy)]
pub struct PaginationParams {
    pub page: Option<u64>,
    pub limit: Option<u64>,
}

/// The page a listing request resolves to: 1 when absent or zero.
pub open spec fn resolved_page(page: Option<u64>) -> u64 {
    match page {
        Some(p) => if p == 0 {
            1
        } else {
            p
        },
        None => 1,
    }
}

/// The limit a listing request resolves to: 10 when absent, and never more
/// than `MAX_LIST_LIMIT`.
pub open spec fn resolved_limit(limit: Option<u64>) -> u64 {
    match limit {
        Some(l) => if l > MAX_LIST_LIMIT {
            MAX_LIST_LIMIT
        } else {
            l
        },
        None => 10,
    }
}

impl PaginationParams {
    /// The (page, limit) pair to use, with defaults applied and the limit
    /// clamped.
    pub fn resolve(&self) -> (r: (u64, u64))
        ensures
            r.0 == resolved_page(self.page),
            r.1 == resolved_limit(self.limit),
            r.0 >= 1,
            r.1 <= MAX_LIST_LIMIT,
    {
        let page = match self.page {
            Some(p) => if p == 0 {
                1
            } else {
                p
            },
            None => 1,
        };
        let limit = match self.limit {
            Some(l) => if l > MAX_LIST_LIMIT {
                MAX_LIST_LIMIT
            } else {
                l
            },
            None => 10,
        };
        (page, limit)
    }
}

/// The image access service: composes a catalog, a store and the
/// transformation engine, and enforces that only the owning identity may
/// read, transform or delete an image. It holds no call-spanning state of
/// its own.
pub struct ImageService<R: ImageRepository, S: ImageStore> {
    pub image_repository: R,
    pub store: S,
}

impl<R: ImageRepository, S: ImageStore> ImageService<R, S> {
    pub fn new(image_repository: R, store: S) -> (r: Self)
        ensures
            r.image_repository == image_repository,
            r.store == store,
    {
        ImageService { image_repository, store }
    }

    /// Stores a new image for `user_id`: rejects an empty payload, generates
    /// a fresh id and a collision-safe storage name, writes the bytes to the
    /// store, inserts the metadata, and returns the persisted record. If the
    /// metadata insert fails after the blob write succeeded, the blob is
    /// deleted again as compensation: on a reliable store no orphaned blob
    /// ever remains, and only a failure of the compensating delete itself
    /// can leave one.
    pub fn upload_image(&mut self, user_id: &str, filename: &str, image_data: &[u8]) -> (r: Result<
        Image,
        ServiceError,
    >)
        ensures
            final(self).image_repository.reliable() == old(self).image_repository.reliable(),
            final(self).store.reliable() == old(self).store.reliable(),
            match r {
                Ok(img) => {
                    &&& image_data@.len() > 0
                    &&& img.user_id@ == user_id@
                    &&& img.original_filename@ == filename@
                    &&& img.file_size == image_data@.len()
                    &&& img.mime_type@ == "image/jpeg"@
                    &&& img.created_at is Some
                    &&& img.id@.len() == 36
                    &&& img.storage_path@ == img.id@ + "_"@ + filename@
                    &&& img.filename@ == img.storage_path@
                    &&& !has_id(old(self).image_repository.catalog(), img.id@)
                    &&& final(self).image_repository.catalog() == old(
                        self,
                    ).image_repository.catalog().push(img)
                    &&& final(self).store.blobs() == old(self).store.blobs().insert(
                        img.storage_path@,
                        image_data@,
                    )
                },
                Err(e) => {
                    &&& final(self).image_repository.catalog() == old(
                        self,
                    ).image_repository.catalog()
                    &&& (image_data@.len() == 0 ==> (e matches ServiceError::ValidationError(_))
                        && final(self).store.blobs() == old(self).store.blobs())
                    &&& (image_data@.len() > 0 ==> e matches ServiceError::StorageFailure(_))
                    &&& (old(self).store.reliable() ==> (final(self).store.blobs() == old(
                        self,
                    ).store.blobs() || (exists|k: Seq<char>|
                        final(self).store.blobs() == old(self).store.blobs().remove(k))))
                    &&& (final(self).store.blobs() == old(self).store.blobs() || (exists|
                        k: Seq<char>,
                    |
                        final(self).store.blobs() == old(self).store.blobs().remove(k)) || (exists|
                        k: Seq<char>,
                    |
                        final(self).store.blobs() == old(self).store.blobs().insert(
                            k,
                            image_data@,
                        )))
                },
            },
    {
        if image_data.len() == 0 {
            return Err(
                ServiceError::ValidationError(String::from_str("empty upload payload")),
            );
        }
        let image_id = fresh_id();
        let storage_filename = image_id.clone().concat("_").concat(filename);
        let record = Image {
            id: image_id,
            user_id: user_id.to_owned(),
            filename: storage_filename.clone(),
            original_filename: filename.to_owned(),
            file_size: image_data.len() as u64,
            mime_type: String::from_str("image/jpeg"),
            storage_path: storage_filename,
            created_at: None,
        };
        match self.store.put(record.storage_path.as_str(), image_data) {
            Ok(_) => {},
            Err(e) => {
                return Err(e);
            },
        }
        match self.image_repository.create_image(&record) {
            Ok(stored) => Ok(stored),
            Err(e) => {
                // compensate for the blob written above: remove both or neither
                match self.store.delete(record.storage_path.as_str()) {
                    Ok(_) => {
                        proof {
                            assert(self.store.blobs() =~= old(self).store.blobs().remove(
                                record.storage_path@,
                            ));
                        }
                    },
                    Err(_) => {},
                }
                Err(e)
            },
        }
    }

    /// Loads the record and bytes of `image_id` for `user_id`. Fails with
    /// `NotFound` when no record exists and with `AccessDenied` when the
    /// caller is not the owner — the ownership check runs before any byte
    /// read. A missing blob under an existing record is a storage failure.
    pub fn get_image(&self, image_id: &str, user_id: &str) -> (r: Result<
        (Image, Vec<u8>),
        ServiceError,
    >)
        ensures
            match r {
                Ok(p) => fetch_found(
                    self.image_repository.catalog(),
                    self.store.blobs(),
                    user_id@,
                    image_id@,
                    p.0,
                    p.1@,
                ),
                Err(e) => {
                    &&& (e matches ServiceError::NotFound ==> fetch_not_found(
                        self.image_repository.catalog(),
                        image_id@,
                    ))
                    &&& (e matches ServiceError::AccessDenied ==> fetch_denied(
                        self.image_repository.catalog(),
                        user_id@,
                        image_id@,
                    ))
                    &&& !(e matches ServiceError::ValidationError(_))
                    &&& !(e matches ServiceError::Conflict)
                },
            },
            self.image_repository.reliable() && fetch_not_found(
                self.image_repository.catalog(),
                image_id@,
            ) ==> r matches Err(ServiceError::NotFound),
            self.image_repository.reliable() && fetch_denied(
                self.image_repository.catalog(),
                user_id@,
                image_id@,
            ) ==> r matches Err(ServiceError::AccessDenied),
            self.image_repository.reliable() && self.store.reliable() && (exists|img: Image|
                find_rec(self.image_repository.catalog(), image_id@) == Some(img)
                    && img.user_id@ == user_id@ && self.store.blobs().contains_key(
                    img.storage_path@,
                )) ==> r is Ok,
    {
        let found = match self.image_repository.find_by_id(image_id) {
            Ok(f) => f,
            Err(e) => {
                return Err(e);
            },
        };
        let img = match found {
            Some(img) => img,
            None => {
                return Err(ServiceError::NotFound);
            },
        };
        let caller = user_id.to_owned();
        if !(img.user_id == caller) {
            return Err(ServiceError::AccessDenied);
        }
        match self.store.get(img.storage_path.as_str()) {
            Ok(bytes) => Ok((img, bytes)),
            Err(e) => match e {
                ServiceError::NotFound => Err(
                    ServiceError::StorageFailure(String::from_str("stored bytes missing")),
                ),
                other => Err(other),
            },
        }
    }

    /// The caller's records, most recently created first, paged by a
    /// 1-based page number and a limit clamped to `MAX_LIST_LIMIT`. Only
    /// records owned by `user_id` are ever returned.
    pub fn list_images(&self, user_id: &str, page: u64, limit: u64) -> (r: Result<
        Vec<Image>,
        ServiceError,
    >)
        requires
            page >= 1,
        ensures
            match r {
                Ok(v) => v@ == spec_list(
                    self.image_repository.catalog(),
                    user_id@,
                    page as int,
                    limit as int,
                ),
                Err(e) => {
                    &&& e matches ServiceError::StorageFailure(_)
                    &&& !self.image_repository.reliable()
                },
            },
    {
        let l: u64 = if limit > MAX_LIST_LIMIT {
            MAX_LIST_LIMIT
        } else {
            limit
        };
        proof {
            assert(((page - 1) as u128) * (l as u128) <= (u64::MAX as u128) * 100)
                by (nonlinear_arith)
                requires
                    (page - 1) as u128 <= u64::MAX as u128,
                    l as u128 <= 100,
            ;
        }
        let off128: u128 = ((page - 1) as u128) * (l as u128);
        let offset: usize = if off128 > (usize::MAX as u128) {
            usize::MAX
        } else {
            off128 as usize
        };
        match self.image_repository.find_by_user_id(user_id, l as usize, offset) {
            Ok(v) => {
                proof {
                    lemma_owned_rev_len(self.image_repository.catalog(), user_id@);
                    let owned = owned_rev(self.image_repository.catalog(), user_id@);
                    assert(off128 as int == (page - 1) * (l as int));
                    if off128 > (usize::MAX as u128) {
                        assert(owned.len() <= usize::MAX);
                        assert(page_of(owned, offset as int, l as int) =~= Seq::<
                            Image,
                        >::empty());
                        assert(page_of(owned, (page - 1) * (l as int), l as int) =~= Seq::<
                            Image,
                        >::empty());
                    }
                    assert(v@ == spec_list(
                        self.image_repository.catalog(),
                        user_id@,
                        page as int,
                        limit as int,
                    ));
                }
                Ok(v)
            },
            Err(e) => Err(e),
        }
    }

    /// Pipes the original bytes of `image_id` through the transformation
    /// engine, after the same ownership check as `get_image`. The
    /// transformed bytes are never persisted: every call recomputes from
    /// the original, and the output bytes are a function of the stored
    /// bytes and the transformation alone, so repeated identical calls
    /// return identical bytes. Returns the output bytes with their mime
    /// type; success is owed on reliable backends whenever the record is
    /// owned, its bytes are present and valid, and the pipeline's output
    /// dimensions are encodable in the chosen format.
    pub fn transform_image(
        &self,
        image_id: &str,
        user_id: &str,
        transformations: ImageTransformation,
    ) -> (r: Result<(Vec<u8>, String), ServiceError>)
        ensures
            match r {
                Ok(out) => (match find_rec(self.image_repository.catalog(), image_id@) {
                    Some(img) => {
                        &&& img.user_id@ == user_id@
                        &&& self.store.blobs().contains_key(img.storage_path@)
                        &&& (match (
                            crate::processor::decoded_dims(
                                self.store.blobs()[img.storage_path@],
                            ),
                            crate::processor::spec_output_format(transformations),
                        ) {
                            (Some(d0), Some(f)) => match crate::processor::spec_pipeline_dims(
                                d0,
                                transformations,
                            ) {
                                Some(df) => {
                                    &&& out.0@ == crate::processor::encoded_bytes(
                                        crate::processor::pipeline_img(
                                            crate::processor::decoded_img(
                                                self.store.blobs()[img.storage_path@],
                                            ),
                                            transformations,
                                        ),
                                        f == crate::processor::OutputFormat::Png,
                                    )
                                    &&& crate::processor::detected_png(out.0@) == (f
                                        == crate::processor::OutputFormat::Png)
                                    &&& (crate::processor::fits_decode_limit(df)
                                        ==> crate::processor::decoded_dims(out.0@) == Some(df))
                                    &&& out.1@ == crate::processor::mime_of(f)
                                },
                                None => false,
                            },
                            _ => false,
                        })
                    },
                    None => false,
                }),
                Err(e) => {
                    &&& (e matches ServiceError::NotFound ==> fetch_not_found(
                        self.image_repository.catalog(),
                        image_id@,
                    ))
                    &&& (e matches ServiceError::AccessDenied ==> fetch_denied(
                        self.image_repository.catalog(),
                        user_id@,
                        image_id@,
                    ))
                    &&& (e matches ServiceError::ValidationError(_) ==> (match find_rec(
                        self.image_repository.catalog(),
                        image_id@,
                    ) {
                        Some(img) => img.user_id@ == user_id@,
                        None => false,
                    }))
                    &&& !(e matches ServiceError::Conflict)
                },
            },
            self.image_repository.reliable() && fetch_not_found(
                self.image_repository.catalog(),
                image_id@,
            ) ==> r matches Err(ServiceError::NotFound),
            self.image_repository.reliable() && fetch_denied(
                self.image_repository.catalog(),
                user_id@,
                image_id@,
            ) ==> r matches Err(ServiceError::AccessDenied),
            self.image_repository.reliable() && self.store.reliable() && (match find_rec(
                self.image_repository.catalog(),
                image_id@,
            ) {
                Some(img) => {
                    &&& img.user_id@ == user_id@
                    &&& self.store.blobs().contains_key(img.storage_path@)
                    &&& (match (
                        crate::processor::decoded_dims(self.store.blobs()[img.storage_path@]),
                        crate::processor::spec_output_format(transformations),
                    ) {
                        (Some(d0), Some(f)) => match crate::processor::spec_pipeline_dims(
                            d0,
                            transformations,
                        ) {
                            Some(df) => crate::processor::encode_dims_ok(df, f),
                            None => false,
                        },
                        _ => false,
                    })
                },
                None => false,
            }) ==> r is Ok,
    {
        let (_image, original_data) = match self.get_image(image_id, user_id) {
            Ok(p) => p,
            Err(e) => {
                return Err(e);
            },
        };
        let processor = crate::processor::ImageProcessor;
        processor.process_image(original_data.as_slice(), &transformations)
    }

    /// Deletes `image_id` for `user_id` after the same ownership check as
    /// `get_image`: the catalog record and the stored bytes are removed
    /// together. Cross-owner attempts fail with `AccessDenied`, a
    /// non-existent id with `NotFound` — never a silent `false`.
    pub fn delete_image(&mut self, image_id: &str, user_id: &str) -> (r: Result<
        bool,
        ServiceError,
    >)
        ensures
            final(self).image_repository.reliable() == old(self).image_repository.reliable(),
            final(self).store.reliable() == old(self).store.reliable(),
            match r {
                Ok(b) => {
                    &&& b == true
                    &&& (match find_rec(old(self).image_repository.catalog(), image_id@) {
                        Some(img) => {
                            &&& img.user_id@ == user_id@
                            &&& final(self).store.blobs() == old(self).store.blobs().remove(
                                img.storage_path@,
                            )
                        },
                        None => false,
                    })
                    &&& final(self).image_repository.catalog() == remove_rec(
                        old(self).image_repository.catalog(),
                        image_id@,
                        user_id@,
                    )
                },
                Err(e) => {
                    &&& (e matches ServiceError::NotFound ==> fetch_not_found(
                        old(self).image_repository.catalog(),
                        image_id@,
                    ) && final(self).image_repository.catalog() == old(
                        self,
                    ).image_repository.catalog() && final(self).store.blobs() == old(
                        self,
                    ).store.blobs())
                    &&& (e matches ServiceError::AccessDenied ==> fetch_denied(
                        old(self).image_repository.catalog(),
                        user_id@,
                        image_id@,
                    ) && final(self).image_repository.catalog() == old(
                        self,
                    ).image_repository.catalog() && final(self).store.blobs() == old(
                        self,
                    ).store.blobs())
                    &&& !(e matches ServiceError::ValidationError(_))
                    &&& !(e matches ServiceError::Conflict)
                    &&& (final(self).image_repository.catalog() == old(
                        self,
                    ).image_repository.catalog() || final(self).image_repository.catalog()
                        == remove_rec(
                        old(self).image_repository.catalog(),
                        image_id@,
                        user_id@,
                    ))
                },
            },
            old(self).image_repository.reliable() && fetch_not_found(
                old(self).image_repository.catalog(),
                image_id@,
            ) ==> r matches Err(ServiceError::NotFound),
            old(self).image_repository.reliable() && fetch_denied(
                old(self).image_repository.catalog(),
                user_id@,
                image_id@,
            ) ==> r matches Err(ServiceError::AccessDenied),
            old(self).image_repository.reliable() && old(self).store.reliable() && (match find_rec(
                old(self).image_repository.catalog(),
                image_id@,
            ) {
                Some(img) => img.user_id@ == user_id@,
                None => false,
            }) ==> (r matches Ok(b) && b == true),
    {
        let found = match self.image_repository.find_by_id(image_id) {
            Ok(f) => f,
            Err(e) => {
                return Err(e);
            },
        };
        let img = match found {
            Some(img) => img,
            None => {
                return Err(ServiceError::NotFound);
            },
        };
        let caller = user_id.to_owned();
        if !(img.user_id == caller) {
            return Err(ServiceError::AccessDenied);
        }
        proof {
            lemma_find_rec_owned(self.image_repository.catalog(), image_id@, user_id@);
        }
        match self.image_repository.delete_image(image_id, user_id) {
            Ok(_) => {},
            Err(e) => {
                return Err(e);
            },
        }
        match self.store.delete(img.storage_path.as_str()) {
            Ok(_) => Ok(true),
            Err(e) => Err(e),
        }
    }
}

/// A record found under some id and owned by some owner is a record that
/// `has_owned` sees.
pub proof fn lemma_find_rec_owned(catalog: Seq<Image>, id: Seq<char>, owner: Seq<char>)
    requires
        match find_rec(catalog, id) {
            Some(img) => img.user_id@ == owner,
            None => false,
        },
    ensures
        has_owned(catalog, id, owner),
    decreases catalog.len(),
{
    if catalog.len() > 0 {
        if catalog[0].id@ == id {
        } else {
            lemma_find_rec_owned(catalog.drop_first(), id, owner);
        }
    }
}

/// Listing yields at most `owned_rev` many records.
pub proof fn lemma_owned_rev_len(catalog: Seq<Image>, owner: Seq<char>)
    ensures
        owned_rev(catalog, owner).len() <= catalog.len(),
    decreases catalog.len(),
{
    if catalog.len() > 0 {
        lemma_owned_rev_len(catalog.drop_last(), owner);
    }
}

/// A fresh record pushed onto a catalog that does not hold its id is what
/// a later lookup of that id finds.
proof fn lemma_find_rec_push(s: Seq<Image>, img: Image)
    requires
        !has_id(s, img.id@),
    ensures
        find_rec(s.push(img), img.id@) == Some(img),
    decreases s.len(),
{
    if s.len() == 0 {
        assert(s.push(img)[0] == img);
    } else {
        assert(s.push(img)[0] == s[0]);
        assert(s.push(img).drop_first() =~= s.drop_first().push(img));
        lemma_find_rec_push(s.drop_first(), img);
    }
}

/// Uploading then fetching by the same caller returns byte-identical
/// content: after a successful upload of `data` that produced record `img`
/// — the uploader owns it and its id was fresh, as `upload_image` ensures —
/// fetching `img.id` as the uploader finds exactly `img` and `data`, which
/// is the success `get_image`'s contract then forces on reliable backends.
pub proof fn lemma_upload_then_fetch(
    catalog: Seq<Image>,
    blobs: Map<Seq<char>, Seq<u8>>,
    img: Image,
    data: Seq<u8>,
    caller: Seq<char>,
)
    requires
        img.user_id@ == caller,
        !has_id(catalog, img.id@),
    ensures
        fetch_found(
            catalog.push(img),
            blobs.insert(img.storage_path@, data),
            caller,
            img.id@,
            img,
            data,
        ),
{
    lemma_find_rec_push(catalog, img);
}

/// A caller other than the owner of an existing record is denied: the
/// outcome is the denied one, not the missing one, and no successful fetch
/// of that id by that caller is possible. With the contracts of
/// `get_image`, `transform_image` and `delete_image`, each of them then
/// fails with `AccessDenied` on a reliable catalog.
pub proof fn lemma_cross_owner_denied(
    catalog: Seq<Image>,
    blobs: Map<Seq<char>, Seq<u8>>,
    caller: Seq<char>,
    id: Seq<char>,
)
    requires
        match find_rec(catalog, id) {
            Some(img) => img.user_id@ != caller,
            None => false,
        },
    ensures
        fetch_denied(catalog, caller, id),
        !fetch_not_found(catalog, id),
        forall|img: Image, data: Seq<u8>| !fetch_found(catalog, blobs, caller, id, img, data),
{
}

/// A non-existent id is reported missing: the outcome is the missing one
/// for every caller — never the denied one, and never success. With the
/// contracts of `get_image`, `transform_image` and `delete_image`, each of
/// them then fails with `NotFound` on a reliable catalog.
pub proof fn lemma_missing_id_not_found(
    catalog: Seq<Image>,
    blobs: Map<Seq<char>, Seq<u8>>,
    caller: Seq<char>,
    id: Seq<char>,
)
    requires
        find_rec(catalog, id) is None,
    ensures
        fetch_not_found(catalog, id),
        !fetch_denied(catalog, caller, id),
        forall|img: Image, data: Seq<u8>| !fetch_found(catalog, blobs, caller, id, img, data),
{
}

/// A requested limit above the maximum is clamped: a listing never holds
/// more than `MAX_LIST_LIMIT` records, whatever limit was requested.
pub proof fn lemma_list_clamped(catalog: Seq<Image>, owner: Seq<char>, page: int, limit: int)
    requires
        page >= 1,
        limit >= 0,
    ensures
        spec_list(catalog, owner, page, limit).len() <= clamped_limit(limit),
        spec_list(catalog, owner, page, limit).len() <= MAX_LIST_LIMIT,
{
}

/// Every record in `owned_rev` carries the owner it was filtered by.
proof fn lemma_owned_rev_owner(catalog: Seq<Image>, owner: Seq<char>)
    ensures
        forall|i: int|
            0 <= i < owned_rev(catalog, owner).len() ==> owned_rev(catalog, owner)[i].user_id@
                == owner,
    decreases catalog.len(),
{
    if catalog.len() > 0 {
        lemma_owned_rev_owner(catalog.drop_last(), owner);
    }
}

/// A listing never holds a record owned by a different caller: every
/// record `spec_list` yields — and so, by `list_images`'s contract, every
/// record it returns — is owned by the requesting caller.
pub proof fn lemma_list_owner_only(catalog: Seq<Image>, owner: Seq<char>, page: int, limit: int)
    requires
        page >= 1,
        limit >= 0,
    ensures
        forall|i: int|
            0 <= i < spec_list(catalog, owner, page, limit).len() ==> spec_list(
                catalog,
                owner,
                page,
                limit,
            )[i].user_id@ == owner,
{
    lemma_owned_rev_owner(catalog, owner);
    let s = owned_rev(catalog, owner);
    let res = spec_list(catalog, owner, page, limit);
    let start = vstd::math::min((page - 1) * clamped_limit(limit), s.len() as int);
    assert forall|i: int| 0 <= i < res.len() implies res[i].user_id@ == owner by {
        assert(res[i] == s[start + i]);
    }
}

/// What a front end returns for one image record.
#[derive(Debug)]
pub struct ImageResponse {
    pub id: String,
    pub filename: String,
    pub original_filename: String,
    pub file_size: u64,
    pub mime_type: String,
    pub created_at: Option<u64>,
}

/// Whether a response mirrors a catalog record.
pub open spec fn response_matches(r: ImageResponse, img: Image) -> bool {
    &&& r.id@ == img.id@
    &&& r.filename@ == img.filename@
    &&& r.original_filename@ == img.original_filename@
    &&& r.file_size == img.file_size
    &&& r.mime_type@ == img.mime_type@
    &&& r.created_at == img.created_at
}

impl ImageResponse {
    /// The response for one record.
    pub fn from_image(img: &Image) -> (r: ImageResponse)
        ensures
            response_matches(r, *img),
    {
        ImageResponse {
            id: img.id.clone(),
            filename: img.filename.clone(),
            original_filename: img.original_filename.clone(),
            file_size: img.file_size,
            mime_type: img.mime_type.clone(),
            created_at: img.created_at,
        }
    }
}

/// One page of a listing as a front end returns it.
#[derive(Debug)]
pub struct ImageListResponse {
    pub images: Vec<ImageResponse>,
    pub total: usize,
    pub page: u64,
    pub limit: u64,
}

impl ImageListResponse {
    /// Packages one page of records with its pagination facts.
    pub fn build(images: &Vec<Image>, page: u64, limit: u64) -> (r: ImageListResponse)
        ensures
            r.images@.len() == images@.len(),
            forall|i: int| 0 <= i < images@.len() ==> response_matches(r.images@[i], images@[i]),
            r.total == images@.len(),
            r.page == page,
            r.limit == limit,
    {
        let mut out: Vec<ImageResponse> = Vec::new();
        let mut i: usize = 0;
        while i < images.len()
            invariant
                i <= images@.len(),
                out@.len() == i,
                forall|j: int| 0 <= j < i ==> response_matches(out@[j], images@[j]),
            decreases images@.len() - i,
        {
            out.push(ImageResponse::from_image(&images[i]));
            i += 1;
        }
        let total = images.len();
        ImageListResponse { images: out, total, page, limit }
    }
}

} // verus!
