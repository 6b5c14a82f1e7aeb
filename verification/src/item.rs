//! Listed entries, object metadata, and the hierarchical result cache.
//!
//! The cache memoizes one listing per navigation path and one metadata
//! record per composite object key.  Entries are only ever added or
//! replaced, never evicted; a replacement is appended and later entries
//! override earlier ones, so the view of the cache is a map.

use vstd::prelude::*;

verus! {

/// One entry of a listing: a bucket, a directory-like prefix, or a file.
#[derive(Debug, PartialEq, Eq)]
pub enum Item {
    Bucket { name: String },
    Prefix { name: String },
    File { name: String, size_byte: u64, last_modified: i64 },
}

impl Item {
    /// The display name of the entry, whatever its kind.
    pub open spec fn spec_name(&self) -> Seq<char> {
        match self {
            Item::Bucket { name } => name@,
            Item::Prefix { name } => name@,
            Item::File { name, .. } => name@,
        }
    }

    /// True for `File` entries only.
    pub open spec fn is_file(&self) -> bool {
        self is File
    }

    pub fn name(&self) -> (r: &String)
        ensures
            r@ == self.spec_name(),
    {
        match self {
            Item::Bucket { name } => name,
            Item::Prefix { name } => name,
            Item::File { name, .. } => name,
        }
    }
}

impl Clone for Item {
    fn clone(&self) -> (res: Self)
        ensures
            res == self,
    {
        match self {
            Item::Bucket { name } => Item::Bucket { name: name.clone() },
            Item::Prefix { name } => Item::Prefix { name: name.clone() },
            Item::File { name, size_byte, last_modified } => Item::File {
                name: name.clone(),
                size_byte: *size_byte,
                last_modified: *last_modified,
            },
        }
    }
}

/// Full metadata of one object, shown on the detail page.
#[derive(Debug, PartialEq, Eq)]
pub struct FileDetail {
    pub name: String,
    pub size_byte: u64,
    /// Seconds since the epoch of the last modification.
    pub last_modified: i64,
    pub e_tag: String,
    pub content_type: String,
    pub storage_class: String,
    pub key: String,
    pub s3_uri: String,
    pub arn: String,
    pub object_url: String,
}

impl Clone for FileDetail {
    fn clone(&self) -> (res: Self)
        ensures
            res == self,
    {
        FileDetail {
            name: self.name.clone(),
            size_byte: self.size_byte,
            last_modified: self.last_modified,
            e_tag: self.e_tag.clone(),
            content_type: self.content_type.clone(),
            storage_class: self.storage_class.clone(),
            key: self.key.clone(),
            s3_uri: self.s3_uri.clone(),
            arn: self.arn.clone(),
            object_url: self.object_url.clone(),
        }
    }
}

/// One historical version of an object.
#[derive(Debug, PartialEq, Eq)]
pub struct FileVersion {
    pub version_id: String,
    pub size_byte: u64,
    /// Seconds since the epoch of the last modification.
    pub last_modified: i64,
    pub is_latest: bool,
}

impl Clone for FileVersion {
    fn clone(&self) -> (res: Self)
        ensures
            res == self,
    {
        FileVersion {
            version_id: self.version_id.clone(),
            size_byte: self.size_byte,
            last_modified: self.last_modified,
            is_latest: self.is_latest,
        }
    }
}

/// The raw bytes of a downloaded object.
#[derive(Debug, PartialEq, Eq)]
pub struct RawObject {
    pub bytes: Vec<u8>,
}

/// The listing map described by a sequence of `(path, items)` records,
/// later records overriding earlier ones.
pub open spec fn items_map_of(entries: Seq<(Vec<String>, Vec<Item>)>) -> Map<
    Seq<Seq<char>>,
    Seq<Item>,
>
    decreases entries.len(),
{
    if entries.len() == 0 {
        Map::empty()
    } else {
        items_map_of(entries.drop_last()).insert(
            entries.last().0.deep_view(),
            entries.last().1@,
        )
    }
}

/// The metadata map described by a sequence of `(key, detail, versions)`
/// records, later records overriding earlier ones.
pub open spec fn details_map_of(entries: Seq<(String, FileDetail, Vec<FileVersion>)>) -> Map<
    Seq<char>,
    (FileDetail, Seq<FileVersion>),
>
    decreases entries.len(),
{
    if entries.len() == 0 {
        Map::empty()
    } else {
        details_map_of(entries.drop_last()).insert(
            entries.last().0@,
            (entries.last().1, entries.last().2@),
        )
    }
}

/// The listing cached for `path`, or the empty listing when the path was
/// never loaded.
pub open spec fn cached_items(m: Map<Seq<Seq<char>>, Seq<Item>>, path: Seq<Seq<char>>) -> Seq<
    Item,
> {
    if m.contains_key(path) {
        m[path]
    } else {
        Seq::empty()
    }
}

/// True when the two paths consist of the same segments.
pub fn path_eq(a: &Vec<String>, b: &Vec<String>) -> (r: bool)
    ensures
        r == (a.deep_view() == b.deep_view()),
{
    if a.len() != b.len() {
        proof {
            assert(a.deep_view().len() == a@.len());
            assert(b.deep_view().len() == b@.len());
        }
        return false;
    }
    let n = a.len();
    let mut i: usize = 0;
    while i < n
        invariant
            n == a@.len() && n == b@.len(),
            i <= n,
            forall|j: int| 0 <= j < i ==> a@[j]@ == b@[j]@,
        decreases n - i,
    {
        if !(a[i] == b[i]) {
            proof {
                assert(a.deep_view()[i as int] == a@[i as int]@);
                assert(b.deep_view()[i as int] == b@[i as int]@);
            }
            return false;
        }
        i = i + 1;
    }
    proof {
        assert(a.deep_view() =~= b.deep_view());
    }
    true
}

/// A copy of a navigation path, segment by segment.
pub fn clone_path(v: &Vec<String>) -> (r: Vec<String>)
    ensures
        r@ == v@,
{
    let mut out: Vec<String> = Vec::new();
    let mut i: usize = 0;
    while i < v.len()
        invariant
            i <= v@.len(),
            out@ =~= v@.take(i as int),
        decreases v@.len() - i,
    {
        out.push(v[i].clone());
        proof {
            assert(v@.take(i + 1 as int) =~= v@.take(i as int).push(v@[i as int]));
        }
        i = i + 1;
    }
    proof {
        assert(v@.take(v@.len() as int) =~= v@);
    }
    out
}

/// A copy of the listing, entry by entry.
pub fn clone_items(v: &Vec<Item>) -> (r: Vec<Item>)
    ensures
        r@ == v@,
{
    let mut out: Vec<Item> = Vec::new();
    let mut i: usize = 0;
    while i < v.len()
        invariant
            i <= v@.len(),
            out@ =~= v@.take(i as int),
        decreases v@.len() - i,
    {
        out.push(v[i].clone());
        proof {
            assert(v@.take(i + 1 as int) =~= v@.take(i as int).push(v@[i as int]));
        }
        i = i + 1;
    }
    proof {
        assert(v@.take(v@.len() as int) =~= v@);
    }
    out
}

/// The cache round trip: recording a listing and reading the same path
/// back returns that listing, in order; a path that was never recorded
/// reads back as the empty listing, and only recorded paths exist.
pub proof fn lemma_cache_round_trip(
    m: Map<Seq<Seq<char>>, Seq<Item>>,
    p: Seq<Seq<char>>,
    items: Seq<Item>,
    q: Seq<Seq<char>>,
)
    ensures
        cached_items(m.insert(p, items), p) == items,
        m.insert(p, items).contains_key(p),
        !m.contains_key(q) ==> cached_items(m, q) == Seq::<Item>::empty(),
        q != p ==> m.insert(p, items).contains_key(q) == m.contains_key(q),
        q != p && m.contains_key(q) ==> cached_items(m.insert(p, items), q) == cached_items(m, q),
{
}

/// The hierarchical result cache: one listing per path, one metadata
/// record per composite object key.  Nothing is ever evicted.
pub struct AppObjects {
    pub items: Vec<(Vec<String>, Vec<Item>)>,
    pub details: Vec<(String, FileDetail, Vec<FileVersion>)>,
}

impl AppObjects {
    /// The path-to-listing view of the cache.
    pub open spec fn items_map(&self) -> Map<Seq<Seq<char>>, Seq<Item>> {
        items_map_of(self.items@)
    }

    /// The key-to-metadata view of the cache.
    pub open spec fn details_map(&self) -> Map<Seq<char>, (FileDetail, Seq<FileVersion>)> {
        details_map_of(self.details@)
    }

    pub fn new() -> (r: AppObjects)
        ensures
            r.items_map() == Map::<Seq<Seq<char>>, Seq<Item>>::empty(),
            r.details_map() == Map::<Seq<char>, (FileDetail, Seq<FileVersion>)>::empty(),
    {
        AppObjects { items: Vec::new(), details: Vec::new() }
    }

    /// Index of the record that currently describes `keys`, if the path
    /// was ever loaded: the latest record for it.
    fn find_items(&self, keys: &Vec<String>) -> (r: Option<usize>)
        ensures
            match r {
                Some(i) => {
                    &&& i < self.items@.len()
                    &&& self.items@[i as int].0.deep_view() == keys.deep_view()
                    &&& self.items_map().contains_key(keys.deep_view())
                    &&& self.items_map()[keys.deep_view()] == self.items@[i as int].1@
                },
                None => !self.items_map().contains_key(keys.deep_view()),
            },
    {
        let mut i: usize = self.items.len();
        proof {
            assert(self.items@.take(i as int) =~= self.items@);
        }
        while i > 0
        invariant
                i <= self.items@.len(),
                ({
                    let k = keys.deep_view();
                    let whole = self.items_map();
                    let part = items_map_of(self.items@.take(i as int));
                    &&& whole.contains_key(k) == part.contains_key(k)
                    &&& whole.contains_key(k) ==> whole[k] == part[k]
                }),
        decreases i,
        {
            i = i - 1;
            proof {
                let pre = self.items@.take(i as int + 1);
                let cur = self.items@.take(i as int);
                assert(pre.drop_last() =~= cur);
                assert(pre.last() == self.items@[i as int]);
                assert(pre.len() > 0);
                assert(items_map_of(pre) == items_map_of(cur).insert(
                    self.items@[i as int].0.deep_view(),
                    self.items@[i as int].1@,
                ));
            }
            if path_eq(&self.items[i].0, keys) {
                return Some(i);
            }
        }
        proof {
            assert(self.items@.take(0) =~= Seq::<(Vec<String>, Vec<Item>)>::empty());
        }
        None
    }

    /// Index of the record that currently describes `key` in the
    /// metadata cache, if the key was ever loaded.
    fn find_details(&self, key: &String) -> (r: Option<usize>)
        ensures
            match r {
                Some(i) => {
                    &&& i < self.details@.len()
                    &&& self.details@[i as int].0@ == key@
                    &&& self.details_map().contains_key(key@)
                    &&& self.details_map()[key@] == (
                        self.details@[i as int].1,
                        self.details@[i as int].2@,
                    )
                },
                None => !self.details_map().contains_key(key@),
            },
    {
        let mut i: usize = self.details.len();
        proof {
            assert(self.details@.take(i as int) =~= self.details@);
        }
        while i > 0
        invariant
                i <= self.details@.len(),
                ({
                    let k = key@;
                    let whole = self.details_map();
                    let part = details_map_of(self.details@.take(i as int));
                    &&& whole.contains_key(k) == part.contains_key(k)
                    &&& whole.contains_key(k) ==> whole[k] == part[k]
                }),
        decreases i,
        {
            i = i - 1;
            proof {
                let pre = self.details@.take(i as int + 1);
                let cur = self.details@.take(i as int);
                assert(pre.drop_last() =~= cur);
                assert(pre.last() == self.details@[i as int]);
                assert(pre.len() > 0);
                assert(details_map_of(pre) == details_map_of(cur).insert(
                    self.details@[i as int].0@,
                    (self.details@[i as int].1, self.details@[i as int].2@),
                ));
            }
            if self.details[i].0 == *key {
                return Some(i);
            }
        }
        proof {
            assert(self.details@.take(0) =~= Seq::<(String, FileDetail, Vec<FileVersion>)>::empty());
        }
        None
    }

    /// Record the listing for `path`, replacing any earlier one.
    pub fn set_items(&mut self, path: Vec<String>, items: Vec<Item>)
        ensures
            final(self).items_map() == old(self).items_map().insert(path.deep_view(), items@),
            final(self).details_map() == old(self).details_map(),
    {
        self.items.push((path, items));
        proof {
            assert(self.items@.drop_last() =~= old(self).items@);
        }
    }

    /// The listing cached for `keys`; the empty listing when there is
    /// none.
    pub fn get_items(&self, keys: &Vec<String>) -> (r: Vec<Item>)
        ensures
            r@ == cached_items(self.items_map(), keys.deep_view()),
    {
        match self.find_items(keys) {
            Some(i) => clone_items(&self.items[i].1),
            None => Vec::new(),
        }
    }

    /// How many entries are cached for `keys`; `0` when none are.
    pub fn get_items_len(&self, keys: &Vec<String>) -> (r: usize)
        ensures
            r == cached_items(self.items_map(), keys.deep_view()).len(),
    {
        match self.find_items(keys) {
            Some(i) => self.items[i].1.len(),
            None => 0,
        }
    }

    /// Whether a listing was ever recorded for `keys`.
    pub fn exists_item(&self, keys: &Vec<String>) -> (r: bool)
        ensures
            r == self.items_map().contains_key(keys.deep_view()),
    {
        self.find_items(keys).is_some()
    }

    /// The entry at `idx` of the listing cached for `keys`, if both the
    /// listing and the index exist.
    pub fn get_item(&self, keys: &Vec<String>, idx: usize) -> (r: Option<&Item>)
        ensures
            match r {
                Some(item) => {
                    &&& idx < cached_items(self.items_map(), keys.deep_view()).len()
                    &&& *item == cached_items(self.items_map(), keys.deep_view())[idx as int]
                },
                None => idx >= cached_items(self.items_map(), keys.deep_view()).len(),
            },
    {
        match self.find_items(keys) {
            Some(i) => {
                let entry = &self.items[i];
                if idx < entry.1.len() {
                    Some(&entry.1[idx])
                } else {
                    None
                }
            },
            None => None,
        }
    }

    /// Record metadata and version history for `key`, replacing any
    /// earlier record.
    pub fn set_object_details(&mut self, key: &String, detail: FileDetail, versions: Vec<
        FileVersion,
    >)
        ensures
            final(self).details_map() == old(self).details_map().insert(
                key@,
                (detail, versions@),
            ),
            final(self).items_map() == old(self).items_map(),
    {
        self.details.push((key.clone(), detail, versions));
        proof {
            assert(self.details@.drop_last() =~= old(self).details@);
        }
    }

    /// The metadata cached for `key`, if any.
    pub fn get_object_detail(&self, key: &String) -> (r: Option<&FileDetail>)
        ensures
            match r {
                Some(d) => {
                    &&& self.details_map().contains_key(key@)
                    &&& *d == self.details_map()[key@].0
                },
                None => !self.details_map().contains_key(key@),
            },
    {
        match self.find_details(key) {
            Some(i) => Some(&self.details[i].1),
            None => None,
        }
    }

    /// The version history cached for `key`, if any.
    pub fn get_object_versions(&self, key: &String) -> (r: Option<&Vec<FileVersion>>)
        ensures
            match r {
                Some(v) => {
                    &&& self.details_map().contains_key(key@)
                    &&& v@ == self.details_map()[key@].1
                },
                None => !self.details_map().contains_key(key@),
            },
    {
        match self.find_details(key) {
            Some(i) => Some(&self.details[i].2),
            None => None,
        }
    }

    /// Whether metadata was ever recorded for `key`.
    pub fn exists_object_details(&self, key: &String) -> (r: bool)
        ensures
            r == self.details_map().contains_key(key@),
    {
        self.find_details(key).is_some()
    }
}

} // verus!
