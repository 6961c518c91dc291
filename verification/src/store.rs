//! An in-memory model of the configuration store: the same hierarchical
//! namespace of key paths and named values the OS store exposes, with the
//! same open / create / fetch / set outcomes.
//!
//! The worker logic is verified against this model, and the end-to-end
//! properties of the bridge (round trip, absence, ordering) are stated and
//! proved on it.  At the OS boundary the same decisions run against the
//! real store's outcomes instead.

use vstd::prelude::*;

use crate::accessor::CreateOutcome;
use crate::accessor::CreateOutcomeModel;
use crate::accessor::FetchOutcome;
use crate::accessor::FetchOutcomeModel;
use crate::accessor::OpenOutcome;
use crate::accessor::OpenOutcomeModel;
use crate::accessor::SetOutcome;
use crate::accessor::SetOutcomeModel;
use crate::codec::spec_decode;
use crate::outcome::ReadOutcomeModel;
use crate::outcome::RequestErrorModel;
use crate::outcome::ResponseModel;
use crate::root::StoreRoot;
use crate::value::clone_string;
use crate::value::NativeData;
use crate::value::NativeDataModel;

verus! {

/// A key path that exists within a root.
#[derive(Debug)]
pub struct PathKey {
    pub root: StoreRoot,
    pub path: String,
}

/// The mathematical model of a `PathKey`.
pub struct PathKeyModel {
    pub root: StoreRoot,
    pub path: Seq<char>,
}

impl View for PathKey {
    type V = PathKeyModel;

    open spec fn view(&self) -> PathKeyModel {
        PathKeyModel { root: self.root, path: self.path@ }
    }
}

impl DeepView for PathKey {
    type V = PathKeyModel;

    open spec fn deep_view(&self) -> PathKeyModel {
        self.view()
    }
}

/// A named value stored under a key path.
#[derive(Debug)]
pub struct Entry {
    pub root: StoreRoot,
    pub path: String,
    pub name: String,
    pub data: NativeData,
}

/// The mathematical model of an `Entry`.
pub struct EntryModel {
    pub root: StoreRoot,
    pub path: Seq<char>,
    pub name: Seq<char>,
    pub data: NativeDataModel,
}

impl View for Entry {
    type V = EntryModel;

    open spec fn view(&self) -> EntryModel {
        EntryModel { root: self.root, path: self.path@, name: self.name@, data: self.data@ }
    }
}

impl DeepView for Entry {
    type V = EntryModel;

    open spec fn deep_view(&self) -> EntryModel {
        self.view()
    }
}

/// The mathematical model of the store's contents.
pub struct StoreModel {
    pub keys: Seq<PathKeyModel>,
    pub entries: Seq<EntryModel>,
}

/// Whether some key of `keys` is `root`\`path`.
pub open spec fn spec_has_path(keys: Seq<PathKeyModel>, root: StoreRoot, path: Seq<char>) -> bool {
    exists|i: int| 0 <= i < keys.len() && #[trigger] keys[i].root == root && keys[i].path == path
}

/// The data stored for `root`\`path`\`name`, taking the latest entry when
/// several were written.
pub open spec fn spec_lookup(
    entries: Seq<EntryModel>,
    root: StoreRoot,
    path: Seq<char>,
    name: Seq<char>,
) -> Option<NativeDataModel>
    decreases entries.len(),
{
    if entries.len() == 0 {
        None
    } else if entries.last().root == root && entries.last().path == path && entries.last().name
        == name {
        Some(entries.last().data)
    } else {
        spec_lookup(entries.drop_last(), root, path, name)
    }
}

/// The store after a key path was resolved for writing: the path exists,
/// created if it was absent, and nothing else changes.
pub open spec fn spec_store_create(m: StoreModel, root: StoreRoot, path: Seq<char>) -> StoreModel {
    if spec_has_path(m.keys, root, path) {
        m
    } else {
        StoreModel { keys: m.keys.push(PathKeyModel { root, path }), entries: m.entries }
    }
}

/// The store after `data` was set under `root`\`path`\`name`: the new
/// entry shadows any earlier one of the same name.
pub open spec fn spec_store_set(
    m: StoreModel,
    root: StoreRoot,
    path: Seq<char>,
    name: Seq<char>,
    data: NativeDataModel,
) -> StoreModel {
    StoreModel { keys: m.keys, entries: m.entries.push(EntryModel { root, path, name, data }) }
}

/// What a read of `root`\`path`\`name` against the store resolves to: a
/// missing key path and a missing value name both surface as the "absent"
/// outcome, a stored value is decoded, and a stored foreign kind is
/// rejected, naming it.
pub open spec fn spec_read_response(
    m: StoreModel,
    root: StoreRoot,
    path: Seq<char>,
    name: Seq<char>,
) -> ResponseModel {
    if !spec_has_path(m.keys, root, path) {
        ResponseModel::Read(ReadOutcomeModel::Absent)
    } else {
        match spec_lookup(m.entries, root, path, name) {
            Some(d) => match spec_decode(d) {
                Ok(p) => ResponseModel::Read(ReadOutcomeModel::Present(p)),
                Err(k) => ResponseModel::Rejected(RequestErrorModel::UnsupportedType(k)),
            },
            None => ResponseModel::Read(ReadOutcomeModel::Absent),
        }
    }
}

/// The in-memory store: the key paths that exist, and the named values
/// written so far, latest last.
#[derive(Debug)]
pub struct ModelStore {
    pub keys: Vec<PathKey>,
    pub entries: Vec<Entry>,
}

impl View for ModelStore {
    type V = StoreModel;

    open spec fn view(&self) -> StoreModel {
        StoreModel { keys: self.keys.deep_view(), entries: self.entries.deep_view() }
    }
}

impl ModelStore {
    /// An empty store: no key paths, no values.
    pub fn new() -> (s: ModelStore)
        ensures
            s@.keys.len() == 0,
            s@.entries.len() == 0,
    {
        ModelStore { keys: Vec::new(), entries: Vec::new() }
    }

    /// Resolves a key path for reading: the path either exists or is
    /// reported not found.  The model store itself never fails.
    pub fn open_read(&self, root: StoreRoot, path: &String) -> (o: OpenOutcome)
        ensures
            o@ == if spec_has_path(self@.keys, root, path@) {
                OpenOutcomeModel::Opened
            } else {
                OpenOutcomeModel::NotFound
            },
    {
        if self.find_path(root, path) {
            OpenOutcome::Opened
        } else {
            OpenOutcome::NotFound
        }
    }

    /// Resolves a key path for writing, creating it if absent.  The model
    /// store itself never fails.
    pub fn create_write(&mut self, root: StoreRoot, path: &String) -> (o: CreateOutcome)
        ensures
            o@ == CreateOutcomeModel::Created,
            final(self)@ == spec_store_create(old(self)@, root, path@),
    {
        if !self.find_path(root, path) {
            self.keys.push(PathKey { root, path: clone_string(path) });
            proof {
                assert(self.keys.deep_view() =~= old(self).keys.deep_view().push(
                    PathKeyModel { root, path: path@ },
                ));
            }
        }
        CreateOutcome::Created
    }

    /// Fetches the value stored under `root`\`path`\`name`, or reports it
    /// not found.  The model store itself never fails.
    pub fn fetch(&self, root: StoreRoot, path: &String, name: &String) -> (f: FetchOutcome)
        ensures
            f@ == match spec_lookup(self@.entries, root, path@, name@) {
                Some(d) => FetchOutcomeModel::Fetched(d),
                None => FetchOutcomeModel::NotFound,
            },
    {
        let n = self.entries.len();
        proof {
            assert(self.entries.deep_view().subrange(0, n as int) =~= self.entries.deep_view());
        }
        let mut i: usize = n;
        while i > 0
            invariant
                i <= n,
                n == self.entries.len(),
                self.entries.deep_view().len() == n,
                spec_lookup(self.entries.deep_view(), root, path@, name@) == spec_lookup(
                    self.entries.deep_view().subrange(0, i as int),
                    root,
                    path@,
                    name@,
                ),
            decreases i,
        {
            i = i - 1;
            let e = &self.entries[i];
            proof {
                assert(self.entries.deep_view().subrange(0, i + 1).last() == self.entries.deep_view(
                )[i as int]);
                assert(self.entries.deep_view().subrange(0, i + 1).drop_last()
                    =~= self.entries.deep_view().subrange(0, i as int));
            }
            if e.root == root && e.path == *path && e.name == *name {
                return FetchOutcome::Fetched(e.data.duplicate());
            }
        }
        proof {
            assert(self.entries.deep_view().subrange(0, 0).len() == 0);
        }
        FetchOutcome::NotFound
    }

    /// Stores `data` under `root`\`path`\`name`, shadowing any earlier
    /// entry of the same name.  The model store itself never fails.
    pub fn set(&mut self, root: StoreRoot, path: &String, name: &String, data: NativeData) -> (s:
        SetOutcome)
        ensures
            s@ == SetOutcomeModel::Done,
            final(self)@ == spec_store_set(old(self)@, root, path@, name@, data@),
    {
        let ghost d = data@;
        self.entries.push(
            Entry { root, path: clone_string(path), name: clone_string(name), data },
        );
        proof {
            assert(self.entries.deep_view() =~= old(self).entries.deep_view().push(
                EntryModel { root, path: path@, name: name@, data: d },
            ));
        }
        SetOutcome::Done
    }

    /// Reports whether the key path `root`\`path` exists.
    fn find_path(&self, root: StoreRoot, path: &String) -> (r: bool)
        ensures
            r == spec_has_path(self@.keys, root, path@),
    {
        let n = self.keys.len();
        let mut i: usize = 0;
        while i < n
            invariant
                i <= n,
                n == self.keys.len(),
                self.keys.deep_view().len() == n,
                forall|j: int|
                    0 <= j < i ==> !(#[trigger] self.keys.deep_view()[j].root == root
                        && self.keys.deep_view()[j].path == path@),
            decreases n - i,
        {
            let k = &self.keys[i];
            if k.root == root && k.path == *path {
                proof {
                    assert(self.keys.deep_view()[i as int].root == root && self.keys.deep_view()[i as int].path
                        == path@);
                }
                return true;
            }
            i += 1;
        }
        false
    }
}

} // verus!
