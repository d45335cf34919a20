use vstd::prelude::*;
use crate::mapping::{MappingDb, MappingView};
use crate::meta::{MetaDb, MetaView};

verus! {

/// Where the index is kept on disk.
pub enum DatabaseSettingsSrc {
    /// A RocksDB database at `path`, with `cache_size` MiB of cache.
    RocksDb { path: String, cache_size: usize },
}

impl DatabaseSettingsSrc {
    /// The path of the database on disk.
    pub fn path(&self) -> (r: Option<&str>)
        ensures
            match self {
                DatabaseSettingsSrc::RocksDb { path, .. } => r matches Some(p) && p@ == path@,
            },
    {
        match self {
            DatabaseSettingsSrc::RocksDb { path, .. } => Some(path.as_str()),
        }
    }
}

/// The settings the index is opened with.
pub struct DatabaseSettings {
    pub source: DatabaseSettingsSrc,
}

/// What the whole index holds.
pub struct BackendView {
    pub meta: MetaView,
    pub mapping: MappingView,
}

/// The index: the checkpoint store and the mapping store.
pub struct Backend {
    pub meta: MetaDb,
    pub mapping: MappingDb,
}

impl View for Backend {
    type V = BackendView;

    open spec fn view(&self) -> BackendView {
        BackendView { meta: self.meta@, mapping: self.mapping@ }
    }
}

impl Backend {
    pub open spec fn wf(&self) -> bool {
        self.meta.wf() && self.mapping.wf()
    }

    /// An empty index, held in memory.
    pub fn new() -> (r: Backend)
        ensures
            r.wf(),
            r@.meta == MetaView::empty(),
            r@.mapping == MappingView::empty(),
    {
        Backend { meta: MetaDb::new(), mapping: MappingDb::new() }
    }

    /// The mapping store.
    pub fn mapping(&self) -> (r: &MappingDb)
        ensures
            r == &self.mapping,
    {
        &self.mapping
    }

    /// The checkpoint store.
    pub fn meta(&self) -> (r: &MetaDb)
        ensures
            r == &self.meta,
    {
        &self.meta
    }
}

} // verus!
