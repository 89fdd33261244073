//! The catalog manager: the metadata directory of catalogs → schemas →
//! tables, whose own persistent state is a table hosted inside the analytic
//! engine and reached through the table-engine proxy.
//!
//! This is the bootstrapping cycle of the system — the catalog is stored in
//! the engine it catalogs — and it is resolved purely by phase ordering: the
//! engine and the proxy must exist before the catalog is opened. The catalog
//! layer adds no independent persistence of its own.

use vstd::prelude::*;
use crate::engine::{StorageEngineHandle, TableEngineProxy};

verus! {

/// The table-based catalog store: catalog metadata lives in ordinary tables
/// of the analytic engine.
#[derive(Clone, Copy, Debug, PartialEq, Eq, Structural)]
pub struct TableBasedManager {
    /// The engine hosting the catalog tables.
    pub engine: StorageEngineHandle,
}

impl TableBasedManager {
    /// Open the table-based catalog store on the given engine, reached
    /// through the given proxy. The proxy must route analytic-tagged
    /// operations to that same engine, else catalog reads and writes would
    /// land elsewhere.
    pub fn new(engine: StorageEngineHandle, proxy: &TableEngineProxy) -> (r: TableBasedManager)
        requires
            proxy.analytic == engine,
        ensures
            r.engine == engine,
    {
        TableBasedManager { engine }
    }
}

/// The catalog manager handed to the query layer and the server.
#[derive(Clone, Copy, Debug, PartialEq, Eq, Structural)]
pub struct CatalogManagerImpl {
    pub inner: TableBasedManager,
}

impl CatalogManagerImpl {
    /// Whether this catalog manager is backed by the analytic engine the
    /// given proxy routes to.
    pub open spec fn backed_by(self, proxy: TableEngineProxy) -> bool {
        self.inner.engine == proxy.analytic
    }

    /// Wrap the table-based store as the catalog manager.
    pub fn new(inner: TableBasedManager) -> (r: CatalogManagerImpl)
        ensures
            r.inner == inner,
    {
        CatalogManagerImpl { inner }
    }
}

} // verus!
