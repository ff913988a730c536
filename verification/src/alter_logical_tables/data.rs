//! What the procedure keeps between its steps.
use std::sync::Arc;

use vstd::prelude::*;

use crate::sequences;
use crate::sequences::keep_unflagged;

verus! {

/// The types of the metadata service around the procedure. The procedure hands
/// values of them on and never looks inside.
pub trait DdlTypes: Sized {
    /// What the steps of a procedure reach the cluster with.
    type Context;

    /// What is altered in a table.
    type AlterKind;

    /// What is stored of a table.
    type TableInfo;

    /// Where a region is.
    type RegionRoute;

    /// A column of the physical table.
    type ColumnMetadata;

    /// A key of a table cache.
    type CacheIdent;

    /// A node that holds regions.
    type Peer;

    /// A request to alter the regions on a node.
    type RegionRequest;

    /// The response to such a request.
    type RegionResponse;

    /// Why something outside the procedure failed.
    type Failure;
}

/// The number of a table.
pub type TableId = u32;

/// The full name of a table.
#[derive(Debug, Clone, Copy)]
pub struct TableReference<'a> {
    pub catalog: &'a str,
    pub schema: &'a str,
    pub table: &'a str,
}

/// A logical table to alter.
pub struct AlterTableTask<D: DdlTypes> {
    pub catalog_name: String,
    pub schema_name: String,
    pub table_name: String,
    pub kind: D::AlterKind,
}

/// What is known of a table.
pub struct TableInfoValue<D: DdlTypes> {
    pub table_id: TableId,
    pub engine: String,
    pub value: D::TableInfo,
}

/// Where the regions of a physical table are.
pub struct PhysicalTableRouteValue<D: DdlTypes> {
    pub region_routes: Arc<Vec<D::RegionRoute>>,
}

/// The step that a procedure has come to.
#[derive(Debug, Clone, Copy, PartialEq, Eq, Structural)]
pub enum AlterTablesState {
    /// Prepares to alter the table.
    Prepare,
    SubmitAlterRegionRequests,
    /// Updates table metadata.
    UpdateMetadata,
    /// Broadcasts the invalidating table cache instruction.
    InvalidateTableCache,
}

/// What a procedure keeps between its steps.
pub struct AlterTablesData<D: DdlTypes> {
    pub state: AlterTablesState,
    pub tasks: Vec<AlterTableTask<D>>,
    /// Table info values before the alter operation.
    /// Corresponding one-to-one with the AlterTableTask in tasks.
    pub table_info_values: Vec<TableInfoValue<D>>,
    pub physical_table_id: TableId,
    pub physical_table_info: Option<TableInfoValue<D>>,
    pub physical_table_route: Option<PhysicalTableRouteValue<D>>,
    pub physical_columns: Vec<D::ColumnMetadata>,
    pub table_cache_keys_to_invalidate: Arc<Vec<D::CacheIdent>>,
}

impl AlterTablesState {
    /// The name of a step.
    pub open spec fn name(self) -> Seq<char> {
        match self {
            AlterTablesState::Prepare => "Prepare"@,
            AlterTablesState::SubmitAlterRegionRequests => "SubmitAlterRegionRequests"@,
            AlterTablesState::UpdateMetadata => "UpdateMetadata"@,
            AlterTablesState::InvalidateTableCache => "InvalidateTableCache"@,
        }
    }

    /// The name of a step, as it labels metrics.
    pub fn as_str(&self) -> (name: &'static str)
        ensures
            name@ == self.name(),
    {
        match self {
            AlterTablesState::Prepare => "Prepare",
            AlterTablesState::SubmitAlterRegionRequests => "SubmitAlterRegionRequests",
            AlterTablesState::UpdateMetadata => "UpdateMetadata",
            AlterTablesState::InvalidateTableCache => "InvalidateTableCache",
        }
    }
}

impl<D: DdlTypes> AlterTableTask<D> {
    /// The catalog, the schema and the name of the table to alter.
    pub open spec fn full_name(self) -> (Seq<char>, Seq<char>, Seq<char>) {
        (self.catalog_name@, self.schema_name@, self.table_name@)
    }

    /// The table to alter.
    pub fn table_ref(&self) -> (table: TableReference<'_>)
        ensures
            table.catalog@ == self.catalog_name@,
            table.schema@ == self.schema_name@,
            table.table@ == self.table_name@,
            (table.catalog@, table.schema@, table.table@) == self.full_name(),
    {
        TableReference {
            catalog: self.catalog_name.as_str(),
            schema: self.schema_name.as_str(),
            table: self.table_name.as_str(),
        }
    }
}

impl<D: DdlTypes> AlterTablesData<D> {
    /// Whether the table info values correspond one-to-one with the tasks.
    pub open spec fn one_to_one(self) -> bool {
        self.table_info_values@.len() == self.tasks@.len()
    }

    /// Where the regions of the physical table are, once that was looked up.
    pub open spec fn region_routes(self) -> Arc<Vec<D::RegionRoute>> {
        self.physical_table_route->0.region_routes
    }

    /// The same data with the finished tasks left out, and the values of their tables
    /// with them.
    pub open spec fn filtered(self, finished: Seq<bool>, new: AlterTablesData<D>) -> bool {
        &&& new.tasks@ == sequences::unflagged(self.tasks@, finished)
        &&& new.table_info_values@ == sequences::unflagged(self.table_info_values@, finished)
        &&& new == (AlterTablesData {
            tasks: new.tasks,
            table_info_values: new.table_info_values,
            ..self
        })
    }

    /// Leaves the finished tasks out.
    pub fn filter_task(&mut self, finished: &Vec<bool>)
        requires
            old(self).one_to_one(),
            finished@.len() == old(self).tasks@.len(),
        ensures
            old(self).filtered(finished@, *final(self)),
    {
        let mut tasks: Vec<AlterTableTask<D>> = Vec::new();
        std::mem::swap(&mut tasks, &mut self.tasks);
        self.tasks = keep_unflagged(tasks, finished);

        let mut values: Vec<TableInfoValue<D>> = Vec::new();
        std::mem::swap(&mut values, &mut self.table_info_values);
        self.table_info_values = keep_unflagged(values, finished);
    }

    /// Clears all data fields except `state` and `table_cache_keys_to_invalidate` after
    /// metadata update. This is done to avoid persisting unnecessary data after the
    /// update metadata step.
    pub fn clear_metadata_fields(&mut self)
        ensures
            final(self).cleared(),
            final(self).state == old(self).state,
            final(self).table_cache_keys_to_invalidate
                == old(self).table_cache_keys_to_invalidate,
    {
        self.tasks.clear();
        self.table_info_values.clear();
        self.physical_table_id = 0;
        self.physical_table_info = None;
        self.physical_table_route = None;
        self.physical_columns.clear();
    }

    /// Whether nothing is left but the state and the cache keys.
    pub open spec fn cleared(self) -> bool {
        &&& self.tasks@.len() == 0
        &&& self.table_info_values@.len() == 0
        &&& self.physical_table_id == 0
        &&& self.physical_table_info is None
        &&& self.physical_table_route is None
        &&& self.physical_columns@.len() == 0
    }
}

} // verus!
