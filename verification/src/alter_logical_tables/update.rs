//! The last two steps: updating the metadata, and invalidating the caches of it.
use std::sync::Arc;

use vstd::prelude::*;

use crate::alter_logical_tables::data::{AlterTablesData, AlterTablesState, DdlTypes};
use crate::alter_logical_tables::procedure::{AlterLogicalTablesProcedure, Status};

verus! {

/// What became of the last thing that the update of the metadata asked for.
pub enum UpdateEvent<D: DdlTypes> {
    /// Nothing was asked for yet.
    Begin,
    PhysicalTableUpdated(Result<(), D::Failure>),
    LogicalTablesUpdated(Result<(), D::Failure>),
    /// The cache keys of the physical and the logical tables.
    CacheKeysBuilt(Vec<D::CacheIdent>),
}

/// What the update of the metadata asks for next.
pub enum UpdateAction<D: DdlTypes> {
    /// Store the columns of the physical table.
    UpdatePhysicalTable,
    /// Store the altered logical tables.
    UpdateLogicalTables,
    /// Build the keys of the caches that are to be invalidated.
    BuildCacheKeys,
    /// The step has ended.
    Return(Result<Status, D::Failure>),
}

/// What became of the last thing that the invalidation asked for.
pub enum InvalidateEvent<D: DdlTypes> {
    /// Nothing was asked for yet.
    Begin,
    Invalidated(Result<(), D::Failure>),
}

/// What the invalidation asks for next.
pub enum InvalidateAction<D: DdlTypes> {
    /// Invalidate the caches of these keys.
    Invalidate(Arc<Vec<D::CacheIdent>>),
    /// The step has ended.
    Return(Result<Status, D::Failure>),
}

impl<D: DdlTypes> AlterTablesData<D> {
    /// What the update of the metadata makes of an event: the data after it, and what
    /// it asks for next. A failure ends the step and leaves the data as it is. In the
    /// end only the cache keys are kept.
    pub open spec fn update_leads_to(
        self,
        event: UpdateEvent<D>,
        new: AlterTablesData<D>,
        action: UpdateAction<D>,
    ) -> bool {
        match event {
            UpdateEvent::Begin => new == self && action == UpdateAction::<D>::UpdatePhysicalTable,
            UpdateEvent::PhysicalTableUpdated(Ok(_)) => {
                new == self && action == UpdateAction::<D>::UpdateLogicalTables
            },
            UpdateEvent::LogicalTablesUpdated(Ok(_)) => {
                new == self && action == UpdateAction::<D>::BuildCacheKeys
            },
            UpdateEvent::CacheKeysBuilt(keys) => {
                &&& new.state == AlterTablesState::InvalidateTableCache
                &&& *new.table_cache_keys_to_invalidate == keys
                &&& new.cleared()
                &&& action == UpdateAction::<D>::Return(Ok(Status::Executing { persist: true }))
            },
            UpdateEvent::PhysicalTableUpdated(Err(failure))
            | UpdateEvent::LogicalTablesUpdated(Err(failure)) => {
                new == self && action == UpdateAction::<D>::Return(Err(failure))
            },
        }
    }

    /// What the invalidation makes of an event.
    pub open spec fn invalidate_next(self, event: InvalidateEvent<D>) -> InvalidateAction<D> {
        match event {
            InvalidateEvent::Begin => {
                InvalidateAction::Invalidate(self.table_cache_keys_to_invalidate)
            },
            InvalidateEvent::Invalidated(Ok(_)) => InvalidateAction::Return(Ok(Status::Done)),
            InvalidateEvent::Invalidated(Err(failure)) => InvalidateAction::Return(Err(failure)),
        }
    }
}

impl<D: DdlTypes> AlterLogicalTablesProcedure<D> {
    /// Updates the metadata of the tables. Starts with `UpdateEvent::Begin`, and goes
    /// on with what became of each action.
    pub fn on_update_metadata(&mut self, event: UpdateEvent<D>) -> (action: UpdateAction<D>)
        ensures
            old(self).data.update_leads_to(event, final(self).data, action),
            final(self).context == old(self).context,
    {
        match event {
            UpdateEvent::Begin => UpdateAction::UpdatePhysicalTable,
            UpdateEvent::PhysicalTableUpdated(Ok(_)) => UpdateAction::UpdateLogicalTables,
            UpdateEvent::LogicalTablesUpdated(Ok(_)) => UpdateAction::BuildCacheKeys,
            UpdateEvent::CacheKeysBuilt(keys) => {
                self.data.table_cache_keys_to_invalidate = Arc::new(keys);
                self.data.clear_metadata_fields();
                self.data.state = AlterTablesState::InvalidateTableCache;
                UpdateAction::Return(Ok(Status::Executing { persist: true }))
            },
            UpdateEvent::PhysicalTableUpdated(Err(failure))
            | UpdateEvent::LogicalTablesUpdated(Err(failure)) => UpdateAction::Return(Err(failure)),
        }
    }

    /// Invalidates the table caches. Starts with `InvalidateEvent::Begin`, and goes on
    /// with what became of each action.
    pub fn on_invalidate_table_cache(&self, event: InvalidateEvent<D>) -> (action:
        InvalidateAction<D>)
        ensures
            action == self.data.invalidate_next(event),
    {
        match event {
            InvalidateEvent::Begin => {
                InvalidateAction::Invalidate(self.data.table_cache_keys_to_invalidate.clone())
            },
            InvalidateEvent::Invalidated(Ok(_)) => InvalidateAction::Return(Ok(Status::Done)),
            InvalidateEvent::Invalidated(Err(failure)) => InvalidateAction::Return(Err(failure)),
        }
    }
}

} // verus!
