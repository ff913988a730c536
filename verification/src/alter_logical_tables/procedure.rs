//! The procedure as a whole.
use std::sync::Arc;

use vstd::prelude::*;

use crate::alter_logical_tables::data::{
    AlterTableTask, AlterTablesData, AlterTablesState, DdlTypes, TableId,
};
use crate::alter_logical_tables::prepare::{PrepareAction, PrepareEvent};
use crate::alter_logical_tables::submit::{SubmitAction, SubmitEvent};
use crate::alter_logical_tables::update::{
    InvalidateAction, InvalidateEvent, UpdateAction, UpdateEvent,
};

verus! {

/// Alters logical tables on top of one physical table.
pub struct AlterLogicalTablesProcedure<D: DdlTypes> {
    pub context: D::Context,
    pub data: AlterTablesData<D>,
}

/// How far a procedure has come after a step.
#[derive(Debug, Clone, Copy, PartialEq, Eq, Structural)]
pub enum Status {
    /// There are more steps. The data is to be stored first if `persist` is set.
    Executing { persist: bool },
    Done,
}

/// What a step asks for first.
pub enum ExecuteAction<D: DdlTypes> {
    Prepare(PrepareAction<D>),
    SubmitAlterRegionRequests(SubmitAction<D>),
    UpdateMetadata(UpdateAction<D>),
    InvalidateTableCache(InvalidateAction<D>),
}

/// The error of data that could not be read back.
#[derive(Debug)]
pub struct FromJsonError<E> {
    pub error: E,
}

impl<D: DdlTypes> AlterLogicalTablesProcedure<D> {
    /// The name of the procedure among the procedures of the metadata service.
    pub const TYPE_NAME: &'static str = "metasrv-procedure::AlterLogicalTables";

    /// Whether the procedure was just made, with these tasks on this physical table.
    pub open spec fn is_new(
        self,
        tasks: Vec<AlterTableTask<D>>,
        physical_table_id: TableId,
        context: D::Context,
    ) -> bool {
        &&& self.context == context
        &&& self.data.state == AlterTablesState::Prepare
        &&& self.data.tasks == tasks
        &&& self.data.table_info_values@.len() == 0
        &&& self.data.physical_table_id == physical_table_id
        &&& self.data.physical_table_info is None
        &&& self.data.physical_table_route is None
        &&& self.data.physical_columns@.len() == 0
        &&& self.data.table_cache_keys_to_invalidate@.len() == 0
    }

    /// A procedure that is still to be prepared.
    pub fn new(
        tasks: Vec<AlterTableTask<D>>,
        physical_table_id: TableId,
        context: D::Context,
    ) -> (procedure: Self)
        ensures
            procedure.is_new(tasks, physical_table_id, context),
            procedure.context == context,
            procedure.data.state == AlterTablesState::Prepare,
            procedure.data.tasks == tasks,
            procedure.data.table_info_values@.len() == 0,
            procedure.data.physical_table_id == physical_table_id,
            procedure.data.physical_table_info is None,
            procedure.data.physical_table_route is None,
            procedure.data.physical_columns@.len() == 0,
            procedure.data.table_cache_keys_to_invalidate@.len() == 0,
    {
        AlterLogicalTablesProcedure {
            context,
            data: AlterTablesData {
                state: AlterTablesState::Prepare,
                tasks,
                table_info_values: Vec::new(),
                physical_table_id,
                physical_table_info: None,
                physical_table_route: None,
                physical_columns: Vec::new(),
                table_cache_keys_to_invalidate: Arc::new(Vec::new()),
            },
        }
    }

    /// The procedure with the data that was read back.
    pub open spec fn read_back(
        parsed: Result<AlterTablesData<D>, D::Failure>,
        context: D::Context,
    ) -> Result<Self, FromJsonError<D::Failure>> {
        match parsed {
            Ok(data) => Ok(AlterLogicalTablesProcedure { context, data }),
            Err(error) => Err(FromJsonError { error }),
        }
    }

    /// A procedure with the data that was read back from JSON.
    pub fn from_json(parsed: Result<AlterTablesData<D>, D::Failure>, context: D::Context) -> (res:
        Result<Self, FromJsonError<D::Failure>>)
        ensures
            res == (match parsed {
                Ok(data) => Ok(AlterLogicalTablesProcedure { context, data }),
                Err(error) => Err(FromJsonError { error }),
            }),
            res == Self::read_back(parsed, context),
    {
        match parsed {
            Ok(data) => Ok(AlterLogicalTablesProcedure { context, data }),
            Err(error) => Err(FromJsonError { error }),
        }
    }

    /// What the step that the procedure has come to asks for first.
    pub open spec fn first_action(self) -> ExecuteAction<D> {
        match self.data.state {
            AlterTablesState::Prepare => ExecuteAction::Prepare(PrepareAction::CheckInputTasks),
            AlterTablesState::SubmitAlterRegionRequests => {
                ExecuteAction::SubmitAlterRegionRequests(
                    SubmitAction::FindLeaders(self.data.region_routes()),
                )
            },
            AlterTablesState::UpdateMetadata => {
                ExecuteAction::UpdateMetadata(UpdateAction::UpdatePhysicalTable)
            },
            AlterTablesState::InvalidateTableCache => {
                ExecuteAction::InvalidateTableCache(
                    InvalidateAction::Invalidate(self.data.table_cache_keys_to_invalidate),
                )
            },
        }
    }

    /// Starts the step that the procedure has come to.
    pub fn execute(&mut self) -> (action: ExecuteAction<D>)
        requires
            old(self).data.state == AlterTablesState::SubmitAlterRegionRequests
                ==> old(self).data.physical_table_route is Some,
        ensures
            *final(self) == *old(self),
            action == old(self).first_action(),
    {
        match self.data.state {
            AlterTablesState::Prepare => {
                ExecuteAction::Prepare(self.on_prepare(PrepareEvent::Begin))
            },
            AlterTablesState::SubmitAlterRegionRequests => {
                ExecuteAction::SubmitAlterRegionRequests(
                    self.on_submit_alter_region_requests(SubmitEvent::Begin),
                )
            },
            AlterTablesState::UpdateMetadata => {
                ExecuteAction::UpdateMetadata(self.on_update_metadata(UpdateEvent::Begin))
            },
            AlterTablesState::InvalidateTableCache => {
                ExecuteAction::InvalidateTableCache(
                    self.on_invalidate_table_cache(InvalidateEvent::Begin),
                )
            },
        }
    }

    /// The name of the procedure.
    pub fn procedure_name(&self) -> (name: &str)
        ensures
            name@ == "metasrv-procedure::AlterLogicalTables"@,
    {
        Self::TYPE_NAME
    }
}

} // verus!
