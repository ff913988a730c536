//! The first step: checking the tasks, and finding out what is left to do.
use vstd::prelude::*;

use crate::alter_logical_tables::data::{
    AlterTablesData, AlterTablesState, DdlTypes, PhysicalTableRouteValue, TableInfoValue,
};
use crate::alter_logical_tables::procedure::{AlterLogicalTablesProcedure, Status};

verus! {

/// What became of the last thing that the preparation asked for.
pub enum PrepareEvent<D: DdlTypes> {
    /// Nothing was asked for yet.
    Begin,
    InputTasksChecked(Result<(), D::Failure>),
    /// The values of the tables of the tasks, in the order of the tasks.
    TableInfoValuesFilled(Result<Vec<TableInfoValue<D>>, D::Failure>),
    PhysicalTableChecked(Result<(), D::Failure>),
    PhysicalTableInfoFilled(
        Result<(TableInfoValue<D>, PhysicalTableRouteValue<D>), D::Failure>,
    ),
    /// For each task whether it was finished before, in the order of the tasks.
    FinishedTasksChecked(Result<Vec<bool>, D::Failure>),
}

/// What the preparation asks for next.
pub enum PrepareAction<D: DdlTypes> {
    /// Check all the tasks.
    CheckInputTasks,
    /// Look up the tables of the tasks.
    FillTableInfoValues,
    /// Check the physical table against the tables of the tasks.
    CheckPhysicalTable,
    /// Look up the physical table and its route.
    FillPhysicalTableInfo,
    /// Find out which tasks were finished before.
    CheckFinishedTasks,
    /// The step has ended.
    Return(Result<Status, D::Failure>),
}

/// Whether all flags are set.
pub open spec fn all_set(flags: Seq<bool>) -> bool {
    forall|i: int| 0 <= i < flags.len() ==> flags[i]
}

/// How many flags are set.
pub open spec fn set_flags(flags: Seq<bool>) -> nat
    decreases flags.len(),
{
    if flags.len() == 0 {
        0
    } else {
        set_flags(flags.drop_last()) + (if flags.last() {
            1nat
        } else {
            0
        })
    }
}

/// Counts the flags that are set.
fn count_set(flags: &Vec<bool>) -> (count: usize)
    ensures
        count == set_flags(flags@),
{
    let len: usize = flags.len();
    let mut count: usize = 0;
    for i in 0..len
        invariant
            len == flags@.len(),
            count == set_flags(flags@.take(i as int)),
            count <= i,
    {
        assert(flags@.take(i + 1).drop_last() =~= flags@.take(i as int));
        if flags[i] {
            count = count + 1;
        }
    }
    assert(flags@.take(len as int) =~= flags@);
    count
}

/// All flags are set if as many are set as there are.
proof fn lemma_all_set(flags: Seq<bool>)
    ensures
        set_flags(flags) <= flags.len(),
        set_flags(flags) == flags.len() <==> all_set(flags),
    decreases flags.len(),
{
    if flags.len() > 0 {
        lemma_all_set(flags.drop_last());
        assert(forall|i: int|
            0 <= i < flags.len() - 1 ==> #[trigger] flags[i] == flags.drop_last()[i]);
        if all_set(flags) {
            assert(flags[flags.len() - 1]);
            assert(all_set(flags.drop_last()));
        } else if flags.last() && all_set(flags.drop_last()) {
            assert forall|i: int| 0 <= i < flags.len() implies flags[i] by {
                if i < flags.len() - 1 {
                    assert(flags.drop_last()[i]);
                }
            }
        }
    }
}

impl<D: DdlTypes> AlterTablesData<D> {
    /// What the preparation makes of an event: the data after it, and what it asks
    /// for next. A failure ends the step and leaves the data as it is.
    pub open spec fn prepare_leads_to(
        self,
        event: PrepareEvent<D>,
        new: AlterTablesData<D>,
        action: PrepareAction<D>,
    ) -> bool {
        match event {
            PrepareEvent::Begin => new == self && action == PrepareAction::<D>::CheckInputTasks,
            PrepareEvent::InputTasksChecked(Ok(_)) => {
                new == self && action == PrepareAction::<D>::FillTableInfoValues
            },
            PrepareEvent::TableInfoValuesFilled(Ok(values)) => {
                &&& new == (AlterTablesData { table_info_values: values, ..self })
                &&& action == PrepareAction::<D>::CheckPhysicalTable
            },
            PrepareEvent::PhysicalTableChecked(Ok(_)) => {
                new == self && action == PrepareAction::<D>::FillPhysicalTableInfo
            },
            PrepareEvent::PhysicalTableInfoFilled(Ok((info, route))) => {
                &&& new == (AlterTablesData {
                    physical_table_info: Some(info),
                    physical_table_route: Some(route),
                    ..self
                })
                &&& action == PrepareAction::<D>::CheckFinishedTasks
            },
            PrepareEvent::FinishedTasksChecked(Ok(finished)) => {
                &&& self.prepared(finished@, new)
                &&& action == PrepareAction::<D>::Return(Ok(Status::Executing { persist: true }))
            },
            PrepareEvent::InputTasksChecked(Err(failure))
            | PrepareEvent::TableInfoValuesFilled(Err(failure))
            | PrepareEvent::PhysicalTableChecked(Err(failure))
            | PrepareEvent::PhysicalTableInfoFilled(Err(failure))
            | PrepareEvent::FinishedTasksChecked(Err(failure)) => {
                new == self && action == PrepareAction::<D>::Return(Err(failure))
            },
        }
    }

    /// The data at the end of the preparation. Where all tasks are finished, the table
    /// cache is invalidated once more and nothing else is done. Otherwise the tasks that
    /// are left are submitted.
    pub open spec fn prepared(self, finished: Seq<bool>, new: AlterTablesData<D>) -> bool {
        if all_set(finished) {
            new == (AlterTablesData { state: AlterTablesState::InvalidateTableCache, ..self })
        } else {
            (AlterTablesData { state: AlterTablesState::SubmitAlterRegionRequests, ..self }).filtered(
                finished,
                new,
            )
        }
    }

    /// What an event of the preparation may hold: one flag for each task, once there
    /// is one value for each task.
    pub open spec fn takes_prepare_event(self, event: PrepareEvent<D>) -> bool {
        event matches PrepareEvent::FinishedTasksChecked(Ok(finished)) ==> {
            &&& self.one_to_one()
            &&& finished@.len() == self.tasks@.len()
        }
    }
}

impl<D: DdlTypes> AlterLogicalTablesProcedure<D> {
    /// Prepares to alter the tables. Starts with `PrepareEvent::Begin`, and goes on
    /// with what became of each action.
    pub fn on_prepare(&mut self, event: PrepareEvent<D>) -> (action: PrepareAction<D>)
        requires
            old(self).data.takes_prepare_event(event),
        ensures
            old(self).data.prepare_leads_to(event, final(self).data, action),
            final(self).context == old(self).context,
    {
        match event {
            PrepareEvent::Begin => PrepareAction::CheckInputTasks,
            PrepareEvent::InputTasksChecked(Ok(_)) => PrepareAction::FillTableInfoValues,
            PrepareEvent::TableInfoValuesFilled(Ok(values)) => {
                self.data.table_info_values = values;
                PrepareAction::CheckPhysicalTable
            },
            PrepareEvent::PhysicalTableChecked(Ok(_)) => PrepareAction::FillPhysicalTableInfo,
            PrepareEvent::PhysicalTableInfoFilled(Ok((info, route))) => {
                self.data.physical_table_info = Some(info);
                self.data.physical_table_route = Some(route);
                PrepareAction::CheckFinishedTasks
            },
            PrepareEvent::FinishedTasksChecked(Ok(finished)) => {
                let already_finished_count: usize = count_set(&finished);
                let apply_tasks_count: usize = self.data.tasks.len();
                proof {
                    lemma_all_set(finished@);
                }
                if already_finished_count == apply_tasks_count {
                    // Re-invalidate the table cache
                    self.data.state = AlterTablesState::InvalidateTableCache;
                } else {
                    self.data.filter_task(&finished);
                    self.data.state = AlterTablesState::SubmitAlterRegionRequests;
                }
                PrepareAction::Return(Ok(Status::Executing { persist: true }))
            },
            PrepareEvent::InputTasksChecked(Err(failure))
            | PrepareEvent::TableInfoValuesFilled(Err(failure))
            | PrepareEvent::PhysicalTableChecked(Err(failure))
            | PrepareEvent::PhysicalTableInfoFilled(Err(failure))
            | PrepareEvent::FinishedTasksChecked(Err(failure)) => PrepareAction::Return(
                Err(failure),
            ),
        }
    }
}

} // verus!
