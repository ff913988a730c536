//! What holds of the steps of the procedure from their start to their end, and of
//! the procedure as a whole.
use vstd::prelude::*;

use crate::alter_logical_tables::data::{
    AlterTableTask, AlterTablesData, AlterTablesState, DdlTypes, PhysicalTableRouteValue, TableId,
    TableInfoValue,
};
use crate::alter_logical_tables::lock_key::LockEntry;
use crate::alter_logical_tables::prepare::{PrepareAction, PrepareEvent};
use crate::alter_logical_tables::procedure::{
    AlterLogicalTablesProcedure, ExecuteAction, FromJsonError, Status,
};
use crate::alter_logical_tables::submit::{SubmitAction, SubmitEvent};
use crate::alter_logical_tables::update::{
    InvalidateAction, InvalidateEvent, UpdateAction, UpdateEvent,
};
use crate::sequences;

verus! {

/// The place of a state in the course of a procedure.
pub open spec fn place(state: AlterTablesState) -> int {
    match state {
        AlterTablesState::Prepare => 0,
        AlterTablesState::SubmitAlterRegionRequests => 1,
        AlterTablesState::UpdateMetadata => 2,
        AlterTablesState::InvalidateTableCache => 3,
    }
}

/// Leaving items out by the same flags keeps two sequences of the same length at
/// the same length. Something is left unless all flags are set.
pub proof fn law_unflagged_stay_one_to_one<A, B>(left: Seq<A>, right: Seq<B>, flags: Seq<bool>)
    requires
        left.len() == right.len(),
        left.len() <= flags.len(),
    ensures
        sequences::unflagged(left, flags).len() == sequences::unflagged(right, flags).len(),
        sequences::unflagged(left, flags).len() == 0 <==> forall|i: int|
            0 <= i < left.len() ==> flags[i],
    decreases left.len(),
{
    if left.len() > 0 {
        law_unflagged_stay_one_to_one(left.drop_last(), right.drop_last(), flags);
        assert(flags[left.len() - 1] || !flags[left.len() - 1]);
    }
}

/// The data and the action after an event of the preparation.
pub ghost struct PrepareFrame<D: DdlTypes> {
    pub data: AlterTablesData<D>,
    pub action: PrepareAction<D>,
}

/// What comes of everything that the preparation may ask for.
pub ghost struct PrepareAnswers<D: DdlTypes> {
    pub input_checked: Result<(), D::Failure>,
    pub values: Result<Vec<TableInfoValue<D>>, D::Failure>,
    pub physical_checked: Result<(), D::Failure>,
    pub physical: Result<(TableInfoValue<D>, PhysicalTableRouteValue<D>), D::Failure>,
    pub finished: Result<Vec<bool>, D::Failure>,
}

impl<D: DdlTypes> PrepareAnswers<D> {
    /// The event that an action leads to, if it leads to one.
    pub open spec fn answer(self, action: PrepareAction<D>) -> Option<PrepareEvent<D>> {
        match action {
            PrepareAction::CheckInputTasks => Some(
                PrepareEvent::InputTasksChecked(self.input_checked),
            ),
            PrepareAction::FillTableInfoValues => Some(
                PrepareEvent::TableInfoValuesFilled(self.values),
            ),
            PrepareAction::CheckPhysicalTable => Some(
                PrepareEvent::PhysicalTableChecked(self.physical_checked),
            ),
            PrepareAction::FillPhysicalTableInfo => Some(
                PrepareEvent::PhysicalTableInfoFilled(self.physical),
            ),
            PrepareAction::CheckFinishedTasks => Some(
                PrepareEvent::FinishedTasksChecked(self.finished),
            ),
            PrepareAction::Return(_) => None,
        }
    }

    /// Whether a frame follows another one.
    pub open spec fn step(self, frame: PrepareFrame<D>, next: PrepareFrame<D>) -> bool {
        match self.answer(frame.action) {
            Some(event) => {
                &&& frame.data.takes_prepare_event(event)
                &&& frame.data.prepare_leads_to(event, next.data, next.action)
            },
            None => false,
        }
    }

    /// Whether these are the frames of a preparation of the data, from the start, each
    /// after the answer to the one before.
    pub open spec fn run(self, data: AlterTablesData<D>, frames: Seq<PrepareFrame<D>>) -> bool {
        &&& frames.len() > 0
        &&& data.prepare_leads_to(PrepareEvent::Begin, frames[0].data, frames[0].action)
        &&& forall|i: int|
            0 <= i < frames.len() - 1 ==> self.step(#[trigger] frames[i], frames[i + 1])
    }

    /// The data with the values of the tables.
    pub open spec fn with_values(self, data: AlterTablesData<D>) -> AlterTablesData<D> {
        AlterTablesData { table_info_values: self.values->Ok_0, ..data }
    }

    /// The data with the values of the tables and with the physical table.
    pub open spec fn with_physical_table(self, data: AlterTablesData<D>) -> AlterTablesData<D> {
        AlterTablesData {
            physical_table_info: Some(self.physical->Ok_0.0),
            physical_table_route: Some(self.physical->Ok_0.1),
            ..self.with_values(data)
        }
    }

    /// What a preparation ends with.
    pub open spec fn outcome(
        self,
        data: AlterTablesData<D>,
        new: AlterTablesData<D>,
        res: Result<Status, D::Failure>,
    ) -> bool {
        if self.input_checked is Err {
            new == data && res == Err::<Status, D::Failure>(self.input_checked->Err_0)
        } else if self.values is Err {
            new == data && res == Err::<Status, D::Failure>(self.values->Err_0)
        } else if self.physical_checked is Err {
            &&& new == self.with_values(data)
            &&& res == Err::<Status, D::Failure>(self.physical_checked->Err_0)
        } else if self.physical is Err {
            &&& new == self.with_values(data)
            &&& res == Err::<Status, D::Failure>(self.physical->Err_0)
        } else if self.finished is Err {
            &&& new == self.with_physical_table(data)
            &&& res == Err::<Status, D::Failure>(self.finished->Err_0)
        } else {
            &&& self.with_physical_table(data).prepared(self.finished->Ok_0@, new)
            &&& res == Ok::<Status, D::Failure>(Status::Executing { persist: true })
        }
    }

    /// A preparation ends with the error of the first thing that failed, or it
    /// succeeds, with the tables of the tasks and the physical table filled in and the
    /// finished tasks left out.
    pub proof fn law_prepare_outcome(
        self,
        data: AlterTablesData<D>,
        frames: Seq<PrepareFrame<D>>,
    )
        requires
            self.run(data, frames),
        ensures
            frames.len() <= 6,
            frames.last().action matches PrepareAction::Return(res) ==> self.outcome(
                data,
                frames.last().data,
                res,
            ),
    {
        if frames.len() > 1 {
            assert(self.step(frames[0], frames[1]));
        }
        if frames.len() > 2 {
            assert(self.step(frames[1], frames[2]));
        }
        if frames.len() > 3 {
            assert(self.step(frames[2], frames[3]));
        }
        if frames.len() > 4 {
            assert(self.step(frames[3], frames[4]));
        }
        if frames.len() > 5 {
            assert(self.step(frames[4], frames[5]));
        }
        if frames.len() > 6 {
            assert(self.step(frames[5], frames[6]));
        }
    }

    /// What is submitted was prepared: once a preparation has moved a procedure on to
    /// the submission, the physical table and its route are there, there are tasks
    /// left, each with the value of its table, and all of them were there before. So
    /// the procedure can be submitted and locked.
    pub proof fn law_submitted_is_prepared(
        self,
        data: AlterTablesData<D>,
        frames: Seq<PrepareFrame<D>>,
    )
        requires
            self.run(data, frames),
            frames.last().action matches PrepareAction::Return(Ok(_)),
            frames.last().data.state == AlterTablesState::SubmitAlterRegionRequests,
        ensures
            frames.last().data.physical_table_info is Some,
            frames.last().data.physical_table_route is Some,
            frames.last().data.tasks@.len() > 0,
            frames.last().data.one_to_one(),
            forall|task: AlterTableTask<D>|
                frames.last().data.tasks@.contains(task) ==> #[trigger] data.tasks@.contains(task),
    {
        self.law_prepare_outcome(data, frames);
        let before = self.with_physical_table(data);
        let flags = self.finished->Ok_0@;
        assert(frames.len() == 6) by {
            self.lemma_return_is_last(data, frames);
        }
        assert(self.step(frames[4], frames[5]));
        assert(self.step(frames[3], frames[4]));
        assert(self.step(frames[2], frames[3]));
        assert(self.step(frames[1], frames[2]));
        assert(self.step(frames[0], frames[1]));
        law_unflagged_stay_one_to_one(data.tasks@, before.table_info_values@, flags);
        assert forall|task: AlterTableTask<D>|
            frames.last().data.tasks@.contains(task) implies #[trigger] data.tasks@.contains(
            task,
        ) by {
            lemma_unflagged_are_items(data.tasks@, flags, task);
        }
    }

    /// A preparation that succeeds checked the tasks, looked up their tables, checked the
    /// physical table, looked it up, and found out what is finished, each once and in
    /// this order. Until then the procedure stays where it is, with all its tasks.
    pub proof fn law_preparation_in_order(
        self,
        data: AlterTablesData<D>,
        frames: Seq<PrepareFrame<D>>,
    )
        requires
            self.run(data, frames),
            frames.last().action matches PrepareAction::Return(Ok(_)),
        ensures
            frames.len() == 6,
            frames[0].action == PrepareAction::<D>::CheckInputTasks,
            frames[1].action == PrepareAction::<D>::FillTableInfoValues,
            frames[2].action == PrepareAction::<D>::CheckPhysicalTable,
            frames[3].action == PrepareAction::<D>::FillPhysicalTableInfo,
            frames[4].action == PrepareAction::<D>::CheckFinishedTasks,
            frames[5].action == PrepareAction::<D>::Return(Ok(Status::Executing { persist: true })),
            self.input_checked is Ok && self.values is Ok && self.physical_checked is Ok
                && self.physical is Ok && self.finished is Ok,
            frames[2].data.table_info_values == self.values->Ok_0,
            frames[4].data.table_info_values == self.values->Ok_0,
            frames[4].data.physical_table_info == Some(self.physical->Ok_0.0),
            frames[4].data.physical_table_route == Some(self.physical->Ok_0.1),
            forall|i: int|
                0 <= i < 5 ==> #[trigger] frames[i].data.state == data.state && frames[i].data.tasks
                    == data.tasks && frames[i].data.physical_table_id == data.physical_table_id,
    {
        self.lemma_return_is_last(data, frames);
        assert(self.step(frames[0], frames[1]));
        assert(self.step(frames[1], frames[2]));
        assert(self.step(frames[2], frames[3]));
        assert(self.step(frames[3], frames[4]));
        assert(self.step(frames[4], frames[5]));
    }

    /// A preparation that succeeds submits every task that is not finished, in order and
    /// with the value of its table beside it, and no other. It goes straight to the
    /// invalidation of the caches only if every task is finished, and then keeps the
    /// tasks. It fills in the tables and the physical table, and changes nothing else.
    pub proof fn law_unfinished_tasks_are_submitted(
        self,
        data: AlterTablesData<D>,
        frames: Seq<PrepareFrame<D>>,
    )
        requires
            self.run(data, frames),
            frames.last().action matches PrepareAction::Return(Ok(_)),
        ensures
            ({
                let finished = self.finished->Ok_0@;
                let new = frames.last().data;
                &&& finished.len() == data.tasks@.len()
                &&& (exists|i: int| 0 <= i < finished.len() && !#[trigger] finished[i])
                    ==> new.state == AlterTablesState::SubmitAlterRegionRequests
                &&& (forall|i: int| 0 <= i < finished.len() ==> #[trigger] finished[i]) ==> {
                    &&& new.state == AlterTablesState::InvalidateTableCache
                    &&& new.tasks == data.tasks
                    &&& new.table_info_values == self.values->Ok_0
                }
                &&& forall|i: int|
                    0 <= i < finished.len() && !#[trigger] finished[i] ==> {
                        let at = sequences::unset_before(finished, i) as int;
                        &&& at < new.tasks@.len()
                        &&& at < new.table_info_values@.len()
                        &&& new.tasks@[at] == data.tasks@[i]
                        &&& new.table_info_values@[at] == self.values->Ok_0@[i]
                    }
                &&& new.state == AlterTablesState::SubmitAlterRegionRequests ==> {
                    &&& new.tasks@.len() == sequences::unset_before(
                        finished,
                        finished.len() as int,
                    )
                    &&& new.table_info_values@.len() == new.tasks@.len()
                }
                &&& new.physical_table_id == data.physical_table_id
                &&& new.physical_table_info == Some(self.physical->Ok_0.0)
                &&& new.physical_table_route == Some(self.physical->Ok_0.1)
                &&& new.physical_columns == data.physical_columns
                &&& new.table_cache_keys_to_invalidate == data.table_cache_keys_to_invalidate
            }),
    {
        self.law_preparation_in_order(data, frames);
        assert(self.step(frames[0], frames[1]));
        assert(self.step(frames[1], frames[2]));
        assert(self.step(frames[2], frames[3]));
        assert(self.step(frames[3], frames[4]));
        assert(self.step(frames[4], frames[5]));
        let finished = self.finished->Ok_0@;
        let new = frames.last().data;
        sequences::law_unflagged_items_keep_their_order(data.tasks@, finished);
        sequences::law_unflagged_items_keep_their_order(self.values->Ok_0@, finished);
        assert forall|i: int| 0 <= i < finished.len() && !#[trigger] finished[i] implies {
            let at = sequences::unset_before(finished, i) as int;
            &&& at < new.tasks@.len()
            &&& at < new.table_info_values@.len()
            &&& new.tasks@[at] == data.tasks@[i]
            &&& new.table_info_values@[at] == self.values->Ok_0@[i]
        } by {
            assert(sequences::unset_before(finished, i) < new.tasks@.len());
        }
    }

    proof fn lemma_return_is_last(self, data: AlterTablesData<D>, frames: Seq<PrepareFrame<D>>)
        requires
            self.run(data, frames),
            frames.last().action matches PrepareAction::Return(Ok(_)),
        ensures
            frames.len() == 6,
    {
        self.law_prepare_outcome(data, frames);
        if frames.len() > 1 {
            assert(self.step(frames[0], frames[1]));
        }
        if frames.len() > 2 {
            assert(self.step(frames[1], frames[2]));
        }
        if frames.len() > 3 {
            assert(self.step(frames[2], frames[3]));
        }
        if frames.len() > 4 {
            assert(self.step(frames[3], frames[4]));
        }
    }
}

/// What is left was there before.
proof fn lemma_unflagged_are_items<T>(items: Seq<T>, flags: Seq<bool>, item: T)
    requires
        sequences::unflagged(items, flags).contains(item),
    ensures
        items.contains(item),
    decreases items.len(),
{
    if items.len() > 0 {
        let earlier = items.drop_last();
        let kept = sequences::unflagged(earlier, flags);
        if kept.contains(item) {
            lemma_unflagged_are_items(earlier, flags, item);
            let i = choose|i: int| 0 <= i < earlier.len() && earlier[i] == item;
            assert(items[i] == item);
        } else {
            let all = sequences::unflagged(items, flags);
            let i = choose|i: int| 0 <= i < all.len() && all[i] == item;
            assert(i == kept.len() || kept[i] == item);
            assert(items[items.len() - 1] == item);
        }
    }
}

/// The data and the action after an event of the submission.
pub ghost struct SubmitFrame<D: DdlTypes> {
    pub data: AlterTablesData<D>,
    pub action: SubmitAction<D>,
}

/// What comes of everything that the submission may ask for.
pub ghost struct SubmitAnswers<D: DdlTypes> {
    pub leaders: Vec<D::Peer>,
    /// The request for each of the leaders, by its number.
    pub request: spec_fn(int) -> Result<D::RegionRequest, D::Failure>,
    pub responses: Vec<Result<D::RegionResponse, D::Failure>>,
    pub extracted: Result<(Vec<D::RegionResponse>, Option<Vec<D::ColumnMetadata>>), D::Failure>,
    pub synced: Result<(), D::Failure>,
}

impl<D: DdlTypes> SubmitAnswers<D> {
    /// Whether a frame follows another one.
    pub open spec fn step(self, frame: SubmitFrame<D>, next: SubmitFrame<D>) -> bool {
        match frame.action {
            SubmitAction::FindLeaders(_) => self.event_step(
                frame,
                SubmitEvent::LeadersFound(self.leaders),
                next,
            ),
            SubmitAction::MakeRequest(batch) => {
                &&& next.data == frame.data
                &&& batch.leads_to((self.request)(batch.requests@.len() as int), next.action)
            },
            SubmitAction::SendRequests { .. } => self.event_step(
                frame,
                SubmitEvent::ResponsesReceived(self.responses),
                next,
            ),
            SubmitAction::ExtractColumns(_) => self.event_step(
                frame,
                SubmitEvent::ColumnsExtracted(self.extracted),
                next,
            ),
            SubmitAction::SyncFollowers(_) => self.event_step(
                frame,
                SubmitEvent::FollowersSynced(self.synced),
                next,
            ),
            SubmitAction::Return(_) => false,
        }
    }

    /// Whether a frame follows another one after this event.
    pub open spec fn event_step(
        self,
        frame: SubmitFrame<D>,
        event: SubmitEvent<D>,
        next: SubmitFrame<D>,
    ) -> bool {
        &&& frame.data.takes_submit_event(event)
        &&& frame.data.submit_leads_to(event, next.data, next.action)
    }

    /// Whether these are the frames of a submission of the data, from the start, each
    /// after the answer to the one before.
    pub open spec fn run(self, data: AlterTablesData<D>, frames: Seq<SubmitFrame<D>>) -> bool {
        &&& frames.len() > 0
        &&& data.takes_submit_event(SubmitEvent::Begin)
        &&& data.submit_leads_to(SubmitEvent::Begin, frames[0].data, frames[0].action)
        &&& forall|i: int|
            0 <= i < frames.len() - 1 ==> self.step(#[trigger] frames[i], frames[i + 1])
    }

    /// Whether the requests for this many leaders can be made.
    pub open spec fn made(self, count: int) -> bool {
        forall|i: int| 0 <= i < count ==> #[trigger] (self.request)(i) is Ok
    }

    /// The requests for the first leaders, in order.
    pub open spec fn requests(self, count: int) -> Seq<D::RegionRequest> {
        Seq::new(count as nat, |i: int| (self.request)(i)->Ok_0)
    }

    /// Whether all responses are successes.
    pub open spec fn responded(self) -> bool {
        forall|i: int| 0 <= i < self.responses@.len() ==> #[trigger] self.responses@[i] is Ok
    }

    /// The data with the new columns of the physical table, if there are any.
    pub open spec fn with_columns(self, data: AlterTablesData<D>) -> AlterTablesData<D> {
        AlterTablesData {
            physical_columns: match self.extracted->Ok_0.1 {
                Some(columns) => columns,
                None => data.physical_columns,
            },
            ..data
        }
    }

    /// What a submission ends with.
    pub open spec fn outcome(
        self,
        data: AlterTablesData<D>,
        new: AlterTablesData<D>,
        res: Result<Status, D::Failure>,
    ) -> bool {
        if !self.made(self.leaders@.len() as int) {
            &&& new == data
            &&& exists|i: int|
                {
                    &&& 0 <= i < self.leaders@.len()
                    &&& self.made(i)
                    &&& (#[trigger] (self.request)(i)) is Err
                    &&& res == Err::<Status, D::Failure>((self.request)(i)->Err_0)
                }
        } else if !self.responded() {
            &&& new == data
            &&& res matches Err(failure) && sequences::collected(
                self.responses@,
                Err::<Vec<D::RegionResponse>, D::Failure>(failure),
            )
        } else if self.extracted is Err {
            new == data && res == Err::<Status, D::Failure>(self.extracted->Err_0)
        } else {
            &&& new == (AlterTablesData {
                state: AlterTablesState::UpdateMetadata,
                ..self.with_columns(data)
            })
            &&& res == Ok::<Status, D::Failure>(Status::Executing { persist: true })
        }
    }

    /// What holds of each frame of a submission.
    spec fn holds_at(self, data: AlterTablesData<D>, frame: SubmitFrame<D>) -> bool {
        let all_made = self.made(self.leaders@.len() as int);
        match frame.action {
            SubmitAction::FindLeaders(region_routes) => {
                frame.data == data && region_routes == data.region_routes()
            },
            SubmitAction::MakeRequest(batch) => {
                &&& frame.data == data
                &&& batch.region_routes == data.region_routes()
                &&& batch.leaders == self.leaders
                &&& batch.requests@.len() < self.leaders@.len()
                &&& self.made(batch.requests@.len() as int)
                &&& batch.requests@ == self.requests(batch.requests@.len() as int)
            },
            SubmitAction::SendRequests { leaders, requests } => {
                &&& frame.data == data
                &&& leaders == self.leaders
                &&& all_made
                &&& requests@ == self.requests(self.leaders@.len() as int)
            },
            SubmitAction::ExtractColumns(responses) => {
                &&& frame.data == data
                &&& all_made
                &&& self.responded()
                &&& sequences::collected(self.responses@, Ok(responses))
            },
            SubmitAction::SyncFollowers(request) => {
                &&& frame.data == self.with_columns(data)
                &&& request.table_id == data.physical_table_id
                &&& request.region_routes == data.region_routes()
                &&& data.physical_table_info is Some
                &&& request.engine == data.physical_table_info->0.engine
                &&& request.responses == self.extracted->Ok_0.0
                &&& all_made
                &&& self.responded()
                &&& self.extracted is Ok
            },
            SubmitAction::Return(res) => self.outcome(data, frame.data, res),
        }
    }

    proof fn lemma_step(
        self,
        data: AlterTablesData<D>,
        frame: SubmitFrame<D>,
        next: SubmitFrame<D>,
    )
        requires
            self.holds_at(data, frame),
            self.step(frame, next),
        ensures
            self.holds_at(data, next),
    {
        match frame.action {
            SubmitAction::FindLeaders(_) => {
                assert(self.requests(0) =~= Seq::<D::RegionRequest>::empty());
            },
            SubmitAction::MakeRequest(batch) => {
                let count = batch.requests@.len() as int;
                let request = (self.request)(count);
                if request is Ok {
                    assert(self.requests(count + 1) =~= batch.requests@.push(request->Ok_0));
                    assert(self.made(count + 1));
                } else {
                    assert(!self.made(self.leaders@.len() as int)) by {
                        assert((self.request)(count) is Err);
                    }
                }
            },
            SubmitAction::SendRequests { .. } => {
                if let SubmitAction::Return(Err(failure)) = next.action {
                    let i = choose|i: int|
                        0 <= i < self.responses@.len() && #[trigger] self.responses@[i] == Err::<
                            D::RegionResponse,
                            D::Failure,
                        >(failure);
                    assert(self.responses@[i] is Err);
                }
            },
            _ => {},
        }
    }

    proof fn lemma_run(self, data: AlterTablesData<D>, frames: Seq<SubmitFrame<D>>, i: int)
        requires
            self.run(data, frames),
            0 <= i < frames.len(),
        ensures
            self.holds_at(data, frames[i]),
        decreases i,
    {
        if i > 0 {
            self.lemma_run(data, frames, i - 1);
            assert(self.step(frames[i - 1], frames[i - 1 + 1]));
            self.lemma_step(data, frames[i - 1], frames[i]);
        }
    }

    /// How far a submission has come at an action.
    spec fn progress(self, action: SubmitAction<D>) -> int {
        let count = self.leaders@.len() as int;
        match action {
            SubmitAction::FindLeaders(_) => 0,
            SubmitAction::MakeRequest(batch) => 1 + batch.requests@.len() as int,
            SubmitAction::SendRequests { .. } => count + 1,
            SubmitAction::ExtractColumns(_) => count + 2,
            SubmitAction::SyncFollowers(_) => count + 3,
            SubmitAction::Return(_) => count + 4,
        }
    }

    proof fn lemma_progress(self, data: AlterTablesData<D>, frames: Seq<SubmitFrame<D>>, i: int)
        requires
            self.run(data, frames),
            0 <= i < frames.len(),
        ensures
            i <= self.progress(frames[i].action) <= self.leaders@.len() + 4,
        decreases i,
    {
        self.lemma_run(data, frames, i);
        if i > 0 {
            self.lemma_progress(data, frames, i - 1);
            self.lemma_run(data, frames, i - 1);
            assert(self.step(frames[i - 1], frames[i - 1 + 1]));
        }
    }

    /// A submission ends with the error of the first request that could not be made, of
    /// the first response that is an error, or of the columns that could not be read. It
    /// succeeds otherwise, whether or not the followers could be brought up to date,
    /// and takes the columns over if the responses held them. It asks for one request
    /// for each leader at most, and for not more than four things besides.
    pub proof fn law_submit_outcome(self, data: AlterTablesData<D>, frames: Seq<SubmitFrame<D>>)
        requires
            self.run(data, frames),
        ensures
            frames.len() <= self.leaders@.len() + 5,
            frames.last().action matches SubmitAction::Return(res) ==> self.outcome(
                data,
                frames.last().data,
                res,
            ),
    {
        self.lemma_run(data, frames, frames.len() - 1);
        self.lemma_progress(data, frames, frames.len() - 1);
    }

    /// The leaders, the requests for them, and the followers are those of the route of
    /// the physical table, from the start of a submission to its end.
    pub proof fn law_submission_keeps_to_the_route(
        self,
        data: AlterTablesData<D>,
        frames: Seq<SubmitFrame<D>>,
    )
        requires
            self.run(data, frames),
        ensures
            match frames.last().action {
                SubmitAction::FindLeaders(region_routes) => region_routes == data.region_routes(),
                SubmitAction::MakeRequest(batch) => batch.region_routes == data.region_routes(),
                SubmitAction::SyncFollowers(request) => {
                    &&& request.table_id == data.physical_table_id
                    &&& request.region_routes == data.region_routes()
                },
                _ => true,
            },
    {
        self.lemma_run(data, frames, frames.len() - 1);
    }

    proof fn lemma_exact(self, data: AlterTablesData<D>, frames: Seq<SubmitFrame<D>>, i: int)
        requires
            self.run(data, frames),
            0 <= i < frames.len(),
        ensures
            frames[i].action is Return || self.progress(frames[i].action) == i,
            frames[i].action matches SubmitAction::Return(Ok(_)) ==> {
                &&& i == self.leaders@.len() + 4
                &&& frames[i - 1].action is SyncFollowers
            },
        decreases i,
    {
        self.lemma_run(data, frames, i);
        if i > 0 {
            self.lemma_exact(data, frames, i - 1);
            self.lemma_run(data, frames, i - 1);
            assert(self.step(frames[i - 1], frames[i - 1 + 1]));
        }
    }

    /// The frames of a submission that succeeds, one by one: it finds the leaders among
    /// the routes of the physical table, makes the request for each of them in turn, sends
    /// the requests, takes the columns out of the responses, and asks once for the
    /// followers to be brought up to date, whatever the number of leaders, and whether or
    /// not there were columns. It moves on to the metadata only after that.
    #[verifier::rlimit(40)]
    pub proof fn law_submission_in_order(
        self,
        data: AlterTablesData<D>,
        frames: Seq<SubmitFrame<D>>,
    )
        requires
            self.run(data, frames),
            frames.last().action matches SubmitAction::Return(Ok(_)),
        ensures
            ({
                let count = self.leaders@.len() as int;
                &&& frames.len() == count + 5
                &&& frames[0].action == SubmitAction::<D>::FindLeaders(
                    data.physical_table_route->0.region_routes,
                )
                &&& forall|i: int|
                    1 <= i <= count ==> {
                        &&& (#[trigger] frames[i]).action matches SubmitAction::MakeRequest(batch)
                        &&& batch.next_peer() == self.leaders@[i - 1]
                        &&& batch.region_routes == data.physical_table_route->0.region_routes
                    }
                &&& frames[count + 1].action matches SubmitAction::SendRequests { leaders, requests }
                &&& leaders == self.leaders
                &&& requests@.len() == count
                &&& forall|i: int|
                    0 <= i < count ==> (self.request)(i) == Ok::<D::RegionRequest, D::Failure>(
                        #[trigger] requests@[i],
                    )
                &&& frames[count + 2].action matches SubmitAction::ExtractColumns(responses)
                &&& responses@.len() == self.responses@.len()
                &&& forall|i: int|
                    0 <= i < responses@.len() ==> #[trigger] self.responses@[i] == Ok::<
                        D::RegionResponse,
                        D::Failure,
                    >(responses@[i])
                &&& frames[count + 3].action matches SubmitAction::SyncFollowers(request)
                &&& request.responses == self.extracted->Ok_0.0
                &&& request.engine == data.physical_table_info->0.engine
                &&& request.table_id == data.physical_table_id
                &&& request.region_routes == data.physical_table_route->0.region_routes
                &&& forall|i: int|
                    0 <= i < frames.len() ==> ((#[trigger] frames[i]).action is SyncFollowers <==> i
                        == count + 3)
                &&& forall|i: int|
                    0 <= i < count + 4 ==> (#[trigger] frames[i]).data.state == data.state
                        && frames[i].data.tasks == data.tasks
                &&& frames.last().action == SubmitAction::<D>::Return(
                    Ok(Status::Executing { persist: true }),
                )
                &&& frames.last().data.state == AlterTablesState::UpdateMetadata
                &&& frames.last().data.tasks == data.tasks
                &&& frames.last().data.table_info_values == data.table_info_values
                &&& frames.last().data.physical_columns == (match self.extracted->Ok_0.1 {
                    Some(columns) => columns,
                    None => data.physical_columns,
                })
            }),
    {
        let count = self.leaders@.len() as int;
        let last = frames.len() - 1;
        self.lemma_exact(data, frames, last);
        assert forall|i: int| 0 <= i < last implies self.progress((#[trigger] frames[i]).action) == i
            && self.holds_at(data, frames[i]) && !(frames[i].action is Return) by {
            self.lemma_exact(data, frames, i);
            self.lemma_run(data, frames, i);
            assert(self.step(frames[i], frames[i + 1]));
        }
        self.lemma_run(data, frames, last);
        assert(self.progress(frames[0].action) == 0);
        assert(self.progress(frames[count + 1].action) == count + 1);
        assert(self.progress(frames[count + 2].action) == count + 2);
        assert(self.progress(frames[count + 3].action) == count + 3);
        if let SubmitAction::ExtractColumns(responses) = frames[count + 2].action {
            sequences::law_collected_results(
                self.responses@,
                Ok::<Vec<D::RegionResponse>, D::Failure>(responses),
            );
        }
    }

    proof fn lemma_after_sync(self, frame: SubmitFrame<D>, next: SubmitFrame<D>)
        requires
            frame.action is SyncFollowers,
            self.step(frame, next),
        ensures
            next.action matches SubmitAction::Return(Ok(_)),
    {
    }

    /// A submission that fails leaves the data as it was, and never asked for the
    /// followers: one that did succeeds.
    pub proof fn law_submission_fails_early(
        self,
        data: AlterTablesData<D>,
        frames: Seq<SubmitFrame<D>>,
        i: int,
    )
        requires
            self.run(data, frames),
            frames.last().action matches SubmitAction::Return(Err(_)),
            0 <= i < frames.len(),
        ensures
            frames.last().data == data,
            !(frames[i].action is SyncFollowers),
    {
        self.law_submit_outcome(data, frames);
        if frames[i].action is SyncFollowers {
            assert(self.step(frames[i], frames[i + 1]));
            self.lemma_after_sync(frames[i], frames[i + 1]);
            if i + 1 < frames.len() - 1 {
                assert(self.step(frames[i + 1], frames[i + 1 + 1]));
            }
        }
    }

    /// Requests are sent only when there is one for every leader, and each leader is
    /// sent its own.
    pub proof fn law_each_leader_is_sent_its_request(
        self,
        data: AlterTablesData<D>,
        frames: Seq<SubmitFrame<D>>,
        leaders: Vec<D::Peer>,
        requests: Vec<D::RegionRequest>,
    )
        requires
            self.run(data, frames),
            frames.last().action == (SubmitAction::<D>::SendRequests { leaders, requests }),
        ensures
            leaders == self.leaders,
            requests@.len() == leaders@.len(),
            forall|i: int|
                0 <= i < leaders@.len() ==> (self.request)(i) == Ok::<D::RegionRequest, D::Failure>(
                    #[trigger] requests@[i],
                ),
    {
        self.lemma_run(data, frames, frames.len() - 1);
    }
}

/// The data and the action after an event of the update of the metadata.
pub ghost struct UpdateFrame<D: DdlTypes> {
    pub data: AlterTablesData<D>,
    pub action: UpdateAction<D>,
}

/// What comes of everything that the update of the metadata may ask for.
pub ghost struct UpdateAnswers<D: DdlTypes> {
    pub physical_updated: Result<(), D::Failure>,
    pub logical_updated: Result<(), D::Failure>,
    pub cache_keys: Vec<D::CacheIdent>,
}

impl<D: DdlTypes> UpdateAnswers<D> {
    /// The event that an action leads to, if it leads to one.
    pub open spec fn answer(self, action: UpdateAction<D>) -> Option<UpdateEvent<D>> {
        match action {
            UpdateAction::UpdatePhysicalTable => Some(
                UpdateEvent::PhysicalTableUpdated(self.physical_updated),
            ),
            UpdateAction::UpdateLogicalTables => Some(
                UpdateEvent::LogicalTablesUpdated(self.logical_updated),
            ),
            UpdateAction::BuildCacheKeys => Some(UpdateEvent::CacheKeysBuilt(self.cache_keys)),
            UpdateAction::Return(_) => None,
        }
    }

    /// Whether a frame follows another one.
    pub open spec fn step(self, frame: UpdateFrame<D>, next: UpdateFrame<D>) -> bool {
        match self.answer(frame.action) {
            Some(event) => frame.data.update_leads_to(event, next.data, next.action),
            None => false,
        }
    }

    /// Whether these are the frames of an update of the metadata, from the start, each
    /// after the answer to the one before.
    pub open spec fn run(self, data: AlterTablesData<D>, frames: Seq<UpdateFrame<D>>) -> bool {
        &&& frames.len() > 0
        &&& data.update_leads_to(UpdateEvent::Begin, frames[0].data, frames[0].action)
        &&& forall|i: int|
            0 <= i < frames.len() - 1 ==> self.step(#[trigger] frames[i], frames[i + 1])
    }

    /// What an update of the metadata ends with.
    pub open spec fn outcome(
        self,
        data: AlterTablesData<D>,
        new: AlterTablesData<D>,
        res: Result<Status, D::Failure>,
    ) -> bool {
        if self.physical_updated is Err {
            new == data && res == Err::<Status, D::Failure>(self.physical_updated->Err_0)
        } else if self.logical_updated is Err {
            new == data && res == Err::<Status, D::Failure>(self.logical_updated->Err_0)
        } else {
            &&& new.state == AlterTablesState::InvalidateTableCache
            &&& *new.table_cache_keys_to_invalidate == self.cache_keys
            &&& new.cleared()
            &&& res == Ok::<Status, D::Failure>(Status::Executing { persist: true })
        }
    }

    /// The metadata of the physical table is updated first, and that of the logical
    /// tables only after it. When both are, nothing is kept but the keys of the caches to
    /// invalidate. A failure leaves the data as it is.
    pub proof fn law_update_outcome(self, data: AlterTablesData<D>, frames: Seq<UpdateFrame<D>>)
        requires
            self.run(data, frames),
        ensures
            frames.len() <= 4,
            frames.last().action matches UpdateAction::Return(res) ==> self.outcome(
                data,
                frames.last().data,
                res,
            ),
    {
        if frames.len() > 1 {
            assert(self.step(frames[0], frames[1]));
        }
        if frames.len() > 2 {
            assert(self.step(frames[1], frames[2]));
        }
        if frames.len() > 3 {
            assert(self.step(frames[2], frames[3]));
        }
        if frames.len() > 4 {
            assert(self.step(frames[3], frames[4]));
        }
    }
}

/// The frames of an update of the metadata that succeeds, one by one. The cache keys are
/// built while everything is still there. After that the tasks, the tables and the
/// physical table are gone, and only the state and the keys are left.
pub proof fn law_update_in_order<D: DdlTypes>(
    answers: UpdateAnswers<D>,
    data: AlterTablesData<D>,
    frames: Seq<UpdateFrame<D>>,
)
    requires
        answers.run(data, frames),
        frames.last().action matches UpdateAction::Return(Ok(_)),
    ensures
        frames.len() == 4,
        frames[0].action == UpdateAction::<D>::UpdatePhysicalTable,
        frames[1].action == UpdateAction::<D>::UpdateLogicalTables,
        frames[2].action == UpdateAction::<D>::BuildCacheKeys,
        frames[3].action == UpdateAction::<D>::Return(Ok(Status::Executing { persist: true })),
        frames[0].data == data && frames[1].data == data && frames[2].data == data,
        answers.physical_updated is Ok && answers.logical_updated is Ok,
        frames[3].data.state == AlterTablesState::InvalidateTableCache,
        *frames[3].data.table_cache_keys_to_invalidate == answers.cache_keys,
        frames[3].data.tasks@ == Seq::<AlterTableTask<D>>::empty(),
        frames[3].data.table_info_values@ == Seq::<TableInfoValue<D>>::empty(),
        frames[3].data.physical_table_id == 0,
        frames[3].data.physical_table_info == None::<TableInfoValue<D>>,
        frames[3].data.physical_table_route == None::<PhysicalTableRouteValue<D>>,
        frames[3].data.physical_columns@ == Seq::<D::ColumnMetadata>::empty(),
{
    answers.law_update_outcome(data, frames);
    if frames.len() > 1 {
        assert(answers.step(frames[0], frames[1]));
    }
    if frames.len() > 2 {
        assert(answers.step(frames[1], frames[2]));
    }
    if frames.len() > 3 {
        assert(answers.step(frames[2], frames[3]));
    }
}

/// Whatever a procedure holds, the invalidation first asks for exactly the keys that it
/// keeps. It is done when they are invalidated, and fails as that fails.
pub proof fn law_kept_keys_are_invalidated<D: DdlTypes>(
    data: AlterTablesData<D>,
    invalidated: Result<(), D::Failure>,
)
    ensures
        data.invalidate_next(InvalidateEvent::Begin) == InvalidateAction::<D>::Invalidate(
            data.table_cache_keys_to_invalidate,
        ),
        data.invalidate_next(InvalidateEvent::Invalidated(invalidated)) == InvalidateAction::<
            D,
        >::Return(
            match invalidated {
                Ok(_) => Ok(Status::Done),
                Err(failure) => Err(failure),
            },
        ),
{
}

/// A procedure runs the step of its state: what it asks for first is what that step
/// asks for at its start.
pub proof fn law_each_state_runs_its_step<D: DdlTypes>(
    procedure: AlterLogicalTablesProcedure<D>,
    prepare: PrepareAction<D>,
    submit: SubmitAction<D>,
    update: UpdateAction<D>,
)
    requires
        procedure.data.prepare_leads_to(PrepareEvent::Begin, procedure.data, prepare),
        procedure.data.submit_leads_to(SubmitEvent::Begin, procedure.data, submit),
        procedure.data.update_leads_to(UpdateEvent::Begin, procedure.data, update),
    ensures
        procedure.data.state == AlterTablesState::Prepare ==> procedure.first_action()
            == ExecuteAction::<D>::Prepare(prepare),
        procedure.data.state == AlterTablesState::SubmitAlterRegionRequests
            ==> procedure.first_action() == ExecuteAction::<D>::SubmitAlterRegionRequests(submit),
        procedure.data.state == AlterTablesState::UpdateMetadata ==> procedure.first_action()
            == ExecuteAction::<D>::UpdateMetadata(update),
        procedure.data.state == AlterTablesState::InvalidateTableCache ==> procedure.first_action()
            == ExecuteAction::<D>::InvalidateTableCache(
            procedure.data.invalidate_next(InvalidateEvent::Begin),
        ),
{
}

/// A procedure locks the catalog and the schema of its first task for reading, and for
/// writing its physical table and the table of each value, in this order. It locks
/// nothing else.
pub proof fn law_locks_cover_the_tables<D: DdlTypes>(procedure: AlterLogicalTablesProcedure<D>)
    requires
        procedure.data.tasks@.len() > 0,
    ensures
        procedure.locks().len() == 3 + procedure.data.table_info_values@.len(),
        procedure.locks()[0] == (LockEntry::CatalogRead {
            catalog: procedure.data.tasks@[0].catalog_name,
        }),
        procedure.locks()[1] == (LockEntry::SchemaRead {
            catalog: procedure.data.tasks@[0].catalog_name,
            schema: procedure.data.tasks@[0].schema_name,
        }),
        procedure.locks()[2] == (LockEntry::TableWrite {
            table_id: procedure.data.physical_table_id,
        }),
        forall|i: int|
            0 <= i < procedure.data.table_info_values@.len() ==> procedure.locks()[3 + i] == (
            LockEntry::TableWrite { table_id: #[trigger] procedure.data.table_info_values@[i].table_id }),
        forall|table_id: TableId|
            (#[trigger] procedure.locks().contains(LockEntry::TableWrite { table_id })) <==> table_id
                == procedure.data.physical_table_id || exists|i: int|
                0 <= i < procedure.data.table_info_values@.len()
                    && #[trigger] procedure.data.table_info_values@[i].table_id == table_id,
{
    let values = procedure.data.table_info_values@;
    let locks = procedure.locks();
    assert forall|table_id: TableId|
        (#[trigger] locks.contains(LockEntry::TableWrite { table_id })) <==> table_id
            == procedure.data.physical_table_id || exists|i: int|
            0 <= i < values.len() && #[trigger] values[i].table_id == table_id by {
        let lock = LockEntry::TableWrite { table_id };
        if locks.contains(lock) {
            let k = choose|k: int| 0 <= k < locks.len() && locks[k] == lock;
            if k >= 3 {
                assert(values[k - 3].table_id == table_id);
            }
        }
        if table_id == procedure.data.physical_table_id {
            assert(locks[2] == lock);
        }
        if exists|i: int| 0 <= i < values.len() && #[trigger] values[i].table_id == table_id {
            let i = choose|i: int| 0 <= i < values.len() && #[trigger] values[i].table_id == table_id;
            assert(locks[3 + i] == lock);
        }
    }
}

/// A procedure that was just made has all its tasks before it, knows nothing of the
/// cluster yet, and starts with checking the tasks.
pub proof fn law_new_procedure<D: DdlTypes>(
    procedure: AlterLogicalTablesProcedure<D>,
    tasks: Vec<AlterTableTask<D>>,
    physical_table_id: TableId,
    context: D::Context,
)
    requires
        procedure.is_new(tasks, physical_table_id, context),
    ensures
        procedure.context == context,
        procedure.data.tasks == tasks,
        procedure.data.physical_table_id == physical_table_id,
        procedure.data.state == AlterTablesState::Prepare,
        procedure.data.table_info_values@ == Seq::<TableInfoValue<D>>::empty(),
        procedure.data.physical_table_info == None::<TableInfoValue<D>>,
        procedure.data.physical_table_route == None::<PhysicalTableRouteValue<D>>,
        procedure.data.physical_columns@ == Seq::<D::ColumnMetadata>::empty(),
        procedure.data.table_cache_keys_to_invalidate@ == Seq::<D::CacheIdent>::empty(),
        procedure.first_action() == ExecuteAction::<D>::Prepare(PrepareAction::CheckInputTasks),
        tasks@.len() > 0 ==> procedure.locks().len() == 3,
{
}

/// A procedure that is read back has the data that was read, and goes on with the step
/// that the data is at. Data that could not be read makes no procedure.
pub proof fn law_read_back<D: DdlTypes>(
    parsed: Result<AlterTablesData<D>, D::Failure>,
    context: D::Context,
)
    ensures
        parsed matches Ok(data) ==> {
            &&& AlterLogicalTablesProcedure::<D>::read_back(parsed, context) matches Ok(procedure)
            &&& procedure.data == data
            &&& procedure.context == context
        },
        parsed matches Err(error) ==> AlterLogicalTablesProcedure::<D>::read_back(parsed, context)
            == Err::<AlterLogicalTablesProcedure<D>, FromJsonError<D::Failure>>(
            FromJsonError { error },
        ),
{
}

/// The full name of a table to alter is made of its catalog, its schema and its name, in
/// this order. The locks of a procedure are in the catalog and the schema of its first
/// task.
pub proof fn law_full_names<D: DdlTypes>(procedure: AlterLogicalTablesProcedure<D>)
    requires
        procedure.data.tasks@.len() > 0,
    ensures
        ({
            let task = procedure.data.tasks@[0];
            &&& task.full_name().0 == task.catalog_name@
            &&& task.full_name().1 == task.schema_name@
            &&& task.full_name().2 == task.table_name@
            &&& procedure.locks()[1] matches LockEntry::SchemaRead { catalog, schema }
            &&& catalog@ == task.full_name().0
            &&& schema@ == task.full_name().1
        }),
{
}

/// No two steps share a name.
pub proof fn law_step_names_differ(left: AlterTablesState, right: AlterTablesState)
    ensures
        left.name() == right.name() ==> left == right,
{
    reveal_strlit("Prepare");
    reveal_strlit("SubmitAlterRegionRequests");
    reveal_strlit("UpdateMetadata");
    reveal_strlit("InvalidateTableCache");
    assert("Prepare"@.len() == 7 && "SubmitAlterRegionRequests"@.len() == 25);
    assert("UpdateMetadata"@.len() == 14 && "InvalidateTableCache"@.len() == 20);
}

/// The caches that are invalidated in the end are those whose keys the update of the
/// metadata built.
pub proof fn law_built_keys_are_invalidated<D: DdlTypes>(
    answers: UpdateAnswers<D>,
    data: AlterTablesData<D>,
    frames: Seq<UpdateFrame<D>>,
)
    requires
        answers.run(data, frames),
        frames.last().action matches UpdateAction::Return(Ok(_)),
    ensures
        frames.last().data.invalidate_next(InvalidateEvent::Begin) matches
            InvalidateAction::Invalidate(keys) && *keys == answers.cache_keys,
{
    answers.law_update_outcome(data, frames);
}

/// Whether the step that the procedure has come to may take the data to other data,
/// and end with this result.
pub open spec fn executed<D: DdlTypes>(
    data: AlterTablesData<D>,
    new: AlterTablesData<D>,
    res: Result<Status, D::Failure>,
) -> bool {
    match data.state {
        AlterTablesState::Prepare => exists|
            answers: PrepareAnswers<D>,
            frames: Seq<PrepareFrame<D>>,
        |
            #[trigger] answers.run(data, frames) && frames.last() == (PrepareFrame::<D> {
                data: new,
                action: PrepareAction::Return(res),
            }),
        AlterTablesState::SubmitAlterRegionRequests => exists|
            answers: SubmitAnswers<D>,
            frames: Seq<SubmitFrame<D>>,
        |
            #[trigger] answers.run(data, frames) && frames.last() == (SubmitFrame::<D> {
                data: new,
                action: SubmitAction::Return(res),
            }),
        AlterTablesState::UpdateMetadata => exists|
            answers: UpdateAnswers<D>,
            frames: Seq<UpdateFrame<D>>,
        |
            #[trigger] answers.run(data, frames) && frames.last() == (UpdateFrame::<D> {
                data: new,
                action: UpdateAction::Return(res),
            }),
        AlterTablesState::InvalidateTableCache => {
            &&& new == data
            &&& exists|invalidated: Result<(), D::Failure>|
                InvalidateAction::<D>::Return(res) == #[trigger] data.invalidate_next(
                    InvalidateEvent::<D>::Invalidated(invalidated),
                )
        },
    }
}

/// A step that fails leaves the procedure in its state, with its tasks and its
/// physical table, so that it can be run again. Only the preparation may have filled
/// something in. A step that succeeds is the last one exactly in the state that
/// invalidates the table cache, and moves the procedure to a later state
/// otherwise: to the next one, or from the preparation to the last one.
pub proof fn law_procedure_moves_on<D: DdlTypes>(
    data: AlterTablesData<D>,
    new: AlterTablesData<D>,
    res: Result<Status, D::Failure>,
)
    requires
        executed(data, new, res),
    ensures
        res is Err ==> {
            &&& new.state == data.state
            &&& new.tasks == data.tasks
            &&& new.physical_table_id == data.physical_table_id
        },
        res is Err && data.state != AlterTablesState::Prepare ==> new == data,
        res matches Ok(status) ==> {
            if data.state == AlterTablesState::InvalidateTableCache {
                status == Status::Done && new == data
            } else {
                &&& status == (Status::Executing { persist: true })
                &&& place(new.state) == place(data.state) + 1 || (data.state
                    == AlterTablesState::Prepare && new.state
                    == AlterTablesState::InvalidateTableCache)
            }
        },
{
    match data.state {
        AlterTablesState::Prepare => {
            let (answers, frames) = choose|
                answers: PrepareAnswers<D>,
                frames: Seq<PrepareFrame<D>>,
            |
                #[trigger] answers.run(data, frames) && frames.last() == (PrepareFrame::<D> {
                    data: new,
                    action: PrepareAction::Return(res),
                });
            answers.law_prepare_outcome(data, frames);
        },
        AlterTablesState::SubmitAlterRegionRequests => {
            let (answers, frames) = choose|
                answers: SubmitAnswers<D>,
                frames: Seq<SubmitFrame<D>>,
            |
                #[trigger] answers.run(data, frames) && frames.last() == (SubmitFrame::<D> {
                    data: new,
                    action: SubmitAction::Return(res),
                });
            answers.law_submit_outcome(data, frames);
        },
        AlterTablesState::UpdateMetadata => {
            let (answers, frames) = choose|
                answers: UpdateAnswers<D>,
                frames: Seq<UpdateFrame<D>>,
            |
                #[trigger] answers.run(data, frames) && frames.last() == (UpdateFrame::<D> {
                    data: new,
                    action: UpdateAction::Return(res),
                });
            answers.law_update_outcome(data, frames);
        },
        AlterTablesState::InvalidateTableCache => {},
    }
}

/// A procedure whose steps all succeed is done after four of them at most: three
/// that ask for another one, and the last.
pub proof fn law_procedure_ends<D: DdlTypes>(course: Seq<AlterTablesData<D>>)
    requires
        course.len() > 0,
        forall|i: int|
            0 <= i < course.len() - 1 ==> executed(
                #[trigger] course[i],
                course[i + 1],
                Ok(Status::Executing { persist: true }),
            ),
    ensures
        course.len() <= 4,
        place(course.last().state) >= place(course[0].state) + course.len() - 1,
    decreases course.len(),
{
    if course.len() > 1 {
        let earlier = course.drop_last();
        assert forall|i: int| 0 <= i < earlier.len() - 1 implies executed(
            #[trigger] earlier[i],
            earlier[i + 1],
            Ok(Status::Executing { persist: true }),
        ) by {
            assert(executed(course[i], course[i + 1], Ok(Status::Executing { persist: true })));
        }
        law_procedure_ends(earlier);
        let last = course.len() - 2;
        assert(executed(course[last], course[last + 1], Ok(Status::Executing { persist: true })));
        law_procedure_moves_on(
            course[last],
            course[last + 1],
            Ok(Status::Executing { persist: true }),
        );
    }
}

} // verus!
