//! The second step: altering the regions of the physical table.
use std::sync::Arc;

use vstd::prelude::*;

use crate::alter_logical_tables::data::{AlterTablesData, AlterTablesState, DdlTypes, TableId};
use crate::alter_logical_tables::procedure::{AlterLogicalTablesProcedure, Status};
use crate::sequences;
use crate::sequences::collect_results;

verus! {

/// What became of the last thing that the submission asked for.
pub enum SubmitEvent<D: DdlTypes> {
    /// Nothing was asked for yet.
    Begin,
    /// The nodes that lead the regions of the physical table.
    LeadersFound(Vec<D::Peer>),
    /// The responses to the requests, in the order of the requests.
    ResponsesReceived(Vec<Result<D::RegionResponse, D::Failure>>),
    /// The responses without the columns of the physical table, and these columns if
    /// the responses held them.
    ColumnsExtracted(
        Result<(Vec<D::RegionResponse>, Option<Vec<D::ColumnMetadata>>), D::Failure>,
    ),
    FollowersSynced(Result<(), D::Failure>),
}

/// What the submission asks for next.
pub enum SubmitAction<D: DdlTypes> {
    /// Find the leaders among these routes.
    FindLeaders(Arc<Vec<D::RegionRoute>>),
    /// Make the request for the regions on `RequestBatch::peer`, out of those of
    /// `RequestBatch::region_routes`.
    MakeRequest(RequestBatch<D>),
    /// Send each leader its request, all at once, and wait for all responses.
    SendRequests { leaders: Vec<D::Peer>, requests: Vec<D::RegionRequest> },
    /// Take the columns of the physical table out of the responses.
    ExtractColumns(Vec<D::RegionResponse>),
    /// Bring the followers of the regions up to date.
    SyncFollowers(SyncRequest<D>),
    /// The step has ended.
    Return(Result<Status, D::Failure>),
}

/// Requests in the making: those for the first of the leaders are there.
pub struct RequestBatch<D: DdlTypes> {
    pub region_routes: Arc<Vec<D::RegionRoute>>,
    pub leaders: Vec<D::Peer>,
    pub requests: Vec<D::RegionRequest>,
}

/// What the followers of the regions of a table are brought up to date with.
pub struct SyncRequest<D: DdlTypes> {
    pub table_id: TableId,
    pub region_routes: Arc<Vec<D::RegionRoute>>,
    pub engine: String,
    pub responses: Vec<D::RegionResponse>,
}

/// Whether an action goes on with these requests for the first of the leaders: it
/// makes the next one, or sends all of them when there is one for each leader.
pub open spec fn continues_batch<D: DdlTypes>(
    region_routes: Arc<Vec<D::RegionRoute>>,
    leaders: Vec<D::Peer>,
    requests: Seq<D::RegionRequest>,
    action: SubmitAction<D>,
) -> bool {
    if requests.len() < leaders@.len() {
        action matches SubmitAction::MakeRequest(batch) && {
            &&& batch.region_routes == region_routes
            &&& batch.leaders == leaders
            &&& batch.requests@ == requests
        }
    } else {
        action matches SubmitAction::SendRequests { leaders: to, requests: all } && {
            &&& to == leaders
            &&& all@ == requests
        }
    }
}

fn continue_batch<D: DdlTypes>(
    region_routes: Arc<Vec<D::RegionRoute>>,
    leaders: Vec<D::Peer>,
    requests: Vec<D::RegionRequest>,
) -> (action: SubmitAction<D>)
    ensures
        continues_batch(region_routes, leaders, requests@, action),
{
    if requests.len() < leaders.len() {
        SubmitAction::MakeRequest(RequestBatch { region_routes, leaders, requests })
    } else {
        SubmitAction::SendRequests { leaders, requests }
    }
}

impl<D: DdlTypes> RequestBatch<D> {
    /// Whether there is a leader without a request.
    pub open spec fn unfinished(self) -> bool {
        self.requests@.len() < self.leaders@.len()
    }

    /// The leader whose request is to be made.
    pub open spec fn next_peer(self) -> D::Peer {
        self.leaders@[self.requests@.len() as int]
    }

    /// The leader whose request is to be made.
    pub fn peer(&self) -> (peer: &D::Peer)
        requires
            self.unfinished(),
        ensures
            *peer == self.leaders@[self.requests@.len() as int],
            *peer == self.next_peer(),
    {
        &self.leaders[self.requests.len()]
    }

    /// What comes of making a request. A request that cannot be made ends the step
    /// before any is sent.
    pub open spec fn leads_to(
        self,
        request: Result<D::RegionRequest, D::Failure>,
        action: SubmitAction<D>,
    ) -> bool {
        match request {
            Ok(request) => continues_batch(
                self.region_routes,
                self.leaders,
                self.requests@.push(request),
                action,
            ),
            Err(failure) => action == SubmitAction::<D>::Return(Err(failure)),
        }
    }

    /// Goes on with the request.
    pub fn resume(self, request: Result<D::RegionRequest, D::Failure>) -> (action: SubmitAction<D>)
        ensures
            self.leads_to(request, action),
    {
        match request {
            Ok(request) => {
                let mut requests = self.requests;
                requests.push(request);
                continue_batch(self.region_routes, self.leaders, requests)
            },
            Err(failure) => SubmitAction::Return(Err(failure)),
        }
    }
}

impl<D: DdlTypes> AlterTablesData<D> {
    /// What the submission makes of an event: the data after it, and what it asks for
    /// next. A failure ends the step and leaves the data as it is, but for one: that
    /// the followers could not be brought up to date is passed over.
    pub open spec fn submit_leads_to(
        self,
        event: SubmitEvent<D>,
        new: AlterTablesData<D>,
        action: SubmitAction<D>,
    ) -> bool {
        match event {
            SubmitEvent::Begin => {
                new == self && action == SubmitAction::<D>::FindLeaders(self.region_routes())
            },
            SubmitEvent::LeadersFound(leaders) => {
                &&& new == self
                &&& continues_batch(self.region_routes(), leaders, Seq::empty(), action)
            },
            SubmitEvent::ResponsesReceived(results) => {
                &&& new == self
                &&& match action {
                    SubmitAction::ExtractColumns(responses) => sequences::collected(
                        results@,
                        Ok(responses),
                    ),
                    SubmitAction::Return(Err(failure)) => sequences::collected(
                        results@,
                        Err::<Vec<D::RegionResponse>, D::Failure>(failure),
                    ),
                    _ => false,
                }
            },
            SubmitEvent::ColumnsExtracted(Ok((responses, columns))) => {
                &&& new == (AlterTablesData {
                    physical_columns: match columns {
                        Some(columns) => columns,
                        None => self.physical_columns,
                    },
                    ..self
                })
                &&& self.syncs(responses, action)
            },
            SubmitEvent::ColumnsExtracted(Err(failure)) => {
                new == self && action == SubmitAction::<D>::Return(Err(failure))
            },
            SubmitEvent::FollowersSynced(_) => {
                &&& new == (AlterTablesData { state: AlterTablesState::UpdateMetadata, ..self })
                &&& action == SubmitAction::<D>::Return(Ok(Status::Executing { persist: true }))
            },
        }
    }

    /// Whether an action is to bring the followers of the physical table up to date.
    pub open spec fn syncs(self, responses: Vec<D::RegionResponse>, action: SubmitAction<D>) -> bool {
        action == SubmitAction::SyncFollowers(
            (SyncRequest::<D> {
                table_id: self.physical_table_id,
                region_routes: self.region_routes(),
                engine: self.physical_table_info->0.engine,
                responses,
            }),
        )
    }

    /// What an event of the submission needs: the route of the physical table as long
    /// as regions are to be reached, and the physical table itself to bring the
    /// followers up to date.
    pub open spec fn takes_submit_event(self, event: SubmitEvent<D>) -> bool {
        match event {
            SubmitEvent::Begin | SubmitEvent::LeadersFound(_) => {
                self.physical_table_route is Some
            },
            SubmitEvent::ColumnsExtracted(Ok(_)) => {
                self.physical_table_route is Some && self.physical_table_info is Some
            },
            _ => true,
        }
    }
}

impl<D: DdlTypes> AlterLogicalTablesProcedure<D> {
    /// Submits the requests to alter the regions. Starts with `SubmitEvent::Begin`,
    /// and goes on with what became of each action.
    pub fn on_submit_alter_region_requests(&mut self, event: SubmitEvent<D>) -> (action:
        SubmitAction<D>)
        requires
            old(self).data.takes_submit_event(event),
        ensures
            old(self).data.submit_leads_to(event, final(self).data, action),
            final(self).context == old(self).context,
    {
        match event {
            SubmitEvent::Begin => SubmitAction::FindLeaders(self.share_region_routes()),
            SubmitEvent::LeadersFound(leaders) => {
                continue_batch(self.share_region_routes(), leaders, Vec::new())
            },
            SubmitEvent::ResponsesReceived(results) => match collect_results(results) {
                Ok(responses) => SubmitAction::ExtractColumns(responses),
                Err(failure) => SubmitAction::Return(Err(failure)),
            },
            SubmitEvent::ColumnsExtracted(Ok((responses, columns))) => {
                if let Some(columns) = columns {
                    self.data.physical_columns = columns;
                }
                self.submit_sync_region_requests(responses)
            },
            SubmitEvent::ColumnsExtracted(Err(failure)) => SubmitAction::Return(Err(failure)),
            SubmitEvent::FollowersSynced(_) => {
                self.data.state = AlterTablesState::UpdateMetadata;
                SubmitAction::Return(Ok(Status::Executing { persist: true }))
            },
        }
    }

    fn share_region_routes(&self) -> (region_routes: Arc<Vec<D::RegionRoute>>)
        requires
            self.data.physical_table_route is Some,
        ensures
            region_routes == self.data.region_routes(),
    {
        match &self.data.physical_table_route {
            Some(route) => route.region_routes.clone(),
            None => Arc::new(Vec::new()),
        }
    }

    fn submit_sync_region_requests(&self, responses: Vec<D::RegionResponse>) -> (action:
        SubmitAction<D>)
        requires
            self.data.physical_table_route is Some,
            self.data.physical_table_info is Some,
        ensures
            self.data.syncs(responses, action),
    {
        let engine = match &self.data.physical_table_info {
            Some(info) => info.engine.clone(),
            None => String::new(),
        };
        SubmitAction::SyncFollowers(
            SyncRequest {
                table_id: self.data.physical_table_id,
                region_routes: self.share_region_routes(),
                engine,
                responses,
            },
        )
    }
}

} // verus!
