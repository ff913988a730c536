use std::sync::Arc;

use greptime_services::alter_logical_tables::{
    AlterLogicalTablesProcedure, AlterTableTask, AlterTablesData, AlterTablesState, DdlTypes,
    ExecuteAction, FromJsonError, InvalidateAction, InvalidateEvent, LockEntry,
    PhysicalTableRouteValue, PrepareAction, PrepareEvent, Status, SubmitAction, SubmitEvent,
    TableInfoValue, UpdateAction, UpdateEvent,
};
use greptime_services::sequences::{collect_results, keep_unflagged};

struct Texts;

impl DdlTypes for Texts {
    type Context = &'static str;
    type AlterKind = ();
    type TableInfo = ();
    type RegionRoute = u64;
    type ColumnMetadata = &'static str;
    type CacheIdent = u32;
    type Peer = u64;
    type RegionRequest = String;
    type RegionResponse = String;
    type Failure = &'static str;
}

type Procedure = AlterLogicalTablesProcedure<Texts>;

const MORE: Status = Status::Executing { persist: true };

fn task(table: &str) -> AlterTableTask<Texts> {
    AlterTableTask {
        catalog_name: "greptime".to_string(),
        schema_name: "public".to_string(),
        table_name: table.to_string(),
        kind: (),
    }
}

fn info(table_id: u32) -> TableInfoValue<Texts> {
    TableInfoValue { table_id, engine: "metric".to_string(), value: () }
}

fn route() -> PhysicalTableRouteValue<Texts> {
    PhysicalTableRouteValue { region_routes: Arc::new(vec![11, 12]) }
}

fn procedure(tables: &[&str]) -> Procedure {
    let tasks = tables.iter().map(|table| task(table)).collect();
    AlterLogicalTablesProcedure::new(tasks, 1024, "context")
}

/// A procedure that is ready to be submitted.
fn prepared(finished: &[bool]) -> (Procedure, PrepareAction<Texts>) {
    let names = ["t1", "t2", "t3"];
    let mut p = procedure(&names[..finished.len()]);
    let infos = (0..finished.len() as u32).map(|i| info(1025 + i)).collect();
    assert!(matches!(p.on_prepare(PrepareEvent::Begin), PrepareAction::CheckInputTasks));
    assert!(matches!(
        p.on_prepare(PrepareEvent::InputTasksChecked(Ok(()))),
        PrepareAction::FillTableInfoValues
    ));
    assert!(matches!(
        p.on_prepare(PrepareEvent::TableInfoValuesFilled(Ok(infos))),
        PrepareAction::CheckPhysicalTable
    ));
    assert!(matches!(
        p.on_prepare(PrepareEvent::PhysicalTableChecked(Ok(()))),
        PrepareAction::FillPhysicalTableInfo
    ));
    assert!(matches!(
        p.on_prepare(PrepareEvent::PhysicalTableInfoFilled(Ok((info(1024), route())))),
        PrepareAction::CheckFinishedTasks
    ));
    let action = p.on_prepare(PrepareEvent::FinishedTasksChecked(Ok(finished.to_vec())));
    (p, action)
}

fn table_names(p: &Procedure) -> Vec<&str> {
    p.data.tasks.iter().map(|task| task.table_ref().table).collect()
}

fn table_ids(p: &Procedure) -> Vec<u32> {
    p.data.table_info_values.iter().map(|value| value.table_id).collect()
}

#[test]
fn a_new_procedure_is_to_be_prepared() {
    let mut p = procedure(&["t1"]);
    assert_eq!("context", p.context);
    assert_eq!(AlterTablesState::Prepare, p.data.state);
    assert_eq!(vec!["t1"], table_names(&p));
    assert_eq!("greptime", p.data.tasks[0].table_ref().catalog);
    assert_eq!("public", p.data.tasks[0].table_ref().schema);
    assert_eq!(1024, p.data.physical_table_id);
    assert!(p.data.physical_table_info.is_none() && p.data.physical_table_route.is_none());
    assert!(p.data.physical_columns.is_empty());
    assert!(p.data.table_cache_keys_to_invalidate.is_empty());
    assert_eq!("metasrv-procedure::AlterLogicalTables", p.procedure_name());
    assert_eq!("metasrv-procedure::AlterLogicalTables", Procedure::TYPE_NAME);
    assert!(matches!(p.execute(), ExecuteAction::Prepare(PrepareAction::CheckInputTasks)));
}

#[test]
fn a_procedure_is_read_back_with_its_data() {
    let data: AlterTablesData<Texts> = prepared(&[false]).0.data;
    let p = AlterLogicalTablesProcedure::from_json(Ok(data), "context").unwrap();
    assert_eq!(AlterTablesState::SubmitAlterRegionRequests, p.data.state);
    assert_eq!(vec!["t1"], table_names(&p));
    assert!(matches!(
        Procedure::from_json(Err("not json"), "context"),
        Err(FromJsonError { error: "not json" })
    ));
}

#[test]
fn steps_have_names() {
    for (state, name) in [
        (AlterTablesState::Prepare, "Prepare"),
        (AlterTablesState::SubmitAlterRegionRequests, "SubmitAlterRegionRequests"),
        (AlterTablesState::UpdateMetadata, "UpdateMetadata"),
        (AlterTablesState::InvalidateTableCache, "InvalidateTableCache"),
    ] {
        assert_eq!(name, state.as_str());
    }
}

#[test]
fn finished_tasks_are_left_out() {
    let (p, action) = prepared(&[false, true, false]);
    assert!(matches!(action, PrepareAction::Return(Ok(MORE))));
    assert_eq!(AlterTablesState::SubmitAlterRegionRequests, p.data.state);
    assert_eq!(vec!["t1", "t3"], table_names(&p));
    assert_eq!(vec![1025, 1027], table_ids(&p));
    assert!(p.data.physical_table_info.is_some() && p.data.physical_table_route.is_some());
}

#[test]
fn a_finished_procedure_only_invalidates_the_cache() {
    for finished in [&[true, true][..], &[][..]] {
        let (mut p, action) = prepared(finished);
        assert!(matches!(action, PrepareAction::Return(Ok(MORE))));
        assert_eq!(AlterTablesState::InvalidateTableCache, p.data.state);
        assert_eq!(finished.len(), p.data.tasks.len());
        assert!(matches!(
            p.execute(),
            ExecuteAction::InvalidateTableCache(InvalidateAction::Invalidate(keys))
                if keys.is_empty()
        ));
    }
}

#[test]
fn a_failed_preparation_can_be_run_again() {
    let mut p = procedure(&["t1"]);
    for event in [
        PrepareEvent::InputTasksChecked(Err("failed")),
        PrepareEvent::TableInfoValuesFilled(Err("failed")),
        PrepareEvent::PhysicalTableChecked(Err("failed")),
        PrepareEvent::PhysicalTableInfoFilled(Err("failed")),
        PrepareEvent::FinishedTasksChecked(Err("failed")),
    ] {
        assert!(matches!(p.on_prepare(event), PrepareAction::Return(Err("failed"))));
        assert_eq!(AlterTablesState::Prepare, p.data.state);
        assert!(p.data.table_info_values.is_empty());
    }
}

#[test]
fn every_leader_is_sent_its_request() {
    let (mut p, _) = prepared(&[false]);
    assert!(matches!(
        p.execute(),
        ExecuteAction::SubmitAlterRegionRequests(SubmitAction::FindLeaders(routes))
            if *routes == vec![11, 12]
    ));
    let mut action = p.on_submit_alter_region_requests(SubmitEvent::LeadersFound(vec![3, 5]));
    let mut asked = vec![];
    while let SubmitAction::MakeRequest(batch) = action {
        assert_eq!(vec![11, 12], *batch.region_routes);
        let peer = *batch.peer();
        asked.push(peer);
        action = batch.resume(Ok(format!("to {peer}")));
    }
    assert_eq!(vec![3, 5], asked);
    match action {
        SubmitAction::SendRequests { leaders, requests } => {
            assert_eq!(vec![3, 5], leaders);
            assert_eq!(vec!["to 3", "to 5"], requests);
        }
        _ => panic!("unexpected action"),
    }
    assert!(matches!(
        p.on_submit_alter_region_requests(SubmitEvent::LeadersFound(vec![])),
        SubmitAction::SendRequests { leaders, .. } if leaders.is_empty()
    ));
}

#[test]
fn a_request_that_cannot_be_made_ends_the_step() {
    let (mut p, _) = prepared(&[false]);
    match p.on_submit_alter_region_requests(SubmitEvent::LeadersFound(vec![3, 5])) {
        SubmitAction::MakeRequest(batch) => assert!(matches!(
            batch.resume(Err("no request")),
            SubmitAction::Return(Err("no request"))
        )),
        _ => panic!("unexpected action"),
    }
}

#[test]
fn responses_bring_the_columns_of_the_physical_table() {
    let (mut p, _) = prepared(&[false]);
    let responses = vec![Ok("a".to_string()), Ok("b".to_string())];
    let responses =
        match p.on_submit_alter_region_requests(SubmitEvent::ResponsesReceived(responses)) {
            SubmitAction::ExtractColumns(responses) => responses,
            _ => panic!("unexpected action"),
        };
    assert_eq!(vec!["a", "b"], responses);
    let extracted = SubmitEvent::ColumnsExtracted(Ok((responses, Some(vec!["ts", "host"]))));
    match p.on_submit_alter_region_requests(extracted) {
        SubmitAction::SyncFollowers(request) => {
            assert_eq!(1024, request.table_id);
            assert_eq!(vec![11, 12], *request.region_routes);
            assert_eq!("metric", request.engine);
            assert_eq!(vec!["a", "b"], request.responses);
        }
        _ => panic!("unexpected action"),
    }
    assert_eq!(vec!["ts", "host"], p.data.physical_columns);
    // Without columns the ones that are there stay.
    p.on_submit_alter_region_requests(SubmitEvent::ColumnsExtracted(Ok((vec![], None))));
    assert_eq!(vec!["ts", "host"], p.data.physical_columns);
}

#[test]
fn a_failed_submission_can_be_run_again() {
    let (mut p, _) = prepared(&[false]);
    let responses = vec![Ok("a".to_string()), Err("first"), Err("second")];
    assert!(matches!(
        p.on_submit_alter_region_requests(SubmitEvent::ResponsesReceived(responses)),
        SubmitAction::Return(Err("first"))
    ));
    assert!(matches!(
        p.on_submit_alter_region_requests(SubmitEvent::ColumnsExtracted(Err("no columns"))),
        SubmitAction::Return(Err("no columns"))
    ));
    assert_eq!(AlterTablesState::SubmitAlterRegionRequests, p.data.state);
}

#[test]
fn followers_that_lag_do_not_stop_the_procedure() {
    for synced in [Ok(()), Err("lagging")] {
        let (mut p, _) = prepared(&[false]);
        assert!(matches!(
            p.on_submit_alter_region_requests(SubmitEvent::FollowersSynced(synced)),
            SubmitAction::Return(Ok(MORE))
        ));
        assert_eq!(AlterTablesState::UpdateMetadata, p.data.state);
    }
}

#[test]
fn an_update_keeps_only_the_cache_keys() {
    let (mut p, _) = prepared(&[false]);
    p.on_submit_alter_region_requests(SubmitEvent::FollowersSynced(Ok(())));
    assert!(matches!(
        p.execute(),
        ExecuteAction::UpdateMetadata(UpdateAction::UpdatePhysicalTable)
    ));
    assert!(matches!(
        p.on_update_metadata(UpdateEvent::PhysicalTableUpdated(Ok(()))),
        UpdateAction::UpdateLogicalTables
    ));
    assert!(matches!(
        p.on_update_metadata(UpdateEvent::LogicalTablesUpdated(Ok(()))),
        UpdateAction::BuildCacheKeys
    ));
    assert_eq!(1, p.data.tasks.len());
    assert!(matches!(
        p.on_update_metadata(UpdateEvent::CacheKeysBuilt(vec![1024, 1025])),
        UpdateAction::Return(Ok(MORE))
    ));
    assert_eq!(AlterTablesState::InvalidateTableCache, p.data.state);
    assert_eq!(vec![1024, 1025], *p.data.table_cache_keys_to_invalidate);
    assert!(matches!(
        p.execute(),
        ExecuteAction::InvalidateTableCache(InvalidateAction::Invalidate(keys))
            if *keys == vec![1024, 1025]
    ));
    assert!(p.data.tasks.is_empty() && p.data.table_info_values.is_empty());
    assert_eq!(0, p.data.physical_table_id);
    assert!(p.data.physical_table_info.is_none() && p.data.physical_table_route.is_none());
    assert!(p.data.physical_columns.is_empty());

    assert!(matches!(
        p.on_invalidate_table_cache(InvalidateEvent::Invalidated(Err("no peers"))),
        InvalidateAction::Return(Err("no peers"))
    ));
    assert!(matches!(
        p.on_invalidate_table_cache(InvalidateEvent::Invalidated(Ok(()))),
        InvalidateAction::Return(Ok(Status::Done))
    ));
}

#[test]
fn a_failed_update_can_be_run_again() {
    let (mut p, _) = prepared(&[false]);
    p.on_submit_alter_region_requests(SubmitEvent::FollowersSynced(Ok(())));
    for event in [
        UpdateEvent::PhysicalTableUpdated(Err("failed")),
        UpdateEvent::LogicalTablesUpdated(Err("failed")),
    ] {
        assert!(matches!(p.on_update_metadata(event), UpdateAction::Return(Err("failed"))));
        assert_eq!(AlterTablesState::UpdateMetadata, p.data.state);
        assert_eq!(1, p.data.tasks.len());
    }
}

#[test]
fn a_procedure_locks_its_tables() {
    let catalog = || "greptime".to_string();
    let (p, _) = prepared(&[false, false]);
    assert_eq!(
        vec![
            LockEntry::CatalogRead { catalog: catalog() },
            LockEntry::SchemaRead { catalog: catalog(), schema: "public".to_string() },
            LockEntry::TableWrite { table_id: 1024 },
            LockEntry::TableWrite { table_id: 1025 },
            LockEntry::TableWrite { table_id: 1026 },
        ],
        p.lock_key()
    );
    assert_eq!(3, procedure(&["t1", "t2"]).lock_key().len());
}

#[test]
fn vectors_are_filtered_and_collected() {
    assert_eq!(vec!['b', 'd'], keep_unflagged(vec!['a', 'b', 'c', 'd'], &vec![true, false, true, false]));
    assert_eq!(Ok(vec![1, 2]), collect_results::<u8, ()>(vec![Ok(1), Ok(2)]));
    assert_eq!(Err('x'), collect_results::<u8, char>(vec![Ok(1), Err('x'), Err('y')]));
    assert_eq!(Ok(vec![]), collect_results::<u8, char>(vec![]));
}
