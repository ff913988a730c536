//! The procedure that alters logical tables on top of one physical table.
//!
//! The procedure is a state machine whose work is done elsewhere. Each of its
//! steps asks for one thing after the other, and goes on with what came of it.
pub mod data;
pub mod laws;
pub mod lock_key;
pub mod prepare;
pub mod procedure;
pub mod submit;
pub mod update;

pub use data::{
    AlterTableTask, AlterTablesData, AlterTablesState, DdlTypes, PhysicalTableRouteValue, TableId,
    TableInfoValue, TableReference,
};
pub use lock_key::LockEntry;
pub use prepare::{PrepareAction, PrepareEvent};
pub use procedure::{AlterLogicalTablesProcedure, ExecuteAction, FromJsonError, Status};
pub use submit::{RequestBatch, SubmitAction, SubmitEvent, SyncRequest};
pub use update::{InvalidateAction, InvalidateEvent, UpdateAction, UpdateEvent};
