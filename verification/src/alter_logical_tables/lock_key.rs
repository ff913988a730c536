//! What a procedure locks.
use vstd::prelude::*;

use crate::alter_logical_tables::data::{DdlTypes, TableId, TableInfoValue};
use crate::alter_logical_tables::procedure::AlterLogicalTablesProcedure;

verus! {

/// A lock on a part of the catalog.
#[derive(Debug, PartialEq, Eq)]
pub enum LockEntry {
    CatalogRead { catalog: String },
    SchemaRead { catalog: String, schema: String },
    TableWrite { table_id: TableId },
}

impl<D: DdlTypes> AlterLogicalTablesProcedure<D> {
    /// The locks of a procedure: its catalog and its schema for reading, its physical
    /// table and every logical table known so far for writing.
    pub open spec fn locks(self) -> Seq<LockEntry> {
        let catalog = self.data.tasks@[0].catalog_name;
        let schema = self.data.tasks@[0].schema_name;
        seq![
            LockEntry::CatalogRead { catalog },
            LockEntry::SchemaRead { catalog, schema },
            LockEntry::TableWrite { table_id: self.data.physical_table_id },
        ] + self.data.table_info_values@.map_values(
            |table: TableInfoValue<D>| LockEntry::TableWrite { table_id: table.table_id },
        )
    }

    /// What the procedure locks while it runs. All its tasks are in the schema of the
    /// first one.
    pub fn lock_key(&self) -> (keys: Vec<LockEntry>)
        requires
            self.data.tasks@.len() > 0,
        ensures
            keys@ == self.locks(),
    {
        let task = &self.data.tasks[0];
        let mut keys: Vec<LockEntry> = Vec::new();
        keys.push(LockEntry::CatalogRead { catalog: task.catalog_name.clone() });
        keys.push(LockEntry::SchemaRead {
            catalog: task.catalog_name.clone(),
            schema: task.schema_name.clone(),
        });
        keys.push(LockEntry::TableWrite { table_id: self.data.physical_table_id });

        let tables: usize = self.data.table_info_values.len();
        for i in 0..tables
            invariant
                tables == self.data.table_info_values@.len(),
                keys@ == self.locks().take(3 + i),
        {
            let table_id = self.data.table_info_values[i].table_id;
            keys.push(LockEntry::TableWrite { table_id });
            assert(keys@ =~= self.locks().take(3 + i + 1));
        }
        assert(self.locks().take(3 + tables) =~= self.locks());
        keys
    }
}

} // verus!
