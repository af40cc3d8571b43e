use vstd::prelude::*;

verus! {

/// Items a drain cycle takes from the buffer at most, unless configured otherwise.
pub const DEFAULT_MAX_OPERATIONS_PER_UPLOAD: usize = 15;

/// Write attempts a drain cycle makes at most, unless configured otherwise.
pub const DEFAULT_MAX_ATTEMPTS: usize = 5;

/// Which bulk write a drain cycle performs.
#[derive(Clone, Debug)]
pub enum WriteMode {
    /// Insert each entity unless a row with its key already exists.
    InsertIfNotExists,
    /// Insert each entity, or update the row keyed by `primary_key_name`.
    InsertOrUpdate { primary_key_name: String },
}

/// Configuration of one write-behind buffer and its drain cycle.
pub struct UploadSettings {
    pub table_name: String,
    pub mode: WriteMode,
    pub max_operations_per_upload: usize,
    pub max_attempts: usize,
}

impl UploadSettings {
    /// Settings with explicit limits.
    pub fn new(
        table_name: String,
        mode: WriteMode,
        max_operations_per_upload: usize,
        max_attempts: usize,
    ) -> (r: Self)
        ensures
            r.table_name@ == table_name@,
            r.mode == mode,
            r.max_operations_per_upload == max_operations_per_upload,
            r.max_attempts == max_attempts,
    {
        UploadSettings { table_name, mode, max_operations_per_upload, max_attempts }
    }

    /// Insert-if-not-exists into `table_name`, with the default limits.
    pub fn insert_if_not_exists(table_name: String) -> (r: Self)
        ensures
            r.table_name@ == table_name@,
            r.mode is InsertIfNotExists,
            r.max_operations_per_upload == DEFAULT_MAX_OPERATIONS_PER_UPLOAD,
            r.max_attempts == DEFAULT_MAX_ATTEMPTS,
    {
        Self::new(
            table_name,
            WriteMode::InsertIfNotExists,
            DEFAULT_MAX_OPERATIONS_PER_UPLOAD,
            DEFAULT_MAX_ATTEMPTS,
        )
    }

    /// Insert-or-update into `table_name`, keyed by `primary_key_name`, with
    /// the default limits.
    pub fn insert_or_update(table_name: String, primary_key_name: String) -> (r: Self)
        ensures
            r.table_name@ == table_name@,
            r.mode matches WriteMode::InsertOrUpdate { primary_key_name: k } && k@
                == primary_key_name@,
            r.max_operations_per_upload == DEFAULT_MAX_OPERATIONS_PER_UPLOAD,
            r.max_attempts == DEFAULT_MAX_ATTEMPTS,
    {
        Self::new(
            table_name,
            WriteMode::InsertOrUpdate { primary_key_name },
            DEFAULT_MAX_OPERATIONS_PER_UPLOAD,
            DEFAULT_MAX_ATTEMPTS,
        )
    }
}

} // verus!
