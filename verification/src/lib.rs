pub mod cli;
pub mod entry;
pub mod path;
pub mod sql;
pub mod store;
pub mod text;

pub use cli::Command;
pub use cli::FIXED_AMOUNT_BITS;
pub use cli::fixed_entry;
pub use cli::parse_command;
pub use entry::Entry;
pub use entry::EntryModel;
pub use path::db_file;
pub use path::db_file_in;
pub use sql::create_table_sql;
pub use sql::insert_sql;
pub use sql::select_all_sql;
pub use store::Database;
pub use store::creates_schema;
pub use text::entry_line;
pub use text::u64_to_string;
