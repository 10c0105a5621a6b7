//! A small CRUD service over two independent record collections, events and
//! features, kept in a single relational store.
//!
//! The library holds the logic of the service: the shape of a record, the
//! statement that each operation sends to the store, the decision that turns
//! what the store answered into a response, and a model of a table on which
//! the laws of the four operations are proved.
mod config;
mod ident;
mod laws;
mod record;
mod response;
mod service;
mod statement;
mod table;

pub use config::{database_file, file_scheme, names_file};
pub use laws::{
    create_all, law_create_then_read, law_created_ids_distinct, law_listing_after_creates,
    law_read_missing, law_successful_creates, law_update_isolated, requested,
};
pub use record::{copy_texts, texts, ApiError, Resource, Row, RowModel};
pub use response::{finish_create, finish_read_all, finish_read_one, finish_update, Outcome};
pub use service::{
    check_width, create, create_model, create_step, create_with_id, new_record, read_all, read_one,
    read_one_model, result_model, update, update_model,
};
pub use statement::{
    insert_statement, select_all_statement, select_one_statement, sql_text, update_statement,
    Operation, Statement,
};
pub use table::{has_id, ids_unique, models, replaced, valid, Table};
