//! Selection, ordering and chunked upload planning for objects of a storage
//! bucket.
//!
//! The library holds the decisions of a bucket client: which objects of a
//! listing are selected and in which order they are handled, how a file is cut
//! into parts for a multipart upload, and what is reported for each step. The
//! network and the file system stay with the caller, who performs the actions
//! that the library hands out and reports back what happened.

pub mod bucket_operations;
pub mod cli;
pub mod copy_operations;
pub mod date_utils;
pub mod environment;
pub mod file_delete;
pub mod file_download;
pub mod key_pattern;
pub mod list_objects;
pub mod multipart_upload;
pub mod object_record;
pub mod output_printer;
pub mod result_sorter;
pub mod text;
pub mod upload_files;

pub use environment::check_print_env_variables;
pub use output_printer::DefaultPrinter;
