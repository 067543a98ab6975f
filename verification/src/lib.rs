//! Bookkeeping for a one-person business: clients, projects, invoices and receipts,
//! the names of the files they are kept in, and the documents made from them.

pub mod address;
pub mod cli;
pub mod client;
pub mod completion;
pub mod config;
pub mod contact;
pub mod date;
pub mod document;
pub mod filename;
pub mod filters;
pub mod id;
pub mod invoice;
pub mod latex;
pub mod ledger;
pub mod me;
pub mod price;
pub mod project;
pub mod receipt;
pub mod storage;
pub mod text;
