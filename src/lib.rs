//! Classification of customs line items into a closed taxonomy of
//! construction materials: the text handling, the category parser and the
//! batch run that decides what to retrieve, what to dispatch and what to
//! persist.

pub mod agents;
pub mod cls;
pub mod conf;
pub mod database;
pub mod schemas;
pub mod text;
