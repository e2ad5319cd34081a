//! The transfer resource of a payments API: the record itself, the parameters
//! of its list call, the query string that the call sends, and the JSON
//! values that transfers are read from and written as.

pub mod ids;
pub mod list_params;
pub mod query;
pub mod resource;
pub mod wire;

pub use ids::TransferId;
pub use list_params::{RangeBounds, RangeQuery, TransferListParams};
pub use resource::{Expandable, Page, Request, SchemaMismatch, Transfer, TransferList};
pub use wire::{Member, Value};
