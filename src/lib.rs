//! Responses that serve raw file data out of a MongoDB file center, with
//! `ETag` based cache revalidation.
//!
//! The library decides, for one request, whether the client's cached copy is
//! still good (an empty "not modified" response, without touching storage),
//! or whether the file must be fetched, and then which headers and which kind
//! of body the full response carries.

pub mod async_reader;
pub mod etag;
pub mod response;
pub mod text;

pub use async_reader::AsyncReader;
pub use etag::{CacheValidator, ClientValidator};
pub use response::{
    FileCenterRawResponse, FileData, FileRecord, Header, Lookup, PendingFetch, RawResponse,
    ResponseBody,
};
