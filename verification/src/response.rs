use vstd::prelude::*;

verus! {

/// The envelope of a successful answer: the data, optional metadata, and the id of the
/// request it answers.
pub struct ApiResponse<T, M = ()> {
    pub data: T,
    pub meta: Option<M>,
    pub request_id: u128,
}

impl<T> ApiResponse<T> {
    /// An answer without metadata.
    pub fn new(data: T, request_id: u128) -> (r: Self)
        ensures
            r.data == data,
            r.meta is None,
            r.request_id == request_id,
    {
        ApiResponse { data, meta: None, request_id }
    }
}

impl<T, M> ApiResponse<T, M> {
    /// An answer with metadata.
    pub fn with_meta(data: T, meta: M, request_id: u128) -> (r: Self)
        ensures
            r.data == data,
            r.meta == Some(meta),
            r.request_id == request_id,
    {
        ApiResponse { data, meta: Some(meta), request_id }
    }
}

} // verus!
