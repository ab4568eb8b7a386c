//! The value types of the HTTP surface: request bodies and the common
//! response envelope. The handlers themselves run in the network shell
//! outside the library; the envelope's two constructors are stated here.

use vstd::prelude::*;

verus! {

/// A request to create one record.
#[derive(Debug, Clone)]
pub struct CreateDataRequest {
    pub name: String,
    pub value: i32,
}

/// A request to update one record; absent fields stay as they are.
#[derive(Debug, Clone)]
pub struct UpdateDataRequest {
    pub name: Option<String>,
    pub value: Option<i32>,
}

/// The common response envelope.
#[derive(Debug, Clone)]
pub struct ApiResponse<T> {
    pub success: bool,
    pub data: Option<T>,
    pub message: Option<String>,
}

impl<T> ApiResponse<T> {
    /// A success envelope around a payload.
    pub fn success(data: T) -> (r: ApiResponse<T>)
        ensures
            r.success,
            r.data == Some(data),
            r.message is None,
    {
        ApiResponse { success: true, data: Some(data), message: None }
    }

    /// A failure envelope around a message.
    pub fn error(message: String) -> (r: ApiResponse<T>)
        ensures
            !r.success,
            r.data is None,
            r.message == Some(message),
    {
        ApiResponse { success: false, data: None, message: Some(message) }
    }
}

} // verus!
