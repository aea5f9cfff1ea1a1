//! Messages exchanged with the front-end over the message bridge.
use vstd::prelude::*;
use vstd::string::StringExecFns;

verus! {

/// GET request: correlation identifier and path.
pub struct IpcGetRequest {
    pub request_id: i64,
    pub path: String,
}

/// POST request with an optional body.
pub struct IpcPostRequest {
    pub request_id: i64,
    pub path: String,
    pub body: Option<String>,
}

/// PUT request with an optional body; it mutates the core's configuration.
pub struct IpcPutRequest {
    pub request_id: i64,
    pub path: String,
    pub body: Option<String>,
}

/// PATCH request with an optional body.
pub struct IpcPatchRequest {
    pub request_id: i64,
    pub path: String,
    pub body: Option<String>,
}

/// DELETE request.
pub struct IpcDeleteRequest {
    pub request_id: i64,
    pub path: String,
}

/// Answer to one logical request, carrying the request's identifier.
pub struct IpcResponse {
    pub request_id: i64,
    pub status_code: u16,
    pub body: String,
    pub success: bool,
    pub error_message: Option<String>,
}

/// Start the log stream.
pub struct StartLogStream;

/// Stop the log stream.
pub struct StopLogStream;

/// One decoded log line.
pub struct IpcLogData {
    pub log_type: String,
    pub payload: String,
}

/// Start the traffic stream.
pub struct StartTrafficStream;

/// Stop the traffic stream.
pub struct StopTrafficStream;

/// One decoded traffic sample: cumulative upload and download counters.
pub struct IpcTrafficData {
    pub upload: u64,
    pub download: u64,
}

/// Outcome of a start or stop of a stream.
pub struct StreamResult {
    pub success: bool,
    pub error_message: Option<String>,
}

/// `r` is a failed answer to request `id` whose message is `msg`.
pub open spec fn is_failure_response(r: IpcResponse, id: i64, msg: Seq<char>) -> bool {
    &&& r.request_id == id
    &&& r.status_code == 0
    &&& r.body@ == Seq::<char>::empty()
    &&& !r.success
    &&& r.error_message is Some
    &&& r.error_message->0@ == msg
}

/// `r` is a successful answer to request `id` with the given status and body.
pub open spec fn is_success_response(r: IpcResponse, id: i64, status: u16, body: Seq<char>) -> bool {
    &&& r.request_id == id
    &&& r.status_code == status
    &&& r.body@ == body
    &&& r.success
    &&& r.error_message is None
}

impl IpcResponse {
    /// A failed answer to request `request_id` carrying `message`.
    pub fn failure(request_id: i64, message: String) -> (r: IpcResponse)
        ensures
            is_failure_response(r, request_id, message@),
    {
        IpcResponse { request_id, status_code: 0, body: String::new(), success: false, error_message: Some(message) }
    }

    /// A successful answer to request `request_id`.
    pub fn reply(request_id: i64, status_code: u16, body: String) -> (r: IpcResponse)
        ensures
            is_success_response(r, request_id, status_code, body@),
    {
        IpcResponse { request_id, status_code, body, success: true, error_message: None }
    }
}

impl IpcTrafficData {
    /// A traffic sample from the `up` and `down` fields of a streamed
    /// message; a missing or non-integer field counts as zero.
    pub fn from_fields(up: Option<u64>, down: Option<u64>) -> (r: IpcTrafficData)
        ensures
            r.upload == match up { Some(v) => v, None => 0 },
            r.download == match down { Some(v) => v, None => 0 },
    {
        let upload = match up {
            Some(v) => v,
            None => 0,
        };
        let download = match down {
            Some(v) => v,
            None => 0,
        };
        IpcTrafficData { upload, download }
    }
}

impl IpcLogData {
    /// A log line from the `type` and `payload` fields of a streamed
    /// message; a missing type reads as `info`, a missing payload as empty.
    pub fn from_fields(log_type: Option<String>, payload: Option<String>) -> (r: IpcLogData)
        ensures
            r.log_type@ == match log_type { Some(t) => t@, None => "info"@ },
            r.payload@ == match payload { Some(p) => p@, None => Seq::<char>::empty() },
    {
        let log_type = match log_type {
            Some(t) => t,
            None => String::from_str("info"),
        };
        let payload = match payload {
            Some(p) => p,
            None => String::new(),
        };
        IpcLogData { log_type, payload }
    }
}

impl StreamResult {
    /// Success of a start or stop.
    pub fn ok() -> (r: StreamResult)
        ensures
            r.success,
            r.error_message is None,
    {
        StreamResult { success: true, error_message: None }
    }

    /// Failure of a start, carrying the transport's message.
    pub fn failed(message: String) -> (r: StreamResult)
        ensures
            !r.success,
            r.error_message == Some(message),
    {
        StreamResult { success: false, error_message: Some(message) }
    }
}

} // verus!
