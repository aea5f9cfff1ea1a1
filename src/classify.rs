//! Classification of transport error messages into "endpoint not ready"
//! and "transient, worth retrying".
use vstd::prelude::*;
use crate::text::{contains_text, has_substring};

verus! {

/// Number of extra attempts a request may make after its first one.
pub const MAX_RETRIES: usize = 2;

/// The message carries one of the platform signatures of an endpoint that
/// does not exist yet or refuses connections (file not found on Windows,
/// ECONNREFUSED on Linux and macOS).
pub open spec fn not_ready_message(m: Seq<char>) -> bool {
    has_substring(m, "系统找不到指定的文件"@)
        || has_substring(m, "os error 2"@)
        || has_substring(m, "拒绝连接"@)
        || has_substring(m, "os error 111"@)
        || has_substring(m, "os error 61"@)
        || has_substring(m, "Connection refused"@)
}

/// The message carries a signature of a failure that a fresh connection may
/// cure: a generic OS error, a refused connection or a broken pipe.
pub open spec fn transient_signature(m: Seq<char>) -> bool {
    has_substring(m, "os error"@)
        || has_substring(m, "系统找不到指定的文件"@)
        || has_substring(m, "Connection refused"@)
        || has_substring(m, "Broken pipe"@)
}

/// A failed attempt number `attempt` (counted from 0) with message `m` is
/// followed by another attempt.
pub open spec fn retry_decision(m: Seq<char>, attempt: int, max_retries: int) -> bool {
    attempt < max_retries && !not_ready_message(m) && transient_signature(m)
}

/// Whether an error message says that the endpoint is not ready yet.
pub fn is_ipc_not_ready_error(error_msg: &str) -> (r: bool)
    ensures
        r == not_ready_message(error_msg@),
{
    contains_text(error_msg, "系统找不到指定的文件")
        || contains_text(error_msg, "os error 2")
        || contains_text(error_msg, "拒绝连接")
        || contains_text(error_msg, "os error 111")
        || contains_text(error_msg, "os error 61")
        || contains_text(error_msg, "Connection refused")
}

/// Whether a request whose attempt number `attempt` failed with `error_msg`
/// should be tried again.
pub fn should_retry_on_error(error_msg: &str, attempt: usize, max_retries: usize) -> (r: bool)
    ensures
        r == retry_decision(error_msg@, attempt as int, max_retries as int),
{
    attempt < max_retries
        && !is_ipc_not_ready_error(error_msg)
        && (contains_text(error_msg, "os error")
            || contains_text(error_msg, "系统找不到指定的文件")
            || contains_text(error_msg, "Connection refused")
            || contains_text(error_msg, "Broken pipe"))
}

} // verus!
