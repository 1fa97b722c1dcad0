//! Reading a shader's compile status and info log.
use vstd::prelude::*;
use vstd::utf8::{decode_utf8, decode_utf8_encode_utf8, encode_utf8, valid_utf8};
use crate::text::decode_text;

verus! {

/// Value of `GL_TRUE`, as a queried shader status reports success.
pub const GL_TRUE: i32 = 1;

/// Size of the buffer that receives a shader's info log.
pub const SHADER_LOG_CAPACITY: usize = 1024;

/// A queried shader status reports a failure exactly when it is not `GL_TRUE`.
pub open spec fn status_failed(status: i32) -> bool {
    status != GL_TRUE
}

/// Tells whether a queried shader status reports a failure, in which case
/// the renderer fetches and reports the shader's info log.
pub fn shader_status_failed(status: i32) -> (failed: bool)
    ensures
        failed == status_failed(status),
        failed <==> status != GL_TRUE,
{
    status != GL_TRUE
}

/// The bytes of an info log that the driver reports as written.
pub open spec fn written_log(log: Seq<u8>, log_len: i32) -> Seq<u8> {
    log.take(log_len as int)
}

/// The written part of an info log is exactly its first `log_len` bytes:
/// it has `log_len` bytes and each is the byte at the same place in the
/// buffer.
pub proof fn lemma_written_log_is_prefix(log: Seq<u8>, log_len: i32)
    requires
        0 <= log_len <= log.len(),
    ensures
        written_log(log, log_len).len() == log_len,
        forall|k: int| 0 <= k < log_len ==> #[trigger] written_log(log, log_len)[k] == log[k],
{
}

/// What a shader query reports: nothing when the queried `status` is
/// `GL_TRUE`, otherwise the text of the written part of the info log. The
/// `context` the query was made for (such as "vertex shader compile") takes
/// no part in it.
pub open spec fn shader_report(status: i32, log: Seq<u8>, log_len: i32, context: Seq<char>) -> Option<
    Seq<char>,
> {
    if status != GL_TRUE {
        Some(decode_utf8(log.take(log_len as int)))
    } else {
        None
    }
}

/// The context a shader is queried for never reaches the report: two
/// queries that differ only in their context report the same thing.
pub proof fn lemma_report_ignores_context(
    status: i32,
    log: Seq<u8>,
    log_len: i32,
    first: Seq<char>,
    second: Seq<char>,
)
    ensures
        shader_report(status, log, log_len, first) == shader_report(status, log, log_len, second),
{
}

/// A failed shader's report loses nothing of its log: encoded back to
/// UTF-8, the report's text is byte for byte the first `log_len` bytes of
/// the buffer, every line of the log included.
pub proof fn lemma_report_keeps_whole_log(
    status: i32,
    log: Seq<u8>,
    log_len: i32,
    context: Seq<char>,
)
    requires
        status != GL_TRUE,
        0 <= log_len <= log.len(),
        valid_utf8(log.take(log_len as int)),
    ensures
        shader_report(status, log, log_len, context) matches Some(text) && encode_utf8(text)
            == log.take(log_len as int) && encode_utf8(text).len() == log_len,
{
    decode_utf8_encode_utf8(log.take(log_len as int));
}

/// What the renderer reports about a shader after querying its status for
/// `context`.
///
/// When `status` is `GL_TRUE` there is nothing to report (`None`). Otherwise
/// the report is the text of the first `log_len` bytes of `log`, the info
/// log buffer the driver filled. The driver's length must lie within the
/// buffer and the written bytes must be UTF-8. The context is not part of
/// the report.
pub fn shader_info_message(status: i32, log: &Vec<u8>, log_len: i32, context: &str) -> (message:
    Option<String>)
    requires
        status != GL_TRUE ==> 0 <= log_len <= log@.len() && valid_utf8(
            log@.take(log_len as int),
        ),
    ensures
        status == GL_TRUE ==> message is None,
        status != GL_TRUE ==> (message matches Some(text) && text@ == decode_utf8(
            log@.take(log_len as int),
        ) && encode_utf8(text@) == log@.take(log_len as int) && encode_utf8(text@).len()
            == log_len),
        !status_failed(status) ==> message is None,
        status_failed(status) ==> (message matches Some(text) && text@ == decode_utf8(
            written_log(log@, log_len),
        )),
        match message {
            Some(text) => shader_report(status, log@, log_len, context@) == Some(text@),
            None => shader_report(status, log@, log_len, context@) is None,
        },
{
    if status == GL_TRUE {
        return None;
    }
    let len = log_len as usize;
    let mut written: Vec<u8> = Vec::new();
    let mut k: usize = 0;
    while k < len
        invariant
            len == log_len,
            len <= log@.len(),
            k <= len,
            written@ =~= log@.take(k as int),
        decreases len - k,
    {
        written.push(log[k]);
        k = k + 1;
        assert(written@ =~= log@.take(k as int));
    }
    proof {
        decode_utf8_encode_utf8(log@.take(log_len as int));
    }
    Some(decode_text(written))
}

} // verus!
