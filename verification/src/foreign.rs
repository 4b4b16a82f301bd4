//! The foreign surface: text arrives as a handle that may be null and whose
//! bytes need not be valid text. Nothing but validated text goes further.

use crate::emit::LogMessage;
use crate::guard::InitGuard;
use crate::init::{init_logger, initialized_by};
use crate::level::{lemma_absent_name_is_info, level_or_default, level_or_info, SeverityLevel};
use vstd::prelude::*;
use vstd::slice::slice_subrange;
use vstd::utf8::{decode_utf8, encode_utf8, encode_utf8_decode_utf8, valid_utf8};

verus! {

/// A text handle as a foreign caller passes it: null, or a buffer that holds
/// the text and the NUL byte that terminates it.
#[derive(Clone, Copy, Debug, PartialEq, Eq)]
pub enum ForeignTextHandle<'a> {
    Null,
    Bytes(&'a [u8]),
}

/// The bytes of the text in a buffer: those before the first NUL byte, and
/// the whole buffer where there is none.
pub open spec fn c_text_of(buf: Seq<u8>) -> Seq<u8> {
    match buf.index_of_first(0u8) {
        Some(end) => buf.take(end),
        None => buf,
    }
}

/// The text behind a handle: none for a null handle and for bytes that are
/// not valid UTF-8.
pub open spec fn handle_text(handle: ForeignTextHandle) -> Option<Seq<char>> {
    match handle {
        ForeignTextHandle::Null => None,
        ForeignTextHandle::Bytes(buf) => if valid_utf8(c_text_of(buf@)) {
            Some(decode_utf8(c_text_of(buf@)))
        } else {
            None
        },
    }
}

/// The level that a level-name handle asks for: the level its text names,
/// and `Info` where it has no text.
pub open spec fn foreign_level(handle: ForeignTextHandle) -> SeverityLevel {
    level_or_info(handle_text(handle))
}

/// The record that a foreign call at `level` hands to the backend: none
/// where the handle has no text.
pub open spec fn is_foreign_record(
    record: Option<LogMessage>,
    level: SeverityLevel,
    handle: ForeignTextHandle,
) -> bool {
    match handle_text(handle) {
        Some(text) => record matches Some(r) && r.level == level && r.text@ == text,
        None => record is None,
    }
}

/// `core::str::from_utf8`: it succeeds exactly on valid UTF-8, and the text
/// it returns is the one whose UTF-8 encoding is the bytes it was given.
#[verifier::external_body]
fn utf8_text<'a>(bytes: &'a [u8]) -> (text: Option<&'a str>)
    ensures
        text is Some <==> valid_utf8(bytes@),
        text matches Some(s) ==> encode_utf8(s@) == bytes@,
{
    core::str::from_utf8(bytes).ok()
}

/// The part of a buffer before its first NUL byte.
pub fn c_text<'a>(buf: &'a [u8]) -> (text: &'a [u8])
    ensures
        text@ == c_text_of(buf@),
{
    let mut end: usize = 0;
    while end < buf.len() && buf[end] != 0
        invariant
            end <= buf@.len(),
            forall|j: int| 0 <= j < end ==> buf@[j] != 0u8,
        decreases buf@.len() - end,
    {
        end = end + 1;
    }
    proof {
        buf@.index_of_first_ensures(0u8);
        if buf@.index_of_first(0u8) is None {
            assert(buf@.take(end as int) =~= buf@);
        }
    }
    slice_subrange(buf, 0, end)
}

impl<'a> ForeignTextHandle<'a> {
    /// The text behind the handle: none for a null handle and for bytes that
    /// are not valid UTF-8.
    pub fn text(self) -> (text: Option<&'a str>)
        ensures
            match handle_text(self) {
                Some(t) => text matches Some(s) && s@ == t,
                None => text is None,
            },
    {
        match self {
            ForeignTextHandle::Null => None,
            ForeignTextHandle::Bytes(buf) => {
                let text = utf8_text(c_text(buf));
                proof {
                    if let Some(s) = text {
                        encode_utf8_decode_utf8(s@);
                    }
                }
                text
            },
        }
    }
}

/// The record of a foreign call at `level`.
fn foreign_record<'a>(
    level: SeverityLevel,
    msg: ForeignTextHandle<'a>,
) -> (record: Option<LogMessage<'a>>)
    ensures
        is_foreign_record(record, level, msg),
{
    match msg.text() {
        Some(text) => Some(LogMessage { level, text }),
        None => None,
    }
}

/// The record of a foreign call at level `Trace`: none, and so nothing for
/// the backend, where the handle is null or its bytes are not valid text.
pub fn woolog_trace<'a>(msg: ForeignTextHandle<'a>) -> (record: Option<LogMessage<'a>>)
    ensures
        is_foreign_record(record, SeverityLevel::Trace, msg),
{
    foreign_record(SeverityLevel::Trace, msg)
}

/// The record of a foreign call at level `Debug`: none, and so nothing for
/// the backend, where the handle is null or its bytes are not valid text.
pub fn woolog_debug<'a>(msg: ForeignTextHandle<'a>) -> (record: Option<LogMessage<'a>>)
    ensures
        is_foreign_record(record, SeverityLevel::Debug, msg),
{
    foreign_record(SeverityLevel::Debug, msg)
}

/// The record of a foreign call at level `Info`: none, and so nothing for
/// the backend, where the handle is null or its bytes are not valid text.
pub fn woolog_info<'a>(msg: ForeignTextHandle<'a>) -> (record: Option<LogMessage<'a>>)
    ensures
        is_foreign_record(record, SeverityLevel::Info, msg),
{
    foreign_record(SeverityLevel::Info, msg)
}

/// The record of a foreign call at level `Warn`: none, and so nothing for
/// the backend, where the handle is null or its bytes are not valid text.
pub fn woolog_warn<'a>(msg: ForeignTextHandle<'a>) -> (record: Option<LogMessage<'a>>)
    ensures
        is_foreign_record(record, SeverityLevel::Warn, msg),
{
    foreign_record(SeverityLevel::Warn, msg)
}

/// The record of a foreign call at level `Error`: none, and so nothing for
/// the backend, where the handle is null or its bytes are not valid text.
pub fn woolog_error<'a>(msg: ForeignTextHandle<'a>) -> (record: Option<LogMessage<'a>>)
    ensures
        is_foreign_record(record, SeverityLevel::Error, msg),
{
    foreign_record(SeverityLevel::Error, msg)
}

/// Installs the backend for a foreign caller. The level is the one that the
/// handle names; a null handle and one without valid text ask for `Info`.
/// The result is `true` unless the backend refused the installation.
pub fn woolog_init(guard: &mut InitGuard, level: ForeignTextHandle<'_>) -> (ok: bool)
    ensures
        initialized_by(old(guard)@, foreign_level(level), final(guard)@, ok),
{
    init_logger(guard, level_or_default(level.text())).is_ok()
}

/// The text of a buffer is the longest beginning of the buffer that holds no
/// NUL byte: it holds none, and a NUL byte follows it unless the buffer ends.
pub proof fn lemma_text_ends_at_first_nul(buf: Seq<u8>)
    ensures
        c_text_of(buf).is_prefix_of(buf),
        !c_text_of(buf).contains(0u8),
        c_text_of(buf).len() < buf.len() ==> buf[c_text_of(buf).len() as int] == 0u8,
{
    buf.index_of_first_ensures(0u8);
}

/// A handle that is null, or whose bytes are not valid text, gives no record
/// at any level.
pub proof fn lemma_no_text_no_record(
    record: Option<LogMessage>,
    level: SeverityLevel,
    handle: ForeignTextHandle,
)
    requires
        is_foreign_record(record, level, handle),
        handle is Null || (handle matches ForeignTextHandle::Bytes(buf) && !valid_utf8(
            c_text_of(buf@),
        )),
    ensures
        record is None,
{
}

/// A null level handle asks for the same level as a handle whose text is
/// `info`.
pub proof fn lemma_null_level_is_info(handle: ForeignTextHandle)
    requires
        handle_text(handle) == Some("info"@),
    ensures
        foreign_level(ForeignTextHandle::Null) == foreign_level(handle),
{
    lemma_absent_name_is_info();
}

} // verus!
