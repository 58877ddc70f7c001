//! What the C interface keeps and hands across the boundary: the last error
//! recorded for the calling thread, strings made safe for C, and the
//! embedded version record.

use vstd::prelude::*;
use vstd::string::*;
use crate::string_map::StringMap;
use crate::error::{QrmiError, QrmiErrorKind, ReturnCode, error_kind, error_message, return_code_of_kind};

verus! {

broadcast use vstd::string::group_string_axioms;

/// The text recorded in place of a message that cannot become a C string.
pub open spec fn c_string_fallback() -> Seq<char> {
    "Failed to generate a C-compatible string"@
}

/// The message as it is kept for C: unchanged, unless it holds a NUL
/// character, which no C string can hold.
pub open spec fn c_compatible_message(m: Seq<char>) -> Seq<char> {
    if m.contains('\0') {
        c_string_fallback()
    } else {
        m
    }
}

/// What a [`LastError`] holds: the message not yet read, if any, and the
/// kind of the most recent error.
pub struct LastErrorView {
    pub message: Option<Seq<char>>,
    pub kind: QrmiErrorKind,
}

/// The last error recorded by a failing call, as a C host reads it back.
pub struct LastError {
    message: Option<String>,
    kind: QrmiErrorKind,
}

impl View for LastError {
    type V = LastErrorView;

    closed spec fn view(&self) -> LastErrorView {
        LastErrorView {
            message: match self.message {
                Some(m) => Some(m@),
                None => None,
            },
            kind: self.kind,
        }
    }
}

/// Whether the string holds a NUL character.
fn contains_nul(s: &str) -> (r: bool)
    ensures
        r == s@.contains('\0'),
{
    let n = s.unicode_len();
    let mut i: usize = 0;
    while i < n
        invariant
            n == s@.len(),
            i <= n,
            forall|j: int| 0 <= j < i ==> s@[j] != '\0',
        decreases n - i,
    {
        if s.get_char(i) == '\0' {
            assert(s@[i as int] == '\0');
            return true;
        }
        i = i + 1;
    }
    false
}

impl LastError {
    /// No error recorded yet: no message, and the generic kind.
    pub fn new() -> (r: LastError)
        ensures
            r@.message == None::<Seq<char>>,
            r@.kind == QrmiErrorKind::Other,
    {
        LastError { message: None, kind: QrmiErrorKind::Other }
    }

    /// Records a message; one that cannot become a C string is recorded as
    /// a fixed notice instead. The kind is left as it is.
    pub fn set_message(&mut self, msg: String)
        ensures
            final(self)@.message == Some(c_compatible_message(msg@)),
            final(self)@.kind == old(self)@.kind,
    {
        if contains_nul(msg.as_str()) {
            self.message = Some("Failed to generate a C-compatible string".to_string());
        } else {
            self.message = Some(msg);
        }
    }

    /// Hands out the recorded message and clears it, so that a second read
    /// finds none until a new error is recorded.
    pub fn take_message(&mut self) -> (r: Option<String>)
        ensures
            r matches Some(m) ==> old(self)@.message == Some(m@),
            r is None ==> old(self)@.message is None,
            final(self)@.message is None,
            final(self)@.kind == old(self)@.kind,
    {
        let r = self.message.take();
        r
    }

    /// The return code of the kind of the most recent error; the generic
    /// code where none has been recorded. Reading it clears nothing.
    pub fn kind_code(&self) -> (r: ReturnCode)
        ensures
            r == return_code_of_kind(self@.kind),
    {
        ReturnCode::from(self.kind)
    }
}

/// Records `err` as the last error, both its message and its kind, and
/// returns the return code matching that kind.
pub fn _fail(state: &mut LastError, err: QrmiError) -> (r: ReturnCode)
    ensures
        r == return_code_of_kind(error_kind(err)),
        final(state)@.kind == error_kind(err),
        final(state)@.message == Some(c_compatible_message(error_message(err))),
{
    let kind = err.kind();
    state.kind = kind;
    state.set_message(err.message());
    ReturnCode::from(kind)
}

/// Records `err` as the last error in the same way as [`_fail`], for
/// callers that report failure by a null result instead of a code.
pub fn _record_error(state: &mut LastError, err: QrmiError)
    ensures
        final(state)@.kind == error_kind(err),
        final(state)@.message == Some(c_compatible_message(error_message(err))),
{
    let kind = err.kind();
    state.kind = kind;
    state.set_message(err.message());
}

/// What a C host reads back after a failing call (see [`_fail`]): the code
/// of the error's kind, which is never success; the error's own text
/// whenever that text can be a C string; and in every case a message that
/// holds no NUL character.
pub proof fn failure_reads_back(err: QrmiError)
    ensures
        return_code_of_kind(error_kind(err)) != ReturnCode::Success,
        !error_message(err).contains('\0') ==> c_compatible_message(error_message(err))
            == error_message(err),
        !c_compatible_message(error_message(err)).contains('\0'),
{
    reveal_strlit("Failed to generate a C-compatible string");
    let f = c_string_fallback();
    assert forall|i: int| 0 <= i < f.len() implies f[i] != '\0' by {
        assert(f[i] == "Failed to generate a C-compatible string"@[i]);
    }
}

/// Metadata of a quantum resource, as a C host reads it.
pub struct ResourceMetadata {
    inner: StringMap,
}

impl View for ResourceMetadata {
    type V = Map<Seq<char>, Seq<char>>;

    closed spec fn view(&self) -> Map<Seq<char>, Seq<char>> {
        self.inner@
    }
}

impl ResourceMetadata {
    /// Wraps the metadata a resource reported.
    pub fn new(inner: StringMap) -> (r: ResourceMetadata)
        ensures
            r@ == inner@,
    {
        ResourceMetadata { inner }
    }

    /// The value stored under `key`, unless there is none or it cannot be a
    /// C string because it holds a NUL character.
    pub fn value(&self, key: &str) -> (r: Option<String>)
        ensures
            r is Some <==> self@.contains_key(key@) && !self@[key@].contains('\0'),
            r matches Some(v) ==> v@ == self@[key@],
    {
        match self.inner.get(key) {
            Some(v) => {
                if contains_nul(v.as_str()) {
                    None
                } else {
                    Some(v)
                }
            },
            None => None,
        }
    }

    /// The metadata keys, each once.
    pub fn keys(&self) -> (r: Vec<String>)
        ensures
            r@.len() == self@.dom().len(),
            forall|i: int| 0 <= i < r@.len() ==> self@.contains_key(#[trigger] r@[i]@),
            forall|k: Seq<char>| self@.contains_key(k) ==> exists|i: int| 0 <= i < r@.len() && r@[i]@ == k,
            forall|i: int, j: int| 0 <= i < j < r@.len() ==> r@[i]@ != r@[j]@,
    {
        self.inner.keys()
    }
}

/// The bytes of `s` with every NUL byte removed.
pub open spec fn without_nul(bytes: Seq<u8>) -> Seq<u8> {
    bytes.filter(|b: u8| b != 0)
}

/// The bytes of a string that a C host receives for it: its UTF-8 bytes
/// with every NUL byte left out, so that the result never holds a NUL.
pub fn sanitized_cstring(value: &str) -> (r: Vec<u8>)
    ensures
        r@ == without_nul(value.spec_bytes()),
        forall|i: int| 0 <= i < r@.len() ==> r@[i] != 0,
{
    let bytes = value.as_bytes();
    let n = bytes.len();
    let mut out: Vec<u8> = Vec::new();
    let ghost all = bytes@;
    for i in 0..n
        invariant
            n == all.len(),
            all == bytes@,
            out@ == without_nul(all.take(i as int)),
    {
        reveal_with_fuel(Seq::<_>::filter, 1);
        assert(all.take(i + 1).drop_last() =~= all.take(i as int));
        if bytes[i] != 0 {
            out.push(bytes[i]);
        }
    }
    assert(all.take(n as int) =~= all);
    proof {
        assert forall|i: int| 0 <= i < out@.len() implies out@[i] != 0 by {
            all.lemma_filter_pred(|b: u8| b != 0, i);
        }
    }
    out
}

/// The bytes of `s` copied into a zero-filled array of `n` bytes.
pub open spec fn padded_bytes(bytes: Seq<u8>, n: nat) -> Seq<u8> {
    Seq::new(n, |i: int| if i < bytes.len() { bytes[i] } else { 0u8 })
}

/// Copies the bytes of `s` into an array of `n` bytes, the rest of which is
/// zero. The string must fit.
pub fn str_to_array(s: &str, n: usize) -> (r: Vec<u8>)
    requires
        s.spec_bytes().len() <= n,
    ensures
        r@ == padded_bytes(s.spec_bytes(), n as nat),
{
    let bytes = s.as_bytes();
    let len = bytes.len();
    let mut arr: Vec<u8> = Vec::new();
    let mut i: usize = 0;
    while i < n
        invariant
            len == bytes@.len(),
            bytes@ == s.spec_bytes(),
            len <= n,
            i <= n,
            arr@.len() == i,
            forall|j: int| 0 <= j < i ==> arr@[j] == (if j < len { bytes@[j] } else { 0u8 }),
        decreases n - i,
    {
        if i < len {
            arr.push(bytes[i]);
        } else {
            arr.push(0u8);
        }
        i = i + 1;
    }
    assert(arr@ =~= padded_bytes(s.spec_bytes(), n as nat));
    arr
}

/// The version record embedded in the library: the build version and the
/// source revision, in a fixed textual frame.
pub open spec fn version_record(version: Seq<char>, git_hash: Seq<char>) -> Seq<char> {
    "QRMI_BUILD_VERSION:"@ + version + ";QRMI_GIT_HASH:"@ + git_hash
}

/// The bytes of the embedded version record, ended by one NUL byte.
pub fn version_info(version: &str, git_hash: &str) -> (r: Vec<u8>)
    requires
        vstd::utf8::encode_utf8(version_record(version@, git_hash@)).len() < usize::MAX,
    ensures
        r@ == vstd::utf8::encode_utf8(version_record(version@, git_hash@)).push(0u8),
{
    let mut record = "QRMI_BUILD_VERSION:".to_string();
    record.append(version);
    record.append(";QRMI_GIT_HASH:");
    record.append(git_hash);
    let s = record.as_str();
    assert(s@ == version_record(version@, git_hash@));
    let n = s.len() + 1;
    let r = str_to_array(s, n);
    assert(r@ =~= s.spec_bytes().push(0u8));
    r
}

} // verus!
