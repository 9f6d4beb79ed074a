//! The queries.
//!
//! Every query comes as two functions. The one named `*_request` says which
//! entry point of the kernel to call, and with which arguments. The caller
//! makes that call on a zeroed buffer of the size the request names, and
//! hands what came back, as an [`Answer`], to the other function, which
//! reads the result from it. The PID list query takes two calls: the first
//! asks for the size of the list, the second fetches it.

use crate::error::ProcError;
use crate::flavor::{PidFDInfoFlavor, ProcFDType, ProcType};
use crate::record::{
    decode, FixedRecord, ListPIDInfo, PIDFDInfo, PIDInfo, ProcFDInfo, PROC_PIDPATHINFO_MAXSIZE,
};
use crate::socket::SocketFDInfo;
use crate::wire::{i32_at, read_i32, u32_at};
use std::string::FromUtf8Error;
use vstd::prelude::*;
use vstd::utf8::{decode_utf8, decode_utf8_encode_utf8, encode_utf8, valid_utf8};

verus! {

/// One call of an entry point of the kernel's query interface.
///
/// Each call but the last hands the kernel a buffer of `buffer_size` bytes,
/// every one of them zero. The version query hands it two 32-bit integers
/// for the major and the minor version number.
#[allow(inconsistent_fields)]
#[derive(Clone, Copy, Debug, PartialEq, Eq, Structural)]
pub enum Request {
    /// List the ids of the processes that a selector picks. With a
    /// `buffer_size` of zero no buffer is handed over, and the kernel only
    /// says how many bytes the list would take.
    ListPids { proc_type: u32, typeinfo: u32, buffer_size: u32 },
    /// Information on one process.
    PidInfo { pid: i32, flavor: i32, arg: u64, buffer_size: i32 },
    /// Information on one open file descriptor of a process.
    PidFDInfo { pid: i32, fd: i32, flavor: i32, buffer_size: i32 },
    /// The name of a process.
    Name { pid: i32, buffer_size: u32 },
    /// The name of the file that is mapped at an address of a process.
    RegionFilename { pid: i32, address: u64, buffer_size: u32 },
    /// The path of the executable of a process.
    PidPath { pid: i32, buffer_size: u32 },
    /// The version of the query library.
    LibVersion,
}

/// What one call gave back.
#[derive(Debug)]
pub struct Answer {
    /// The value that the call returned.
    pub ret: i32,
    /// The `errno` that the call left behind; it counts only where the call
    /// failed.
    pub errno: i32,
    /// The buffer after the call. For the version query it holds the major
    /// version number in its first four bytes and the minor one in the next
    /// four.
    pub buffer: Vec<u8>,
}

/// Size of the buffer of a text query.
pub const TEXT_BUFFER_SIZE: u32 = 4095;

/// A query for a record or a text went well if the call returned a positive
/// number, the number of bytes written.
pub open spec fn query_succeeded(ret: i32) -> bool {
    ret > 0
}

/// A query for a list of one process's things went well if the call did not
/// return a negative number: zero bytes written is an empty list.
pub open spec fn list_query_succeeded(ret: i32) -> bool {
    ret >= 0
}

/// The version query went well if the call returned zero.
pub open spec fn version_query_succeeded(ret: i32) -> bool {
    ret == 0
}

/// The version query signals success the other way round: no return code is
/// a success both of the version query and of a query for a record or a
/// text, and the one code that is a success of the version query is zero.
pub proof fn lemma_version_query_is_the_exception(ret: i32)
    ensures
        version_query_succeeded(ret) <==> ret == 0,
        version_query_succeeded(ret) ==> !query_succeeded(ret),
        query_succeeded(ret) ==> !version_query_succeeded(ret),
{
}

/// The number of elements of a list: as many as were written, and no more
/// than were asked for.
pub open spec fn list_len(max_len: int, written: int) -> int {
    if written < max_len {
        written
    } else {
        max_len
    }
}

/// The first `n` records of a buffer that holds records of type `R`, one
/// after the other.
pub open spec fn records<R: FixedRecord>(b: Seq<u8>, n: int) -> Seq<R> {
    Seq::new(n as nat, |i: int| R::decode_spec(b, i * R::size_spec()))
}

/// A list is never longer than was asked for, and it is shorter only where
/// the kernel wrote fewer elements: its length is the smaller of the two
/// numbers. Its elements are the records of the buffer in the order in which
/// they lie there.
pub proof fn lemma_list_len<R: FixedRecord>(b: Seq<u8>, max_len: int, written: int)
    requires
        0 <= max_len,
        0 <= written,
    ensures
        records::<R>(b, list_len(max_len, written)).len() == list_len(max_len, written),
        list_len(max_len, written) <= max_len,
        list_len(max_len, written) <= written,
        list_len(max_len, written) == max_len || list_len(max_len, written) == written,
        forall|i: int|
            0 <= i < list_len(max_len, written) ==> #[trigger] records::<R>(
                b,
                list_len(max_len, written),
            )[i] == R::decode_spec(b, i * R::size_spec()),
{
}

/// Reads the first `n` records of `b`.
fn read_records<R: FixedRecord>(b: &[u8], n: usize) -> (v: Vec<R>)
    requires
        n * R::size_spec() <= i32::MAX,
    ensures
        v@ == records::<R>(b@, n as int),
{
    let size = R::size();
    let mut v: Vec<R> = Vec::with_capacity(n);
    let mut i: usize = 0;
    while i < n
        invariant
            i <= n,
            size == R::size_spec(),
            n * size <= i32::MAX,
            v@ == records::<R>(b@, i as int),
        decreases n - i,
    {
        assert(i * size + size <= n * size) by (nonlinear_arith)
            requires
                i < n,
        ;
        let r = R::decode_at(b, i * size);
        v.push(r);
        i = i + 1;
        assert(v@ =~= records::<R>(b@, i as int));
    }
    v
}

/// The first call of the PID list query: it asks how many bytes the list of
/// the processes that `proc_types` and `info` select would take.
pub fn listpids_probe(proc_types: ProcType, info: u32) -> (q: Request)
    ensures
        q == (Request::ListPids {
            proc_type: proc_types.code_spec(),
            typeinfo: info,
            buffer_size: 0,
        }),
{
    Request::ListPids { proc_type: proc_types.code(), typeinfo: info, buffer_size: 0 }
}

/// The size of the buffer of the second call of the PID list query, after a
/// first call that returned `probed`: `probed` bytes, less what would not
/// hold a whole process id.
pub open spec fn listpids_buffer_size(probed: i32) -> u32 {
    (probed / 4 * 4) as u32
}

/// The second call of the PID list query, from the answer to the first. If
/// the first call failed there is no second one.
pub fn listpids_request(proc_types: ProcType, info: u32, probe: &Answer) -> (r: Result<
    Request,
    ProcError,
>)
    ensures
        probe.ret <= 0 ==> r == Err::<Request, ProcError>(ProcError::Os(probe.errno)),
        probe.ret > 0 ==> r == Ok::<Request, ProcError>(
            Request::ListPids {
                proc_type: proc_types.code_spec(),
                typeinfo: info,
                buffer_size: listpids_buffer_size(probe.ret),
            },
        ),
{
    if probe.ret <= 0 {
        return Err(ProcError::Os(probe.errno));
    }
    let capacity: u32 = (probe.ret as u32) / 4;
    Ok(
        Request::ListPids {
            proc_type: proc_types.code(),
            typeinfo: info,
            buffer_size: capacity * 4,
        },
    )
}

/// The number of process ids that an answer to the second call of the PID
/// list query reports: the kernel ends its list with an entry that is no
/// process, so one less than it wrote.
pub open spec fn listpids_written(ret: i32) -> int {
    if ret / 4 >= 1 {
        ret / 4 - 1
    } else {
        0
    }
}

/// The ids of the processes that the answer to the second call of the PID
/// list query reports, in the kernel's order.
///
/// The count is taken from the bytes that the kernel says it wrote, less the
/// closing entry, and is never more than the buffer holds.
pub fn listpids(answer: &Answer) -> (r: Result<Vec<u32>, ProcError>)
    ensures
        !query_succeeded(answer.ret) ==> r == Err::<Vec<u32>, ProcError>(
            ProcError::Os(answer.errno),
        ),
        query_succeeded(answer.ret) ==> r is Ok && r->Ok_0@ == records::<u32>(
            answer.buffer@,
            list_len(answer.buffer@.len() as int / 4, listpids_written(answer.ret)),
        ),
{
    if answer.ret <= 0 {
        return Err(ProcError::Os(answer.errno));
    }
    let capacity: usize = answer.buffer.len() / 4;
    let reported: usize = (answer.ret as usize) / 4;
    let written: usize = if reported >= 1 {
        reported - 1
    } else {
        0
    };
    let n: usize = if written < capacity {
        written
    } else {
        capacity
    };
    Ok(read_records::<u32>(answer.buffer.as_slice(), n))
}

/// The call that asks for the record `T` of the process `pid`.
pub fn pidinfo_request<T: PIDInfo>(pid: i32, arg: u64) -> (q: Request)
    ensures
        q == (Request::PidInfo {
            pid,
            flavor: T::flavor_spec().code_spec(),
            arg,
            buffer_size: T::size_spec() as i32,
        }),
        T::size_spec() <= i32::MAX,
{
    Request::PidInfo { pid, flavor: T::flavor().code(), arg, buffer_size: T::size() as i32 }
}

/// The record that the kernel answered with. The kernel may write less than
/// the whole record; what it left out is zero, as in the record's default.
pub fn pidinfo<T: PIDInfo>(answer: &Answer) -> (r: Result<T, ProcError>)
    ensures
        !query_succeeded(answer.ret) ==> r == Err::<T, ProcError>(ProcError::Os(answer.errno)),
        query_succeeded(answer.ret) ==> r == Ok::<T, ProcError>(
            T::decode_spec(answer.buffer@, 0),
        ),
{
    if answer.ret <= 0 {
        Err(ProcError::Os(answer.errno))
    } else {
        Ok(decode::<T>(answer.buffer.as_slice()))
    }
}

/// The call that asks for the record `T` of the file descriptor `fd` of the
/// process `pid`.
pub fn pidfdinfo_request<T: PIDFDInfo>(pid: i32, fd: i32) -> (q: Request)
    ensures
        q == (Request::PidFDInfo {
            pid,
            fd,
            flavor: T::flavor_spec().code_spec(),
            buffer_size: T::size_spec() as i32,
        }),
        T::size_spec() <= i32::MAX,
{
    Request::PidFDInfo { pid, fd, flavor: T::flavor().code(), buffer_size: T::size() as i32 }
}

/// The record that the kernel answered with. The kernel may write less than
/// the whole record; what it left out is zero, as in the record's default.
pub fn pidfdinfo<T: PIDFDInfo>(answer: &Answer) -> (r: Result<T, ProcError>)
    ensures
        !query_succeeded(answer.ret) ==> r == Err::<T, ProcError>(ProcError::Os(answer.errno)),
        query_succeeded(answer.ret) ==> r == Ok::<T, ProcError>(
            T::decode_spec(answer.buffer@, 0),
        ),
{
    if answer.ret <= 0 {
        Err(ProcError::Os(answer.errno))
    } else {
        Ok(decode::<T>(answer.buffer.as_slice()))
    }
}

/// The call that asks for the socket record of a descriptor of the process
/// `pid`, where the descriptor is a socket. A descriptor of any other kind
/// has no socket record to ask for.
pub fn socket_request(pid: i32, fd: &ProcFDInfo) -> (r: Option<Request>)
    ensures
        ProcFDType::of_code(fd.proc_fdtype) == ProcFDType::Socket ==> r == Some(
            Request::PidFDInfo {
                pid,
                fd: fd.proc_fd,
                flavor: PidFDInfoFlavor::SocketInfo.code_spec(),
                buffer_size: SocketFDInfo::size_spec() as i32,
            },
        ),
        ProcFDType::of_code(fd.proc_fdtype) != ProcFDType::Socket ==> r is None,
{
    match fd.fd_type() {
        ProcFDType::Socket => Some(pidfdinfo_request::<SocketFDInfo>(pid, fd.proc_fd)),
        _ => None,
    }
}

/// The call that asks for the list `T` of the process `pid`, of at most
/// `max_len` elements. A list longer than `PROC_PIDPATHINFO_MAXSIZE` is
/// refused, and then there is no call to make.
pub fn listpidinfo_request<T: ListPIDInfo>(pid: i32, max_len: usize) -> (r: Result<
    Request,
    ProcError,
>)
    ensures
        max_len > PROC_PIDPATHINFO_MAXSIZE ==> r == Err::<Request, ProcError>(
            ProcError::ListTooLong,
        ),
        max_len <= PROC_PIDPATHINFO_MAXSIZE ==> r == Ok::<Request, ProcError>(
            Request::PidInfo {
                pid,
                flavor: T::flavor_spec().code_spec(),
                arg: 0,
                buffer_size: (T::Item::size_spec() * max_len) as i32,
            },
        ) && T::Item::size_spec() * max_len <= i32::MAX,
{
    if max_len > PROC_PIDPATHINFO_MAXSIZE {
        return Err(ProcError::ListTooLong);
    }
    let size = T::Item::size();
    assert(size * max_len <= i32::MAX) by (nonlinear_arith)
        requires
            size <= 0x7_ffff,
            max_len <= 4096,
    ;
    Ok(
        Request::PidInfo {
            pid,
            flavor: T::flavor().code(),
            arg: 0,
            buffer_size: (size * max_len) as i32,
        },
    )
}

/// The list that the kernel answered with, in the kernel's order.
///
/// Its length is the number of whole elements that the kernel says it
/// wrote, and never more than `max_len`. No bytes written is the empty list.
pub fn listpidinfo<T: ListPIDInfo>(max_len: usize, answer: &Answer) -> (r: Result<
    Vec<T::Item>,
    ProcError,
>)
    ensures
        max_len > PROC_PIDPATHINFO_MAXSIZE ==> r == Err::<Vec<T::Item>, ProcError>(
            ProcError::ListTooLong,
        ),
        max_len <= PROC_PIDPATHINFO_MAXSIZE && !list_query_succeeded(answer.ret) ==> r == Err::<
            Vec<T::Item>,
            ProcError,
        >(ProcError::Os(answer.errno)),
        max_len <= PROC_PIDPATHINFO_MAXSIZE && list_query_succeeded(answer.ret) ==> r is Ok
            && r->Ok_0@ == records::<T::Item>(
            answer.buffer@,
            list_len(max_len as int, answer.ret as int / T::Item::size_spec() as int),
        ),
{
    if max_len > PROC_PIDPATHINFO_MAXSIZE {
        return Err(ProcError::ListTooLong);
    }
    if answer.ret < 0 {
        return Err(ProcError::Os(answer.errno));
    }
    let size = T::Item::size();
    let written: usize = (answer.ret as usize) / size;
    let n: usize = if written < max_len {
        written
    } else {
        max_len
    };
    assert(n * size <= i32::MAX) by (nonlinear_arith)
        requires
            size <= 0x7_ffff,
            n <= 4096,
    ;
    Ok(read_records::<T::Item>(answer.buffer.as_slice(), n))
}

/// The bytes of the text that an answer holds: as many as the kernel says it
/// wrote, from the start of the buffer, and no more than the buffer has.
pub open spec fn text_bytes(answer: Answer) -> Seq<u8> {
    if answer.ret <= 0 {
        Seq::empty()
    } else if answer.ret <= answer.buffer@.len() {
        answer.buffer@.subrange(0, answer.ret as int)
    } else {
        answer.buffer@
    }
}

/// What a text query gives for an answer, the text as its characters: the
/// failure of the call, or the text that the bytes written are the UTF-8
/// encoding of, or, where they are the encoding of no text, the failure to
/// decode them.
pub open spec fn text_spec(answer: Answer) -> Result<Seq<char>, ProcError> {
    if !query_succeeded(answer.ret) {
        Err(ProcError::Os(answer.errno))
    } else if !valid_utf8(text_bytes(answer)) {
        Err(ProcError::InvalidUtf8)
    } else {
        Ok(decode_utf8(text_bytes(answer)))
    }
}

/// Holds where `r` is `expected`, the text held as a `String`.
pub open spec fn is_text(r: Result<String, ProcError>, expected: Result<Seq<char>, ProcError>)
    -> bool {
    match (r, expected) {
        (Ok(s), Ok(t)) => s@ == t,
        (Err(e), Err(f)) => e == f,
        _ => false,
    }
}

/// A text query never hands out bytes in disguise: where it gives a text,
/// the UTF-8 encoding of that text is, byte for byte, what the kernel wrote.
pub proof fn lemma_text_is_what_was_written(answer: Answer)
    requires
        text_spec(answer) is Ok,
    ensures
        query_succeeded(answer.ret),
        valid_utf8(text_bytes(answer)),
        encode_utf8(text_spec(answer)->Ok_0) == text_bytes(answer),
{
    decode_utf8_encode_utf8(text_bytes(answer));
}

/// `String::from_utf8` of the standard library: it gives the text that the
/// bytes are the UTF-8 encoding of, and fails exactly where they are the
/// encoding of none.
pub assume_specification[ String::from_utf8 ](vec: Vec<u8>) -> (r: Result<String, FromUtf8Error>)
    ensures
        r is Ok <==> valid_utf8(vec@),
        r is Ok ==> r->Ok_0@ == decode_utf8(vec@),
;

/// The error of `String::from_utf8`.
#[verifier::external_type_specification]
#[verifier::external_body]
pub struct ExFromUtf8Error(FromUtf8Error);

/// Reads the text that a text query was answered with.
fn text(answer: Answer) -> (r: Result<String, ProcError>)
    ensures
        is_text(r, text_spec(answer)),
{
    if answer.ret <= 0 {
        return Err(ProcError::Os(answer.errno));
    }
    let ghost whole = answer;
    let mut bytes = answer.buffer;
    bytes.truncate(answer.ret as usize);
    assert(bytes@ =~= text_bytes(whole));
    match String::from_utf8(bytes) {
        Ok(s) => Ok(s),
        Err(_) => Err(ProcError::InvalidUtf8),
    }
}

/// The call that asks for the name of the file mapped at `address` in the
/// process `pid`.
pub fn regionfilename_request(pid: i32, address: u64) -> (q: Request)
    ensures
        q == (Request::RegionFilename { pid, address, buffer_size: TEXT_BUFFER_SIZE }),
{
    Request::RegionFilename { pid, address, buffer_size: TEXT_BUFFER_SIZE }
}

/// The name of the mapped file that the kernel answered with: the text that
/// the bytes it wrote are the UTF-8 encoding of. Bytes that are not UTF-8
/// are an error of their own, and never a text.
pub fn regionfilename(answer: Answer) -> (r: Result<String, ProcError>)
    ensures
        is_text(r, text_spec(answer)),
{
    text(answer)
}

/// The call that asks for the path of the executable of the process `pid`.
pub fn pidpath_request(pid: i32) -> (q: Request)
    ensures
        q == (Request::PidPath { pid, buffer_size: TEXT_BUFFER_SIZE }),
{
    Request::PidPath { pid, buffer_size: TEXT_BUFFER_SIZE }
}

/// The path that the kernel answered with: the text that the bytes it wrote
/// are the UTF-8 encoding of. Bytes that are not UTF-8 are an error of their
/// own, and never a text.
pub fn pidpath(answer: Answer) -> (r: Result<String, ProcError>)
    ensures
        is_text(r, text_spec(answer)),
{
    text(answer)
}

/// The call that asks for the name of the process `pid`.
pub fn name_request(pid: i32) -> (q: Request)
    ensures
        q == (Request::Name { pid, buffer_size: TEXT_BUFFER_SIZE }),
{
    Request::Name { pid, buffer_size: TEXT_BUFFER_SIZE }
}

/// The name that the kernel answered with: the text that the bytes it wrote
/// are the UTF-8 encoding of. Bytes that are not UTF-8 are an error of their
/// own, and never a text.
pub fn name(answer: Answer) -> (r: Result<String, ProcError>)
    ensures
        is_text(r, text_spec(answer)),
{
    text(answer)
}

/// The call that asks for the version of the query library.
pub fn libversion_request() -> (q: Request)
    ensures
        q == Request::LibVersion,
{
    Request::LibVersion
}

/// The major and the minor version number that the kernel answered with.
///
/// Unlike every other query, this one went well if the call returned zero,
/// and failed if it returned anything else, a positive number too.
pub fn libversion(answer: &Answer) -> (r: Result<(i32, i32), ProcError>)
    ensures
        version_query_succeeded(answer.ret) ==> r == Ok::<(i32, i32), ProcError>(
            (i32_at(answer.buffer@, 0), i32_at(answer.buffer@, 4)),
        ),
        !version_query_succeeded(answer.ret) ==> r == Err::<(i32, i32), ProcError>(
            ProcError::Os(answer.errno),
        ),
{
    if answer.ret == 0 {
        let major = read_i32(answer.buffer.as_slice(), 0);
        let minor = read_i32(answer.buffer.as_slice(), 4);
        Ok((major, minor))
    } else {
        Err(ProcError::Os(answer.errno))
    }
}

} // verus!
