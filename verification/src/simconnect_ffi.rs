//! SimConnect's wire vocabulary: the id, period and flag constants of
//! `SimConnect.h`, the headers of the records that `SimConnect_GetNextDispatch`
//! hands back, and their decoding from raw little-endian bytes.
#![allow(non_upper_case_globals)]
#![allow(non_camel_case_types)]
#![allow(non_snake_case)]
use vstd::prelude::*;

verus! {

// ── Windows primitive types ────────────────────────────────────────────────
pub type DWORD = u32;
pub type BOOL = i32;
pub type HRESULT = i32;

// ── SimConnect ID type aliases (all DWORD) ────────────────────────────────
pub type SIMCONNECT_OBJECT_ID = DWORD;
pub type SIMCONNECT_DATA_DEFINITION_ID = DWORD;
pub type SIMCONNECT_CLIENT_EVENT_ID = DWORD;
pub type SIMCONNECT_DATA_REQUEST_ID = DWORD;
pub type SIMCONNECT_NOTIFICATION_GROUP_ID = DWORD;

// ── Enum base types ───────────────────────────────────────────────────────
pub type SIMCONNECT_RECV_ID = i32;
pub type SIMCONNECT_DATATYPE = i32;
pub type SIMCONNECT_PERIOD = i32;

// ── Constants ─────────────────────────────────────────────────────────────
pub const SIMCONNECT_OBJECT_ID_USER: DWORD = 0;
pub const SIMCONNECT_GROUP_PRIORITY_HIGHEST: DWORD = 1;
pub const SIMCONNECT_EVENT_FLAG_GROUPID_IS_PRIORITY: DWORD = 16;
pub const SIMCONNECT_UNUSED: DWORD = 0xFFFF_FFFF;

// SIMCONNECT_RECV_ID values
pub const SIMCONNECT_RECV_ID_NULL: SIMCONNECT_RECV_ID = 0;
pub const SIMCONNECT_RECV_ID_EXCEPTION: SIMCONNECT_RECV_ID = 1;
pub const SIMCONNECT_RECV_ID_OPEN: SIMCONNECT_RECV_ID = 2;
pub const SIMCONNECT_RECV_ID_QUIT: SIMCONNECT_RECV_ID = 3;
pub const SIMCONNECT_RECV_ID_EVENT: SIMCONNECT_RECV_ID = 4;
pub const SIMCONNECT_RECV_ID_SIMOBJECT_DATA: SIMCONNECT_RECV_ID = 8;

// SIMCONNECT_DATATYPE values
pub const SIMCONNECT_DATATYPE_FLOAT64: SIMCONNECT_DATATYPE = 4;

// SIMCONNECT_PERIOD values
pub const SIMCONNECT_PERIOD_NEVER: SIMCONNECT_PERIOD = 0;
pub const SIMCONNECT_PERIOD_ONCE: SIMCONNECT_PERIOD = 1;
pub const SIMCONNECT_PERIOD_VISUAL_FRAME: SIMCONNECT_PERIOD = 2;
pub const SIMCONNECT_PERIOD_SIM_FRAME: SIMCONNECT_PERIOD = 3;
pub const SIMCONNECT_PERIOD_SECOND: SIMCONNECT_PERIOD = 4;

// SIMCONNECT_EXCEPTION codes (partial)
pub const SIMCONNECT_EXCEPTION_NONE: DWORD = 0;
pub const SIMCONNECT_EXCEPTION_ERROR: DWORD = 1;
pub const SIMCONNECT_EXCEPTION_UNRECOGNIZED_ID: DWORD = 3;
pub const SIMCONNECT_EXCEPTION_NAME_UNRECOGNIZED: DWORD = 7;
pub const SIMCONNECT_EXCEPTION_INVALID_DATA_TYPE: DWORD = 18;
pub const SIMCONNECT_EXCEPTION_DEFINITION_ERROR: DWORD = 28;

/// The update period that a subscription at `fps` frames per second asks for:
/// `-1` means every simulation frame, `0` and `1` once a second, anything
/// else every visual frame.
pub open spec fn period_for_fps(fps: i32) -> SIMCONNECT_PERIOD {
    if fps == -1 {
        SIMCONNECT_PERIOD_SIM_FRAME
    } else if fps == 0 || fps == 1 {
        SIMCONNECT_PERIOD_SECOND
    } else {
        SIMCONNECT_PERIOD_VISUAL_FRAME
    }
}

/// Maps a requested refresh rate to the SimConnect period used to poll it.
pub fn fps_to_period(fps: i32) -> (period: SIMCONNECT_PERIOD)
    ensures
        period == period_for_fps(fps),
        fps == -1 ==> period == 3,
        fps == 0 || fps == 1 ==> period == 4,
        fps != -1 && fps != 0 && fps != 1 ==> period == 2,
{
    match fps {
        -1 => SIMCONNECT_PERIOD_SIM_FRAME,
        0 | 1 => SIMCONNECT_PERIOD_SECOND,
        _ => SIMCONNECT_PERIOD_VISUAL_FRAME,
    }
}

/// The refresh-rate rule: a rate of -1 is polled every simulation frame
/// (period 3), rates 0 and 1 once a second (period 4), and every other rate
/// every visual frame (period 2).
pub proof fn lemma_refresh_rate_periods(fps: i32)
    ensures
        fps == -1 ==> period_for_fps(fps) == 3,
        fps == 0 || fps == 1 ==> period_for_fps(fps) == 4,
        fps != -1 && fps != 0 && fps != 1 ==> period_for_fps(fps) == 2,
        SIMCONNECT_PERIOD_SIM_FRAME == 3 && SIMCONNECT_PERIOD_SECOND == 4
            && SIMCONNECT_PERIOD_VISUAL_FRAME == 2,
{
}

/// Whether a SimConnect call succeeded: it returned `S_OK` and the pointer
/// it was to fill in is set.
pub fn call_succeeded(hr: HRESULT, pointer_is_null: bool) -> (succeeded: bool)
    ensures
        succeeded == (hr == 0 && !pointer_is_null),
{
    hr == 0 && !pointer_is_null
}

// ── Records handed back by SimConnect_GetNextDispatch ─────────────────────
//
// SimConnect lays these out packed and little-endian.  They are decoded here
// from the bytes of a dispatched record, field by field.

/// The header that starts every dispatched record.
#[derive(Debug, Clone, Copy)]
pub struct SIMCONNECT_RECV {
    pub dwSize: DWORD,
    pub dwVersion: DWORD,
    pub dwID: DWORD,
}

/// An event that SimConnect reports for a mapped client event.
#[derive(Debug, Clone, Copy)]
pub struct SIMCONNECT_RECV_EVENT {
    pub _base: SIMCONNECT_RECV,
    pub uGroupID: DWORD,
    pub uEventID: DWORD,
    pub dwData: DWORD,
}

/// Data about a simulation object, sent for a data request.
#[derive(Debug, Clone, Copy)]
pub struct SIMCONNECT_RECV_SIMOBJECT_DATA {
    pub _base: SIMCONNECT_RECV,
    pub dwRequestID: DWORD,
    pub dwObjectID: DWORD,
    pub dwDefineID: DWORD,
    pub dwFlags: DWORD,
    pub dwentrynumber: DWORD,
    pub dwoutof: DWORD,
    pub dwDefineCount: DWORD,
    /// The first four bytes of the variable-length data that follows.
    pub dwData: DWORD,
}

/// An error that SimConnect reports about an earlier call.
#[derive(Debug, Clone, Copy)]
pub struct SIMCONNECT_RECV_EXCEPTION {
    pub _base: SIMCONNECT_RECV,
    pub dwException: DWORD,
    pub dwSendID: DWORD,
    pub dwIndex: DWORD,
}

/// Size in bytes of `SIMCONNECT_RECV`.
pub const RECV_HEADER_SIZE: usize = 12;
/// Size in bytes of `SIMCONNECT_RECV_EVENT`.
pub const RECV_EVENT_SIZE: usize = 24;
/// Size in bytes of `SIMCONNECT_RECV_SIMOBJECT_DATA`, up to and including the
/// first four bytes of its data.
pub const RECV_SIMOBJECT_DATA_SIZE: usize = 44;
/// Offset of the data of a `SIMCONNECT_RECV_SIMOBJECT_DATA` record.
pub const SIMOBJECT_DATA_OFFSET: usize = 40;

/// The unsigned number that the four bytes at `at` encode, least significant first.
pub open spec fn le_u32(bytes: Seq<u8>, at: int) -> int {
    bytes[at] + 256 * bytes[at + 1] + 65536 * bytes[at + 2] + 16777216 * bytes[at + 3]
}

/// The unsigned number that the eight bytes at `at` encode, least significant first.
pub open spec fn le_u64(bytes: Seq<u8>, at: int) -> int {
    le_u32(bytes, at) + 4294967296 * le_u32(bytes, at + 4)
}

/// The four bytes of `x`, least significant first.
pub open spec fn u32_le(x: u32) -> Seq<u8> {
    seq![(x % 256) as u8, ((x / 256) % 256) as u8, ((x / 65536) % 256) as u8, (x / 16777216) as u8]
}

/// The words `ws` laid out one after another, each least significant byte
/// first: the layout of a packed record of `DWORD` fields.
pub open spec fn words_le(ws: Seq<u32>) -> Seq<u8>
    decreases ws.len(),
{
    if ws.len() == 0 {
        Seq::empty()
    } else {
        words_le(ws.drop_last()) + u32_le(ws.last())
    }
}

proof fn lemma_u32_le_value(x: u32)
    ensures
        u32_le(x).len() == 4,
        le_u32(u32_le(x), 0) == x,
{
    let b = u32_le(x);
    assert(b[0] == x % 256 && b[1] == (x / 256) % 256 && b[2] == (x / 65536) % 256 && b[3] == x / 16777216);
    assert((x % 256) + 256 * ((x / 256) % 256) + 65536 * ((x / 65536) % 256) + 16777216 * (x / 16777216) == x)
        by (nonlinear_arith);
}

proof fn lemma_words_le_len(ws: Seq<u32>)
    ensures
        words_le(ws).len() == 4 * ws.len(),
    decreases ws.len(),
{
    if ws.len() > 0 {
        lemma_words_le_len(ws.drop_last());
    }
}

proof fn lemma_words_le_byte(ws: Seq<u32>, k: int, j: int)
    requires
        0 <= k < ws.len(),
        0 <= j < 4,
    ensures
        words_le(ws)[4 * k + j] == u32_le(ws[k])[j],
    decreases ws.len(),
{
    lemma_words_le_len(ws.drop_last());
    if k < ws.len() - 1 {
        lemma_words_le_byte(ws.drop_last(), k, j);
    }
}

/// In a record of `DWORD` fields laid out one after another, the word read at
/// byte `4 * k` is field `k`.
pub proof fn lemma_word_at(ws: Seq<u32>, k: int)
    requires
        0 <= k < ws.len(),
    ensures
        words_le(ws).len() == 4 * ws.len(),
        le_u32(words_le(ws), 4 * k) == ws[k],
{
    lemma_words_le_len(ws);
    lemma_words_le_byte(ws, k, 0);
    lemma_words_le_byte(ws, k, 1);
    lemma_words_le_byte(ws, k, 2);
    lemma_words_le_byte(ws, k, 3);
    lemma_u32_le_value(ws[k]);
}

/// Reads the little-endian `u32` at `at`.
pub fn read_u32_le(bytes: &[u8], at: usize) -> (value: u32)
    requires
        at + 4 <= bytes@.len(),
    ensures
        value == le_u32(bytes@, at as int),
{
    let b0 = bytes[at] as u32;
    let b1 = bytes[at + 1] as u32;
    let b2 = bytes[at + 2] as u32;
    let b3 = bytes[at + 3] as u32;
    b0 + 256 * b1 + 65536 * b2 + 16777216 * b3
}

/// Reads the little-endian `u64` at `at`.
pub fn read_u64_le(bytes: &[u8], at: usize) -> (value: u64)
    requires
        at + 8 <= bytes@.len(),
    ensures
        value == le_u64(bytes@, at as int),
{
    let len = bytes.len();
    assert(at + 8 <= len);
    let low = read_u32_le(bytes, at) as u64;
    let high = read_u32_le(bytes, at + 4) as u64;
    low + 4294967296 * high
}

/// The header at `at`, read field by field.
pub open spec fn header_at(bytes: Seq<u8>, at: int) -> SIMCONNECT_RECV {
    SIMCONNECT_RECV {
        dwSize: le_u32(bytes, at) as u32,
        dwVersion: le_u32(bytes, at + 4) as u32,
        dwID: le_u32(bytes, at + 8) as u32,
    }
}

/// The event record that `bytes` hold.
pub open spec fn event_record(bytes: Seq<u8>) -> SIMCONNECT_RECV_EVENT {
    SIMCONNECT_RECV_EVENT {
        _base: header_at(bytes, 0),
        uGroupID: le_u32(bytes, 12) as u32,
        uEventID: le_u32(bytes, 16) as u32,
        dwData: le_u32(bytes, 20) as u32,
    }
}

/// The object-data record that `bytes` hold.
pub open spec fn simobject_data_record(bytes: Seq<u8>) -> SIMCONNECT_RECV_SIMOBJECT_DATA {
    SIMCONNECT_RECV_SIMOBJECT_DATA {
        _base: header_at(bytes, 0),
        dwRequestID: le_u32(bytes, 12) as u32,
        dwObjectID: le_u32(bytes, 16) as u32,
        dwDefineID: le_u32(bytes, 20) as u32,
        dwFlags: le_u32(bytes, 24) as u32,
        dwentrynumber: le_u32(bytes, 28) as u32,
        dwoutof: le_u32(bytes, 32) as u32,
        dwDefineCount: le_u32(bytes, 36) as u32,
        dwData: le_u32(bytes, 40) as u32,
    }
}

/// Each record reader gives back the fields of a record laid out field after
/// field: the header's three words, an event's group, event id and data, and
/// an object-data record's eight words after the header.
pub proof fn lemma_records_read_back(w: Seq<u32>)
    requires
        w.len() == 11,
    ensures
        header_at(words_le(w), 0) == (SIMCONNECT_RECV { dwSize: w[0], dwVersion: w[1], dwID: w[2] }),
        event_record(words_le(w.subrange(0, 6))) == (SIMCONNECT_RECV_EVENT {
            _base: SIMCONNECT_RECV { dwSize: w[0], dwVersion: w[1], dwID: w[2] },
            uGroupID: w[3],
            uEventID: w[4],
            dwData: w[5],
        }),
        simobject_data_record(words_le(w)) == (SIMCONNECT_RECV_SIMOBJECT_DATA {
            _base: SIMCONNECT_RECV { dwSize: w[0], dwVersion: w[1], dwID: w[2] },
            dwRequestID: w[3],
            dwObjectID: w[4],
            dwDefineID: w[5],
            dwFlags: w[6],
            dwentrynumber: w[7],
            dwoutof: w[8],
            dwDefineCount: w[9],
            dwData: w[10],
        }),
{
    let e = w.subrange(0, 6);
    lemma_word_at(w, 0);
    lemma_word_at(w, 1);
    lemma_word_at(w, 2);
    lemma_word_at(w, 3);
    lemma_word_at(w, 4);
    lemma_word_at(w, 5);
    lemma_word_at(w, 6);
    lemma_word_at(w, 7);
    lemma_word_at(w, 8);
    lemma_word_at(w, 9);
    lemma_word_at(w, 10);
    lemma_word_at(e, 0);
    lemma_word_at(e, 1);
    lemma_word_at(e, 2);
    lemma_word_at(e, 3);
    lemma_word_at(e, 4);
    lemma_word_at(e, 5);
}

impl SIMCONNECT_RECV {
    /// Decodes the header that starts `bytes`; `None` when they are too short
    /// to hold one.
    pub fn read(bytes: &[u8]) -> (header: Option<SIMCONNECT_RECV>)
        ensures
            header == (if bytes@.len() >= RECV_HEADER_SIZE {
                Some(header_at(bytes@, 0))
            } else {
                None
            }),
    {
        if bytes.len() < RECV_HEADER_SIZE {
            return None;
        }
        Some(SIMCONNECT_RECV {
            dwSize: read_u32_le(bytes, 0),
            dwVersion: read_u32_le(bytes, 4),
            dwID: read_u32_le(bytes, 8),
        })
    }
}

impl SIMCONNECT_RECV_EVENT {
    /// Decodes an event record; `None` when `bytes` are too short to hold one.
    pub fn read(bytes: &[u8]) -> (record: Option<SIMCONNECT_RECV_EVENT>)
        ensures
            record == (if bytes@.len() >= RECV_EVENT_SIZE {
                Some(event_record(bytes@))
            } else {
                None
            }),
    {
        if bytes.len() < RECV_EVENT_SIZE {
            return None;
        }
        let base = SIMCONNECT_RECV {
            dwSize: read_u32_le(bytes, 0),
            dwVersion: read_u32_le(bytes, 4),
            dwID: read_u32_le(bytes, 8),
        };
        Some(SIMCONNECT_RECV_EVENT {
            _base: base,
            uGroupID: read_u32_le(bytes, 12),
            uEventID: read_u32_le(bytes, 16),
            dwData: read_u32_le(bytes, 20),
        })
    }
}

impl SIMCONNECT_RECV_SIMOBJECT_DATA {
    /// Decodes an object-data record; `None` when `bytes` are too short to
    /// hold one.
    pub fn read(bytes: &[u8]) -> (record: Option<SIMCONNECT_RECV_SIMOBJECT_DATA>)
        ensures
            record == (if bytes@.len() >= RECV_SIMOBJECT_DATA_SIZE {
                Some(simobject_data_record(bytes@))
            } else {
                None
            }),
    {
        if bytes.len() < RECV_SIMOBJECT_DATA_SIZE {
            return None;
        }
        let base = SIMCONNECT_RECV {
            dwSize: read_u32_le(bytes, 0),
            dwVersion: read_u32_le(bytes, 4),
            dwID: read_u32_le(bytes, 8),
        };
        Some(SIMCONNECT_RECV_SIMOBJECT_DATA {
            _base: base,
            dwRequestID: read_u32_le(bytes, 12),
            dwObjectID: read_u32_le(bytes, 16),
            dwDefineID: read_u32_le(bytes, 20),
            dwFlags: read_u32_le(bytes, 24),
            dwentrynumber: read_u32_le(bytes, 28),
            dwoutof: read_u32_le(bytes, 32),
            dwDefineCount: read_u32_le(bytes, 36),
            dwData: read_u32_le(bytes, 40),
        })
    }
}

} // verus!
