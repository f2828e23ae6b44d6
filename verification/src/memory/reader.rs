use vstd::prelude::*;
use vstd::utf8::{decode_utf8, encode_utf8, valid_utf8};

use crate::memory::process::MemoryError;
use crate::text::{lowercase_text, to_lowercase, utf8_to_string};

verus! {

/// The length in bytes of a CCCaster session id.
pub const SESSION_ID_LEN: usize = 30;

pub open spec fn is_upper_byte(b: u8) -> bool {
    65 <= b <= 90
}

pub open spec fn is_lower_byte(b: u8) -> bool {
    97 <= b <= 122
}

pub open spec fn is_digit_byte(b: u8) -> bool {
    48 <= b <= 57
}

/// The byte a session id may hold at a position: an uppercase letter, a lowercase letter and a
/// digit, in turn.
pub open spec fn session_byte_ok(pos: int, b: u8) -> bool {
    if pos % 3 == 0 {
        is_upper_byte(b)
    } else if pos % 3 == 1 {
        is_lower_byte(b)
    } else {
        is_digit_byte(b)
    }
}

/// Whether bytes begin with a session id: ten groups of an uppercase letter, a lowercase
/// letter and a digit.
pub open spec fn session_id_pattern(bytes: Seq<u8>) -> bool {
    &&& bytes.len() >= SESSION_ID_LEN
    &&& forall|i: int| 0 <= i < SESSION_ID_LEN ==> session_byte_ok(i, #[trigger] bytes[i])
}

/// The text of ASCII bytes, one character per byte.
pub open spec fn ascii_text(bytes: Seq<u8>) -> Seq<char> {
    bytes.map_values(|b: u8| b as char)
}

/// The bytes of a buffer that a session id at position `i` would take.
pub open spec fn session_window(buf: Seq<u8>, i: int) -> Seq<u8> {
    buf.subrange(i, i + SESSION_ID_LEN)
}

/// Whether a session id starts at position `i` of a buffer.
pub open spec fn session_id_at(buf: Seq<u8>, i: int) -> bool {
    &&& 0 <= i
    &&& i + SESSION_ID_LEN <= buf.len()
    &&& session_id_pattern(session_window(buf, i))
}

/// A list of ids with one more id at its end, unless the id is already in it.
pub open spec fn add_unique(found: Seq<Seq<char>>, id: Seq<char>) -> Seq<Seq<char>> {
    if found.contains(id) {
        found
    } else {
        found.push(id)
    }
}

/// The ids already found, followed by those that start in the first `n` positions of a
/// buffer, each in the order of its first position and only once.
pub open spec fn collect_session_ids(buf: Seq<u8>, n: nat, found: Seq<Seq<char>>) -> Seq<
    Seq<char>,
>
    decreases n,
{
    if n == 0 {
        found
    } else {
        let before = collect_session_ids(buf, (n - 1) as nat, found);
        if session_id_at(buf, n - 1) {
            add_unique(before, ascii_text(session_window(buf, n - 1)))
        } else {
            before
        }
    }
}

/// The texts of a list of strings.
pub open spec fn texts(v: Seq<String>) -> Seq<Seq<char>> {
    v.map_values(|s: String| s@)
}

fn session_byte_matches(pos: usize, b: u8) -> (r: bool)
    ensures
        r == session_byte_ok(pos as int, b),
{
    let class = pos % 3;
    if class == 0 {
        65 <= b && b <= 90
    } else if class == 1 {
        97 <= b && b <= 122
    } else {
        48 <= b && b <= 57
    }
}

/// Whether bytes begin with a session id (ten groups of `[A-Z][a-z][0-9]`).
pub fn is_session_id(bytes: &[u8]) -> (r: bool)
    ensures
        r == session_id_pattern(bytes@),
{
    if bytes.len() < SESSION_ID_LEN {
        return false;
    }
    let mut pos: usize = 0;
    while pos < SESSION_ID_LEN
        invariant
            bytes@.len() >= SESSION_ID_LEN,
            pos <= SESSION_ID_LEN,
            forall|i: int| 0 <= i < pos ==> session_byte_ok(i, #[trigger] bytes@[i]),
        decreases SESSION_ID_LEN - pos,
    {
        if !session_byte_matches(pos, bytes[pos]) {
            return false;
        }
        pos = pos + 1;
    }
    true
}

/// ASCII bytes are valid UTF-8, and decode to one character per byte.
proof fn lemma_ascii_decodes(bytes: Seq<u8>)
    requires
        forall|i: int| 0 <= i < bytes.len() ==> #[trigger] bytes[i] < 128,
    ensures
        valid_utf8(bytes),
        decode_utf8(bytes) == ascii_text(bytes),
{
    let chars = ascii_text(bytes);
    assert(vstd::utf8::is_ascii_chars(chars)) by {
        assert forall|i| 0 <= i < chars.len() implies '\0' <= #[trigger] chars[i] <= '\u{7f}' by {
            assert(bytes[i] < 128);
        }
    }
    vstd::utf8::is_ascii_chars_encode_utf8(chars);
    assert forall|i| 0 <= i < bytes.len() implies #[trigger] encode_utf8(chars)[i] == bytes[i] by {
        assert(chars[i] as u8 == encode_utf8(chars)[i]);
        assert(bytes[i] < 128);
    }
    assert(encode_utf8(chars) =~= bytes);
    vstd::utf8::encode_utf8_valid_utf8(chars);
    vstd::utf8::encode_utf8_decode_utf8(chars);
}

/// The bytes of a session id are ASCII.
proof fn lemma_session_id_is_ascii(w: Seq<u8>)
    requires
        w.len() == SESSION_ID_LEN,
        session_id_pattern(w),
    ensures
        forall|i: int| 0 <= i < w.len() ==> #[trigger] w[i] < 128,
{
    assert forall|i: int| 0 <= i < w.len() implies #[trigger] w[i] < 128 by {
        assert(session_byte_ok(i, w[i]));
    }
}

/// Positions too close to the end of a buffer hold no session id, so they add nothing.
proof fn lemma_collect_tail(buf: Seq<u8>, start: nat, n: nat, found: Seq<Seq<char>>)
    requires
        start <= n <= buf.len(),
        start + SESSION_ID_LEN > buf.len(),
    ensures
        collect_session_ids(buf, n, found) == collect_session_ids(buf, start, found),
    decreases n,
{
    if n > start {
        lemma_collect_tail(buf, start, (n - 1) as nat, found);
    }
}

/// Adds to `results`, in the order they appear and each only once, the session ids found in a
/// buffer of memory that are not already there.
pub fn scan_buffer_for_session_ids(buffer: &[u8], results: &mut Vec<String>)
    ensures
        texts(final(results)@) == collect_session_ids(
            buffer@,
            buffer@.len(),
            texts(old(results)@),
        ),
{
    let ghost start_found = texts(results@);
    let mut i: usize = 0;
    while i < buffer.len() && buffer.len() - i >= SESSION_ID_LEN
        invariant
            i <= buffer@.len(),
            texts(results@) == collect_session_ids(buffer@, i as nat, start_found),
        decreases buffer@.len() - i,
    {
        let window = &buffer[i..i + SESSION_ID_LEN];
        assert(window@ == session_window(buffer@, i as int));
        if is_session_id(window) {
            proof {
                lemma_session_id_is_ascii(window@);
                lemma_ascii_decodes(window@);
            }
            if let Some(session) = utf8_to_string(window) {
                let found = contains_text(results, &session);
                if !found {
                    let ghost before = results@;
                    results.push(session);
                    assert(texts(results@) =~= texts(before).push(session@));
                }
            }
        }
        i = i + 1;
    }
    proof {
        lemma_collect_tail(buffer@, i as nat, buffer@.len(), start_found);
    }
}

/// Whether a string with the same text as `s` is in `v`.
fn contains_text(v: &Vec<String>, s: &String) -> (r: bool)
    ensures
        r == texts(v@).contains(s@),
{
    let mut k: usize = 0;
    while k < v.len()
        invariant
            k <= v@.len(),
            forall|j: int| 0 <= j < k ==> v@[j]@ != s@,
        decreases v@.len() - k,
    {
        if v[k] == *s {
            assert(texts(v@)[k as int] == s@);
            return true;
        }
        k = k + 1;
    }
    assert forall|j: int| 0 <= j < texts(v@).len() implies texts(v@)[j] != s@ by {
        assert(v@[j]@ != s@);
    }
    false
}

/// Memory state of a committed region (Win32 `MEM_COMMIT`).
pub const MEM_COMMIT: u32 = 0x1000;
/// Win32 page protection `PAGE_READONLY`.
pub const PAGE_READONLY: u32 = 0x02;
/// Win32 page protection `PAGE_READWRITE`.
pub const PAGE_READWRITE: u32 = 0x04;
/// Win32 page protection `PAGE_EXECUTE_READ`.
pub const PAGE_EXECUTE_READ: u32 = 0x20;
/// Win32 page protection `PAGE_EXECUTE_READWRITE`.
pub const PAGE_EXECUTE_READWRITE: u32 = 0x40;

/// Whether a memory region is worth reading: committed, and readable with one of the plain
/// read protections.
pub open spec fn readable_region(state: u32, protect: u32) -> bool {
    &&& state == MEM_COMMIT
    &&& (protect == PAGE_READWRITE || protect == PAGE_READONLY || protect == PAGE_EXECUTE_READ
        || protect == PAGE_EXECUTE_READWRITE)
}

pub fn is_readable_region(state: u32, protect: u32) -> (r: bool)
    ensures
        r == readable_region(state, protect),
{
    state == MEM_COMMIT && (protect == PAGE_READWRITE || protect == PAGE_READONLY || protect
        == PAGE_EXECUTE_READ || protect == PAGE_EXECUTE_READWRITE)
}

/// The address just past a region, wrapping around the address space.
pub open spec fn wrapped_end(base: usize, size: usize) -> int {
    if base + size > usize::MAX {
        base + size - (usize::MAX + 1)
    } else {
        base + size
    }
}

/// The address just past a region, wrapping around the address space; the scan of memory
/// ends when it wraps to zero.
pub fn next_region_address(base: usize, size: usize) -> (r: Option<usize>)
    ensures
        wrapped_end(base, size) == 0 ==> r is None,
        wrapped_end(base, size) != 0 ==> r == Some(wrapped_end(base, size) as usize),
{
    let end = base.wrapping_add(size);
    if end == 0 {
        None
    } else {
        Some(end)
    }
}

/// A region of a process's memory, as the system describes it.
#[derive(Debug, Clone, Copy)]
pub struct RegionInfo {
    pub base: usize,
    pub size: usize,
    pub state: u32,
    pub protect: u32,
}

/// The scan of a process's memory for session ids, region after region from address zero,
/// until a region cannot be described or the regions wrap around.
pub struct SessionScan {
    address: usize,
    done: bool,
    found: Vec<String>,
}

impl SessionScan {
    /// The address of the next region to describe.
    pub closed spec fn spec_address(&self) -> usize {
        self.address
    }

    /// Whether the scan has ended.
    pub closed spec fn spec_done(&self) -> bool {
        self.done
    }

    /// The session ids found so far.
    pub closed spec fn spec_found(&self) -> Seq<Seq<char>> {
        texts(self.found@)
    }

    pub fn new() -> (r: SessionScan)
        ensures
            r.spec_address() == 0,
            !r.spec_done(),
            r.spec_found().len() == 0,
    {
        SessionScan { address: 0, done: false, found: Vec::new() }
    }

    /// The address whose region is to be described next, unless the scan has ended.
    pub fn next_query(&self) -> (r: Option<usize>)
        ensures
            self.spec_done() ==> r is None,
            !self.spec_done() ==> r == Some(self.spec_address()),
    {
        if self.done {
            None
        } else {
            Some(self.address)
        }
    }

    /// Takes the description of the region at the queried address (`None` if it could not be
    /// described) and returns the block to read, if the region is readable. The next query is
    /// the address past the region; the scan ends when there is no description or the next
    /// address wraps to zero.
    pub fn region(&mut self, info: Option<RegionInfo>) -> (read: Option<(usize, usize)>)
        requires
            !old(self).spec_done(),
        ensures
            final(self).spec_found() == old(self).spec_found(),
            match info {
                None => final(self).spec_done() && read is None,
                Some(i) => if wrapped_end(i.base, i.size) == 0 {
                    final(self).spec_done() && read is None
                } else {
                    &&& !final(self).spec_done()
                    &&& final(self).spec_address() == wrapped_end(i.base, i.size) as usize
                    &&& read == if readable_region(i.state, i.protect) {
                        Some((i.base, i.size))
                    } else {
                        None
                    }
                },
            },
    {
        match info {
            None => {
                self.done = true;
                None
            },
            Some(i) => {
                match next_region_address(i.base, i.size) {
                    None => {
                        self.done = true;
                        None
                    },
                    Some(next) => {
                        self.address = next;
                        if is_readable_region(i.state, i.protect) {
                            Some((i.base, i.size))
                        } else {
                            None
                        }
                    },
                }
            },
        }
    }

    /// Takes the bytes read from a region and adds the session ids in them.
    pub fn bytes(&mut self, buffer: &[u8])
        ensures
            final(self).spec_found() == collect_session_ids(
                buffer@,
                buffer@.len(),
                old(self).spec_found(),
            ),
            final(self).spec_address() == old(self).spec_address(),
            final(self).spec_done() == old(self).spec_done(),
    {
        scan_buffer_for_session_ids(buffer, &mut self.found);
    }

    /// The session ids found, in the order they were first seen.
    pub fn results(self) -> (r: Vec<String>)
        ensures
            texts(r@) == self.spec_found(),
    {
        self.found
    }
}

/// Whether `needle` occurs in `hay` as a run of consecutive characters.
pub open spec fn is_substring(needle: Seq<char>, hay: Seq<char>) -> bool {
    exists|i: int|
        0 <= i && i + needle.len() <= hay.len() && #[trigger] hay.subrange(i, i + needle.len())
            == needle
}

/// Whether `needle` occurs in `hay` at position `start`.
pub(crate) fn matches_at(hay: &str, needle: &str, start: usize) -> (r: bool)
    requires
        start + needle@.len() <= hay@.len(),
    ensures
        r == (hay@.subrange(start as int, start + needle@.len()) == needle@),
{
    let n = needle.unicode_len();
    let h = hay.unicode_len();
    let mut k: usize = 0;
    while k < n
        invariant
            n == needle@.len(),
            h == hay@.len(),
            start + n <= hay@.len(),
            k <= n,
            forall|j: int| 0 <= j < k ==> hay@[start + j] == needle@[j],
        decreases n - k,
    {
        if hay.get_char(start + k) != needle.get_char(k) {
            assert(hay@.subrange(start as int, start + n)[k as int] != needle@[k as int]);
            return false;
        }
        k = k + 1;
    }
    assert(hay@.subrange(start as int, start + n) =~= needle@);
    true
}

/// Whether `needle` occurs in `hay`.
pub fn contains_str(hay: &str, needle: &str) -> (r: bool)
    ensures
        r == is_substring(needle@, hay@),
{
    let h = hay.unicode_len();
    let n = needle.unicode_len();
    if n > h {
        return false;
    }
    let mut i: usize = 0;
    loop
        invariant
            h == hay@.len(),
            n == needle@.len(),
            n <= h,
            i <= h - n,
            forall|j: int| 0 <= j < i ==> #[trigger] hay@.subrange(j, j + n) != needle@,
        decreases h - n - i,
    {
        if matches_at(hay, needle, i) {
            return true;
        }
        if i == h - n {
            assert forall|j: int|
                0 <= j && j + needle@.len() <= hay@.len() implies #[trigger] hay@.subrange(
                j,
                j + needle@.len(),
            ) != needle@ by {
                assert(j <= i);
            }
            return false;
        }
        i = i + 1;
    }
}

/// Whether a module file name contains the target name, ignoring case.
pub open spec fn module_name_matches(name: Seq<char>, target: Seq<char>) -> bool {
    is_substring(lowercase_text(target), lowercase_text(name))
}

/// The file name of a module from the bytes the system wrote: no name when it wrote none,
/// the UTF-8 text when the bytes are valid UTF-8, and an empty name otherwise.
pub fn module_file_name(raw: &[u8]) -> (r: Option<String>)
    ensures
        raw@.len() == 0 ==> r is None,
        raw@.len() > 0 && valid_utf8(raw@) ==> (r matches Some(name) && name@ == decode_utf8(
            raw@,
        )),
        raw@.len() > 0 && !valid_utf8(raw@) ==> (r matches Some(name) && name@.len() == 0),
{
    if raw.len() == 0 {
        return None;
    }
    match utf8_to_string(raw) {
        Some(name) => Some(name),
        None => Some(String::new()),
    }
}

/// How many module handles the process list holds: the bytes the system reported divided by
/// the size of a handle, but never more than the slots that were handed to it (a process with
/// more modules reports more bytes than were filled).
pub fn listed_module_count(needed_bytes: u32, entry_size: usize, slots: usize) -> (r: usize)
    requires
        entry_size > 0,
    ensures
        r == if needed_bytes as int / entry_size as int <= slots as int {
            needed_bytes as int / entry_size as int
        } else {
            slots as int
        },
{
    let reported: usize = (needed_bytes as usize) / entry_size;
    if reported <= slots {
        reported
    } else {
        slots
    }
}

/// Finds the first loaded module whose file name contains `target`, ignoring case. Modules
/// whose name could not be read are `None` and skipped.
pub fn find_module(names: &Vec<Option<String>>, target: &str) -> (r: Result<usize, MemoryError>)
    ensures
        match r {
            Ok(i) => {
                &&& i < names@.len()
                &&& names@[i as int] matches Some(name) && module_name_matches(name@, target@)
                &&& forall|j: int|
                    0 <= j < i ==> !(#[trigger] names@[j] matches Some(name)
                        && module_name_matches(name@, target@))
            },
            Err(e) => {
                &&& e matches MemoryError::ModuleNotFound(t) && t@ == target@
                &&& forall|j: int|
                    0 <= j < names@.len() ==> !(#[trigger] names@[j] matches Some(name)
                        && module_name_matches(name@, target@))
            },
        },
{
    let target_lower = to_lowercase(target);
    let mut i: usize = 0;
    while i < names.len()
        invariant
            i <= names@.len(),
            target_lower@ == lowercase_text(target@),
            forall|j: int|
                0 <= j < i ==> !(#[trigger] names@[j] matches Some(name) && module_name_matches(
                    name@,
                    target@,
                )),
        decreases names@.len() - i,
    {
        if let Some(name) = &names[i] {
            let name_lower = to_lowercase(name.as_str());
            if contains_str(name_lower.as_str(), target_lower.as_str()) {
                return Ok(i);
            }
        }
        i = i + 1;
    }
    Err(MemoryError::ModuleNotFound(String::from_str(target)))
}

/// Whether no text occurs twice in a list.
pub open spec fn no_duplicates(s: Seq<Seq<char>>) -> bool {
    forall|i: int, j: int| 0 <= i < j < s.len() ==> #[trigger] s[i] != #[trigger] s[j]
}

/// Whether a text is that of a session id starting in the first `n` positions of a buffer.
pub open spec fn scanned_id(buf: Seq<u8>, n: nat, t: Seq<char>) -> bool {
    exists|i: int|
        #![trigger session_window(buf, i)]
        0 <= i < n && session_id_at(buf, i) && t == ascii_text(session_window(buf, i))
}

/// What scanning a buffer promises: the ids found before stay first and in order; every
/// session id of the buffer is in the list; everything added is the text of a session id of
/// the buffer; and if no id was listed twice before, none is listed twice after.
pub proof fn lemma_scan_laws(buf: Seq<u8>, n: nat, found: Seq<Seq<char>>)
    requires
        n <= buf.len(),
    ensures
        ({
            let out = collect_session_ids(buf, n, found);
            &&& out.len() >= found.len()
            &&& out.subrange(0, found.len() as int) == found
            &&& forall|i: int|
                0 <= i < n && session_id_at(buf, i) ==> out.contains(
                    #[trigger] ascii_text(session_window(buf, i)),
                )
            &&& forall|k: int| found.len() <= k < out.len() ==> scanned_id(buf, n, #[trigger] out[k])
            &&& no_duplicates(found) ==> no_duplicates(out)
        }),
    decreases n,
{
    if n == 0 {
        assert(found.subrange(0, found.len() as int) =~= found);
    } else {
        let m = (n - 1) as nat;
        lemma_scan_laws(buf, m, found);
        let before = collect_session_ids(buf, m, found);
        let out = collect_session_ids(buf, n, found);
        assert forall|k: int| found.len() <= k < before.len() implies scanned_id(buf, n, #[trigger] before[k]) by {
            assert(scanned_id(buf, m, before[k]));
            let i0 = choose|i: int|
                #![trigger session_window(buf, i)]
                0 <= i < m && session_id_at(buf, i) && before[k] == ascii_text(session_window(buf, i));
            assert(0 <= i0 < n && session_id_at(buf, i0) && before[k] == ascii_text(session_window(buf, i0)));
        }
        if session_id_at(buf, m as int) {
            let id = ascii_text(session_window(buf, m as int));
            if !before.contains(id) {
                assert(out == before.push(id));
                assert(out.subrange(0, found.len() as int) =~= before.subrange(0, found.len() as int));
                assert forall|i: int|
                    0 <= i < n && session_id_at(buf, i) implies out.contains(
                    #[trigger] ascii_text(session_window(buf, i)),
                ) by {
                    if i < m {
                        let t = ascii_text(session_window(buf, i));
                        assert(before.contains(t));
                        let k = choose|k: int| 0 <= k < before.len() && before[k] == t;
                        assert(out[k] == t);
                    } else {
                        assert(out[before.len() as int] == id);
                    }
                }
                assert forall|k: int| found.len() <= k < out.len() implies scanned_id(buf, n, #[trigger] out[k]) by {
                    if k < before.len() {
                        assert(out[k] == before[k]);
                    } else {
                        assert(out[k] == id);
                        assert(session_window(buf, m as int) == session_window(buf, m as int));
                    }
                }
                if no_duplicates(found) {
                    assert forall|i: int, j: int| 0 <= i < j < out.len() implies #[trigger] out[i]
                        != #[trigger] out[j] by {
                        if j == before.len() {
                            assert(out[i] == before[i]);
                        } else {
                            assert(out[i] == before[i] && out[j] == before[j]);
                        }
                    }
                }
            } else {
                assert(out == before);
            }
        } else {
            assert(out == before);
        }
    }
}

} // verus!
