//! Reading the game client's memory: which pages are worth reading, where a
//! byte pattern occurs in a page, how a search is split among threads, and
//! what cached readings of the frame counter say.

use vstd::prelude::*;
use vstd::string::*;
use crate::text::{
    replace_all, replaced, contains, occurs_in, occurs_at, split_char, split_parts, parse_u32,
    parse_u32_spec, str_eq, lemma_split_parts_nonempty, texts, decimal_text, is_digit,
    lemma_decimal_text_spells, lemma_replaced_absent_char, lemma_split_last_piece,
    law_u32_text_parses_back,
};

verus! {

/// One region of the client's memory, as `VirtualQueryEx` describes it, with
/// the flag words as plain numbers.
#[allow(non_snake_case, non_camel_case_types)]
#[derive(Clone, Copy, Debug, PartialEq, Eq, Structural)]
pub struct THREADSAFE_MEMORY_BASIC_INFO {
    pub BaseAddress: u64,
    pub AllocationBase: u64,
    pub AllocationProtect: u32,
    pub PartitionId: u16,
    pub RegionSize: usize,
    pub State: u32,
    pub Protect: u32,
    pub Type: u32,
}

/// The protections of pages worth reading: read-only, read-write, executable
/// and readable, executable and writable, and copy-on-write.
pub const PAGE_PROTECTION_MASK: u32 = 0xF4;

/// The types of pages worth reading: private and image pages.
pub const PAGE_TYPE_MASK: u32 = 0x1020000;

/// The state of committed pages.
pub const MEM_COMMIT: u32 = 0x1000;

/// Pages at or above this address are not read.
pub const HIGHEST_SCANNED_ADDRESS: u64 = 0x30000000000;

/// A page worth reading: committed, readable, of a wanted type, and low enough.
pub open spec fn page_is_scannable(page: THREADSAFE_MEMORY_BASIC_INFO) -> bool {
    &&& page.Protect & PAGE_PROTECTION_MASK != 0
    &&& page.State == MEM_COMMIT
    &&& page.Type & PAGE_TYPE_MASK != 0
    &&& page.BaseAddress < HIGHEST_SCANNED_ADDRESS
}

/// The test for pages worth reading, as a function value.
pub open spec fn scannable() -> spec_fn(THREADSAFE_MEMORY_BASIC_INFO) -> bool {
    |p: THREADSAFE_MEMORY_BASIC_INFO| page_is_scannable(p)
}

/// Keeps only the pages worth reading, in their order.
pub fn filter_pages(pages: &mut Vec<THREADSAFE_MEMORY_BASIC_INFO>)
    ensures
        final(pages)@ == old(pages)@.filter(scannable()),
{
    let mut kept: Vec<THREADSAFE_MEMORY_BASIC_INFO> = Vec::new();
    let mut i: usize = 0;
    assert(pages@.take(0) =~= Seq::<THREADSAFE_MEMORY_BASIC_INFO>::empty());
    proof {
        reveal_with_fuel(Seq::<THREADSAFE_MEMORY_BASIC_INFO>::filter, 1);
    }
    while i < pages.len()
        invariant
            i <= pages@.len(),
            pages@ == old(pages)@,
            kept@ == pages@.take(i as int).filter(scannable()),
        decreases pages@.len() - i,
    {
        let page = pages[i];
        proof {
            reveal_with_fuel(Seq::<THREADSAFE_MEMORY_BASIC_INFO>::filter, 1);
            assert(pages@.take(i + 1).drop_last() =~= pages@.take(i as int));
            assert(pages@.take(i + 1).last() == page);
        }
        let keep = page.Protect & PAGE_PROTECTION_MASK != 0 && page.State == MEM_COMMIT && page.Type
            & PAGE_TYPE_MASK != 0 && page.BaseAddress < HIGHEST_SCANNED_ADDRESS;
        assert(keep == page_is_scannable(page));
        assert(keep == scannable()(page));
        if keep {
            kept.push(page);
        }
        assert(kept@ == pages@.take(i + 1).filter(scannable()));
        i = i + 1;
    }
    assert(pages@.take(pages@.len() as int) =~= pages@);
    *pages = kept;
}

/// Filtering pages that were already filtered keeps them all: filtering is
/// idempotent, so filtering twice leaves what filtering once left.
pub proof fn law_filter_pages_idempotent(pages: Seq<THREADSAFE_MEMORY_BASIC_INFO>)
    ensures
        pages.filter(scannable()).filter(scannable()) == pages.filter(scannable()),
    decreases pages.len(),
{
    reveal_with_fuel(Seq::<THREADSAFE_MEMORY_BASIC_INFO>::filter, 1);
    if pages.len() > 0 {
        let rest = pages.drop_last();
        let x = pages.last();
        law_filter_pages_idempotent(rest);
        let once = pages.filter(scannable());
        if scannable()(x) {
            assert(once == rest.filter(scannable()).push(x));
            assert(once.drop_last() =~= rest.filter(scannable()));
            assert(once.last() == x);
        } else {
            assert(once == rest.filter(scannable()));
        }
    }
}

/// The pages of the client's memory, and whether they have been filtered.
#[derive(Debug)]
pub struct ProcessMemory {
    pub pages: Vec<THREADSAFE_MEMORY_BASIC_INFO>,
    pub is_filtered: bool,
}

/// A value read from the client's memory.
#[derive(Clone, Debug)]
pub struct ScanResult<T> {
    pub address: u64,
    pub value: T,
    pub byte_count: usize,
}

impl<T> ScanResult<T> {
    pub fn new(address: u64, value: T, byte_count: usize) -> (r: Self)
        ensures
            r.address == address,
            r.value == value,
            r.byte_count == byte_count,
    {
        Self { address, value, byte_count }
    }
}

impl ScanResult<String> {
    /// The result of reading the same place again, given what the read gave
    /// (`None`: the read failed).
    pub fn rescan(&self, read_val: Option<String>) -> (r: Option<ScanResult<String>>)
        ensures
            match read_val {
                Some(v) => r == Some(ScanResult::<String> {
                    address: self.address,
                    value: v,
                    byte_count: self.byte_count,
                }),
                None => r is None,
            },
    {
        match read_val {
            Some(v) => Some(ScanResult::<String>::new(self.address, v, self.byte_count)),
            None => None,
        }
    }
}

/// The readings that succeeded, with their new values, in order.
pub open spec fn refreshed(
    cached: Seq<ScanResult<String>>,
    reads: Seq<Option<String>>,
) -> Seq<ScanResult<String>>
    decreases cached.len(),
{
    if cached.len() == 0 || reads.len() != cached.len() {
        Seq::empty()
    } else {
        let rest = refreshed(cached.drop_last(), reads.drop_last());
        match reads.last() {
            Some(v) => rest.push(
                ScanResult::<String> {
                    address: cached.last().address,
                    value: v,
                    byte_count: cached.last().byte_count,
                },
            ),
            None => rest,
        }
    }
}

/// Results of an earlier search, kept to be read again cheaply.
#[derive(Clone, Debug)]
pub struct CachedScan(pub Vec<ScanResult<String>>);

impl CachedScan {
    pub fn new(scan_results: Vec<ScanResult<String>>) -> (r: Self)
        ensures
            r.0@ == scan_results@,
    {
        Self(scan_results)
    }

    /// The cached results read again, given what each read gave, in order:
    /// the results whose read failed are dropped.
    pub fn rescan(&self, reads: Vec<Option<String>>) -> (r: CachedScan)
        requires
            reads@.len() == self.0@.len(),
        ensures
            r.0@ == refreshed(self.0@, reads@),
    {
        let mut ret: Vec<ScanResult<String>> = Vec::new();
        let n = self.0.len();
        let mut i: usize = 0;
        assert(refreshed(self.0@.take(0), reads@.take(0)) =~= Seq::<ScanResult<String>>::empty());
        while i < n
            invariant
                n == self.0@.len(),
                reads@.len() == n,
                i <= n,
                ret@ == refreshed(self.0@.take(i as int), reads@.take(i as int)),
            decreases n - i,
        {
            let cached = &self.0[i];
            proof {
                assert(self.0@.take(i + 1).drop_last() =~= self.0@.take(i as int));
                assert(reads@.take(i + 1).drop_last() =~= reads@.take(i as int));
                assert(self.0@.take(i + 1).last() == self.0@[i as int]);
                assert(reads@.take(i + 1).last() == reads@[i as int]);
            }
            match &reads[i] {
                Some(v) => {
                    ret.push(ScanResult::<String>::new(cached.address, v.clone(), cached.byte_count));
                },
                None => {},
            }
            i = i + 1;
        }
        assert(self.0@.take(n as int) =~= self.0@);
        assert(reads@.take(n as int) =~= reads@);
        CachedScan::new(ret)
    }
}


/// The number of windows of `width` bytes in `len` bytes (`slice::windows`).
pub open spec fn window_count(len: int, width: int) -> int {
    if width <= len {
        len - width + 1
    } else {
        0
    }
}

/// `needle` occurs in `haystack` at offset `o`.
pub open spec fn bytes_occur_at(haystack: Seq<u8>, needle: Seq<u8>, o: int) -> bool {
    0 <= o && o + needle.len() <= haystack.len() && haystack.subrange(o, o + needle.len()) == needle
}

/// The offsets below `k` at which `needle` occurs in `haystack`, in order.
pub open spec fn pattern_offsets(haystack: Seq<u8>, needle: Seq<u8>, k: int) -> Seq<usize>
    decreases k,
{
    if k <= 0 {
        Seq::empty()
    } else if bytes_occur_at(haystack, needle, k - 1) {
        pattern_offsets(haystack, needle, k - 1).push((k - 1) as usize)
    } else {
        pattern_offsets(haystack, needle, k - 1)
    }
}

/// Whether `needle` occurs at offset `o` of `haystack`.
fn bytes_match_at(haystack: &[u8], needle: &[u8], o: usize) -> (r: bool)
    requires
        o + needle@.len() <= haystack@.len(),
    ensures
        r == bytes_occur_at(haystack@, needle@, o as int),
{
    let n = needle.len();
    let _hl = haystack.len();
    let mut j: usize = 0;
    while j < n
        invariant
            n == needle@.len(),
            _hl == haystack@.len(),
            o + n <= haystack@.len(),
            j <= n,
            forall|k: int| 0 <= k < j ==> haystack@[o + k] == needle@[k],
        decreases n - j,
    {
        if haystack[o + j] != needle[j] {
            assert(haystack@.subrange(o as int, o + n)[j as int] != needle@[j as int]);
            return false;
        }
        j = j + 1;
    }
    assert(haystack@.subrange(o as int, o + n) =~= needle@);
    true
}

/// Every offset at which `needle` occurs in `haystack`, in increasing order
/// (the windows of `haystack` as wide as `needle` that equal it). An empty
/// needle has no windows and is a fatal error.
pub fn str_match_offsets(haystack: &[u8], needle: &[u8]) -> (r: Vec<usize>)
    requires
        needle@.len() > 0,
    ensures
        r@ == pattern_offsets(
            haystack@,
            needle@,
            window_count(haystack@.len() as int, needle@.len() as int),
        ),
{
    let len = haystack.len();
    let n = needle.len();
    let mut ret: Vec<usize> = Vec::new();
    if n > len {
        return ret;
    }
    let mut o: usize = 0;
    while o <= len - n
        invariant
            len == haystack@.len(),
            n == needle@.len(),
            0 < n <= len,
            o <= len - n + 1,
            ret@ == pattern_offsets(haystack@, needle@, o as int),
        decreases len - n + 1 - o,
    {
        if bytes_match_at(haystack, needle, o) {
            ret.push(o);
        }
        o = o + 1;
    }
    ret
}

/// The number that four bytes spell, most significant byte first.
pub open spec fn big_endian_value(b: Seq<u8>) -> int {
    b[0] * 16777216 + b[1] * 65536 + b[2] * 256 + b[3]
}

/// The `i32` whose two's complement bits are the four bytes `b`, most
/// significant byte first.
pub open spec fn be_i32(b: Seq<u8>) -> int {
    if big_endian_value(b) < 2147483648 {
        big_endian_value(b)
    } else {
        big_endian_value(b) - 4294967296
    }
}

/// The `i32` spelled by the first four bytes of `out`, most significant byte
/// first. Fewer than four bytes is a fatal error.
pub fn to_i32_little_endian(out: &[u8]) -> (r: i32)
    requires
        out@.len() >= 4,
    ensures
        r as int == be_i32(out@),
{
    let v: u32 = (out[0] as u32) * 16777216 + (out[1] as u32) * 65536 + (out[2] as u32) * 256
        + (out[3] as u32);
    assert(v as int == big_endian_value(out@));
    let r = v as i32;
    assert(r as int == if v < 0x80000000u32 { v as int } else { v - 0x100000000 }) by (bit_vector)
        requires
            r == v as i32,
    ;
    r
}

/// The `i32` at offset `o` of `bytes` equals `input`.
pub open spec fn i32_at(bytes: Seq<u8>, o: int, input: i32) -> bool {
    0 <= o && o + 4 <= bytes.len() && be_i32(bytes.subrange(o, o + 4)) == input
}

/// The offsets below `k` at which the four bytes spell `input`, in order.
pub open spec fn i32_offsets(bytes: Seq<u8>, input: i32, k: int) -> Seq<usize>
    decreases k,
{
    if k <= 0 {
        Seq::empty()
    } else if i32_at(bytes, k - 1, input) {
        i32_offsets(bytes, input, k - 1).push((k - 1) as usize)
    } else {
        i32_offsets(bytes, input, k - 1)
    }
}

/// Every offset whose four bytes spell `input`, most significant byte
/// first, in increasing order.
pub fn i32_match_offsets(bytes: &[u8], input: i32) -> (r: Vec<usize>)
    ensures
        r@ == i32_offsets(bytes@, input, window_count(bytes@.len() as int, 4)),
{
    let len = bytes.len();
    let mut ret: Vec<usize> = Vec::new();
    if len < 4 {
        return ret;
    }
    let mut o: usize = 0;
    while o <= len - 4
        invariant
            len == bytes@.len(),
            4 <= len,
            o <= len - 3,
            ret@ == i32_offsets(bytes@, input, o as int),
        decreases len - 3 - o,
    {
        let b: [u8; 4] = [bytes[o], bytes[o + 1], bytes[o + 2], bytes[o + 3]];
        let w = to_i32_little_endian(&b);
        proof {
            assert(b@ =~= bytes@.subrange(o as int, o + 4));
        }
        if w == input {
            ret.push(o);
        }
        o = o + 1;
    }
    ret
}

/// The number of threads a search of the client's memory is split among.
pub const SCAN_THREADS: usize = 16;

/// The pages each search thread reads: thread `k` reads the `k`-th run of
/// `page_count / 16` pages. The pages left over after the last full run are
/// read by no thread.
pub fn turboscan_chunks(page_count: usize) -> (r: Vec<(usize, usize)>)
    ensures
        r@.len() == SCAN_THREADS,
        forall|k: int|
            0 <= k < SCAN_THREADS ==> #[trigger] r@[k] == (
                (k * (page_count / 16)) as usize,
                ((k + 1) * (page_count / 16)) as usize,
            ),
{
    let pages_per_thread = page_count / 16;
    let mut pages_assigned: usize = 0;
    let mut ret: Vec<(usize, usize)> = Vec::new();
    let mut k: usize = 0;
    while k < SCAN_THREADS
        invariant
            pages_per_thread == page_count / 16,
            k <= SCAN_THREADS,
            pages_assigned == k * pages_per_thread,
            ret@.len() == k,
            forall|j: int|
                0 <= j < k ==> #[trigger] ret@[j] == (
                    (j * pages_per_thread) as usize,
                    ((j + 1) * pages_per_thread) as usize,
                ),
        decreases SCAN_THREADS - k,
    {
        assert((k + 1) * pages_per_thread <= page_count) by (nonlinear_arith)
            requires
                k < 16,
                pages_per_thread == page_count / 16,
        ;
        assert((k + 1) * pages_per_thread == k * pages_per_thread + pages_per_thread) by (nonlinear_arith);
        ret.push((pages_assigned, pages_assigned + pages_per_thread));
        pages_assigned = pages_assigned + pages_per_thread;
        k = k + 1;
    }
    ret
}

/// The runs of pages the search threads read lie within the pages, follow one
/// another without gaps or overlap, and leave fewer than sixteen pages at the
/// end unread.
pub proof fn law_turboscan_chunks_partition(page_count: usize, k: int)
    requires
        0 <= k < SCAN_THREADS,
    ensures
        (k + 1) * (page_count / 16) <= page_count,
        k * (page_count / 16) + page_count / 16 == (k + 1) * (page_count / 16),
        page_count - 16 * (page_count / 16) == page_count % 16,
        page_count % 16 < 16,
{
    assert((k + 1) * (page_count / 16) <= page_count) by (nonlinear_arith)
        requires
            k < 16,
            0 <= k,
    ;
    assert(k * (page_count / 16) + page_count / 16 == (k + 1) * (page_count / 16)) by (nonlinear_arith);
}

/// What one search thread has found so far, and how many results make it
/// stop searching.
pub struct ScanWorker {
    results: Vec<ScanResult<String>>,
    break_at_count: usize,
}

impl ScanWorker {
    /// The results found so far, in the order they were found.
    pub closed spec fn found(&self) -> Seq<ScanResult<String>> {
        self.results@
    }

    /// The number of results at which the thread stops searching.
    pub closed spec fn limit(&self) -> usize {
        self.break_at_count
    }

    /// A thread that has found nothing yet.
    pub fn new(break_at_count: usize) -> (r: Self)
        ensures
            r.found() == Seq::<ScanResult<String>>::empty(),
            r.limit() == break_at_count,
    {
        ScanWorker { results: Vec::new(), break_at_count }
    }

    /// Records what reading `size` bytes at a match's `location` gave
    /// (`None`: the read failed, and nothing is recorded). Returns whether the
    /// thread has found enough and stops searching.
    pub fn offer(&mut self, location: u64, read: Option<String>, size: usize) -> (stop: bool)
        ensures
            final(self).limit() == old(self).limit(),
            match read {
                Some(v) => final(self).found() == old(self).found().push(
                    ScanResult::<String> { address: location, value: v, byte_count: size },
                ) && stop == (final(self).found().len() >= final(self).limit()),
                None => final(self).found() == old(self).found() && !stop,
            },
    {
        match read {
            Some(v) => {
                self.results.push(ScanResult::<String>::new(location, v, size));
                self.results.len() >= self.break_at_count
            },
            None => false,
        }
    }

    /// The results found, in the order they were found.
    pub fn finish(self) -> (r: Vec<ScanResult<String>>)
        ensures
            r@ == self.found(),
    {
        self.results
    }
}

/// A reading of the frame counter that shows more than 61 frames per second:
/// with spaces removed it holds `FPS:`, and the text after its last `:` is a
/// number above 61.
pub open spec fn fps_reading_above_60(value: Seq<char>) -> bool {
    let trimmed = replaced(value, " "@, ""@);
    occurs_in(trimmed, "FPS:"@) && match parse_u32_spec(split_parts(trimmed, ':').last()) {
        Some(frame_rate) => frame_rate > 61,
        None => false,
    }
}

/// Whether a reading of the frame counter shows more than 61 frames per
/// second.
pub fn is_fps_reading_above_60(value: &str) -> (r: bool)
    ensures
        r == fps_reading_above_60(value@),
{
    let trimmed = replace_all(value, " ", "");
    if !contains(trimmed.as_str(), "FPS:") {
        return false;
    }
    let split = split_char(trimmed.as_str(), ':');
    proof {
        lemma_split_parts_nonempty(trimmed@, ':');
    }
    let last = &split[split.len() - 1];
    assert(last@ == split_parts(trimmed@, ':').last());
    match parse_u32(last.as_str()) {
        Some(frame_rate) => frame_rate > 61,
        None => false,
    }
}

/// How many of `results` are readings above 60 frames per second.
pub open spec fn count_fps_above_60(results: Seq<ScanResult<String>>) -> nat
    decreases results.len(),
{
    if results.len() == 0 {
        0
    } else {
        count_fps_above_60(results.drop_last()) + if fps_reading_above_60(results.last().value@) {
            1nat
        } else {
            0nat
        }
    }
}

/// The count that stands for "no frame counter readings are cached".
pub const NOT_CACHED: usize = 5000;

/// How many freshly read frame counter readings show more than 61 frames per
/// second; `NOT_CACHED` when no frame counter readings are cached.
pub fn filter_fps_gt_60(rescanned: Option<&CachedScan>) -> (r: usize)
    ensures
        r == match rescanned {
            Some(scan) => count_fps_above_60(scan.0@) as usize,
            None => NOT_CACHED,
        },
{
    match rescanned {
        None => NOT_CACHED,
        Some(scan) => {
            let n = scan.0.len();
            let mut count: usize = 0;
            let mut i: usize = 0;
            assert(scan.0@.take(0) =~= Seq::<ScanResult<String>>::empty());
            while i < n
                invariant
                    n == scan.0@.len(),
                    i <= n,
                    count <= i,
                    count == count_fps_above_60(scan.0@.take(i as int)),
                decreases n - i,
            {
                proof {
                    assert(scan.0@.take(i + 1).drop_last() =~= scan.0@.take(i as int));
                    assert(scan.0@.take(i + 1).last() == scan.0@[i as int]);
                }
                if is_fps_reading_above_60(scan.0[i].value.as_str()) {
                    count = count + 1;
                }
                i = i + 1;
            }
            assert(scan.0@.take(n as int) =~= scan.0@);
            count
        },
    }
}

/// How many of `results` read "Jump into a game against".
pub open spec fn count_engine_rev(results: Seq<ScanResult<String>>) -> nat
    decreases results.len(),
{
    if results.len() == 0 {
        0
    } else {
        count_engine_rev(results.drop_last()) + if results.last().value@
            == "Jump into a game against"@ {
            1nat
        } else {
            0nat
        }
    }
}

/// How many freshly read engine revision readings read "Jump into a game
/// against"; `NOT_CACHED` when none are cached.
pub fn _filter_engine_rev(rescanned: Option<&CachedScan>) -> (r: usize)
    ensures
        r == match rescanned {
            Some(scan) => count_engine_rev(scan.0@) as usize,
            None => NOT_CACHED,
        },
{
    match rescanned {
        None => NOT_CACHED,
        Some(scan) => {
            let n = scan.0.len();
            let mut count: usize = 0;
            let mut i: usize = 0;
            assert(scan.0@.take(0) =~= Seq::<ScanResult<String>>::empty());
            while i < n
                invariant
                    n == scan.0@.len(),
                    i <= n,
                    count <= i,
                    count == count_engine_rev(scan.0@.take(i as int)),
                decreases n - i,
            {
                proof {
                    assert(scan.0@.take(i + 1).drop_last() =~= scan.0@.take(i as int));
                    assert(scan.0@.take(i + 1).last() == scan.0@[i as int]);
                }
                if str_eq(scan.0[i].value.as_str(), "Jump into a game against") {
                    count = count + 1;
                }
                i = i + 1;
            }
            assert(scan.0@.take(n as int) =~= scan.0@);
            count
        },
    }
}

/// The results whose place still reads the same value, in order.
pub open spec fn still_valid(results: Seq<ScanResult<String>>, reads: Seq<Option<String>>) -> Seq<
    ScanResult<String>,
>
    decreases results.len(),
{
    if results.len() == 0 || reads.len() != results.len() {
        Seq::empty()
    } else {
        let rest = still_valid(results.drop_last(), reads.drop_last());
        match reads.last() {
            Some(v) => if v@ == results.last().value@ {
                rest.push(results.last())
            } else {
                rest
            },
            None => rest,
        }
    }
}

/// Keeps the results whose place still reads the same value, given what
/// reading each place again gave.
pub fn _retain_valid(prev_scan: &mut Vec<ScanResult<String>>, reads: Vec<Option<String>>)
    requires
        reads@.len() == old(prev_scan)@.len(),
    ensures
        final(prev_scan)@ == still_valid(old(prev_scan)@, reads@),
{
    let mut kept: Vec<ScanResult<String>> = Vec::new();
    let n = prev_scan.len();
    let mut i: usize = 0;
    assert(still_valid(prev_scan@.take(0), reads@.take(0)) =~= Seq::<ScanResult<String>>::empty());
    while i < n
        invariant
            n == prev_scan@.len(),
            prev_scan@ == old(prev_scan)@,
            reads@.len() == n,
            i <= n,
            kept@ == still_valid(prev_scan@.take(i as int), reads@.take(i as int)),
        decreases n - i,
    {
        proof {
            assert(prev_scan@.take(i + 1).drop_last() =~= prev_scan@.take(i as int));
            assert(reads@.take(i + 1).drop_last() =~= reads@.take(i as int));
            assert(prev_scan@.take(i + 1).last() == prev_scan@[i as int]);
            assert(reads@.take(i + 1).last() == reads@[i as int]);
        }
        match &reads[i] {
            Some(read) => {
                if str_eq(read.as_str(), prev_scan[i].value.as_str()) {
                    let p = &prev_scan[i];
                    kept.push(ScanResult::<String>::new(p.address, p.value.clone(), p.byte_count));
                }
            },
            None => {},
        }
        i = i + 1;
    }
    assert(prev_scan@.take(n as int) =~= prev_scan@);
    assert(reads@.take(n as int) =~= reads@);
    *prev_scan = kept;
}

/// A frame counter reading `FPS:` followed by a frame rate counts as above 60
/// exactly when the rate is above 61: the counter flickers between 60 and
/// 59 outside a game, so only higher rates show that a game runs.
pub proof fn law_fps_threshold(rate: u32)
    ensures
        fps_reading_above_60("FPS:"@ + decimal_text(rate as nat)) <==> rate > 61,
{
    reveal_strlit("FPS:");
    reveal_strlit(" ");
    reveal_strlit("");
    let d = decimal_text(rate as nat);
    let v = "FPS:"@ + d;
    lemma_decimal_text_spells(rate as nat);
    assert forall|i: int| 0 <= i < v.len() implies v[i] != ' ' by {
        if i >= 4 {
            assert(v[i] == d[i - 4]);
            assert(is_digit(d[i - 4]));
        }
    }
    assert(" "@ =~= seq![' ']);
    lemma_replaced_absent_char(v, ' ', ""@);
    assert(occurs_at(v, "FPS:"@, 0)) by {
        assert(v.subrange(0, 4) =~= "FPS:"@);
    }
    assert forall|i: int| 0 <= i < d.len() implies d[i] != ':' by {
        assert(is_digit(d[i]));
    }
    lemma_split_last_piece("FPS:"@, d, ':');
    law_u32_text_parses_back(rate);
}

} // verus!
