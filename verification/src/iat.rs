//! Finding an import's slot in a PE32 image's import address table.
//!
//! The image is given as its mapped bytes, offset 0 being the module base; every offset below is
//! relative to it. A read past the end of the image means a malformed image.

use crate::bytes::{le_i32, le_u16, le_u32, read_i32_le, read_u16_le, read_u32_le};
use vstd::prelude::*;

verus! {

/// `MZ`.
pub const IMAGE_DOS_SIGNATURE: u16 = 0x5a4d;
/// `PE\0\0`.
pub const IMAGE_NT_SIGNATURE: u32 = 0x0000_4550;
/// Where the DOS header keeps the NT headers' offset.
pub const E_LFANEW_OFFSET: usize = 0x3c;
/// Where the import directory entry of the data directory lies in the 32-bit NT headers.
pub const IMPORT_DIRECTORY_OFFSET: usize = 0x80;
/// The size of an import descriptor.
pub const DESCRIPTOR_LEN: usize = 20;
/// Fields of an import descriptor.
pub const DESC_ORIGINAL_FIRST_THUNK: usize = 0;
pub const DESC_NAME: usize = 12;
pub const DESC_FIRST_THUNK: usize = 16;
/// The size of a 32-bit thunk.
pub const THUNK_LEN: usize = 4;
/// A thunk imports by ordinal when this bit is set.
pub const IMAGE_ORDINAL_FLAG32: u32 = 0x8000_0000;
/// Where an import-by-name entry keeps the name (after the hint).
pub const IMPORT_BY_NAME_NAME: usize = 2;

/// How an import is identified.
pub enum ImportRef {
    /// By-name import matched case-insensitively across every descriptor.
    Name(Vec<u8>),
    /// By-ordinal import matched within the named DLL's descriptor.
    Ordinal { dll: Vec<u8>, ordinal: u16 },
}

pub enum ImportView {
    Name(Seq<u8>),
    Ordinal { dll: Seq<u8>, ordinal: u16 },
}

impl View for ImportRef {
    type V = ImportView;

    open spec fn view(&self) -> ImportView {
        match self {
            ImportRef::Name(n) => ImportView::Name(n@),
            ImportRef::Ordinal { dll, ordinal } => ImportView::Ordinal { dll: dll@, ordinal: *ordinal },
        }
    }
}

/// The import directory's offset, or `None` for a malformed image: no DOS or NT signature, a
/// negative NT header offset, an empty import directory, or headers past the end.
pub open spec fn spec_import_directory(image: Seq<u8>) -> Option<usize> {
    if image.len() < E_LFANEW_OFFSET + 4 || le_u16(image, 0) != IMAGE_DOS_SIGNATURE {
        None
    } else {
        let e_lfanew = le_i32(image, E_LFANEW_OFFSET as int);
        if e_lfanew < 0 || e_lfanew + IMPORT_DIRECTORY_OFFSET + 8 > image.len() {
            None
        } else if le_u32(image, e_lfanew as int) != IMAGE_NT_SIGNATURE {
            None
        } else {
            let va = le_u32(image, e_lfanew + IMPORT_DIRECTORY_OFFSET);
            let size = le_u32(image, e_lfanew + IMPORT_DIRECTORY_OFFSET + 4);
            if va == 0 || size == 0 {
                None
            } else {
                Some(va as usize)
            }
        }
    }
}

/// Finds the import directory (see [`spec_import_directory`]).
pub fn import_directory(image: &[u8]) -> (r: Option<usize>)
    ensures
        r == spec_import_directory(image@),
{
    let n = image.len();
    if n < E_LFANEW_OFFSET + 4 || read_u16_le(image, 0) != IMAGE_DOS_SIGNATURE {
        return None;
    }
    let e_lfanew = read_i32_le(image, E_LFANEW_OFFSET);
    if e_lfanew < 0 {
        return None;
    }
    let nt = e_lfanew as usize;
    if nt > n || n - nt < IMPORT_DIRECTORY_OFFSET + 8 {
        return None;
    }
    if read_u32_le(image, nt) != IMAGE_NT_SIGNATURE {
        return None;
    }
    let va = read_u32_le(image, nt + IMPORT_DIRECTORY_OFFSET);
    let size = read_u32_le(image, nt + IMPORT_DIRECTORY_OFFSET + 4);
    if va == 0 || size == 0 {
        None
    } else {
        Some(va as usize)
    }
}

/// The ASCII lowercase of a byte.
pub open spec fn ascii_lower(b: u8) -> u8 {
    if 0x41 <= b <= 0x5a {
        (b + 0x20) as u8
    } else {
        b
    }
}

/// Whether two byte strings are equal ignoring ASCII case.
pub open spec fn eq_ignore_ascii_case(a: Seq<u8>, b: Seq<u8>) -> bool {
    a.len() == b.len() && forall|i: int| 0 <= i < a.len() ==> ascii_lower(#[trigger] a[i])
        == ascii_lower(b[i])
}

/// The position of the first NUL at or after `at`, if the image holds one.
pub open spec fn nul_from(image: Seq<u8>, at: int) -> Option<int>
    decreases image.len() - at,
{
    if at < 0 || at >= image.len() {
        None
    } else if image[at] == 0 {
        Some(at)
    } else {
        nul_from(image, at + 1)
    }
}

/// The NUL-terminated string at `at`, or `None` if it runs past the end.
pub open spec fn cstr(image: Seq<u8>, at: int) -> Option<Seq<u8>> {
    match nul_from(image, at) {
        Some(end) => Some(image.subrange(at, end)),
        None => None,
    }
}

/// The outcome of a scan.
#[derive(Debug, Clone, Copy, PartialEq, Eq, Structural)]
pub enum Scan {
    Found(usize),
    NotFound,
    Malformed,
}

/// Whether thunk `entry` is the import.
pub open spec fn entry_hit(image: Seq<u8>, entry: u32, import: ImportView) -> Option<bool> {
    match import {
        ImportView::Name(want) => if entry & IMAGE_ORDINAL_FLAG32 == 0 {
            match cstr(image, entry + IMPORT_BY_NAME_NAME) {
                Some(name) => Some(eq_ignore_ascii_case(name, want)),
                None => None,
            }
        } else {
            Some(false)
        },
        ImportView::Ordinal { ordinal, .. } => Some(
            entry & IMAGE_ORDINAL_FLAG32 != 0 && entry & 0xffff == ordinal as u32,
        ),
    }
}

/// Scans a descriptor's thunks from index `i`: the slot of the first hit, the end of the
/// thunk list, or a malformed read.
pub open spec fn scan_thunks(image: Seq<u8>, oft: u32, ft: u32, i: int, import: ImportView) -> Scan
    decreases image.len() - (oft + THUNK_LEN * i),
{
    let at = oft + THUNK_LEN * i;
    if i < 0 || at + THUNK_LEN > image.len() {
        Scan::Malformed
    } else {
        let entry = le_u32(image, at);
        if entry == 0 {
            Scan::NotFound
        } else {
            match entry_hit(image, entry, import) {
                None => Scan::Malformed,
                Some(true) => if ft + THUNK_LEN * i <= usize::MAX {
                    Scan::Found((ft + THUNK_LEN * i) as usize)
                } else {
                    Scan::Malformed
                },
                Some(false) => scan_thunks(image, oft, ft, i + 1, import),
            }
        }
    }
}

/// Whether the descriptor at `desc` is skipped for an ordinal import of another DLL, or
/// `None` if its DLL name runs past the end.
pub open spec fn skips_dll(image: Seq<u8>, name_rva: u32, import: ImportView) -> Option<bool> {
    match import {
        ImportView::Ordinal { dll, .. } => match cstr(image, name_rva as int) {
            Some(name) => Some(!eq_ignore_ascii_case(name, dll)),
            None => None,
        },
        ImportView::Name(_) => Some(false),
    }
}

/// Scans the import descriptors from offset `desc`.
pub open spec fn scan_descriptors(image: Seq<u8>, desc: int, import: ImportView) -> Scan
    decreases image.len() - desc,
{
    if desc < 0 || desc + DESCRIPTOR_LEN > image.len() {
        Scan::Malformed
    } else {
        let name_rva = le_u32(image, desc + DESC_NAME);
        if name_rva == 0 {
            Scan::NotFound
        } else {
            match skips_dll(image, name_rva, import) {
                None => Scan::Malformed,
                Some(true) => scan_descriptors(image, desc + DESCRIPTOR_LEN, import),
                Some(false) => {
                    let oft = le_u32(image, desc + DESC_ORIGINAL_FIRST_THUNK);
                    let ft = le_u32(image, desc + DESC_FIRST_THUNK);
                    if oft == 0 || ft == 0 {
                        scan_descriptors(image, desc + DESCRIPTOR_LEN, import)
                    } else {
                        match scan_thunks(image, oft, ft, 0, import) {
                            Scan::NotFound => scan_descriptors(image, desc + DESCRIPTOR_LEN, import),
                            other => other,
                        }
                    }
                },
            }
        }
    }
}

/// The import's slot offset: the first descriptor (of the named DLL, for an ordinal) whose
/// thunk list holds the import.
pub open spec fn spec_find_iat_slot(image: Seq<u8>, import: ImportView) -> Scan {
    match spec_import_directory(image) {
        None => Scan::Malformed,
        Some(dir) => scan_descriptors(image, dir as int, import),
    }
}

/// Finds the NUL at or after `at`.
fn find_nul(image: &[u8], at: usize) -> (r: Option<usize>)
    ensures
        r is Some <==> nul_from(image@, at as int) is Some,
        r matches Some(e) ==> nul_from(image@, at as int) == Some(e as int) && at <= e
            < image@.len(),
    decreases image@.len() - at,
{
    if at >= image.len() {
        return None;
    }
    if image[at] == 0 {
        Some(at)
    } else {
        find_nul(image, at + 1)
    }
}

fn lower_byte(b: u8) -> (r: u8)
    ensures
        r == ascii_lower(b),
{
    if 0x41 <= b && b <= 0x5a {
        b + 0x20
    } else {
        b
    }
}

/// Whether the image's bytes `[at, end)` equal `want` ignoring ASCII case.
fn span_eq_ignore_case(image: &[u8], at: usize, end: usize, want: &[u8]) -> (r: bool)
    requires
        at <= end <= image@.len(),
    ensures
        r == eq_ignore_ascii_case(image@.subrange(at as int, end as int), want@),
{
    let ghost s = image@.subrange(at as int, end as int);
    if end - at != want.len() {
        return false;
    }
    let mut i: usize = 0;
    while i < want.len()
        invariant
            at <= end <= image@.len(),
            end - at == want@.len(),
            s == image@.subrange(at as int, end as int),
            i <= want@.len(),
            forall|j: int| 0 <= j < i ==> ascii_lower(#[trigger] s[j]) == ascii_lower(want@[j]),
        decreases want@.len() - i,
    {
        if lower_byte(image[at + i]) != lower_byte(want[i]) {
            assert(s[i as int] == image@[at + i]);
            return false;
        }
        i += 1;
    }
    true
}

/// Whether the NUL-terminated string at `at` equals `want` ignoring case; `None` if it runs
/// past the end.
fn cstr_eq_ignore_case(image: &[u8], at: usize, want: &[u8]) -> (r: Option<bool>)
    ensures
        r == (match cstr(image@, at as int) {
            Some(name) => Some(eq_ignore_ascii_case(name, want@)),
            None => None,
        }),
{
    match find_nul(image, at) {
        Some(end) => Some(span_eq_ignore_case(image, at, end, want)),
        None => None,
    }
}

fn hit(image: &[u8], entry: u32, import: &ImportRef) -> (r: Option<bool>)
    ensures
        r == entry_hit(image@, entry, import@),
{
    match import {
        ImportRef::Name(want) => {
            if entry & IMAGE_ORDINAL_FLAG32 == 0 {
                let n = image.len();
                if (entry as usize) > usize::MAX - IMPORT_BY_NAME_NAME {
                    assert(entry + IMPORT_BY_NAME_NAME >= n);
                    assert(nul_from(image@, entry + IMPORT_BY_NAME_NAME) is None);
                    return None;
                }
                cstr_eq_ignore_case(image, entry as usize + IMPORT_BY_NAME_NAME, want.as_slice())
            } else {
                Some(false)
            }
        },
        ImportRef::Ordinal { ordinal, .. } => Some(
            entry & IMAGE_ORDINAL_FLAG32 != 0 && entry & 0xffff == *ordinal as u32,
        ),
    }
}

/// Scans thunks from index `i` (see [`scan_thunks`]).
fn thunks(image: &[u8], oft: u32, ft: u32, i: usize, import: &ImportRef) -> (r: Scan)
    ensures
        r == scan_thunks(image@, oft, ft, i as int, import@),
    decreases image@.len() - (oft + THUNK_LEN * i),
{
    let n = image.len();
    if i > (usize::MAX - oft as usize) / THUNK_LEN {
        return Scan::Malformed;
    }
    let at = oft as usize + THUNK_LEN * i;
    if at > n || n - at < THUNK_LEN {
        return Scan::Malformed;
    }
    let entry = read_u32_le(image, at);
    if entry == 0 {
        return Scan::NotFound;
    }
    match hit(image, entry, import) {
        None => Scan::Malformed,
        Some(true) => {
            if i > (usize::MAX - ft as usize) / THUNK_LEN {
                Scan::Malformed
            } else {
                Scan::Found(ft as usize + THUNK_LEN * i)
            }
        },
        Some(false) => thunks(image, oft, ft, i + 1, import),
    }
}

/// Scans descriptors from offset `desc` (see [`scan_descriptors`]).
fn descriptors(image: &[u8], desc: usize, import: &ImportRef) -> (r: Scan)
    ensures
        r == scan_descriptors(image@, desc as int, import@),
    decreases image@.len() - desc,
{
    let n = image.len();
    if desc > n || n - desc < DESCRIPTOR_LEN {
        return Scan::Malformed;
    }
    let name_rva = read_u32_le(image, desc + DESC_NAME);
    if name_rva == 0 {
        return Scan::NotFound;
    }
    let skip = match import {
        ImportRef::Ordinal { dll, .. } => match cstr_eq_ignore_case(image, name_rva as usize, dll.as_slice()) {
            Some(same) => !same,
            None => {
                return Scan::Malformed;
            },
        },
        ImportRef::Name(_) => false,
    };
    if skip {
        return descriptors(image, desc + DESCRIPTOR_LEN, import);
    }
    let oft = read_u32_le(image, desc + DESC_ORIGINAL_FIRST_THUNK);
    let ft = read_u32_le(image, desc + DESC_FIRST_THUNK);
    if oft == 0 || ft == 0 {
        return descriptors(image, desc + DESCRIPTOR_LEN, import);
    }
    match thunks(image, oft, ft, 0, import) {
        Scan::NotFound => descriptors(image, desc + DESCRIPTOR_LEN, import),
        other => other,
    }
}

/// Finds the `FirstThunk` slot of `import` in the module image: `Found` with the slot's offset,
/// `NotFound` when no descriptor holds it, or `Malformed`.
pub fn find_iat_slot(image: &[u8], import: &ImportRef) -> (r: Scan)
    ensures
        r == spec_find_iat_slot(image@, import@),
{
    match import_directory(image) {
        None => Scan::Malformed,
        Some(dir) => descriptors(image, dir, import),
    }
}

/// Thunk `i` of the thunk array at `oft`.
pub open spec fn thunk_at(image: Seq<u8>, oft: u32, i: int) -> u32 {
    le_u32(image, oft + THUNK_LEN * i)
}

/// Whether the thunk `entry` (not the list's zero terminator) imports by name a function whose
/// name is `want`, ignoring ASCII case.
pub open spec fn names_import(image: Seq<u8>, entry: u32, want: Seq<u8>) -> bool {
    &&& entry != 0
    &&& entry & IMAGE_ORDINAL_FLAG32 == 0
    &&& (cstr(image, entry + IMPORT_BY_NAME_NAME) matches Some(name) && eq_ignore_ascii_case(
        name,
        want,
    ))
}

/// Whether the thunk `entry` is a well-formed entry other than a by-name import of `want`: an
/// ordinal import, or a by-name import whose name lies in the image and differs.
pub open spec fn misses_import(image: Seq<u8>, entry: u32, want: Seq<u8>) -> bool {
    &&& entry != 0
    &&& (entry & IMAGE_ORDINAL_FLAG32 != 0 || (cstr(image, entry + IMPORT_BY_NAME_NAME) matches Some(
        name,
    ) && !eq_ignore_ascii_case(name, want)))
}

/// The first `n` thunks at `oft` lie in the image and are well-formed entries other than `want`.
pub open spec fn thunks_miss(image: Seq<u8>, oft: u32, n: int, want: Seq<u8>) -> bool {
    forall|i: int|
        0 <= i < n ==> oft + THUNK_LEN * i + THUNK_LEN <= image.len() && misses_import(
            image,
            #[trigger] thunk_at(image, oft, i),
            want,
        )
}

/// The import descriptor at `desc` lies in the image, is not the terminator, and does not
/// import `want` by name: its thunk arrays are absent, or its thunk list ends without it.
pub open spec fn descriptor_misses(image: Seq<u8>, desc: int, want: Seq<u8>) -> bool {
    let oft = le_u32(image, desc + DESC_ORIGINAL_FIRST_THUNK);
    let ft = le_u32(image, desc + DESC_FIRST_THUNK);
    &&& 0 <= desc
    &&& desc + DESCRIPTOR_LEN <= image.len()
    &&& le_u32(image, desc + DESC_NAME) != 0
    &&& (oft == 0 || ft == 0 || exists|n: int|
        0 <= n && thunks_miss(image, oft, n, want) && oft + THUNK_LEN * n + THUNK_LEN <= image.len()
            && #[trigger] thunk_at(image, oft, n) == 0)
}

proof fn lemma_thunks_end(image: Seq<u8>, oft: u32, ft: u32, i: int, n: int, want: Seq<u8>)
    requires
        0 <= i <= n,
        thunks_miss(image, oft, n, want),
        oft + THUNK_LEN * n + THUNK_LEN <= image.len(),
        thunk_at(image, oft, n) == 0,
    ensures
        scan_thunks(image, oft, ft, i, ImportView::Name(want)) == Scan::NotFound,
    decreases n - i,
{
    if i < n {
        assert(misses_import(image, thunk_at(image, oft, i), want));
        lemma_thunks_end(image, oft, ft, i + 1, n, want);
    }
}

proof fn lemma_thunks_hit(image: Seq<u8>, oft: u32, ft: u32, i: int, j: int, want: Seq<u8>)
    requires
        0 <= i <= j,
        thunks_miss(image, oft, j, want),
        oft + THUNK_LEN * j + THUNK_LEN <= image.len(),
        names_import(image, thunk_at(image, oft, j), want),
        ft + THUNK_LEN * j <= usize::MAX,
    ensures
        scan_thunks(image, oft, ft, i, ImportView::Name(want)) == Scan::Found(
            (ft + THUNK_LEN * j) as usize,
        ),
    decreases j - i,
{
    if i < j {
        assert(misses_import(image, thunk_at(image, oft, i), want));
        lemma_thunks_hit(image, oft, ft, i + 1, j, want);
    }
}

proof fn lemma_descriptors_reach(
    image: Seq<u8>,
    dir: int,
    m: int,
    k: int,
    j: int,
    want: Seq<u8>,
)
    requires
        0 <= m <= k,
        0 <= j,
        forall|x: int| 0 <= x < k ==> #[trigger] descriptor_misses(image, dir + DESCRIPTOR_LEN * x, want),
        ({
            let d = dir + DESCRIPTOR_LEN * k;
            let oft = le_u32(image, d + DESC_ORIGINAL_FIRST_THUNK);
            let ft = le_u32(image, d + DESC_FIRST_THUNK);
            &&& 0 <= d
            &&& d + DESCRIPTOR_LEN <= image.len()
            &&& le_u32(image, d + DESC_NAME) != 0
            &&& oft != 0 && ft != 0
            &&& thunks_miss(image, oft, j, want)
            &&& oft + THUNK_LEN * j + THUNK_LEN <= image.len()
            &&& names_import(image, thunk_at(image, oft, j), want)
            &&& ft + THUNK_LEN * j <= usize::MAX
        }),
    ensures
        scan_descriptors(image, dir + DESCRIPTOR_LEN * m, ImportView::Name(want)) == Scan::Found(
            (le_u32(image, dir + DESCRIPTOR_LEN * k + DESC_FIRST_THUNK) + THUNK_LEN * j) as usize,
        ),
    decreases k - m,
{
    let d = dir + DESCRIPTOR_LEN * m;
    if m < k {
        assert(descriptor_misses(image, d, want));
        let oft = le_u32(image, d + DESC_ORIGINAL_FIRST_THUNK);
        let ft = le_u32(image, d + DESC_FIRST_THUNK);
        if oft != 0 && ft != 0 {
            let n = choose|n: int|
                0 <= n && thunks_miss(image, oft, n, want) && oft + THUNK_LEN * n + THUNK_LEN
                    <= image.len() && #[trigger] thunk_at(image, oft, n) == 0;
            lemma_thunks_end(image, oft, ft, 0, n, want);
        }
        lemma_descriptors_reach(image, dir, m + 1, k, j, want);
        assert(dir + DESCRIPTOR_LEN * (m + 1) == d + DESCRIPTOR_LEN);
    } else {
        let oft = le_u32(image, d + DESC_ORIGINAL_FIRST_THUNK);
        let ft = le_u32(image, d + DESC_FIRST_THUNK);
        lemma_thunks_hit(image, oft, ft, 0, j, want);
    }
}

/// A by-name lookup goes on past every descriptor that does not hold the name: if descriptor
/// `k` of the import directory has thunk arrays and its entry `j` imports `want` by name
/// (ignoring ASCII case), with its earlier entries and all earlier descriptors well-formed and
/// without the name, the lookup finds descriptor `k`'s `FirstThunk` slot `j`, whatever DLLs the
/// earlier descriptors import.
pub proof fn lemma_name_found_past_other_descriptors(
    image: Seq<u8>,
    dir: usize,
    k: int,
    j: int,
    want: Seq<u8>,
)
    requires
        spec_import_directory(image) == Some(dir),
        0 <= k,
        0 <= j,
        forall|x: int| 0 <= x < k ==> #[trigger] descriptor_misses(image, dir + DESCRIPTOR_LEN * x, want),
        ({
            let d = dir + DESCRIPTOR_LEN * k;
            let oft = le_u32(image, d + DESC_ORIGINAL_FIRST_THUNK);
            let ft = le_u32(image, d + DESC_FIRST_THUNK);
            &&& d + DESCRIPTOR_LEN <= image.len()
            &&& le_u32(image, d + DESC_NAME) != 0
            &&& oft != 0 && ft != 0
            &&& thunks_miss(image, oft, j, want)
            &&& oft + THUNK_LEN * j + THUNK_LEN <= image.len()
            &&& names_import(image, thunk_at(image, oft, j), want)
            &&& ft + THUNK_LEN * j <= usize::MAX
        }),
    ensures
        spec_find_iat_slot(image, ImportView::Name(want)) == Scan::Found(
            (le_u32(image, dir + DESCRIPTOR_LEN * k + DESC_FIRST_THUNK) + THUNK_LEN * j) as usize,
        ),
{
    lemma_descriptors_reach(image, dir as int, 0, k, j, want);
    assert(dir + DESCRIPTOR_LEN * 0 == dir);
}

} // verus!
