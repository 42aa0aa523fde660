//! Headless mode: the arithmetic of the fake Direct3D and DirectSound objects that stand in for
//! the real devices, backed by plain host memory.

use vstd::prelude::*;

verus! {

/// Whether headless mode is on for this process.
pub struct Headless {
    pub enabled: bool,
}

impl Headless {
    /// Headless mode starts off.
    pub fn new() -> (r: Self)
        ensures
            !r.enabled,
    {
        Headless { enabled: false }
    }

    /// Records the configured mode. Call before installing the hooks.
    pub fn init_from_env(&mut self, headless: bool)
        ensures
            final(self).enabled == headless,
    {
        self.enabled = headless;
    }

    pub fn is_enabled(&self) -> (r: bool)
        ensures
            r == self.enabled,
    {
        self.enabled
    }
}

/// A stable host allocation handed to the game by `Lock` / `LockRect`. It holds at least one
/// byte, even when zero bytes were asked for.
pub struct Backing {
    pub data: Vec<u8>,
}

/// Whether `bytes` bytes at `offset` lie inside an allocation of `len` bytes.
pub open spec fn span_in(len: int, offset: int, bytes: int) -> bool {
    offset < len && offset + bytes <= len
}

impl Backing {
    /// A zeroed allocation of `max(len, 1)` bytes.
    pub fn new(len: usize) -> (r: Self)
        ensures
            r.data@.len() == if len == 0 {
                1
            } else {
                len
            },
            forall|i: int| 0 <= i < r.data@.len() ==> r.data@[i] == 0,
    {
        let n = if len == 0 {
            1
        } else {
            len
        };
        let mut data: Vec<u8> = Vec::new();
        let mut k: usize = 0;
        while k < n
            invariant
                k <= n,
                data@.len() == k,
                forall|i: int| 0 <= i < k ==> data@[i] == 0,
            decreases n - k,
        {
            data.push(0);
            k += 1;
        }
        Backing { data }
    }

    /// Always at least 1.
    pub fn len(&self) -> (r: usize)
        ensures
            r == self.data@.len(),
    {
        self.data.len()
    }

    /// Checks that `bytes` bytes at `offset` lie inside the allocation; the caller takes the
    /// pointer only if they do (and aborts otherwise).
    pub fn range_ok(&self, offset: usize, bytes: usize) -> (r: bool)
        ensures
            r == span_in(self.data@.len() as int, offset as int, bytes as int),
    {
        let len = self.data.len();
        offset < len && bytes <= len - offset
    }
}

/// `a - b`, or 0 below zero.
pub open spec fn sat_sub(a: int, b: int) -> int {
    if a > b {
        a - b
    } else {
        0
    }
}

/// `a * b` and `a + b` limited to `usize::MAX`.
pub open spec fn sat(x: int) -> int {
    if x > usize::MAX {
        usize::MAX as int
    } else {
        x
    }
}

/// The byte count that a vertex or index buffer `Lock` maps: `size`, or everything from
/// `offset` to the end when `size` is 0.
pub fn lock_bytes(len: usize, offset: u32, size: u32) -> (r: usize)
    ensures
        r == if size == 0 {
            sat_sub(len as int, offset as int)
        } else {
            size as int
        },
{
    if size == 0 {
        len.saturating_sub(offset as usize)
    } else {
        size as usize
    }
}

/// Direct3D surface formats, by their numeric codes.
pub const D3DFMT_UNKNOWN: u32 = 0;
pub const D3DFMT_R8G8B8: u32 = 20;
pub const D3DFMT_A8R8G8B8: u32 = 21;
pub const D3DFMT_X8R8G8B8: u32 = 22;
pub const D3DFMT_R5G6B5: u32 = 23;
pub const D3DFMT_X1R5G5B5: u32 = 24;
pub const D3DFMT_A1R5G5B5: u32 = 25;
pub const D3DFMT_A4R4G4B4: u32 = 26;
pub const D3DFMT_R3G3B2: u32 = 27;
pub const D3DFMT_A8: u32 = 28;
pub const D3DFMT_A8R3G3B2: u32 = 29;
pub const D3DFMT_X4R4G4B4: u32 = 30;
pub const D3DFMT_A2B10G10R10: u32 = 31;
pub const D3DFMT_A8B8G8R8: u32 = 32;
pub const D3DFMT_X8B8G8R8: u32 = 33;
pub const D3DFMT_G16R16: u32 = 34;
pub const D3DFMT_A2R10G10B10: u32 = 35;
pub const D3DFMT_L8: u32 = 50;
pub const D3DFMT_A8L8: u32 = 51;
pub const D3DFMT_A4L4: u32 = 52;
pub const D3DFMT_D32: u32 = 71;
pub const D3DFMT_D24S8: u32 = 75;
pub const D3DFMT_D24X8: u32 = 77;
pub const D3DFMT_D16: u32 = 80;
pub const D3DFMT_L16: u32 = 81;

pub open spec fn spec_bytes_per_pixel(format: u32) -> Option<u32> {
    if format == D3DFMT_A8R8G8B8 || format == D3DFMT_X8R8G8B8 || format == D3DFMT_A8B8G8R8
        || format == D3DFMT_X8B8G8R8 || format == D3DFMT_A2B10G10R10 || format
        == D3DFMT_A2R10G10B10 || format == D3DFMT_G16R16 || format == D3DFMT_D32 || format
        == D3DFMT_D24S8 || format == D3DFMT_D24X8 {
        Some(4)
    } else if format == D3DFMT_R8G8B8 {
        Some(3)
    } else if format == D3DFMT_R5G6B5 || format == D3DFMT_A1R5G5B5 || format == D3DFMT_X1R5G5B5
        || format == D3DFMT_A4R4G4B4 || format == D3DFMT_A8R3G3B2 || format == D3DFMT_X4R4G4B4
        || format == D3DFMT_A8L8 || format == D3DFMT_D16 || format == D3DFMT_L16 {
        Some(2)
    } else if format == D3DFMT_A8 || format == D3DFMT_L8 || format == D3DFMT_R3G3B2 || format
        == D3DFMT_A4L4 {
        Some(1)
    } else {
        None
    }
}

/// The bytes per pixel of a surface format, or `None` for a format the fake device does not
/// know.
pub fn bytes_per_pixel(format: u32) -> (r: Option<u32>)
    ensures
        r == spec_bytes_per_pixel(format),
{
    if format == D3DFMT_A8R8G8B8 || format == D3DFMT_X8R8G8B8 || format == D3DFMT_A8B8G8R8
        || format == D3DFMT_X8B8G8R8 || format == D3DFMT_A2B10G10R10 || format
        == D3DFMT_A2R10G10B10 || format == D3DFMT_G16R16 || format == D3DFMT_D32 || format
        == D3DFMT_D24S8 || format == D3DFMT_D24X8 {
        Some(4)
    } else if format == D3DFMT_R8G8B8 {
        Some(3)
    } else if format == D3DFMT_R5G6B5 || format == D3DFMT_A1R5G5B5 || format == D3DFMT_X1R5G5B5
        || format == D3DFMT_A4R4G4B4 || format == D3DFMT_A8R3G3B2 || format == D3DFMT_X4R4G4B4
        || format == D3DFMT_A8L8 || format == D3DFMT_D16 || format == D3DFMT_L16 {
        Some(2)
    } else if format == D3DFMT_A8 || format == D3DFMT_L8 || format == D3DFMT_R3G3B2 || format
        == D3DFMT_A4L4 {
        Some(1)
    } else {
        None
    }
}

/// The smallest multiple of 4 that is at least `x`.
pub open spec fn round_up4(x: int) -> int {
    if x % 4 == 0 {
        x
    } else {
        x + 4 - x % 4
    }
}

/// The row pitch of a surface `width` pixels wide: the row's bytes rounded up to a multiple of
/// 4, or `None` if that overflows a `u32`.
pub fn row_pitch(width: u32, bytes_per_pixel: u32) -> (r: Option<u32>)
    ensures
        match r {
            Some(p) => p == round_up4(width * bytes_per_pixel),
            None => round_up4(width * bytes_per_pixel) > u32::MAX,
        },
{
    let bytes = match width.checked_mul(bytes_per_pixel) {
        Some(b) => b,
        None => {
            assert(width * bytes_per_pixel > u32::MAX);
            assert(round_up4(width * bytes_per_pixel) >= width * bytes_per_pixel);
            return None;
        },
    };
    let rem = bytes % 4;
    if rem == 0 {
        Some(bytes)
    } else {
        bytes.checked_add(4 - rem)
    }
}

/// The byte size of a surface: the pitch times the height (at least one row), or `None` if
/// that overflows a `u32`.
pub fn surface_bytes(pitch: u32, height: u32) -> (r: Option<usize>)
    ensures
        ({
            let rows: int = if height == 0 {
                1
            } else {
                height as int
            };
            match r {
                Some(n) => n == pitch * rows,
                None => pitch * rows > u32::MAX,
            }
        }),
{
    let rows = if height == 0 {
        1
    } else {
        height
    };
    match pitch.checked_mul(rows) {
        Some(b) => Some(b as usize),
        None => None,
    }
}

/// The offset and span that `LockRect` maps for the rectangle `(left, top, right, bottom)`, with
/// negative coordinates clamped to zero and saturating arithmetic; `None` maps the whole
/// surface.
pub fn locked_span(
    rect: Option<(i32, i32, i32, i32)>,
    pitch: u32,
    bytes_per_pixel: u32,
    len: usize,
) -> (r: (usize, usize))
    ensures
        match rect {
            None => r == (0usize, len),
            Some((left, top, right, bottom)) => {
                let t = if top > 0 { top as int } else { 0 };
                let l = if left > 0 { left as int } else { 0 };
                let rows = if bottom - top > 0 { sat_i32(bottom - top) } else { 0 };
                let cols = if right - left > 0 { sat_i32(right - left) } else { 0 };
                &&& r.0 == sat(sat(t * pitch) + sat(l * bytes_per_pixel))
                &&& r.1 == if rows == 0 {
                    0
                } else {
                    sat(sat((rows - 1) * pitch) + sat(cols * bytes_per_pixel))
                }
            },
        },
{
    match rect {
        None => (0, len),
        Some((left, top, right, bottom)) => {
            let t: usize = if top > 0 { top as usize } else { 0 };
            let l: usize = if left > 0 { left as usize } else { 0 };
            let offset = sat_add(sat_mul(t, pitch as usize), sat_mul(l, bytes_per_pixel as usize));
            let h = sat_sub_i32(bottom, top);
            let w = sat_sub_i32(right, left);
            let rows: usize = if h > 0 { h as usize } else { 0 };
            let cols: usize = if w > 0 { w as usize } else { 0 };
            let span = if rows == 0 {
                0
            } else {
                sat_add(sat_mul(rows - 1, pitch as usize), sat_mul(cols, bytes_per_pixel as usize))
            };
            (offset, span)
        },
    }
}

/// `a * b`, saturating at `usize::MAX`.
fn sat_mul(a: usize, b: usize) -> (r: usize)
    ensures
        r == sat(a * b),
{
    match a.checked_mul(b) {
        Some(x) => x,
        None => usize::MAX,
    }
}

/// `a + b`, saturating at `usize::MAX`.
fn sat_add(a: usize, b: usize) -> (r: usize)
    ensures
        r == sat(a + b),
{
    match a.checked_add(b) {
        Some(x) => x,
        None => usize::MAX,
    }
}

/// `a - b`, saturating at the `i32` range.
fn sat_sub_i32(a: i32, b: i32) -> (r: i32)
    ensures
        r == sat_i32(a - b),
{
    let d = a as i64 - b as i64;
    if d > i32::MAX as i64 {
        i32::MAX
    } else if d < i32::MIN as i64 {
        i32::MIN
    } else {
        d as i32
    }
}

/// `x` limited to the `i32` range.
pub open spec fn sat_i32(x: int) -> int {
    if x > i32::MAX {
        i32::MAX as int
    } else if x < i32::MIN {
        i32::MIN as int
    } else {
        x
    }
}

/// The back buffer size and format that the game's present parameters request: 640x480 when
/// either side is zero, and `X8R8G8B8` when the format is unknown.
pub fn normalize_pp(width: u32, height: u32, format: u32) -> (r: (u32, u32, u32))
    ensures
        (r.0, r.1) == (if width != 0 && height != 0 {
            (width, height)
        } else {
            (640u32, 480u32)
        }),
        r.2 == if format != D3DFMT_UNKNOWN {
            format
        } else {
            D3DFMT_X8R8G8B8
        },
{
    let (w, h) = if width != 0 && height != 0 {
        (width, height)
    } else {
        (640, 480)
    };
    let f = if format != D3DFMT_UNKNOWN {
        format
    } else {
        D3DFMT_X8R8G8B8
    };
    (w, h, f)
}

/// The display mode reported by the fake device: `(width, height, refresh rate, format)`.
pub fn display_mode() -> (r: (u32, u32, u32, u32))
    ensures
        r == (640u32, 480u32, 60u32, D3DFMT_X8R8G8B8),
{
    (640, 480, 60, D3DFMT_X8R8G8B8)
}

/// 44100 Hz, 2 channels, 16-bit: the bytes played per 60 Hz tick.
pub const BYTES_PER_TICK: u32 = 2940;

/// A sound buffer that plays nothing but moves its cursor as if it did.
pub struct FakeSoundBuffer {
    pub backing: Backing,
    /// The size the game asked for.
    pub requested: u32,
    pub cursor: u32,
    pub volume: u32,
}

impl FakeSoundBuffer {
    pub open spec fn wf(&self) -> bool {
        0 < self.backing.data@.len() <= u32::MAX
    }

    /// A buffer of `bytes` bytes (at least one).
    pub fn new(bytes: u32) -> (r: Self)
        ensures
            r.wf(),
            r.backing.data@.len() == if bytes == 0 {
                1
            } else {
                bytes as int
            },
            r.requested == bytes,
            r.cursor == 0,
            r.volume == 0,
    {
        FakeSoundBuffer { backing: Backing::new(bytes as usize), requested: bytes, cursor: 0, volume: 0 }
    }

    /// The buffer's length in bytes.
    pub fn len(&self) -> (r: u32)
        requires
            self.wf(),
        ensures
            r == self.backing.data@.len(),
    {
        self.backing.len() as u32
    }

    /// Advances the play cursor by one tick and returns `(play, write)` cursors, the write cursor
    /// one tick ahead.
    pub fn current_position(&mut self) -> (r: (u32, u32))
        requires
            old(self).wf(),
        ensures
            final(self).wf(),
            final(self).backing == old(self).backing,
            ({
                let len = old(self).backing.data@.len() as int;
                &&& final(self).cursor == (old(self).cursor + BYTES_PER_TICK) as int % len
                &&& r.0 == old(self).cursor
                &&& r.1 == (old(self).cursor + BYTES_PER_TICK) as int % len
            }),
    {
        let len = self.len() as u64;
        let play = self.cursor;
        let next = ((play as u64 + BYTES_PER_TICK as u64) % len) as u32;
        self.cursor = next;
        (play, next)
    }

    /// Moves the play cursor.
    pub fn set_current_position(&mut self, position: u32)
        requires
            old(self).wf(),
        ensures
            final(self).wf(),
            final(self).backing == old(self).backing,
            final(self).cursor == (position as int) % (old(self).backing.data@.len() as int),
    {
        let len = self.len();
        self.cursor = position % len;
    }

    /// The two spans that `Lock` maps for `bytes` bytes at `offset`, wrapping at the end:
    /// `(start, first, second)` where the first span starts at `start` and the second at 0.
    pub fn lock_spans(&self, offset: u32, bytes: u32) -> (r: (u32, u32, u32))
        requires
            self.wf(),
        ensures
            ({
                let len = self.backing.data@.len() as int;
                let start = (offset as int) % len;
                let first = if bytes < len - start { bytes as int } else { len - start };
                let second = if bytes - first < len { bytes - first } else { len };
                &&& r.0 == start
                &&& r.1 == first
                &&& r.2 == second
                &&& span_in(len, r.0 as int, r.1 as int)
                &&& r.2 == 0 || span_in(len, 0, r.2 as int)
            }),
    {
        let len = self.len();
        let start = offset % len;
        let room = len - start;
        let first = if bytes < room {
            bytes
        } else {
            room
        };
        let rest = bytes - first;
        let second = if rest < len {
            rest
        } else {
            len
        };
        (start, first, second)
    }
}

/// The number of mip levels of a full chain for a `width` by `height` texture: the bit length
/// of the larger side (at least 1).
pub open spec fn bit_length(x: u32) -> nat
    decreases x,
{
    if x == 0 {
        0
    } else {
        1 + bit_length(x / 2)
    }
}

/// `x` halved `i` times, never below 1.
pub open spec fn halved(x: u32, i: nat) -> u32
    decreases i,
{
    if i == 0 {
        if x == 0 {
            1
        } else {
            x
        }
    } else {
        let h = halved(x, (i - 1) as nat);
        if h / 2 == 0 {
            1
        } else {
            h / 2
        }
    }
}

/// The level count of a texture: `levels`, or the full chain when it is 0.
pub open spec fn spec_mip_count(width: u32, height: u32, levels: u32) -> nat {
    if levels == 0 {
        let m = if width > height { width } else { height };
        bit_length(if m == 0 { 1 } else { m })
    } else {
        levels as nat
    }
}

proof fn lemma_bit_length_le(x: u32)
    ensures
        bit_length(x) <= x,
    decreases x,
{
    if x > 0 {
        lemma_bit_length_le(x / 2);
    }
}

/// The sizes of a texture's mip levels: the first is the texture's size (each side at least 1),
/// and each next level halves both sides, never below 1.
pub fn mip_chain(width: u32, height: u32, levels: u32) -> (r: Vec<(u32, u32)>)
    ensures
        r@.len() == spec_mip_count(width, height, levels),
        forall|i: int|
            0 <= i < r@.len() ==> #[trigger] r@[i] == (halved(width, i as nat), halved(height, i as nat)),
{
    let count: u32 = if levels == 0 {
        let m = if width > height {
            width
        } else {
            height
        };
        let mut x = if m == 0 {
            1
        } else {
            m
        };
        let ghost x0 = x;
        proof {
            lemma_bit_length_le(x0);
        }
        let mut bits: u32 = 0;
        while x > 0
            invariant
                bits + bit_length(x) == bit_length(x0),
                bit_length(x0) <= x0,
            decreases x,
        {
            x = x / 2;
            bits = bits + 1;
        }
        bits
    } else {
        levels
    };
    let mut out: Vec<(u32, u32)> = Vec::new();
    let mut w: u32 = if width == 0 {
        1
    } else {
        width
    };
    let mut h: u32 = if height == 0 {
        1
    } else {
        height
    };
    let mut i: u32 = 0;
    while i < count
        invariant
            i <= count,
            out@.len() == i,
            w == halved(width, i as nat),
            h == halved(height, i as nat),
            forall|j: int|
                0 <= j < i ==> #[trigger] out@[j] == (halved(width, j as nat), halved(
                    height,
                    j as nat,
                )),
        decreases count - i,
    {
        out.push((w, h));
        w = if w / 2 == 0 {
            1
        } else {
            w / 2
        };
        h = if h / 2 == 0 {
            1
        } else {
            h / 2
        };
        i += 1;
    }
    out
}

/// Window styles of the game's main window.
pub const WS_VISIBLE: u32 = 0x1000_0000;
pub const WS_SYSMENU: u32 = 0x0008_0000;
pub const WS_MINIMIZEBOX: u32 = 0x0002_0000;
pub const WS_MAXIMIZEBOX: u32 = 0x0001_0000;
/// The style the game creates its window with.
pub const CREATE_STYLE: u32 = 0x1009_0000 | WS_MAXIMIZEBOX;
/// The message that announces a window position change.
pub const WM_WINDOWPOSCHANGING: u32 = 0x0046;
/// The position-change flag that shows the window.
pub const SWP_SHOWWINDOW: u32 = 0x0040;

/// The style the game window is created with in headless mode: the usual one, not visible.
pub fn hidden_style() -> (r: u32)
    ensures
        r == CREATE_STYLE & !WS_VISIBLE,
{
    CREATE_STYLE & !WS_VISIBLE
}

/// Whether a window class name is the game's main window class `BASE`. A class given as an atom
/// (an address up to `0xFFFF`) never is; `name` holds the bytes at the address, up to the
/// terminating NUL.
pub fn is_base_class(class_addr: usize, name: &[u8]) -> (r: bool)
    ensures
        r == (class_addr > 0xffff && name@.len() >= 5 && name@.subrange(0, 5) == seq![
            0x42u8,
            0x41u8,
            0x53u8,
            0x45u8,
            0u8,
        ]),
{
    if class_addr <= 0xffff || name.len() < 5 {
        return false;
    }
    let r = name[0] == 0x42 && name[1] == 0x41 && name[2] == 0x53 && name[3] == 0x45 && name[4]
        == 0;
    assert(r ==> name@.subrange(0, 5) =~= seq![0x42u8, 0x41u8, 0x53u8, 0x45u8, 0u8]);
    if !r {
        let ghost s = name@.subrange(0, 5);
        assert(s[0] != 0x42 || s[1] != 0x41 || s[2] != 0x53 || s[3] != 0x45 || s[4] != 0);
        assert(s != seq![0x42u8, 0x41u8, 0x53u8, 0x45u8, 0u8]);
    }
    r
}

/// The position-change flags that the main window is allowed: a position change of the main
/// window never shows it.
pub fn filter_window_pos(msg: u32, is_main: bool, flags: u32) -> (r: u32)
    ensures
        r == if msg == WM_WINDOWPOSCHANGING && is_main {
            flags & !SWP_SHOWWINDOW
        } else {
            flags
        },
{
    if msg == WM_WINDOWPOSCHANGING && is_main {
        flags & !SWP_SHOWWINDOW
    } else {
        flags
    }
}

} // verus!
