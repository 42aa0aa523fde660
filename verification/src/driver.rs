//! The driver's reading of the game process: where the game executable is mapped.
//!
//! `/proc/<pid>/maps` lists one mapping per line, each starting with its address range
//! `start-end` in hexadecimal. The base address is the start of the first mapping whose line
//! names the game executable.

use vstd::prelude::*;

verus! {

/// Why the base address could not be found.
#[derive(Debug, Clone, Copy, PartialEq, Eq, Structural)]
pub enum MapsError {
    /// No line names the game executable.
    ExecutableNotFound,
    /// The line's address range does not start with a hexadecimal number that fits a `usize`.
    BadAddress,
}

/// `th15.exe`.
pub open spec fn exe_name() -> Seq<u8> {
    seq![0x74u8, 0x68u8, 0x31u8, 0x35u8, 0x2eu8, 0x65u8, 0x78u8, 0x65u8]
}

/// ASCII whitespace.
pub open spec fn is_space(b: u8) -> bool {
    b == 0x20 || b == 0x09 || b == 0x0a || b == 0x0b || b == 0x0c || b == 0x0d
}

/// The end of the line starting at `start`: the next newline, or the end of the text.
pub open spec fn line_end(s: Seq<u8>, start: int) -> int
    decreases s.len() - start,
{
    if start >= s.len() || start < 0 {
        s.len() as int
    } else if s[start] == 0x0a {
        start
    } else {
        line_end(s, start + 1)
    }
}

/// Whether `s[lo..hi]` contains `needle`.
pub open spec fn contains_in(s: Seq<u8>, lo: int, hi: int, needle: Seq<u8>) -> bool {
    exists|i: int| lo <= i && i + needle.len() <= hi && #[trigger] s.subrange(i, i + needle.len()) == needle
}

/// The start of the first line at or after `start` that contains `needle`.
pub open spec fn first_line_with(s: Seq<u8>, start: int, needle: Seq<u8>) -> Option<int>
    decreases s.len() - start,
{
    if start >= s.len() || start < 0 {
        None
    } else {
        let e = line_end(s, start);
        if contains_in(s, start, e, needle) {
            Some(start)
        } else if e >= s.len() {
            None
        } else {
            proof {
                lemma_line_end_bounds(s, start);
            }
            first_line_with(s, e + 1, needle)
        }
    }
}

/// The first position at or after `i` (before `hi`) whose byte is not whitespace.
pub open spec fn skip_space(s: Seq<u8>, i: int, hi: int) -> int
    decreases hi - i,
{
    if i >= hi || i < 0 || !is_space(s[i]) {
        i
    } else {
        skip_space(s, i + 1, hi)
    }
}

/// The first position at or after `i` (before `hi`) whose byte is whitespace or `-`.
pub open spec fn field_end(s: Seq<u8>, i: int, hi: int) -> int
    decreases hi - i,
{
    if i >= hi || i < 0 || is_space(s[i]) || s[i] == 0x2d {
        i
    } else {
        field_end(s, i + 1, hi)
    }
}

/// The value of a hexadecimal digit.
pub open spec fn hex_digit(b: u8) -> Option<int> {
    if 0x30 <= b <= 0x39 {
        Some(b - 0x30)
    } else if 0x61 <= b <= 0x66 {
        Some(b - 0x61 + 10)
    } else if 0x41 <= b <= 0x46 {
        Some(b - 0x41 + 10)
    } else {
        None
    }
}

/// The value of the hexadecimal digits `s[lo..hi]`, if all are digits.
pub open spec fn hex_value(s: Seq<u8>, lo: int, hi: int) -> Option<int>
    decreases hi - lo,
{
    if hi <= lo {
        Some(0)
    } else {
        match (hex_value(s, lo, hi - 1), hex_digit(s[hi - 1])) {
            (Some(v), Some(d)) => Some(v * 16 + d),
            _ => None,
        }
    }
}

/// Parses `s[lo..hi]` as an unsigned hexadecimal number: an optional `+`, then at least one
/// digit, with a value that fits a `usize`.
pub open spec fn parse_hex(s: Seq<u8>, lo: int, hi: int) -> Option<usize> {
    let d = if lo < hi && s[lo] == 0x2b { lo + 1 } else { lo };
    if d >= hi {
        None
    } else {
        match hex_value(s, d, hi) {
            Some(v) => if v <= usize::MAX { Some(v as usize) } else { None },
            None => None,
        }
    }
}

/// The base address: the first field (up to whitespace or `-`) of the first line that names
/// the game executable, parsed as hexadecimal.
pub open spec fn spec_base_addr(maps: Seq<u8>) -> Result<usize, MapsError> {
    match first_line_with(maps, 0, exe_name()) {
        None => Err(MapsError::ExecutableNotFound),
        Some(start) => {
            let e = line_end(maps, start);
            let t = skip_space(maps, start, e);
            match parse_hex(maps, t, field_end(maps, t, e)) {
                Some(v) => Ok(v),
                None => Err(MapsError::BadAddress),
            }
        },
    }
}

pub proof fn lemma_line_end_bounds(s: Seq<u8>, start: int)
    requires
        0 <= start <= s.len(),
    ensures
        start <= line_end(s, start) <= s.len(),
    decreases s.len() - start,
{
    if start < s.len() && s[start] != 0x0a {
        lemma_line_end_bounds(s, start + 1);
    }
}

fn find_line_end(s: &[u8], start: usize) -> (r: usize)
    requires
        start <= s@.len(),
    ensures
        r == line_end(s@, start as int),
        start <= r <= s@.len(),
{
    let mut i = start;
    while i < s.len() && s[i] != 0x0a
        invariant
            start <= i <= s@.len(),
            line_end(s@, start as int) == line_end(s@, i as int),
        decreases s@.len() - i,
    {
        i += 1;
    }
    i
}

/// Whether `s[lo..hi]` contains `th15.exe`.
fn line_names_exe(s: &[u8], lo: usize, hi: usize) -> (r: bool)
    requires
        lo <= hi <= s@.len(),
    ensures
        r == contains_in(s@, lo as int, hi as int, exe_name()),
{
    let needle: [u8; 8] = [0x74, 0x68, 0x31, 0x35, 0x2e, 0x65, 0x78, 0x65];
    assert(needle@ =~= exe_name());
    if hi - lo < 8 {
        return false;
    }
    let mut i = lo;
    while hi - i >= 8
        invariant
            lo <= i,
            hi <= s@.len(),
            i <= hi,
            needle@ == exe_name(),
            forall|j: int| lo <= j < i ==> #[trigger] s@.subrange(j, j + 8) != exe_name(),
        decreases hi - i,
    {
        let mut k: usize = 0;
        let mut same = true;
        while k < 8
            invariant
                k <= 8,
                i + 8 <= hi,
                hi <= s@.len(),
                same <==> (forall|j: int| 0 <= j < k ==> s@[i + j] == needle@[j]),
            decreases 8 - k,
        {
            if s[i + k] != needle[k] {
                same = false;
            }
            k += 1;
        }
        if same {
            assert(s@.subrange(i as int, i + 8) =~= exe_name());
            return true;
        }
        let ghost w = choose|j: int| 0 <= j < 8 && s@[i + j] != needle@[j];
        assert(s@.subrange(i as int, i + 8)[w] != exe_name()[w]);
        i += 1;
    }
    false
}

/// Returns the game executable's base address from the text of `/proc/<pid>/maps`.
pub fn parse_base_addr(maps: &[u8]) -> (r: Result<usize, MapsError>)
    ensures
        r == spec_base_addr(maps@),
{
    let n = maps.len();
    let line = match find_exe_line(maps, 0) {
        Some(l) => l,
        None => {
            return Err(MapsError::ExecutableNotFound);
        },
    };
    let e = find_line_end(maps, line);
    let mut t = line;
    while t < e && is_space_byte(maps[t])
        invariant
            line <= t <= e,
            e <= n,
            n == maps@.len(),
            skip_space(maps@, line as int, e as int) == skip_space(maps@, t as int, e as int),
        decreases e - t,
    {
        t += 1;
    }
    assert(skip_space(maps@, t as int, e as int) == t);
    assert(t as int == skip_space(maps@, line as int, e as int));
    let mut f = t;
    while f < e && !is_space_byte(maps[f]) && maps[f] != 0x2d
        invariant
            t <= f <= e,
            e <= n,
            n == maps@.len(),
            field_end(maps@, t as int, e as int) == field_end(maps@, f as int, e as int),
        decreases e - f,
    {
        f += 1;
    }
    assert(field_end(maps@, f as int, e as int) == f);
    assert(e as int == line_end(maps@, line as int));
    match hex_field(maps, t, f) {
        Some(v) => Ok(v),
        None => Err(MapsError::BadAddress),
    }
}

/// Finds the first line at or after `start` that names the game executable.
fn find_exe_line(maps: &[u8], start: usize) -> (r: Option<usize>)
    requires
        start <= maps@.len(),
    ensures
        r is None <==> first_line_with(maps@, start as int, exe_name()) is None,
        r matches Some(l) ==> first_line_with(maps@, start as int, exe_name()) == Some(l as int)
            && start <= l <= maps@.len(),
    decreases maps@.len() - start,
{
    let n = maps.len();
    if start >= n {
        return None;
    }
    let e = find_line_end(maps, start);
    if line_names_exe(maps, start, e) {
        return Some(start);
    }
    if e >= n {
        return None;
    }
    find_exe_line(maps, e + 1)
}

fn is_space_byte(b: u8) -> (r: bool)
    ensures
        r == is_space(b),
{
    b == 0x20 || b == 0x09 || b == 0x0a || b == 0x0b || b == 0x0c || b == 0x0d
}

fn hex_digit_value(b: u8) -> (r: Option<u8>)
    ensures
        match hex_digit(b) {
            Some(d) => r == Some(d as u8),
            None => r is None,
        },
{
    if 0x30 <= b && b <= 0x39 {
        Some(b - 0x30)
    } else if 0x61 <= b && b <= 0x66 {
        Some(b - 0x61 + 10)
    } else if 0x41 <= b && b <= 0x46 {
        Some(b - 0x41 + 10)
    } else {
        None
    }
}

/// Parses `s[lo..hi]` (see [`parse_hex`]).
fn hex_field(s: &[u8], lo: usize, hi: usize) -> (r: Option<usize>)
    requires
        lo <= hi <= s@.len(),
    ensures
        r == parse_hex(s@, lo as int, hi as int),
{
    let d = if lo < hi && s[lo] == 0x2b {
        lo + 1
    } else {
        lo
    };
    if d >= hi {
        return None;
    }
    let mut v: usize = 0;
    let mut i = d;
    while i < hi
        invariant
            lo <= d <= i <= hi,
            d < hi,
            d == (if lo < hi && s@[lo as int] == 0x2b {
                lo + 1
            } else {
                lo as int
            }),
            hi <= s@.len(),
            hex_value(s@, d as int, i as int) == Some(v as int),
        decreases hi - i,
    {
        let digit = match hex_digit_value(s[i]) {
            Some(x) => x,
            None => {
                proof {
                    lemma_hex_value_none(s@, d as int, i as int, hi as int);
                }
                return None;
            },
        };
        let next = match v.checked_mul(16) {
            Some(m) => m.checked_add(digit as usize),
            None => None,
        };
        match next {
            Some(x) => {
                v = x;
            },
            None => {
                proof {
                    lemma_hex_value_big(s@, d as int, i + 1, hi as int);
                }
                return None;
            },
        }
        i += 1;
    }
    Some(v)
}

/// A non-digit inside the span makes the whole value undefined.
proof fn lemma_hex_value_none(s: Seq<u8>, lo: int, i: int, hi: int)
    requires
        lo <= i < hi,
        hex_digit(s[i]) is None,
    ensures
        hex_value(s, lo, hi) is None,
    decreases hi - i,
{
    if hi - 1 > i {
        lemma_hex_value_none(s, lo, i, hi - 1);
    }
}

/// A prefix whose value exceeds `usize::MAX` makes the whole value exceed it, or be undefined.
proof fn lemma_hex_value_big(s: Seq<u8>, lo: int, i: int, hi: int)
    requires
        lo < i <= hi,
        hex_value(s, lo, i - 1) is Some,
        hex_digit(s[i - 1]) is Some,
        hex_value(s, lo, i - 1)->0 * 16 + hex_digit(s[i - 1])->0 > usize::MAX,
    ensures
        match hex_value(s, lo, hi) {
            Some(v) => v > usize::MAX,
            None => true,
        },
    decreases hi - i,
{
    if hi > i {
        lemma_hex_value_big(s, lo, i, hi - 1);
        match hex_value(s, lo, hi - 1) {
            Some(v) => {
                assert(v * 16 >= v) by (nonlinear_arith)
                    requires v >= 0;
            },
            None => {},
        }
    }
    lemma_hex_value_nonneg(s, lo, hi);
}

proof fn lemma_hex_value_nonneg(s: Seq<u8>, lo: int, hi: int)
    ensures
        hex_value(s, lo, hi) matches Some(v) ==> v >= 0,
    decreases hi - lo,
{
    if hi > lo {
        lemma_hex_value_nonneg(s, lo, hi - 1);
    }
}

/// What the command line asked for is unusable.
#[derive(Debug, Clone, Copy, PartialEq, Eq, Structural)]
pub enum CliError {
    /// `-n`/`--instances` must be at least 1.
    NoInstances,
}

/// The number of game instances to run, and whether each runs in its own Wine prefix (only when
/// `-n` is given).
pub fn instance_plan(instances: Option<usize>) -> (r: Result<(usize, bool), CliError>)
    ensures
        match instances {
            None => r == Ok::<(usize, bool), CliError>((1usize, false)),
            Some(0) => r == Err::<(usize, bool), CliError>(CliError::NoInstances),
            Some(n) => r == Ok::<(usize, bool), CliError>((n, true)),
        },
{
    match instances {
        None => Ok((1, false)),
        Some(n) => {
            if n == 0 {
                Err(CliError::NoInstances)
            } else {
                Ok((n, true))
            }
        },
    }
}

/// Which executable starts the game.
#[derive(Debug, Clone, Copy, PartialEq, Eq, Structural)]
pub enum Launch {
    /// The `vpatch.exe` loader, when the game directory has one.
    Vpatch,
    /// The game executable itself.
    Game,
}

pub fn choose_launch(has_vpatch: bool) -> (r: Launch)
    ensures
        r == (if has_vpatch {
            Launch::Vpatch
        } else {
            Launch::Game
        }),
{
    if has_vpatch {
        Launch::Vpatch
    } else {
        Launch::Game
    }
}

/// What an interrupt does.
#[derive(Debug, Clone, Copy, PartialEq, Eq, Structural)]
pub enum Interrupt {
    /// The first one: announce the shutdown and wait for the instances to exit.
    Shutdown,
    /// Any later one: exit at once.
    ForceExit,
}

/// The interrupts received so far.
pub struct Interrupts {
    pub times: u32,
}

impl Interrupts {
    pub fn new() -> (r: Self)
        ensures
            r.times == 0,
    {
        Interrupts { times: 0 }
    }

    /// Counts an interrupt: the first shuts down gracefully, later ones force the exit.
    pub fn on_interrupt(&mut self) -> (r: Interrupt)
        ensures
            final(self).times == (if old(self).times == u32::MAX {
                u32::MAX
            } else {
                (old(self).times + 1) as u32
            }),
            r == (if old(self).times == 0 {
                Interrupt::Shutdown
            } else {
                Interrupt::ForceExit
            }),
    {
        let first = self.times == 0;
        self.times = self.times.saturating_add(1);
        if first {
            Interrupt::Shutdown
        } else {
            Interrupt::ForceExit
        }
    }
}

} // verus!
