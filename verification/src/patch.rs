//! Byte patches of the game image: sites, their expected bytes, and relative branches.

use crate::bytes::{le_u32, read_u32_le, u32_le_bytes};
use vstd::prelude::*;

verus! {

/// The length of a rel32 branch (opcode plus disp32).
pub const REL32_LEN: usize = 5;
/// The length of a near conditional branch (`0F`-prefixed opcode plus disp32).
pub const NEAR_LEN: usize = 6;
/// The `E8 rel32` direct call opcode.
pub const CALL_OPCODE: u8 = 0xe8;
/// The `E9 rel32` jump opcode.
pub const JMP_OPCODE: u8 = 0xe9;
/// The one-byte `nop`.
pub const NOP: u8 = 0x90;

/// When a byte mismatch was caught.
#[derive(Debug, Clone, Copy, PartialEq, Eq, Structural)]
pub enum Stage {
    /// The site does not hold its expected bytes.
    PreCheck,
    /// The site does not hold the patched bytes after writing.
    PostWrite,
}

impl Stage {
    pub fn as_str(self) -> (r: &'static str)
        ensures
            self == Stage::PreCheck ==> r@ == "pre-check"@,
            self == Stage::PostWrite ==> r@ == "post-write"@,
    {
        match self {
            Stage::PreCheck => "pre-check",
            Stage::PostWrite => "post-write",
        }
    }
}

/// The displacement from `next` to `target`, modulo `2^32`.
pub open spec fn spec_disp(next: u32, target: u32) -> u32 {
    vstd::wrapping::u32_specs::wrapping_sub(target, next)
}

/// Where a branch whose next instruction starts at `next` lands with displacement `disp`.
pub open spec fn lands(next: u32, disp: u32) -> u32 {
    vstd::wrapping::u32_specs::wrapping_add(next, disp)
}

/// The bytes of a rel32 branch at `site` targeting `target`.
pub open spec fn spec_rel32(opcode: u8, site: u32, target: u32) -> Seq<u8> {
    seq![opcode] + u32_le_bytes(
        spec_disp(vstd::wrapping::u32_specs::wrapping_add(site, REL32_LEN as u32), target),
    )
}

/// Returns the little-endian disp32 of a branch whose next instruction starts at `next`,
/// targeting `target`.
pub fn disp32(next: u32, target: u32) -> (r: [u8; 4])
    ensures
        r@ == u32_le_bytes(spec_disp(next, target)),
{
    let v = target.wrapping_sub(next);
    let r = [(v % 0x100) as u8, (v / 0x100 % 0x100) as u8, (v / 0x1_0000 % 0x100) as u8, (v
        / 0x100_0000 % 0x100) as u8];
    assert(r@ =~= u32_le_bytes(v));
    r
}

/// Returns the bytes of a rel32 branch at `site` targeting `target`. The displacement is
/// relative to the byte after the branch.
pub fn rel32(opcode: u8, site: u32, target: u32) -> (r: [u8; 5])
    ensures
        r@ == spec_rel32(opcode, site, target),
{
    let d = disp32(site.wrapping_add(5), target);
    let r = [opcode, d[0], d[1], d[2], d[3]];
    assert(r@ =~= spec_rel32(opcode, site, target));
    r
}

/// A patch site: its address, the bytes it must hold, and a name for diagnostics.
#[derive(Clone, Copy)]
pub struct Site<const N: usize> {
    pub addr: u32,
    pub expected: [u8; N],
    pub name: &'static str,
}

/// A fixed-length byte replacement at a [`Site`].
#[derive(Clone, Copy)]
pub struct Patch<const N: usize> {
    pub site: Site<N>,
    pub replacement: [u8; N],
}

impl<const N: usize> Site<N> {
    pub fn new(addr: u32, expected: [u8; N], name: &'static str) -> (r: Self)
        ensures
            r.addr == addr,
            r.expected == expected,
            r.name == name,
    {
        Site { addr, expected, name }
    }

    /// The patch replacing the site's bytes with `replacement`.
    pub fn patch(self, replacement: [u8; N]) -> (r: Patch<N>)
        ensures
            r.site == self,
            r.replacement == replacement,
    {
        Patch { site: self, replacement }
    }

    /// The address of the instruction after the site.
    pub fn after(&self) -> (r: u32)
        requires
            self.addr + N <= u32::MAX,
        ensures
            r == self.addr + N,
    {
        self.addr + N as u32
    }
}

/// The bytes that overwrite an `n`-byte site with a rel32 branch to `hook`, padded with `nop`s.
pub open spec fn spec_branch_bytes(opcode: u8, site: u32, hook: u32, n: nat) -> Seq<u8> {
    spec_rel32(opcode, site, hook) + Seq::new((n - REL32_LEN) as nat, |i: int| NOP)
}

/// Builds the bytes that overwrite an `n`-byte site with a rel32 branch to `hook`.
pub fn branch_bytes(opcode: u8, site: u32, hook: u32, n: usize) -> (r: Vec<u8>)
    requires
        n >= REL32_LEN,
    ensures
        r@ == spec_branch_bytes(opcode, site, hook, n as nat),
{
    let head = rel32(opcode, site, hook);
    let mut out: Vec<u8> = Vec::new();
    out.push(head[0]);
    out.push(head[1]);
    out.push(head[2]);
    out.push(head[3]);
    out.push(head[4]);
    assert(out@ =~= head@);
    let mut k: usize = REL32_LEN;
    while k < n
        invariant
            REL32_LEN <= k <= n,
            out@ == head@ + Seq::new((k - REL32_LEN) as nat, |i: int| NOP),
        decreases n - k,
    {
        out.push(NOP);
        assert(out@ =~= head@ + Seq::new((k + 1 - REL32_LEN) as nat, |i: int| NOP));
        k += 1;
    }
    out
}

/// Whether the bytes read back from a branch site hold a branch with `opcode` that lands on
/// `hook`, with the padding as written.
pub open spec fn spec_branch_ok(actual: Seq<u8>, written: Seq<u8>, opcode: u8, site: u32, hook: u32) -> bool {
    &&& actual.len() == written.len()
    &&& actual.len() >= REL32_LEN
    &&& actual[0] == opcode
    &&& lands(vstd::wrapping::u32_specs::wrapping_add(site, REL32_LEN as u32), le_u32(actual, 1))
        == hook
    &&& actual.subrange(REL32_LEN as int, actual.len() as int) == written.subrange(
        REL32_LEN as int,
        written.len() as int,
    )
}

/// Checks the bytes read back after writing a branch (see [`spec_branch_ok`]).
pub fn branch_ok(actual: &[u8], written: &[u8], opcode: u8, site: u32, hook: u32) -> (r: bool)
    ensures
        r == spec_branch_ok(actual@, written@, opcode, site, hook),
{
    let n = actual.len();
    if n != written.len() || n < REL32_LEN {
        return false;
    }
    if actual[0] != opcode {
        return false;
    }
    let disp = read_u32_le(actual, 1);
    if site.wrapping_add(5).wrapping_add(disp) != hook {
        return false;
    }
    let mut k: usize = REL32_LEN;
    while k < n
        invariant
            REL32_LEN <= k <= n,
            n == actual@.len(),
            n == written@.len(),
            actual@.subrange(REL32_LEN as int, k as int) == written@.subrange(
                REL32_LEN as int,
                k as int,
            ),
        decreases n - k,
    {
        if actual[k] != written[k] {
            assert(actual@.subrange(REL32_LEN as int, n as int)[k - REL32_LEN] != written@.subrange(
                REL32_LEN as int,
                n as int,
            )[k - REL32_LEN]);
            return false;
        }
        assert(actual@.subrange(REL32_LEN as int, k + 1) =~= actual@.subrange(
            REL32_LEN as int,
            k as int,
        ).push(actual@[k as int]));
        assert(written@.subrange(REL32_LEN as int, k + 1) =~= written@.subrange(
            REL32_LEN as int,
            k as int,
        ).push(written@[k as int]));
        k += 1;
    }
    true
}

/// An `E8 rel32` direct call.
pub struct CallSite(pub Site<5>);

impl CallSite {
    /// The call at `addr` to `callee`.
    pub fn new(addr: u32, callee: u32, name: &'static str) -> (r: Self)
        ensures
            r.0.addr == addr,
            r.0.expected@ == spec_rel32(CALL_OPCODE, addr, callee),
            r.0.name == name,
    {
        CallSite(Site::new(addr, rel32(CALL_OPCODE, addr, callee), name))
    }
}

/// The expected bytes of a near conditional branch `0F cc rel32` at `addr` to `taken_target`.
pub open spec fn spec_near_branch(addr: u32, opcode: u8, taken_target: u32) -> Seq<u8> {
    seq![0x0fu8, opcode] + u32_le_bytes(
        spec_disp(vstd::wrapping::u32_specs::wrapping_add(addr, NEAR_LEN as u32), taken_target),
    )
}

/// A 6-byte near conditional branch `0F cc rel32`.
pub struct NearBranchSite {
    pub site: Site<6>,
}

impl NearBranchSite {
    /// The conditional branch at `addr` with condition opcode `opcode` (`0x80..=0x8F`) taken to
    /// `taken_target`.
    pub fn new(addr: u32, opcode: u8, taken_target: u32, name: &'static str) -> (r: Self)
        requires
            opcode & 0xf0 == 0x80,
        ensures
            r.site.addr == addr,
            r.site.expected@ == spec_near_branch(addr, opcode, taken_target),
            r.site.name == name,
    {
        let d = disp32(addr.wrapping_add(6), taken_target);
        let expected = [0x0f, opcode, d[0], d[1], d[2], d[3]];
        assert(expected@ =~= spec_near_branch(addr, opcode, taken_target));
        NearBranchSite { site: Site::new(addr, expected, name) }
    }

    /// The patch forcing the branch to always be taken: `nop; jmp rel32` with the same
    /// displacement, which ends where the conditional branch ended.
    pub fn force(self) -> (r: Patch<6>)
        ensures
            r.site == self.site,
            r.replacement@ == seq![NOP, JMP_OPCODE] + self.site.expected@.subrange(2, 6),
    {
        let e = self.site.expected;
        let replacement = [NOP, JMP_OPCODE, e[2], e[3], e[4], e[5]];
        assert(replacement@ =~= seq![NOP, JMP_OPCODE] + e@.subrange(2, 6));
        self.site.patch(replacement)
    }
}

/// A rel32 branch lands on the target it was built for.
pub proof fn lemma_rel32_lands(opcode: u8, site: u32, target: u32)
    ensures
        lands(
            vstd::wrapping::u32_specs::wrapping_add(site, REL32_LEN as u32),
            le_u32(spec_rel32(opcode, site, target), 1),
        ) == target,
{
    let next = vstd::wrapping::u32_specs::wrapping_add(site, REL32_LEN as u32);
    let d = spec_disp(next, target);
    crate::bytes::lemma_le_u32_append(seq![opcode], u32_le_bytes(d), 0);
    crate::bytes::lemma_u32_le_roundtrip(d);
}

/// Forcing a near conditional branch keeps its target: the forced jump lands where the branch
/// was taken to.
pub proof fn lemma_force_keeps_target(addr: u32, opcode: u8, taken_target: u32)
    ensures
        ({
            let expected = spec_near_branch(addr, opcode, taken_target);
            let forced = seq![NOP, JMP_OPCODE] + expected.subrange(2, 6);
            &&& forced[1] == JMP_OPCODE
            &&& lands(vstd::wrapping::u32_specs::wrapping_add(addr, NEAR_LEN as u32), le_u32(forced, 2))
                == taken_target
        }),
{
    let next = vstd::wrapping::u32_specs::wrapping_add(addr, NEAR_LEN as u32);
    let d = spec_disp(next, taken_target);
    let expected = spec_near_branch(addr, opcode, taken_target);
    let forced = seq![NOP, JMP_OPCODE] + expected.subrange(2, 6);
    assert(expected.subrange(2, 6) =~= u32_le_bytes(d));
    crate::bytes::lemma_le_u32_append(seq![NOP, JMP_OPCODE], u32_le_bytes(d), 0);
    crate::bytes::lemma_u32_le_roundtrip(d);
}

/// The bytes of an instruction with a one-byte opcode and a 32-bit immediate (such as
/// `push imm32`).
pub fn op_abs32(opcode: u8, value: u32) -> (r: [u8; 5])
    ensures
        r@ == seq![opcode] + u32_le_bytes(value),
{
    let r = [opcode, (value % 0x100) as u8, (value / 0x100 % 0x100) as u8, (value / 0x1_0000
        % 0x100) as u8, (value / 0x100_0000 % 0x100) as u8];
    assert(r@ =~= seq![opcode] + u32_le_bytes(value));
    r
}

/// The `EB rel8` short jump opcode.
pub const SHORT_JMP_OPCODE: u8 = 0xeb;

/// The displacement byte of a short branch at `addr` (2 bytes long) to `target`.
pub open spec fn spec_rel8(addr: u32, target: u32) -> u8 {
    (spec_disp(vstd::wrapping::u32_specs::wrapping_add(addr, 2), target) % 0x100) as u8
}

/// A 2-byte short conditional branch `cc rel8`.
pub struct BranchSite {
    pub site: Site<2>,
}

impl BranchSite {
    /// The conditional branch at `addr` with condition opcode `opcode` (`0x70..=0x7F`) taken to
    /// `taken_target`, which lies within a signed byte of the next instruction.
    pub fn new(addr: u32, opcode: u8, taken_target: u32, name: &'static str) -> (r: Self)
        requires
            opcode & 0xf0 == 0x70,
        ensures
            r.site.addr == addr,
            r.site.expected@ == seq![opcode, spec_rel8(addr, taken_target)],
            r.site.name == name,
    {
        let d = taken_target.wrapping_sub(addr.wrapping_add(2));
        let expected = [opcode, (d % 0x100) as u8];
        assert(expected@ =~= seq![opcode, spec_rel8(addr, taken_target)]);
        BranchSite { site: Site::new(addr, expected, name) }
    }

    /// The patch forcing the branch to always be taken: `jmp rel8` with the same displacement.
    pub fn force(self) -> (r: Patch<2>)
        ensures
            r.site == self.site,
            r.replacement@ == seq![SHORT_JMP_OPCODE, self.site.expected@[1]],
    {
        let e = self.site.expected;
        let replacement = [SHORT_JMP_OPCODE, e[1]];
        assert(replacement@ =~= seq![SHORT_JMP_OPCODE, e@[1]]);
        self.site.patch(replacement)
    }
}

} // verus!
