//! Reading game entities: the walks over the game's linked lists and the classification of what
//! they hold. Memory itself is read by the caller; these functions take the words it read.

use vstd::prelude::*;

verus! {

/// Enemy flag: the enemy is a boss.
pub const ENEMY_BOSS_FLAG: u32 = 0x0080_0000;
/// Enemy flags that each make the enemy undamageable on their own: bomb shield raised, the ECL
/// invincibility flag, and hidden.
pub const ENEMY_INVULN_FLAGS: u32 = 0x31;
/// The most nodes a curve laser has.
pub const CURVE_LASER_MAX_NODES: u32 = 128;
/// The number of item slots.
pub const ITEMS_CAP: usize = 600;

/// A non-null address in the game's memory.
#[derive(Debug, Clone, Copy, PartialEq, Eq, Structural)]
pub struct GamePtr {
    pub addr: usize,
}

impl GamePtr {
    /// The pointer at `addr`, or `None` for null.
    pub fn from_addr(addr: usize) -> (r: Option<Self>)
        ensures
            r == (if addr == 0 {
                None
            } else {
                Some(GamePtr { addr })
            }),
    {
        if addr == 0 {
            None
        } else {
            Some(GamePtr { addr })
        }
    }
}

/// A walk over an indirect linked list: each node holds a data pointer and the next node.
/// Nodes with a null data pointer are skipped.
pub struct List {
    pub node: Option<GamePtr>,
}

impl List {
    /// A walk from `head` (`None` for an empty list).
    pub fn new(head: Option<GamePtr>) -> (r: Self)
        ensures
            r.node == head,
    {
        List { node: head }
    }

    /// The node whose two words (data, next) the caller reads next, or `None` when the walk is
    /// over.
    pub fn current(&self) -> (r: Option<GamePtr>)
        ensures
            r == self.node,
    {
        self.node
    }

    /// Steps past the current node given its data and next words; returns the data pointer if
    /// it is not null.
    pub fn advance(&mut self, data: usize, next: usize) -> (r: Option<GamePtr>)
        requires
            old(self).node is Some,
        ensures
            final(self).node == (if next == 0 {
                None
            } else {
                Some(GamePtr { addr: next })
            }),
            r == (if data == 0 {
                None
            } else {
                Some(GamePtr { addr: data })
            }),
    {
        self.node = GamePtr::from_addr(next);
        GamePtr::from_addr(data)
    }
}

/// A walk over the laser list, which ends at a tail sentinel whose next node is null.
pub struct LaserList {
    pub node: GamePtr,
}

impl LaserList {
    pub fn new(head: GamePtr) -> (r: Self)
        ensures
            r.node == head,
    {
        LaserList { node: head }
    }

    /// Given the current node's next word, yields the current node unless it is the sentinel.
    pub fn advance(&mut self, next: usize) -> (r: Option<GamePtr>)
        ensures
            next == 0 ==> r is None && final(self).node == old(self).node,
            next != 0 ==> r == Some(old(self).node) && final(self).node == (GamePtr { addr: next }),
    {
        if next == 0 {
            return None;
        }
        let current = self.node;
        self.node = GamePtr { addr: next };
        Some(current)
    }
}

/// Whether a bullet in state `state` can hit the player.
pub fn bullet_is_lethal(state: u16) -> (r: bool)
    ensures
        r == (state == 1 || state == 2),
{
    state == 1 || state == 2
}

/// Whether an enemy is real: a boss, or one with an animation VM. The game uses fake enemies to
/// drive some bullet patterns; the player cannot interact with them.
pub fn enemy_is_real(flags: u32, anm_vm_id: u32) -> (r: bool)
    ensures
        r == (flags & ENEMY_BOSS_FLAG != 0 || anm_vm_id != 0),
{
    flags & ENEMY_BOSS_FLAG != 0 || anm_vm_id != 0
}

/// Whether an enemy is a boss.
pub fn enemy_is_boss(flags: u32) -> (r: bool)
    ensures
        r == (flags & ENEMY_BOSS_FLAG != 0),
{
    flags & ENEMY_BOSS_FLAG != 0
}

/// The enemy's remaining invulnerability frames (never negative) and whether it is
/// invulnerable now, by a flag or by the timer.
pub fn enemy_invulnerability(flags: u32, timer: i32) -> (r: (i32, bool))
    ensures
        r.0 == (if timer > 0 {
            timer
        } else {
            0
        }),
        r.1 == (flags & ENEMY_INVULN_FLAGS != 0 || timer > 0),
{
    let frames = if timer > 0 {
        timer
    } else {
        0
    };
    (frames, flags & ENEMY_INVULN_FLAGS != 0 || frames > 0)
}

/// Whether a bullet in state `state` is active, as the driver's reader counts it.
pub fn bullet_is_active(state: u16) -> (r: bool)
    ensures
        r == (state == 1),
{
    state == 1
}

/// Whether an item kind is a power item (small power, large power, or full power).
pub fn is_power_item(kind: u32) -> (r: bool)
    ensures
        r == (kind == 1 || kind == 3 || kind == 8),
{
    kind == 1 || kind == 3 || kind == 8
}

/// Whether an item slot in state `state` holds a live item.
pub fn item_is_live(state: u32) -> (r: bool)
    ensures
        r == (state != 0),
{
    state != 0
}

/// The kinds of laser.
#[derive(Debug, Clone, Copy, PartialEq, Eq, Structural)]
pub enum LaserKind {
    Segment,
    Ray,
    Curve,
}

/// The kind of a laser by its type word, or `None` for an unexpected type.
pub fn laser_kind(laser_type: u32) -> (r: Option<LaserKind>)
    ensures
        r == (if laser_type == 0 {
            Some(LaserKind::Segment)
        } else if laser_type == 1 {
            Some(LaserKind::Ray)
        } else if laser_type == 2 {
            Some(LaserKind::Curve)
        } else {
            None
        }),
{
    if laser_type == 0 {
        Some(LaserKind::Segment)
    } else if laser_type == 1 {
        Some(LaserKind::Ray)
    } else if laser_type == 2 {
        Some(LaserKind::Curve)
    } else {
        None
    }
}

/// A curve laser's node count, or `None` if it exceeds [`CURVE_LASER_MAX_NODES`].
pub fn curve_node_count(num_nodes: u32) -> (r: Option<usize>)
    ensures
        r == (if num_nodes <= CURVE_LASER_MAX_NODES {
            Some(num_nodes as usize)
        } else {
            None
        }),
{
    if num_nodes <= CURVE_LASER_MAX_NODES {
        Some(num_nodes as usize)
    } else {
        None
    }
}

/// Whether the player is focused.
pub fn player_is_focused(state: u32) -> (r: bool)
    ensures
        r == (state == 1),
{
    state == 1
}

} // verus!
