//! Memory access decisions: which regions may be read, and the walk that
//! resolves a multi-level pointer chain one read at a time.
use vstd::prelude::*;

verus! {

/// `MEM_COMMIT`: the region's pages are committed.
pub const MEM_COMMIT: u32 = 0x1000;

/// `PAGE_NOACCESS`: any access faults.
pub const PAGE_NOACCESS: u32 = 0x01;

/// `PAGE_READONLY`.
pub const PAGE_READONLY: u32 = 0x02;

/// `PAGE_READWRITE`.
pub const PAGE_READWRITE: u32 = 0x04;

/// `PAGE_WRITECOPY`: readable; a write makes a private copy.
pub const PAGE_WRITECOPY: u32 = 0x08;

/// `PAGE_EXECUTE_READ`.
pub const PAGE_EXECUTE_READ: u32 = 0x20;

/// `PAGE_EXECUTE_READWRITE`.
pub const PAGE_EXECUTE_READWRITE: u32 = 0x40;

/// `PAGE_EXECUTE_WRITECOPY`: readable; a write makes a private copy.
pub const PAGE_EXECUTE_WRITECOPY: u32 = 0x80;

/// `PAGE_GUARD`: the first access faults.
pub const PAGE_GUARD: u32 = 0x100;

/// What a region query reports of the region that holds an address:
/// its allocation state and its page protection flags.
#[derive(Clone, Copy, Debug, PartialEq, Eq, Structural)]
pub struct RegionInfo {
    pub state: u32,
    pub protect: u32,
}

/// The region is committed.
pub open spec fn is_committed(state: u32) -> bool {
    state & MEM_COMMIT == MEM_COMMIT
}

/// An access to the region does not fault for want of access rights: it
/// is neither a guard page nor a no-access page.
pub open spec fn accessible(protect: u32) -> bool {
    protect & PAGE_GUARD == 0 && protect & PAGE_NOACCESS == 0
}

/// The protection flags give read access.
pub open spec fn has_read_access(protect: u32) -> bool {
    ||| protect & PAGE_READONLY != 0
    ||| protect & PAGE_READWRITE != 0
    ||| protect & PAGE_WRITECOPY != 0
    ||| protect & PAGE_EXECUTE_READ != 0
    ||| protect & PAGE_EXECUTE_READWRITE != 0
    ||| protect & PAGE_EXECUTE_WRITECOPY != 0
}

/// The protection flags give write access (copy-on-write included).
pub open spec fn has_write_access(protect: u32) -> bool {
    ||| protect & PAGE_READWRITE != 0
    ||| protect & PAGE_WRITECOPY != 0
    ||| protect & PAGE_EXECUTE_READWRITE != 0
    ||| protect & PAGE_EXECUTE_WRITECOPY != 0
}

/// An address may be read when it is not null, the query found its region,
/// and the region is committed, neither a guard nor a no-access page, and
/// readable.
pub open spec fn readable(addr: usize, region: Option<RegionInfo>) -> bool {
    match region {
        Some(r) => addr != 0 && is_committed(r.state) && accessible(r.protect) && has_read_access(r.protect),
        None => false,
    }
}

/// An address may be written when it is not null, the query found its
/// region, and the region is committed, neither a guard nor a no-access
/// page, and writable.
pub open spec fn writable(addr: usize, region: Option<RegionInfo>) -> bool {
    match region {
        Some(r) => addr != 0 && is_committed(r.state) && accessible(r.protect) && has_write_access(r.protect),
        None => false,
    }
}

/// Access to the memory of the process the overlay lives in.
pub struct Memory;

impl Memory {
    /// Decides whether `addr` can be read, given what the region query
    /// reported for it (`None` where the query failed).
    pub fn is_readable(addr: usize, region: Option<RegionInfo>) -> (r: bool)
        ensures
            r == readable(addr, region),
    {
        if addr == 0 {
            return false;
        }
        match region {
            None => false,
            Some(info) => {
                let p = info.protect;
                info.state & MEM_COMMIT == MEM_COMMIT && p & PAGE_GUARD == 0 && p & PAGE_NOACCESS == 0
                    && (p & PAGE_READONLY != 0 || p & PAGE_READWRITE != 0 || p & PAGE_WRITECOPY != 0
                        || p & PAGE_EXECUTE_READ != 0 || p & PAGE_EXECUTE_READWRITE != 0
                        || p & PAGE_EXECUTE_WRITECOPY != 0)
            },
        }
    }

    /// Decides whether `addr` can be written, given what the region query
    /// reported for it (`None` where the query failed).
    pub fn is_writable(addr: usize, region: Option<RegionInfo>) -> (r: bool)
        ensures
            r == writable(addr, region),
    {
        if addr == 0 {
            return false;
        }
        match region {
            None => false,
            Some(info) => {
                let p = info.protect;
                info.state & MEM_COMMIT == MEM_COMMIT && p & PAGE_GUARD == 0 && p & PAGE_NOACCESS == 0
                    && (p & PAGE_READWRITE != 0 || p & PAGE_WRITECOPY != 0
                        || p & PAGE_EXECUTE_READWRITE != 0 || p & PAGE_EXECUTE_WRITECOPY != 0)
            },
        }
    }

    /// Starts resolving the chain rooted at `module_base + base_offset`:
    /// returns the walk and the address of its first read.
    pub fn get_pointer_address(module_base: usize, base_offset: usize, offsets: Vec<usize>) -> (r: (PointerWalk, usize))
        ensures
            r.0.spec_offsets() == offsets@,
            r.0.spec_index() == 0,
            r.1 == wadd(module_base, base_offset),
    {
        (PointerWalk { offsets, index: 0 }, module_base.wrapping_add(base_offset))
    }
}

/// `a + b` as a release build computes it on `usize`: wrapping on overflow.
pub open spec fn wadd(a: usize, b: usize) -> usize {
    vstd::wrapping::usize_specs::wrapping_add(a, b)
}

/// What a pointer chain resolves to when `mem` answers each read of a
/// pointer-sized value (`None` where the read is refused).
///
/// `ptr` is the value read at the previous level. A null or unreadable
/// pointer ends the chain without a result; every offset but the last is
/// added to the current pointer and followed; the last one is only added.
pub open spec fn deref_chain(
    mem: spec_fn(usize) -> Option<usize>,
    ptr: Option<usize>,
    offsets: Seq<usize>,
) -> Option<usize>
    decreases offsets.len(),
{
    match ptr {
        None => None,
        Some(a) => {
            if a == 0 {
                None
            } else if offsets.len() == 0 {
                Some(a)
            } else if offsets.len() == 1 {
                Some(wadd(a, offsets[0]))
            } else {
                deref_chain(mem, mem(wadd(a, offsets[0])), offsets.drop_first())
            }
        },
    }
}

/// The address that the chain rooted at `module_base + base_offset`
/// leads to, reading memory through `mem`.
pub open spec fn resolve(
    mem: spec_fn(usize) -> Option<usize>,
    module_base: usize,
    base_offset: usize,
    offsets: Seq<usize>,
) -> Option<usize> {
    deref_chain(mem, mem(wadd(module_base, base_offset)), offsets)
}

/// What the walk does next.
pub enum WalkStep {
    /// Read the pointer stored at the address and hand it to the walk.
    Read(PointerWalk, usize),
    /// The walk is over: the resolved address, or `None`.
    Done(Option<usize>),
}

/// The outcome of handing `value`, the pointer read at the current level,
/// to a walk that has consumed `index` offsets: `Ok(addr)` asks for the read
/// at `addr`, `Err(r)` ends the walk with `r`.
pub open spec fn walk_next(offsets: Seq<usize>, index: int, value: Option<usize>) -> Result<usize, Option<usize>> {
    match value {
        None => Err(None),
        Some(a) => {
            if a == 0 {
                Err(None)
            } else if index >= offsets.len() {
                Err(Some(a))
            } else if index + 1 == offsets.len() {
                Err(Some(wadd(a, offsets[index])))
            } else {
                Ok(wadd(a, offsets[index]))
            }
        },
    }
}

/// A pointer chain being resolved, one read at a time.
pub struct PointerWalk {
    offsets: Vec<usize>,
    index: usize,
}

impl PointerWalk {
    /// The offsets of the chain.
    pub closed spec fn spec_offsets(&self) -> Seq<usize> {
        self.offsets@
    }

    /// How many offsets the walk has consumed.
    pub closed spec fn spec_index(&self) -> int {
        self.index as int
    }

    /// Hands the walk `value`, the pointer read where it last asked
    /// (`None` where that read was refused).
    pub fn step(self, value: Option<usize>) -> (r: WalkStep)
        ensures
            match walk_next(self.spec_offsets(), self.spec_index(), value) {
                Ok(addr) => r matches WalkStep::Read(w, a) && a == addr
                    && w.spec_offsets() == self.spec_offsets()
                    && w.spec_index() == self.spec_index() + 1
                    && w.spec_index() < w.spec_offsets().len(),
                Err(res) => r == WalkStep::Done(res),
            },
    {
        match value {
            None => WalkStep::Done(None),
            Some(a) => {
                if a == 0 {
                    WalkStep::Done(None)
                } else if self.index >= self.offsets.len() {
                    WalkStep::Done(Some(a))
                } else if self.index + 1 == self.offsets.len() {
                    WalkStep::Done(Some(a.wrapping_add(self.offsets[self.index])))
                } else {
                    let next = a.wrapping_add(self.offsets[self.index]);
                    let index = self.index + 1;
                    WalkStep::Read(PointerWalk { offsets: self.offsets, index }, next)
                }
            },
        }
    }
}


/// What a walk that has consumed `index` offsets and was just handed
/// `value` ends with, when every further read it asks for is answered by
/// `mem`; `None` where it would ask for more than `fuel` further reads.
pub open spec fn drive(
    mem: spec_fn(usize) -> Option<usize>,
    offsets: Seq<usize>,
    index: int,
    value: Option<usize>,
    fuel: nat,
) -> Option<Option<usize>>
    decreases fuel,
{
    match walk_next(offsets, index, value) {
        Err(res) => Some(res),
        Ok(addr) => {
            if fuel == 0 {
                None
            } else {
                drive(mem, offsets, index + 1, mem(addr), (fuel - 1) as nat)
            }
        },
    }
}

proof fn lemma_drive_from(
    mem: spec_fn(usize) -> Option<usize>,
    offsets: Seq<usize>,
    index: int,
    value: Option<usize>,
    fuel: nat,
)
    requires
        0 <= index <= offsets.len(),
        fuel + index >= offsets.len(),
    ensures
        drive(mem, offsets, index, value, fuel) == Some(deref_chain(mem, value, offsets.skip(index))),
    decreases fuel,
{
    let rest = offsets.skip(index);
    match value {
        None => {},
        Some(a) => {
            if a != 0 && index + 1 < offsets.len() {
                let addr = wadd(a, offsets[index]);
                assert(rest.drop_first() =~= offsets.skip(index + 1));
                lemma_drive_from(mem, offsets, index + 1, mem(addr), (fuel - 1) as nat);
            }
        },
    }
}

/// A walk started by `Memory::get_pointer_address` and stepped with the
/// answers of `mem` to every read it asks for ends, after at most as many
/// further reads as there are offsets, with the address the chain
/// resolves to.
pub proof fn lemma_walk_resolves(
    mem: spec_fn(usize) -> Option<usize>,
    module_base: usize,
    base_offset: usize,
    offsets: Seq<usize>,
)
    ensures
        drive(mem, offsets, 0, mem(wadd(module_base, base_offset)), offsets.len())
            == Some(resolve(mem, module_base, base_offset, offsets)),
{
    lemma_drive_from(mem, offsets, 0, mem(wadd(module_base, base_offset)), offsets.len());
    assert(offsets.skip(0) =~= offsets);
}


/// The sum of two addresses as `usize` arithmetic wraps it: the exact sum
/// where it fits, else the sum less `usize::MAX + 1`. No bit of either
/// operand is dropped.
pub open spec fn wrapped_sum(a: usize, b: usize) -> int {
    if a + b <= usize::MAX {
        a + b
    } else {
        a + b - usize::MAX - 1
    }
}

/// Address addition keeps every bit of its operands and wraps only past
/// `usize::MAX`.
pub proof fn lemma_wadd_is_wrapping_sum(a: usize, b: usize)
    ensures
        wadd(a, b) as int == wrapped_sum(a, b),
{
}

/// One step of a walk, stated on the pointer value handed to it:
/// an unreadable or null pointer ends the walk without a result; with a
/// non-null pointer `a` and offsets left, every offset but the last is
/// added to the full value of `a` and the sum is read next, while the last
/// offset is only added to `a` and the sum is the result; a chain without
/// offsets yields `a` itself.
pub proof fn lemma_walk_step_law(offsets: Seq<usize>, index: int, value: Option<usize>)
    requires
        0 <= index,
        index < offsets.len() || index == 0,
    ensures
        value is None ==> walk_next(offsets, index, value) == Err::<usize, Option<usize>>(None),
        value == Some(0usize) ==> walk_next(offsets, index, value) == Err::<usize, Option<usize>>(None),
        ({
            let a = value->0;
            value is Some && a != 0 ==> {
                &&& index + 1 < offsets.len() ==> (walk_next(offsets, index, value) matches Ok(next)
                    && next as int == wrapped_sum(a, offsets[index]))
                &&& index + 1 == offsets.len() ==> (walk_next(offsets, index, value) matches Err(Some(r))
                    && r as int == wrapped_sum(a, offsets[index]))
                &&& offsets.len() == 0 ==> walk_next(offsets, index, value) == Err::<usize, Option<usize>>(Some(a))
            }
        }),
{
}

/// The chain that a pointer `a` leads to, stated on the full value of `a`:
/// null or unreadable pointers resolve to nothing; with no offsets the
/// chain is `a`; with one offset it is `a` plus that offset; with more, the
/// chain goes on from the pointer read at `a` plus the first offset.
pub proof fn lemma_deref_chain_law(mem: spec_fn(usize) -> Option<usize>, ptr: Option<usize>, offsets: Seq<usize>)
    ensures
        ptr is None ==> deref_chain(mem, ptr, offsets) is None,
        ptr == Some(0usize) ==> deref_chain(mem, ptr, offsets) is None,
        ({
            let a = ptr->0;
            ptr is Some && a != 0 ==> {
                &&& offsets.len() == 0 ==> deref_chain(mem, ptr, offsets) == Some(a)
                &&& offsets.len() == 1 ==> (deref_chain(mem, ptr, offsets) matches Some(r)
                    && r as int == wrapped_sum(a, offsets[0]))
                &&& offsets.len() >= 2 ==> deref_chain(mem, ptr, offsets)
                    == deref_chain(mem, mem(wrapped_sum(a, offsets[0]) as usize), offsets.drop_first())
            }
        }),
{
}

/// A region is readable exactly when it is committed (bit `0x1000` of the
/// state), has neither the guard nor the no-access bit (`0x101`), and has
/// one of the read-giving protection bits (`0xEE`: read-only, read-write,
/// write-copy and their execute forms); writable exactly when, besides,
/// one of the write-giving bits (`0xCC`) is set.
pub proof fn lemma_access_masks(addr: usize, region: RegionInfo)
    ensures
        readable(addr, Some(region)) <==> addr != 0 && region.state & 0x1000u32 == 0x1000u32
            && region.protect & 0x101u32 == 0 && region.protect & 0xEEu32 != 0,
        writable(addr, Some(region)) <==> addr != 0 && region.state & 0x1000u32 == 0x1000u32
            && region.protect & 0x101u32 == 0 && region.protect & 0xCCu32 != 0,
        !readable(addr, None),
        !writable(addr, None),
        writable(addr, Some(region)) ==> readable(addr, Some(region)),
{
    let p = region.protect;
    assert((p & 0x100u32 == 0 && p & 0x01u32 == 0) <==> p & 0x101u32 == 0) by (bit_vector);
    assert((p & 0x02u32 != 0 || p & 0x04u32 != 0 || p & 0x08u32 != 0 || p & 0x20u32 != 0
        || p & 0x40u32 != 0 || p & 0x80u32 != 0) <==> p & 0xEEu32 != 0) by (bit_vector);
    assert((p & 0x04u32 != 0 || p & 0x08u32 != 0 || p & 0x40u32 != 0 || p & 0x80u32 != 0)
        <==> p & 0xCCu32 != 0) by (bit_vector);
}

} // verus!
