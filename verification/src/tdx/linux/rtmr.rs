//! The translation of a guest virtual address into a guest physical address,
//! as the extension of a runtime measurement register needs it.
//!
//! The page size, the memory map of the process and the page map of a region
//! are the caller's to read; the library says what is to be read and computes
//! the address from it.

use vstd::prelude::*;
use vstd::string::*;
use crate::error::Error;
use crate::step::Step;

verus! {

/// The largest alignment that addresses are aligned to here: 2 to the 47th,
/// the size of one half of the canonical address space.
pub const MAX_ALIGN: u64 = 0x8000_0000_0000;

/// The number of bytes that a page frame number counts.
pub const FRAME_SIZE: u64 = 4096;

/// A region of the address space of a process: the addresses from `start` up
/// to, not including, `end`.
#[derive(Clone, Copy, Debug, PartialEq, Eq, Structural)]
pub struct MemoryRegion {
    pub start: u64,
    pub end: u64,
}

impl MemoryRegion {
    /// Whether `addr` lies in the region.
    pub open spec fn spec_contains(&self, addr: u64) -> bool {
        self.start <= addr < self.end
    }

    /// Whether `addr` lies in the region.
    pub fn contains(&self, addr: u64) -> (inside: bool)
        ensures
            inside == self.spec_contains(addr),
    {
        addr >= self.start && addr < self.end
    }
}

/// Whether `addr` is canonical: its bits 48 to 63 repeat bit 47.
pub open spec fn is_canonical(addr: u64) -> bool {
    addr < 0x8000_0000_0000 || addr >= 0xffff_8000_0000_0000
}

/// Whether `align` is a power of two.
pub open spec fn is_power_of_two(align: u64) -> bool {
    align != 0 && align & ((align - 1) as u64) == 0
}

/// `VirtAddr::new`, `VirtAddr::align_down` and `VirtAddr::as_u64` of the crate
/// `x86_64`: the canonical address `gva`, aligned downwards to `align`. It is
/// the greatest multiple of `align` that is not above `gva`.
#[verifier::external_body]
fn virt_addr_align_down(gva: u64, align: u64) -> (aligned: u64)
    requires
        is_canonical(gva),
        is_power_of_two(align),
        align <= MAX_ALIGN,
    ensures
        aligned == gva - gva % align,
{
    x86_64::addr::VirtAddr::new(gva).align_down(align).as_u64()
}

/// Aligns the guest virtual address `gva` downwards to the page size. An
/// address that is not canonical, and a page size that is no power of two or
/// above 2 to the 47th, are refused with `AddressError`.
pub fn align_gva(gva: u64, page_size: u64) -> (res: Result<u64, Error>)
    ensures
        is_canonical(gva) && is_power_of_two(page_size) && page_size <= MAX_ALIGN ==> res == Ok::<
            u64,
            Error,
        >((gva - gva % page_size) as u64),
        !is_canonical(gva) ==> (res matches Err(Error::AddressError(text)) && text@
            == "GVA is not canonical"@),
        is_canonical(gva) && !(is_power_of_two(page_size) && page_size <= MAX_ALIGN) ==> (
        res matches Err(Error::AddressError(text)) && text@ == "Page size is not supported"@),
{
    if !(gva < 0x8000_0000_0000 || gva >= 0xffff_8000_0000_0000) {
        return Err(Error::AddressError(String::from_str("GVA is not canonical")));
    }
    if page_size == 0 || page_size > MAX_ALIGN {
        return Err(Error::AddressError(String::from_str("Page size is not supported")));
    }
    if page_size & (page_size - 1) != 0 {
        return Err(Error::AddressError(String::from_str("Page size is not supported")));
    }
    Ok(virt_addr_align_down(gva, page_size))
}

/// The first of `regions` in which `addr` lies, by its index.
pub fn find_region(regions: &Vec<MemoryRegion>, addr: u64) -> (found: Option<usize>)
    ensures
        match found {
            Some(i) => i < regions@.len() && regions@[i as int].spec_contains(addr) && forall|
                j: int,
            |
                0 <= j < i ==> !regions@[j].spec_contains(addr),
            None => forall|j: int| 0 <= j < regions@.len() ==> !regions@[j].spec_contains(addr),
        },
{
    let mut i: usize = 0;
    while i < regions.len()
        invariant
            i <= regions@.len(),
            forall|j: int| 0 <= j < i ==> !regions@[j].spec_contains(addr),
        decreases regions@.len() - i,
    {
        if regions[i].contains(addr) {
            return Some(i);
        }
        i += 1;
    }
    None
}

/// The guest physical address for a page frame number and the distance of the
/// aligned address from the start of its region: the frame's first byte plus
/// the distance. An address beyond 64 bits is refused with `AddressError`.
pub fn compose_gpa(pfn: u64, distance: u64) -> (res: Result<u64, Error>)
    ensures
        pfn * FRAME_SIZE + distance <= u64::MAX ==> res == Ok::<u64, Error>(
            (pfn * FRAME_SIZE + distance) as u64,
        ),
        pfn * FRAME_SIZE + distance > u64::MAX ==> (res matches Err(Error::AddressError(text))
            && text@ == "GPA does not fit in 64 bits"@),
{
    match pfn.checked_mul(FRAME_SIZE) {
        Some(base) => match base.checked_add(distance) {
            Some(gpa) => Ok(gpa),
            None => Err(Error::AddressError(String::from_str("GPA does not fit in 64 bits"))),
        },
        None => Err(Error::AddressError(String::from_str("GPA does not fit in 64 bits"))),
    }
}

/// How far the translation of an address has come.
#[derive(Clone, Copy, Debug, PartialEq, Eq, Structural)]
pub enum AddressState {
    /// The page size is not known yet.
    Sizing,
    /// The page size is known, and the memory map has been asked for.
    Mapping { page_size: u64 },
    /// The region of the aligned address is known, and its page map has been
    /// asked for.
    Translating { page_size: u64, aligned_gva: u64, region: MemoryRegion },
    /// The translation has ended.
    Done,
}

/// What the caller reports during a translation.
#[derive(Debug)]
pub enum AddressEvent {
    /// The address is wanted.
    Start,
    /// The page size of the system in bytes, or why it cannot be had.
    PageSize(Result<u64, String>),
    /// The regions of the memory map of the process, in the map's order, or
    /// why it cannot be read.
    Maps(Result<Vec<MemoryRegion>, String>),
    /// For each page of the region, in order, its page frame number or why
    /// it has none; or why the page map cannot be read.
    Pages(Result<Vec<Result<u64, String>>, String>),
}

/// What the caller is to do during a translation.
#[derive(Debug)]
pub enum AddressAction {
    /// Ask the system for its page size.
    QueryPageSize,
    /// Read the memory map of the process.
    ReadMaps,
    /// Read the page map of the process for `region`.
    ReadPagemap { region: MemoryRegion },
}

/// The step that ends a translation with the `AddressError` that says `text`.
pub open spec fn fails_with(next: AddressState, step: Step<AddressAction, u64>, text: Seq<char>) -> bool {
    &&& next == AddressState::Done
    &&& step matches Step::Finish(Err(Error::AddressError(t)))
    &&& t@ == text
}

/// Whether `regions[i]` is the first of `regions` in which `addr` lies.
pub open spec fn is_first_region(regions: Seq<MemoryRegion>, addr: u64, i: int) -> bool {
    &&& 0 <= i < regions.len()
    &&& regions[i].spec_contains(addr)
    &&& forall|j: int| 0 <= j < i ==> !regions[j].spec_contains(addr)
}

/// Whether `next` and `step` are what follows in `state` on `event` when the
/// guest virtual address `gva` is translated.
pub open spec fn address_step(
    gva: u64,
    state: AddressState,
    event: AddressEvent,
    next: AddressState,
    step: Step<AddressAction, u64>,
) -> bool {
    match (state, event) {
        (AddressState::Sizing, AddressEvent::Start) => {
            &&& next == AddressState::Sizing
            &&& step == Step::<AddressAction, u64>::Perform(AddressAction::QueryPageSize)
        },
        (AddressState::Sizing, AddressEvent::PageSize(Ok(page_size))) => {
            &&& next == (AddressState::Mapping { page_size })
            &&& step == Step::<AddressAction, u64>::Perform(AddressAction::ReadMaps)
        },
        (AddressState::Sizing, AddressEvent::PageSize(Err(reason))) => fails_with(
            next,
            step,
            reason@,
        ),
        (AddressState::Mapping { page_size }, AddressEvent::Maps(Ok(regions))) => {
            if !is_canonical(gva) {
                fails_with(next, step, "GVA is not canonical"@)
            } else if !(is_power_of_two(page_size) && page_size <= MAX_ALIGN) {
                fails_with(next, step, "Page size is not supported"@)
            } else {
                let aligned_gva = (gva - gva % page_size) as u64;
                if exists|i: int| is_first_region(regions@, aligned_gva, i) {
                    exists|i: int|
                        #[trigger] is_first_region(regions@, aligned_gva, i) && next == (
                        AddressState::Translating { page_size, aligned_gva, region: regions@[i] })
                            && step == Step::<AddressAction, u64>::Perform(
                            AddressAction::ReadPagemap { region: regions@[i] },
                        )
                } else {
                    fails_with(next, step, "GVA not found in process pagemap"@)
                }
            }
        },
        (AddressState::Mapping { page_size }, AddressEvent::Maps(Err(reason))) => fails_with(
            next,
            step,
            reason@,
        ),
        (
            AddressState::Translating { page_size, aligned_gva, region },
            AddressEvent::Pages(Ok(pages)),
        ) => {
            if page_size == 0 || aligned_gva < region.start {
                fails_with(next, step, "Page is not in the region's page map"@)
            } else {
                let distance = (aligned_gva - region.start) as u64;
                let index = distance as int / page_size as int;
                if index >= pages@.len() {
                    fails_with(next, step, "Page is not in the region's page map"@)
                } else {
                    match pages@[index] {
                        Err(reason) => fails_with(next, step, reason@),
                        Ok(pfn) => if pfn * FRAME_SIZE + distance <= u64::MAX {
                            &&& next == AddressState::Done
                            &&& step == Step::<AddressAction, u64>::Finish(
                                Ok((pfn * FRAME_SIZE + distance) as u64),
                            )
                        } else {
                            fails_with(next, step, "GPA does not fit in 64 bits"@)
                        },
                    }
                }
            }
        },
        (
            AddressState::Translating { page_size, aligned_gva, region },
            AddressEvent::Pages(Err(reason)),
        ) => fails_with(next, step, reason@),
        _ => fails_with(next, step, "Unexpected address translation event"@),
    }
}

/// The end of a translation with the `AddressError` that says `text`.
fn fail(text: String) -> (next: (AddressState, Step<AddressAction, u64>))
    ensures
        fails_with(next.0, next.1, text@),
{
    (AddressState::Done, Step::Finish(Err(Error::AddressError(text))))
}

/// One step of translating the guest virtual address `gva` of the process
/// into a guest physical address: what follows in `state` on `event`. A
/// translation starts in `Sizing` with `Start`.
///
/// The address is aligned downwards to the page size; the first region of the
/// memory map that holds the aligned address is looked up in the page map; the
/// result is the first byte of the page frame of the aligned address, plus the
/// distance of the aligned address from the start of its region. Whatever
/// cannot be read or found ends the translation with `AddressError`.
pub fn gva_to_gpa(gva: u64, state: AddressState, event: AddressEvent) -> (next: (
    AddressState,
    Step<AddressAction, u64>,
))
    ensures
        address_step(gva, state, event, next.0, next.1),
{
    match state {
        AddressState::Sizing => match event {
            AddressEvent::Start => (AddressState::Sizing, Step::Perform(AddressAction::QueryPageSize)),
            AddressEvent::PageSize(Ok(page_size)) => (
                AddressState::Mapping { page_size },
                Step::Perform(AddressAction::ReadMaps),
            ),
            AddressEvent::PageSize(Err(reason)) => fail(reason),
            _ => fail(String::from_str("Unexpected address translation event")),
        },
        AddressState::Mapping { page_size } => match event {
            AddressEvent::Maps(Ok(regions)) => {
                let aligned_gva = match align_gva(gva, page_size) {
                    Ok(aligned_gva) => aligned_gva,
                    Err(Error::AddressError(text)) => {
                        return fail(text);
                    },
                    Err(_) => {
                        return fail(String::from_str("Page size is not supported"));
                    },
                };
                match find_region(&regions, aligned_gva) {
                    None => {
                        assert forall|i: int| !is_first_region(regions@, aligned_gva, i) by {}
                        fail(String::from_str("GVA not found in process pagemap"))
                    },
                    Some(i) => {
                        let region = regions[i];
                        assert(is_first_region(regions@, aligned_gva, i as int));
                        assert forall|k: int| is_first_region(regions@, aligned_gva, k) implies k
                            == i by {}
                        (
                            AddressState::Translating { page_size, aligned_gva, region },
                            Step::Perform(AddressAction::ReadPagemap { region }),
                        )
                    },
                }
            },
            AddressEvent::Maps(Err(reason)) => fail(reason),
            _ => fail(String::from_str("Unexpected address translation event")),
        },
        AddressState::Translating { page_size, aligned_gva, region } => match event {
            AddressEvent::Pages(Ok(pages)) => {
                if page_size == 0 || aligned_gva < region.start {
                    return fail(String::from_str("Page is not in the region's page map"));
                }
                let distance = aligned_gva - region.start;
                let index = distance / page_size;
                if index >= pages.len() as u64 {
                    return fail(String::from_str("Page is not in the region's page map"));
                }
                match &pages[index as usize] {
                    Err(reason) => fail(reason.clone()),
                    Ok(pfn) => match compose_gpa(*pfn, distance) {
                        Ok(gpa) => (AddressState::Done, Step::Finish(Ok(gpa))),
                        Err(Error::AddressError(text)) => fail(text),
                        Err(_) => fail(String::from_str("GPA does not fit in 64 bits")),
                    },
                }
            },
            AddressEvent::Pages(Err(reason)) => fail(reason),
            _ => fail(String::from_str("Unexpected address translation event")),
        },
        AddressState::Done => fail(String::from_str("Unexpected address translation event")),
    }
}

} // verus!
