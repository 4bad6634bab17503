//! The decisions of the interactive map picker: how each key moves the
//! selection over a list of maps, and when a map is chosen.
use vstd::prelude::*;

verus! {

/// How far a page key moves the selection.
pub const PAGE_STEP: usize = 40;

/// A key press, as the picker tells them apart.
#[derive(Clone, Copy, Debug, PartialEq, Eq, Structural)]
pub enum BrowseKey {
    Up,
    Down,
    PageUp,
    PageDown,
    Enter,
    /// Control-C.
    Interrupt,
    Other,
}

/// What the picker does after a key.
#[derive(Clone, Copy, Debug, PartialEq, Eq, Structural)]
pub enum BrowseAction {
    /// Keep browsing, with this selection.
    Select(usize),
    /// Open the map at this position of the list.
    Open(usize),
    /// Leave without choosing.
    Quit,
}

/// The selection `s` held within a list of `count` maps.
pub open spec fn clamp(s: int, count: int) -> int {
    if count == 0 {
        0
    } else if s >= count {
        count - 1
    } else if s < 0 {
        0
    } else {
        s
    }
}

/// What `key` does to selection `selected` in a list of `count` maps.
pub open spec fn browse(selected: int, count: int, key: BrowseKey) -> BrowseAction {
    let s = clamp(selected, count);
    match key {
        BrowseKey::Up => BrowseAction::Select(clamp(s - 1, count) as usize),
        BrowseKey::Down => BrowseAction::Select(clamp(s + 1, count) as usize),
        BrowseKey::PageUp => BrowseAction::Select(clamp(s - PAGE_STEP, count) as usize),
        BrowseKey::PageDown => BrowseAction::Select(clamp(s + PAGE_STEP, count) as usize),
        BrowseKey::Enter => if count == 0 {
            BrowseAction::Select(0)
        } else {
            BrowseAction::Open(s as usize)
        },
        BrowseKey::Interrupt => BrowseAction::Quit,
        BrowseKey::Other => BrowseAction::Select(s as usize),
    }
}

fn clamp_to(s: usize, count: usize) -> (r: usize)
    ensures
        r == clamp(s as int, count as int),
{
    if count == 0 {
        0
    } else if s >= count {
        count - 1
    } else {
        s
    }
}

/// The picker's answer to `key`, with `selected` the current position in a
/// list of `count` maps.
pub fn browse_step(selected: usize, count: usize, key: BrowseKey) -> (r: BrowseAction)
    ensures
        r == browse(selected as int, count as int, key),
{
    let s = clamp_to(selected, count);
    match key {
        BrowseKey::Up => BrowseAction::Select(if s == 0 { 0 } else { s - 1 }),
        BrowseKey::Down => BrowseAction::Select(clamp_to(s.saturating_add(1), count)),
        BrowseKey::PageUp => BrowseAction::Select(s.saturating_sub(PAGE_STEP)),
        BrowseKey::PageDown => BrowseAction::Select(
            if s >= count || count - s <= PAGE_STEP { clamp_to(count, count) } else { s + PAGE_STEP },
        ),
        BrowseKey::Enter => if count == 0 {
            BrowseAction::Select(0)
        } else {
            BrowseAction::Open(s)
        },
        BrowseKey::Interrupt => BrowseAction::Quit,
        BrowseKey::Other => BrowseAction::Select(s),
    }
}

} // verus!
