//! The document tree that the rules read: events, their pages, and the
//! commands of each page. Nothing in the engine mutates it.
use vstd::prelude::*;

verus! {

/// Largest count or byte length that the map container can record.
pub const MAX_RECORDED: usize = 0xffff_ffff;

/// When a page starts running.
#[derive(Clone, Copy, Debug, PartialEq, Eq, Structural)]
pub enum Trigger {
    ActionButton,
    PlayerTouch,
    EventTouch,
    Autorun,
    Parallel,
    /// Only run when called from another event.
    Called,
}

/// The sprite a page shows: a file name (raw bytes) and a cell index.
#[derive(Clone, Debug)]
pub struct Graphic {
    pub file: Vec<u8>,
    pub index: u32,
}

/// The opcodes the rules distinguish, with the fields they read.
#[derive(Clone, Copy, Debug, PartialEq, Eq, Structural)]
pub enum Instruction {
    /// First line of a comment; the text is the command's string.
    Comment,
    /// A continuation line of a comment.
    CommentNextLine,
    /// Assign to a variable (`mode` 0) or to the range `start..=end` (`mode` 1).
    ControlVariables { mode: u32, start: u32, end: u32 },
    ScrollMap { speed: u32 },
    WeatherEffects,
    ShowPicture,
    MovePicture,
    PlayBGM,
    ConditionalBranch { mode: u32, field1: u32, field2: u32 },
    /// Call a common event (`mode` 0) or a map event.
    CallEvent { mode: u32, index: u32 },
    /// Move the event with id `source`.
    SetEventLocation { source: u32 },
    EraseEvent,
    TransferPlayer,
    /// Any opcode that no rule reads.
    Other { opcode: u32 },
}

/// One instruction of a page, with its nesting depth and its raw string.
#[derive(Clone, Debug)]
pub struct Command {
    pub indent: u32,
    pub string: Vec<u8>,
    pub instruction: Instruction,
}

/// One behavioural variant of an event.
#[derive(Clone, Debug)]
pub struct Page {
    pub trigger: Trigger,
    pub graphic: Graphic,
    pub commands: Vec<Command>,
}

/// A named, positioned entity of a map.
#[derive(Clone, Debug)]
pub struct Event {
    pub id: u32,
    pub name: Vec<u8>,
    pub x: u32,
    pub y: u32,
    pub pages: Vec<Page>,
}

/// One map: its events in order.
#[derive(Clone, Debug)]
pub struct Document {
    pub events: Vec<Event>,
}

impl Command {
    pub open spec fn wf(&self) -> bool {
        self.string@.len() <= MAX_RECORDED
    }
}

impl Page {
    pub open spec fn wf(&self) -> bool {
        &&& self.graphic.file@.len() <= MAX_RECORDED
        &&& self.commands@.len() <= MAX_RECORDED
        &&& forall|k: int| 0 <= k < self.commands@.len() ==> #[trigger] self.commands@[k].wf()
    }
}

impl Event {
    pub open spec fn wf(&self) -> bool {
        &&& self.id > 0
        &&& self.pages@.len() <= MAX_RECORDED
        &&& forall|p: int| 0 <= p < self.pages@.len() ==> #[trigger] self.pages@[p].wf()
    }
}

impl Document {
    /// Every event id is positive, and every count and string fits what the
    /// container format can record.
    pub open spec fn wf(&self) -> bool {
        forall|e: int| 0 <= e < self.events@.len() ==> #[trigger] self.events@[e].wf()
    }

    /// Tells whether the document meets `wf`, for callers that build one.
    pub fn is_well_formed(&self) -> (r: bool)
        ensures
            r == self.wf(),
    {
        let mut e: usize = 0;
        while e < self.events.len()
            invariant
                e <= self.events@.len(),
                forall|i: int| 0 <= i < e ==> #[trigger] self.events@[i].wf(),
            decreases self.events@.len() - e,
        {
            let event = &self.events[e];
            if event.id == 0 || event.pages.len() > MAX_RECORDED {
                assert(!self.events@[e as int].wf());
                return false;
            }
            let mut p: usize = 0;
            while p < event.pages.len()
                invariant
                    e < self.events@.len(),
                    *event == self.events@[e as int],
                    p <= event.pages@.len(),
                    forall|i: int| 0 <= i < p ==> #[trigger] event.pages@[i].wf(),
                decreases event.pages@.len() - p,
            {
                let page = &event.pages[p];
                if page.graphic.file.len() > MAX_RECORDED || page.commands.len() > MAX_RECORDED {
                    assert(!event.pages@[p as int].wf());
                    assert(!self.events@[e as int].wf());
                    return false;
                }
                let mut k: usize = 0;
                while k < page.commands.len()
                    invariant
                        e < self.events@.len(),
                        *event == self.events@[e as int],
                        p < event.pages@.len(),
                        *page == event.pages@[p as int],
                        k <= page.commands@.len(),
                        forall|i: int| 0 <= i < k ==> #[trigger] page.commands@[i].wf(),
                    decreases page.commands@.len() - k,
                {
                    if page.commands[k].string.len() > MAX_RECORDED {
                        assert(!page.commands@[k as int].wf());
                        assert(!event.pages@[p as int].wf());
                        assert(!self.events@[e as int].wf());
                        return false;
                    }
                    k += 1;
                }
                p += 1;
            }
            e += 1;
        }
        true
    }
}

} // verus!
