use vstd::prelude::*;
use crate::units::ZONE_EDGE;

verus! {

/// The two players, by the half of the screen they touch.
#[derive(PartialEq, Eq, Structural, Clone, Copy, Debug)]
pub enum TouchSide {
    Up,
    Down,
}

/// The stages of one finger's contact with the screen.
#[derive(PartialEq, Eq, Structural, Clone, Copy, Debug)]
pub enum TouchPhase {
    Started,
    Moved,
    Ended,
    Cancelled,
}

/// One touch event, its location in length units (see `units`).
#[derive(PartialEq, Eq, Structural, Clone, Copy, Debug)]
pub struct Touch {
    pub phase: TouchPhase,
    pub id: u64,
    pub x: i64,
    pub y: i64,
}

/// The side a touch at height `y` belongs to, if any.
pub open spec fn side_at(y: i64) -> Option<TouchSide> {
    if y >= ZONE_EDGE {
        Some(TouchSide::Up)
    } else if y <= -ZONE_EDGE {
        Some(TouchSide::Down)
    } else {
        None
    }
}

/// Classifies a touch by its height: the upper third is `Up`, the lower
/// third is `Down`, the middle band belongs to nobody.
pub fn side_of(y: i64) -> (r: Option<TouchSide>)
    ensures
        r == side_at(y),
{
    if y >= ZONE_EDGE {
        Some(TouchSide::Up)
    } else if y <= -ZONE_EDGE {
        Some(TouchSide::Down)
    } else {
        None
    }
}

/// The touch currently held on each side, at most one per side.
#[derive(PartialEq, Eq, Structural, Clone, Copy, Debug)]
pub struct TouchTracker {
    pub up_id: Option<u64>,
    pub down_id: Option<u64>,
}

impl TouchTracker {
    /// The touch held on `side`.
    pub open spec fn active(self, side: TouchSide) -> Option<u64> {
        match side {
            TouchSide::Up => self.up_id,
            TouchSide::Down => self.down_id,
        }
    }

    /// Whether `side` is held.
    pub open spec fn touched(self, side: TouchSide) -> bool {
        self.active(side) is Some
    }

    /// The tracker after a touch `id` starts on `side`: the first touch on a
    /// side keeps it until it ends.
    pub open spec fn started(self, side: TouchSide, id: u64) -> TouchTracker {
        if self.touched(side) {
            self
        } else {
            match side {
                TouchSide::Up => TouchTracker { up_id: Some(id), ..self },
                TouchSide::Down => TouchTracker { down_id: Some(id), ..self },
            }
        }
    }

    /// The tracker after touch `id` ends: whichever side held it is free.
    pub open spec fn ended(self, id: u64) -> TouchTracker {
        TouchTracker {
            up_id: if self.up_id == Some(id) { None } else { self.up_id },
            down_id: if self.down_id == Some(id) { None } else { self.down_id },
        }
    }

    pub fn new() -> (r: TouchTracker)
        ensures
            r.active(TouchSide::Up) is None,
            r.active(TouchSide::Down) is None,
    {
        TouchTracker { up_id: None, down_id: None }
    }

    pub fn is_touched(&self, side: TouchSide) -> (r: bool)
        ensures
            r == self.touched(side),
    {
        match side {
            TouchSide::Up => self.up_id.is_some(),
            TouchSide::Down => self.down_id.is_some(),
        }
    }

    /// Records touch `id` on `side` unless that side is already held.
    pub fn on_touch_start(&mut self, side: TouchSide, id: u64)
        ensures
            *final(self) == old(self).started(side, id),
    {
        match side {
            TouchSide::Up => {
                if self.up_id.is_none() {
                    self.up_id = Some(id);
                }
            },
            TouchSide::Down => {
                if self.down_id.is_none() {
                    self.down_id = Some(id);
                }
            },
        }
    }

    /// Frees the side that holds touch `id`; an unknown id changes nothing.
    pub fn on_touch_end_or_cancel(&mut self, id: u64)
        ensures
            *final(self) == old(self).ended(id),
    {
        if self.up_id == Some(id) {
            self.up_id = None;
        }
        if self.down_id == Some(id) {
            self.down_id = None;
        }
    }
}

/// A side, once held, stays bound to its first touch: a later touch on the
/// same side is ignored, other touches ending leave it held, and only the
/// end of the first touch frees it.
pub proof fn lemma_first_touch_holds(t: TouchTracker, side: TouchSide, first: u64, other: u64)
    requires
        t.active(side) == Some(first),
    ensures
        t.started(side, other) == t,
        other != first ==> t.ended(other).active(side) == Some(first),
        t.ended(first).active(side) is None,
{
}

} // verus!
