//! The pointer event router: keeps the binding from opaque region
//! identifiers to zones, remembers which region the pointer is in, stamps
//! motion samples with a receipt time, and says which zone gets each
//! sample. Samples for regions no zone owns are dropped.

use vstd::prelude::*;

verus! {

use crate::corner::CornerEvent;
use crate::corner::CornerMotionEvent;

/// A raw pointer sample as the windowing layer hands it over. Enter and
/// Leave carry the region they concern; motion is implicitly about the
/// region the pointer is currently in.
#[derive(Clone, Copy, Debug, PartialEq, Eq, Structural)]
pub enum PointerSample {
    Enter(u64),
    Leave(u64),
    Motion { surface_x: i32, surface_y: i32 },
}

/// Zone `i` is the owner of `region`: the first zone, in configuration
/// order, with that region among its bindings.
pub open spec fn spec_is_owner(rss: Seq<Vec<u64>>, region: u64, i: int) -> bool {
    &&& 0 <= i < rss.len()
    &&& rss[i]@.contains(region)
    &&& forall|j: int| 0 <= j < i ==> !(#[trigger] rss[j]@.contains(region))
}

/// No zone owns `region`.
pub open spec fn spec_unowned(rss: Seq<Vec<u64>>, region: u64) -> bool {
    forall|j: int| 0 <= j < rss.len() ==> !(#[trigger] rss[j]@.contains(region))
}

/// The region the pointer is taken to be in after a sample: Enter records
/// its region, Leave clears the record only if it still names that same
/// region, motion changes nothing.
pub open spec fn spec_route_hovered(hovered: Option<u64>, sample: PointerSample) -> Option<u64> {
    match sample {
        PointerSample::Enter(region) => Some(region),
        PointerSample::Leave(region) => if hovered == Some(region) {
            None
        } else {
            hovered
        },
        PointerSample::Motion { .. } => hovered,
    }
}

/// The router's state: per zone, the region identifiers bound to it, and
/// the currently hovered region.
#[derive(Debug)]
pub struct Router {
    pub regions: Vec<Vec<u64>>,
    pub hovered: Option<u64>,
}

fn list_contains(v: &Vec<u64>, x: u64) -> (r: bool)
    ensures
        r == v@.contains(x),
{
    let mut k: usize = 0;
    while k < v.len()
        invariant
            k <= v@.len(),
            forall|j: int| 0 <= j < k ==> v@[j] != x,
        decreases v@.len() - k,
    {
        if v[k] == x {
            return true;
        }
        k = k + 1;
    }
    false
}

impl Router {
    /// One entry per zone, in configuration order; nothing hovered yet.
    pub fn new(regions: Vec<Vec<u64>>) -> (r: Router)
        ensures
            r.regions == regions,
            r.hovered is None,
    {
        Router { regions, hovered: None }
    }

    /// Looks up the zone owning a region, if any.
    pub fn zone_for(&self, region: u64) -> (r: Option<usize>)
        ensures
            match r {
                Option::Some(i) => spec_is_owner(self.regions@, region, i as int),
                Option::None => spec_unowned(self.regions@, region),
            },
    {
        let mut i: usize = 0;
        while i < self.regions.len()
            invariant
                i <= self.regions@.len(),
                forall|j: int| 0 <= j < i ==> !(#[trigger] self.regions@[j]@.contains(region)),
            decreases self.regions@.len() - i,
        {
            if list_contains(&self.regions[i], region) {
                return Some(i);
            }
            i = i + 1;
        }
        None
    }

    /// Routes one raw sample: updates the hover record and says which zone
    /// is to receive which event. Motion samples get the router's receipt
    /// time `now_ms`; a sample for an unowned region, or motion with
    /// nothing hovered, is dropped.
    pub fn route(&mut self, sample: PointerSample, now_ms: u64) -> (r: Option<(usize, CornerEvent)>)
        ensures
            final(self).regions == old(self).regions,
            final(self).hovered == spec_route_hovered(old(self).hovered, sample),
            match sample {
                PointerSample::Enter(region) => match r {
                    Option::Some(d) => spec_is_owner(old(self).regions@, region, d.0 as int)
                        && d.1 == CornerEvent::Enter,
                    Option::None => spec_unowned(old(self).regions@, region),
                },
                PointerSample::Leave(region) => match r {
                    Option::Some(d) => spec_is_owner(old(self).regions@, region, d.0 as int)
                        && d.1 == CornerEvent::Leave,
                    Option::None => spec_unowned(old(self).regions@, region),
                },
                PointerSample::Motion { surface_x, surface_y } => match old(self).hovered {
                    Option::Some(h) => match r {
                        Option::Some(d) => spec_is_owner(old(self).regions@, h, d.0 as int) && d.1
                            == CornerEvent::Motion(
                            CornerMotionEvent { time_ms: now_ms, surface_x, surface_y },
                        ),
                        Option::None => spec_unowned(old(self).regions@, h),
                    },
                    Option::None => r is None,
                },
            },
    {
        match sample {
            PointerSample::Enter(region) => {
                self.hovered = Some(region);
                match self.zone_for(region) {
                    Option::Some(i) => Some((i, CornerEvent::Enter)),
                    Option::None => None,
                }
            },
            PointerSample::Leave(region) => {
                let clear = match self.hovered {
                    Option::Some(h) => h == region,
                    Option::None => false,
                };
                if clear {
                    self.hovered = None;
                }
                match self.zone_for(region) {
                    Option::Some(i) => Some((i, CornerEvent::Leave)),
                    Option::None => None,
                }
            },
            PointerSample::Motion { surface_x, surface_y } => {
                match self.hovered {
                    Option::Some(h) => match self.zone_for(h) {
                        Option::Some(i) => Some(
                            (
                                i,
                                CornerEvent::Motion(
                                    CornerMotionEvent { time_ms: now_ms, surface_x, surface_y },
                                ),
                            ),
                        ),
                        Option::None => None,
                    },
                    Option::None => None,
                }
            },
        }
    }

    /// Drops every region bound to a zone: its output went away.
    pub fn clear_zone(&mut self, zone: usize)
        requires
            zone < old(self).regions@.len(),
        ensures
            final(self).hovered == old(self).hovered,
            final(self).regions@.len() == old(self).regions@.len(),
            final(self).regions@[zone as int]@ =~= Seq::<u64>::empty(),
            forall|j: int|
                0 <= j < old(self).regions@.len() && j != zone ==> final(self).regions@[j] == old(
                    self,
                ).regions@[j],
    {
        let slot = &mut self.regions[zone];
        slot.clear();
    }

    /// Binds freshly created regions to a zone, after its bindings so the
    /// earlier ones keep priority.
    pub fn add_regions(&mut self, zone: usize, more: Vec<u64>)
        requires
            zone < old(self).regions@.len(),
        ensures
            final(self).hovered == old(self).hovered,
            final(self).regions@.len() == old(self).regions@.len(),
            final(self).regions@[zone as int]@ =~= old(self).regions@[zone as int]@ + more@,
            forall|j: int|
                0 <= j < old(self).regions@.len() && j != zone ==> final(self).regions@[j] == old(
                    self,
                ).regions@[j],
    {
        let mut more_local = more;
        let slot = &mut self.regions[zone];
        slot.append(&mut more_local);
    }
}

} // verus!
