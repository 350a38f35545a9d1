//! The full-resolution overlay: open/closed state is defined operationally
//! by the background fade being above zero, navigation walks the image list
//! sequentially, and a decode completion is installed only when it still
//! matches the currently targeted image — late results for a target the
//! user has navigated away from are discarded.

use vstd::prelude::*;

use crate::anim::{Animation, Easing};
use crate::image_data::{Id, Rgba};

verus! {

/// Where sequential navigation is headed.
#[derive(Debug, Clone, Copy, PartialEq, Eq, Structural)]
pub enum Direction {
    Prev,
    Next,
}

/// A displayed full-resolution image together with the identity it was
/// decoded for.
#[derive(Debug, Clone)]
pub struct ViewerImage {
    pub id: Id,
    pub rgba: Rgba,
}

/// The overlay's state: the displayed image (none while a decode is in
/// flight), the two fade tracks, and the navigation position.
pub struct Viewer {
    /// The full-resolution image on display, if any has arrived.
    pub image: Option<ViewerImage>,
    /// Fade of the darkened backdrop; above zero means open.
    pub background_fade_in: Animation,
    /// Fade/scale track of the displayed image itself.
    pub image_fade_in: Animation,
    /// The image the overlay is currently targeting.
    pub current_id: Option<Id>,
    /// The target's position in the image list.
    pub current_index: Option<usize>,
}

impl Viewer {
    /// The navigation position, when set, indexes the image list, and the
    /// target — when one is set — names the image at that position (ids are
    /// dense, so position `i` holds the image with id `i`).
    pub open spec fn consistent_with(self, count: int) -> bool {
        match self.current_index {
            Some(i) => i < count && (match self.current_id {
                Some(t) => t == Id(i as u32),
                None => true,
            }),
            None => self.current_id is None,
        }
    }

    /// A closed overlay: no image, no target, both fades at rest on hidden.
    pub open spec fn spec_new() -> Viewer {
        Viewer {
            image: None,
            background_fade_in: Animation {
                target: false,
                transitioned: false,
                start: 0,
                duration: crate::anim::QUICK_MS,
                easing: Easing::EaseInOut,
            },
            image_fade_in: Animation {
                target: false,
                transitioned: false,
                start: 0,
                duration: crate::anim::QUICK_MS,
                easing: Easing::EaseInOut,
            },
            current_id: None,
            current_index: None,
        }
    }

    pub fn new() -> (v: Viewer)
        ensures
            v == Viewer::spec_new(),
    {
        Viewer {
            image: None,
            background_fade_in: Animation::new(false).easing(Easing::EaseInOut),
            image_fade_in: Animation::new(false).easing(Easing::EaseInOut),
            current_id: None,
            current_index: None,
        }
    }

    /// The image the overlay currently targets.
    pub fn current_id(&self) -> (id: Option<Id>)
        ensures
            id == self.current_id,
    {
        self.current_id
    }

    pub fn set_current_id(&mut self, id: Option<Id>)
        ensures
            *final(self) == (Viewer { current_id: id, ..*old(self) }),
    {
        self.current_id = id;
    }

    /// The target's position in the image list.
    pub fn current_index(&self) -> (index: Option<usize>)
        ensures
            index == self.current_index,
    {
        self.current_index
    }

    pub fn set_current_index(&mut self, index: Option<usize>)
        ensures
            *final(self) == (Viewer { current_index: index, ..*old(self) }),
    {
        self.current_index = index;
    }

    /// Open is operationally defined: the backdrop is visible at `now`.
    pub open spec fn spec_is_open(self, now: u64) -> bool {
        self.background_fade_in.spec_interpolate(0, 800, now) > 0
    }

    pub fn is_open(&self, now: u64) -> (b: bool)
        ensures
            b == self.spec_is_open(now),
    {
        self.background_fade_in.interpolate(0, 800, now) > 0
    }

    /// The state after `open` at `now`: any previously displayed image is
    /// cleared (forcing the loading visual) and the backdrop fades in. The
    /// caller also sets the target and issues the full-resolution decode.
    pub open spec fn spec_open(self, now: u64) -> Viewer {
        Viewer {
            image: None,
            background_fade_in: self.background_fade_in.spec_go(true, now),
            ..self
        }
    }

    pub fn open(&mut self, now: u64)
        ensures
            *final(self) == old(self).spec_open(now),
            final(self).image is None,
    {
        self.image = None;
        self.background_fade_in.go_mut(true, now);
    }

    /// The state after a full-resolution decode for `id` arrives at `now`:
    /// installed, and both fades (re)started, only when `id` is still the
    /// current target; a stale completion changes nothing.
    pub open spec fn spec_show(self, id: Id, rgba: Rgba, now: u64) -> Viewer {
        if self.current_id == Some(id) {
            Viewer {
                image: Some(ViewerImage { id, rgba }),
                background_fade_in: self.background_fade_in.spec_go(true, now),
                image_fade_in: self.image_fade_in.spec_go(true, now),
                ..self
            }
        } else {
            self
        }
    }

    /// Install a delivered full-resolution image, unless the user has
    /// navigated away while its decode was in flight: a completion whose
    /// identity no longer matches the current target is discarded and never
    /// overwrites the targeted image.
    pub fn show(&mut self, id: Id, rgba: Rgba, now: u64)
        ensures
            *final(self) == old(self).spec_show(id, rgba, now),
            old(self).current_id == Some(id) ==> final(self).image == Some(
                ViewerImage { id, rgba },
            ),
            old(self).current_id != Some(id) ==> *final(self) == *old(self),
    {
        let matches_target = match &self.current_id {
            Some(current) => current.0 == id.0,
            None => false,
        };
        if matches_target {
            self.image = Some(ViewerImage { id, rgba });
            self.background_fade_in.go_mut(true, now);
            self.image_fade_in.go_mut(true, now);
        }
    }

    /// The state after `close` at `now`: both fades reverse and the target
    /// is cleared; the image stays until the overlay has faded out.
    pub open spec fn spec_close(self, now: u64) -> Viewer {
        Viewer {
            background_fade_in: self.background_fade_in.spec_go(false, now),
            image_fade_in: self.image_fade_in.spec_go(false, now),
            current_id: None,
            ..self
        }
    }

    pub fn close(&mut self, now: u64)
        ensures
            *final(self) == old(self).spec_close(now),
            final(self).current_id is None,
    {
        self.background_fade_in.go_mut(false, now);
        self.image_fade_in.go_mut(false, now);
        self.current_id = None;
    }

    /// Whether the backdrop or the image track is mid-transition at `now`.
    pub open spec fn spec_is_animating(self, now: u64) -> bool {
        self.background_fade_in.spec_is_animating(now) || self.image_fade_in.spec_is_animating(
            now,
        )
    }

    pub fn is_animating(&self, now: u64) -> (b: bool)
        ensures
            b == self.spec_is_animating(now),
    {
        self.background_fade_in.is_animating(now) || self.image_fade_in.is_animating(now)
    }

    /// The state and new target after one navigation step over a list of
    /// `count` images: `Prev` at position 0 and `Next` at the last position
    /// are no-ops; otherwise the position moves by exactly one and the
    /// matching id becomes the target. The displayed image is kept (still
    /// visible, faded) until the new target's decode arrives.
    pub open spec fn spec_navigate(self, direction: Direction, count: int) -> (Viewer, Option<
        Id,
    >) {
        let i = self.current_index->0;
        match direction {
            Direction::Prev => {
                if i == 0 {
                    (self, None)
                } else {
                    let target = Id((i - 1) as u32);
                    (
                        Viewer {
                            current_index: Some((i - 1) as usize),
                            current_id: Some(target),
                            ..self
                        },
                        Some(target),
                    )
                }
            },
            Direction::Next => {
                if i + 1 >= count {
                    (self, None)
                } else {
                    let target = Id((i + 1) as u32);
                    (
                        Viewer {
                            current_index: Some((i + 1) as usize),
                            current_id: Some(target),
                            ..self
                        },
                        Some(target),
                    )
                }
            },
        }
    }

    /// One navigation step; returns the new target when the step moved, for
    /// the caller to issue a fresh full-resolution decode request.
    pub fn navigate(&mut self, direction: Direction, count: usize) -> (target: Option<Id>)
        requires
            old(self).current_index is Some,
            old(self).consistent_with(count as int),
            count <= u32::MAX,
        ensures
            (*final(self), target) == old(self).spec_navigate(direction, count as int),
            final(self).consistent_with(count as int),
            final(self).current_index is Some,
            final(self).image == old(self).image,
            target is None ==> *final(self) == *old(self),
            target is None <==> (match direction {
                Direction::Prev => old(self).current_index->0 == 0,
                Direction::Next => old(self).current_index->0 + 1 == count,
            }),
            target matches Some(t) ==> final(self).current_id == Some(t)
                && final(self).current_index->0 == (match direction {
                Direction::Prev => old(self).current_index->0 - 1,
                Direction::Next => old(self).current_index->0 + 1,
            }),
    {
        let i = self.current_index.unwrap();
        match direction {
            Direction::Prev => {
                if i == 0 {
                    None
                } else {
                    let target = Id((i - 1) as u32);
                    self.current_index = Some(i - 1);
                    self.current_id = Some(target);
                    Some(target)
                }
            },
            Direction::Next => {
                if i + 1 >= count {
                    None
                } else {
                    let target = Id((i + 1) as u32);
                    self.current_index = Some(i + 1);
                    self.current_id = Some(target);
                    Some(target)
                }
            },
        }
    }
}

/// Stale-result rejection: once navigation has retargeted the overlay to
/// `b`, a late completion for a different image `a` changes nothing, and
/// `b`'s completion, whenever it arrives, installs `b`'s pixels.
pub proof fn lemma_stale_result_rejected(
    v: Viewer,
    a: Id,
    b: Id,
    ra: Rgba,
    rb: Rgba,
    t1: u64,
    t2: u64,
)
    requires
        v.current_id == Some(b),
        a != b,
    ensures
        v.spec_show(a, ra, t1) == v,
        v.spec_show(a, ra, t1).spec_show(b, rb, t2).image == Some(ViewerImage { id: b, rgba: rb }),
{
}

/// Closing and immediately reopening for a new target shows no stale frame:
/// the reopened overlay displays nothing until the new decode resolves.
pub proof fn lemma_close_then_open_clears_image(v: Viewer, t1: u64, t2: u64)
    ensures
        v.spec_close(t1).spec_open(t2).image is None,
        v.spec_close(t1).current_id is None,
{
}

} // verus!
