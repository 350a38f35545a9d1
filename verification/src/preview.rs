//! Per-image thumbnail lifecycle and the lazily populated preview cache: an
//! entry exists exactly for the images whose decode has been requested (or
//! delivered), `Loading` until the pixels arrive, `Ready` afterwards.

use std::collections::HashMap;
use vstd::prelude::*;

use crate::anim::{Animation, Easing, QUICK_MS};
use crate::image_data::{Id, Rgba};

verus! {

broadcast use vstd::std_specs::hash::group_hash_axioms;

/// A decoded thumbnail with its two independent animation tracks: a
/// one-shot fade-in started at construction, and a hover zoom that toggles
/// back and forth.
#[derive(Debug, Clone)]
pub struct Thumbnail {
    pub rgba: Rgba,
    pub fade_in: Animation,
    pub zoom: Animation,
}

impl Thumbnail {
    /// The thumbnail built from a decode result delivered at `now`: the
    /// fade-in track transitions to shown immediately, the zoom track is at
    /// rest.
    pub open spec fn spec_new(rgba: Rgba, now: u64) -> Thumbnail {
        Thumbnail {
            rgba,
            fade_in: Animation {
                target: true,
                transitioned: true,
                start: now,
                duration: QUICK_MS,
                easing: Easing::Linear,
            },
            zoom: Animation {
                target: false,
                transitioned: false,
                start: 0,
                duration: QUICK_MS,
                easing: Easing::EaseInOut,
            },
        }
    }

    /// Bundle a decoded pixel buffer with freshly started animation tracks.
    pub fn new(rgba: Rgba, now: u64) -> (t: Thumbnail)
        ensures
            t == Thumbnail::spec_new(rgba, now),
    {
        Thumbnail {
            rgba,
            fade_in: Animation::new(false).go(true, now),
            zoom: Animation::new(false).easing(Easing::EaseInOut),
        }
    }
}

/// The lifecycle of one image's thumbnail: requested but not yet delivered,
/// or decoded and animating in.
#[derive(Debug, Clone)]
pub enum Preview {
    Loading,
    Ready { thumbnail: Thumbnail },
}

impl Preview {
    /// Width of the box a thumbnail decode must fit in.
    pub const WIDTH: u32 = 360;

    /// Height of the box a thumbnail decode must fit in.
    pub const HEIGHT: u32 = 360;

    /// The entry installed when a decode result arrives at `now`.
    pub open spec fn spec_ready(rgba: Rgba, now: u64) -> Preview {
        Preview::Ready { thumbnail: Thumbnail::spec_new(rgba, now) }
    }

    /// A `Ready` entry for a decode result delivered at `now`.
    pub fn ready(rgba: Rgba, now: u64) -> (p: Preview)
        ensures
            p == Preview::spec_ready(rgba, now),
    {
        Preview::Ready { thumbnail: Thumbnail::new(rgba, now) }
    }

    /// Replace (never merge) this entry with the freshly delivered decode
    /// result.
    pub fn load(self, rgba: Rgba, now: u64) -> (p: Preview)
        ensures
            p == Preview::spec_ready(rgba, now),
    {
        Preview::Ready { thumbnail: Thumbnail::new(rgba, now) }
    }

    /// The entry after a hover change: only a `Ready` thumbnail reacts, by
    /// retargeting its zoom track.
    pub open spec fn spec_toggle_zoom(self, enabled: bool, now: u64) -> Preview {
        match self {
            Preview::Loading => self,
            Preview::Ready { thumbnail } => Preview::Ready {
                thumbnail: Thumbnail { zoom: thumbnail.zoom.spec_go(enabled, now), ..thumbnail },
            },
        }
    }

    /// React to the pointer entering (`enabled`) or leaving the card.
    pub fn toggle_zoom(&mut self, enabled: bool, now: u64)
        ensures
            *final(self) == old(self).spec_toggle_zoom(enabled, now),
    {
        match self {
            Preview::Loading => {},
            Preview::Ready { thumbnail } => {
                thumbnail.zoom.go_mut(enabled, now);
            },
        }
    }

    /// Whether either animation track of this entry is in flight at `now`;
    /// a `Loading` entry never animates.
    pub open spec fn spec_is_animating(self, now: u64) -> bool {
        match self {
            Preview::Loading => false,
            Preview::Ready { thumbnail } => thumbnail.fade_in.spec_is_animating(now)
                || thumbnail.zoom.spec_is_animating(now),
        }
    }

    /// Executable counterpart of `spec_is_animating`.
    pub fn is_animating(&self, now: u64) -> (b: bool)
        ensures
            b == self.spec_is_animating(now),
    {
        match self {
            Preview::Loading => false,
            Preview::Ready { thumbnail } => thumbnail.fade_in.is_animating(now)
                || thumbnail.zoom.is_animating(now),
        }
    }
}

/// Hovering over a thumbnail that has not been delivered yet changes
/// nothing at all.
pub proof fn lemma_hover_on_loading_is_noop(p: Preview, enabled: bool, now: u64)
    requires
        p is Loading,
    ensures
        p.spec_toggle_zoom(enabled, now) == p,
{
}

/// A thumbnail's fade-in starts at construction and is in flight exactly
/// until one full duration has passed; from then on it is at steady state.
pub proof fn lemma_fade_in_steady_state(rgba: Rgba, created: u64, now: u64)
    ensures
        Thumbnail::spec_new(rgba, created).fade_in.target,
        Thumbnail::spec_new(rgba, created).fade_in.spec_is_animating(now) <==> created <= now
            < created + QUICK_MS,
{
}

/// What one visibility event does to the cache contents: the first event
/// for an id inserts `Loading` and requests a decode (`true`); any later
/// event leaves the cache alone and requests nothing (`false`).
pub open spec fn spec_on_visible(m: Map<u32, Preview>, id: Id) -> (Map<u32, Preview>, bool) {
    if m.contains_key(id.0) {
        (m, false)
    } else {
        (m.insert(id.0, Preview::Loading), true)
    }
}

/// What one hover event does to the cache contents: only a present entry
/// is touched, and only a `Ready` one changes.
pub open spec fn spec_on_hover(m: Map<u32, Preview>, id: Id, entered: bool, now: u64) -> Map<
    u32,
    Preview,
> {
    if m.contains_key(id.0) {
        m.insert(id.0, m[id.0].spec_toggle_zoom(entered, now))
    } else {
        m
    }
}

/// A second visibility event for the same id right after a first one never
/// issues another decode request, and leaves the cache as the first event
/// left it.
pub proof fn lemma_on_visible_idempotent(m: Map<u32, Preview>, id: Id)
    ensures
        spec_on_visible(spec_on_visible(m, id).0, id) == (spec_on_visible(m, id).0, false),
{
    if !m.contains_key(id.0) {
        assert(spec_on_visible(m, id).0.contains_key(id.0));
    }
}

/// Round trip: installing a thumbnail decode result — which fits the
/// thumbnail box, by the decode contract — always yields a `Ready` entry
/// whose stored dimensions stay within the box and whose fade-in has
/// started.
pub proof fn lemma_thumbnail_round_trip(rgba: Rgba, now: u64)
    requires
        rgba.wf(),
        rgba.width <= Preview::WIDTH,
        rgba.height <= Preview::HEIGHT,
    ensures
        Preview::spec_ready(rgba, now) matches Preview::Ready { thumbnail } && thumbnail.rgba.wf()
            && thumbnail.rgba.width <= Preview::WIDTH && thumbnail.rgba.height <= Preview::HEIGHT
            && thumbnail.fade_in.target && thumbnail.fade_in.start == now,
{
}

/// Appending a fresh key to a key list adds exactly that key to the set of
/// keys.
proof fn lemma_to_set_push(s: Seq<u32>, x: u32)
    ensures
        s.push(x).to_set() == s.to_set().insert(x),
{
    assert forall|a: u32| s.push(x).to_set().contains(a) implies s.to_set().insert(x).contains(
        a,
    ) by {
        if a != x {
            let i = choose|i: int| 0 <= i < s.push(x).len() && s.push(x)[i] == a;
            assert(s[i] == a);
        }
    }
    assert forall|a: u32| s.to_set().insert(x).contains(a) implies s.push(x).to_set().contains(
        a,
    ) by {
        if a == x {
            assert(s.push(x)[s.len() as int] == a);
        } else {
            let i = choose|i: int| 0 <= i < s.len() && s[i] == a;
            assert(s.push(x)[i] == a);
        }
    }
    assert(s.push(x).to_set() =~= s.to_set().insert(x));
}

/// The preview cache: one entry per image whose thumbnail decode has been
/// requested, keyed by the image's dense id. Its view is the map from id to
/// lifecycle entry.
pub struct PreviewCache {
    entries: HashMap<u32, Preview>,
    /// The keys of `entries`, in insertion order, for iteration.
    ids: Vec<u32>,
}

impl View for PreviewCache {
    type V = Map<u32, Preview>;

    closed spec fn view(&self) -> Map<u32, Preview> {
        self.entries@
    }
}

impl PreviewCache {
    /// The key list mirrors the map's domain exactly.
    pub closed spec fn wf(self) -> bool {
        &&& self.ids@.no_duplicates()
        &&& self.ids@.to_set() == self.entries@.dom()
    }

    /// An empty cache: nothing requested yet.
    pub fn new() -> (cache: PreviewCache)
        ensures
            cache.wf(),
            cache@ == Map::<u32, Preview>::empty(),
    {
        let cache = PreviewCache { entries: HashMap::new(), ids: Vec::new() };
        proof {
            assert(cache.ids@.to_set() =~= cache.entries@.dom());
        }
        cache
    }

    /// A card for `id` became visible: on the first such event insert a
    /// `Loading` entry and ask the caller to issue a thumbnail decode
    /// request; on every later one do nothing.
    pub fn on_visible(&mut self, id: Id) -> (requested: bool)
        requires
            old(self).wf(),
        ensures
            final(self).wf(),
            (final(self)@, requested) == spec_on_visible(old(self)@, id),
            requested == !old(self)@.contains_key(id.0),
    {
        if self.entries.contains_key(&id.0) {
            false
        } else {
            self.entries.insert(id.0, Preview::Loading);
            proof {
                assert(!self.ids@.contains(id.0));
                lemma_to_set_push(self.ids@, id.0);
            }
            self.ids.push(id.0);
            true
        }
    }

    /// A thumbnail decode result for `id` arrived at `now`: replace (or,
    /// if visibility tracking was bypassed, insert) the entry with a
    /// `Ready` thumbnail whose fade-in starts immediately.
    pub fn on_decoded(&mut self, id: Id, rgba: Rgba, now: u64)
        requires
            old(self).wf(),
        ensures
            final(self).wf(),
            final(self)@ == old(self)@.insert(id.0, Preview::spec_ready(rgba, now)),
    {
        let removed = self.entries.remove(&id.0);
        let had_entry = removed.is_some();
        let entry = match removed {
            Some(preview) => preview.load(rgba, now),
            None => Preview::ready(rgba, now),
        };
        self.entries.insert(id.0, entry);
        if !had_entry {
            proof {
                assert(!self.ids@.contains(id.0));
                lemma_to_set_push(self.ids@, id.0);
            }
            self.ids.push(id.0);
        }
        proof {
            assert(self.entries@ =~= old(self)@.insert(id.0, Preview::spec_ready(rgba, now)));
            assert(self.ids@.to_set() =~= self.entries@.dom());
        }
    }

    /// The pointer entered (`entered`) or left the card for `id`: a `Ready`
    /// entry retargets its zoom track; a `Loading` or missing entry is left
    /// untouched.
    pub fn on_hover(&mut self, id: Id, entered: bool, now: u64)
        requires
            old(self).wf(),
        ensures
            final(self).wf(),
            final(self)@ == spec_on_hover(old(self)@, id, entered, now),
    {
        match self.entries.remove(&id.0) {
            Some(mut preview) => {
                preview.toggle_zoom(entered, now);
                self.entries.insert(id.0, preview);
                proof {
                    assert(self.entries@ =~= spec_on_hover(old(self)@, id, entered, now));
                    assert(self.ids@.to_set() =~= self.entries@.dom());
                }
            },
            None => {
                proof {
                    assert(self.entries@ =~= old(self)@);
                }
            },
        }
    }

    /// The entry for `id`, if its decode has been requested or delivered.
    pub fn get(&self, id: Id) -> (p: Option<&Preview>)
        ensures
            match p {
                Some(preview) => self@.contains_key(id.0) && *preview == self@[id.0],
                None => !self@.contains_key(id.0),
            },
    {
        self.entries.get(&id.0)
    }

    /// Whether any entry has an animation in flight at `now`.
    pub open spec fn spec_is_animating(self, now: u64) -> bool {
        exists|k: u32| self@.contains_key(k) && self@[k].spec_is_animating(now)
    }

    /// Executable counterpart of `spec_is_animating`: scans every entry.
    pub fn is_animating(&self, now: u64) -> (b: bool)
        requires
            self.wf(),
        ensures
            b == self.spec_is_animating(now),
    {
        let mut i: usize = 0;
        while i < self.ids.len()
            invariant
                self.wf(),
                i <= self.ids@.len(),
                forall|j: int|
                    0 <= j < i ==> !self@[#[trigger] self.ids@[j]].spec_is_animating(now),
            decreases self.ids@.len() - i,
        {
            let id = self.ids[i];
            proof {
                assert(self.ids@.to_set().contains(id));
            }
            let preview = self.entries.get(&id);
            match preview {
                Some(p) => {
                    if p.is_animating(now) {
                        proof {
                            assert(self@.contains_key(id) && self@[id] == *p);
                        }
                        return true;
                    }
                },
                None => {
                    proof {
                        assert(false);
                    }
                },
            }
            i = i + 1;
        }
        proof {
            if self.spec_is_animating(now) {
                let k = choose|k: u32| self@.contains_key(k) && self@[k].spec_is_animating(now);
                assert(self.ids@.to_set().contains(k));
                let j = choose|j: int| 0 <= j < self.ids@.len() && self.ids@[j] == k;
                assert(!self@[self.ids@[j]].spec_is_animating(now));
            }
        }
        false
    }
}

} // verus!
