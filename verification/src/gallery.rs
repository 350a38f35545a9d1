//! The gallery controller: sole owner and mutator of the image list, the
//! preview cache and the viewer. Every externally delivered event — a
//! discovery result, a card becoming visible, hover, click, key press,
//! decode completion, clock tick — is handled to completion and answered
//! with the one pipeline action the caller must perform, if any.

use vstd::prelude::*;

use crate::image_data::{Error, Id, Image, Rgba};
use crate::preview::{spec_on_hover, spec_on_visible, Preview, PreviewCache};
use crate::viewer::{Direction, Viewer};

verus! {

/// A key press the controller reacts to while the overlay is open.
#[derive(Debug, Clone, Copy, PartialEq, Eq, Structural)]
pub enum Key {
    ArrowLeft,
    ArrowRight,
    Escape,
    Other,
}

/// An externally delivered event. Every decode completion carries the id it
/// was requested for, so a stale completion can be recognized.
#[derive(Debug)]
pub enum Message {
    ImagesListed(Result<Vec<Image>, Error>),
    ImagePoppedIn(Id),
    ImageDownloaded(Id, Result<Rgba, Error>),
    ThumbnailDownloaded(Id, Result<Rgba, Error>),
    ThumbnailHovered(Id, bool),
    Open(Id),
    Close,
    Animate(u64),
    KeyPressed(Key),
}

/// What the caller must do after an update: nothing, or issue exactly one
/// decode request off the controller thread and deliver its completion back
/// as a message carrying the same id.
#[derive(Debug, Clone, PartialEq)]
pub enum Action {
    Idle,
    DecodeThumbnail { id: Id, path: String },
    DecodeOriginal { id: Id, path: String },
}

/// Ids are a dense 0-based sequence assigned in list order.
pub open spec fn spec_ids_dense(images: Seq<Image>) -> bool {
    forall|i: int| 0 <= i < images.len() ==> (#[trigger] images[i]).id == Id(i as u32)
}

/// Everything but the clock is as it was.
pub open spec fn spec_stable(pre: Gallery, post: Gallery) -> bool {
    &&& post.images == pre.images
    &&& post.previews@ == pre.previews@
    &&& post.viewer == pre.viewer
}

/// The gallery: the ordered image list, the lazily filled preview cache,
/// the full-resolution overlay, and the latest externally supplied clock
/// reading.
pub struct Gallery {
    pub images: Vec<Image>,
    pub previews: PreviewCache,
    pub viewer: Viewer,
    pub now: u64,
}

impl Gallery {
    /// Ids are dense (so an id is also a list position), the cache's
    /// bookkeeping holds, and the viewer's position stays inside the list.
    pub open spec fn wf(self) -> bool {
        &&& self.images@.len() <= u32::MAX
        &&& spec_ids_dense(self.images@)
        &&& self.previews.wf()
        &&& self.viewer.consistent_with(self.images@.len() as int)
    }

    /// An empty gallery: no images yet, nothing cached, overlay closed.
    pub fn new() -> (g: Gallery)
        ensures
            g.wf(),
            g.images@ == Seq::<Image>::empty(),
            g.previews@ == Map::<u32, Preview>::empty(),
            g.viewer == Viewer::spec_new(),
            g.now == 0,
    {
        Gallery {
            images: Vec::new(),
            previews: PreviewCache::new(),
            viewer: Viewer::new(),
            now: 0,
        }
    }

    /// Whether any preview or viewer animation is in flight at `now`; the
    /// rendering layer keeps scheduling frames exactly while this holds.
    pub fn is_animating(&self, now: u64) -> (b: bool)
        requires
            self.wf(),
        ensures
            b == (self.previews.spec_is_animating(now) || self.viewer.spec_is_animating(now)),
    {
        self.previews.is_animating(now) || self.viewer.is_animating(now)
    }

    /// Handle one event to completion and say what, if anything, the caller
    /// must decode next. The contract walks the event kinds one by one:
    /// a discovery result replaces the list and resets cache and overlay; a
    /// first visibility event inserts `Loading` and requests a thumbnail; a
    /// completion installs pixels (the viewer discarding stale ones); hover
    /// retargets the zoom; open and keyboard navigation retarget the
    /// overlay and request full-resolution decodes; close reverses the
    /// fades; a clock tick just advances `now`. Failed requests change
    /// nothing: they degrade silently.
    pub fn update(&mut self, message: Message) -> (action: Action)
        requires
            old(self).wf(),
        ensures
            final(self).wf(),
            final(self).now == (match message {
                Message::Animate(t) => t,
                _ => old(self).now,
            }),
            match message {
                Message::ImagesListed(result) => match result {
                    Ok(images) => {
                        if spec_ids_dense(images@) && images@.len() <= u32::MAX {
                            &&& final(self).images == images
                            &&& final(self).previews@ == Map::<u32, Preview>::empty()
                            &&& final(self).viewer == Viewer::spec_new()
                            &&& action == Action::Idle
                        } else {
                            spec_stable(*old(self), *final(self)) && action == Action::Idle
                        }
                    },
                    Err(_) => spec_stable(*old(self), *final(self)) && action == Action::Idle,
                },
                Message::ImagePoppedIn(id) => {
                    &&& final(self).images == old(self).images
                    &&& final(self).viewer == old(self).viewer
                    &&& if id.0 < old(self).images@.len() {
                        &&& final(self).previews@ == spec_on_visible(old(self).previews@, id).0
                        &&& action == (if spec_on_visible(old(self).previews@, id).1 {
                            Action::DecodeThumbnail {
                                id,
                                path: old(self).images@[id.0 as int].path,
                            }
                        } else {
                            Action::Idle
                        })
                    } else {
                        final(self).previews@ == old(self).previews@ && action == Action::Idle
                    }
                },
                Message::ImageDownloaded(id, result) => match result {
                    Ok(rgba) => {
                        &&& final(self).images == old(self).images
                        &&& final(self).previews@ == old(self).previews@
                        &&& final(self).viewer == old(self).viewer.spec_show(
                            id,
                            rgba,
                            old(self).now,
                        )
                        &&& action == Action::Idle
                    },
                    Err(_) => spec_stable(*old(self), *final(self)) && action == Action::Idle,
                },
                Message::ThumbnailDownloaded(id, result) => match result {
                    Ok(rgba) => {
                        &&& final(self).images == old(self).images
                        &&& final(self).viewer == old(self).viewer
                        &&& final(self).previews@ == old(self).previews@.insert(
                            id.0,
                            Preview::spec_ready(rgba, old(self).now),
                        )
                        &&& action == Action::Idle
                    },
                    Err(_) => spec_stable(*old(self), *final(self)) && action == Action::Idle,
                },
                Message::ThumbnailHovered(id, entered) => {
                    &&& final(self).images == old(self).images
                    &&& final(self).viewer == old(self).viewer
                    &&& final(self).previews@ == spec_on_hover(
                        old(self).previews@,
                        id,
                        entered,
                        old(self).now,
                    )
                    &&& action == Action::Idle
                },
                Message::Open(id) => {
                    &&& final(self).images == old(self).images
                    &&& final(self).previews@ == old(self).previews@
                    &&& if id.0 < old(self).images@.len() {
                        &&& final(self).viewer == (Viewer {
                            current_id: Some(id),
                            current_index: Some(id.0 as usize),
                            ..old(self).viewer.spec_open(old(self).now)
                        })
                        &&& action == (Action::DecodeOriginal {
                            id,
                            path: old(self).images@[id.0 as int].path,
                        })
                    } else {
                        final(self).viewer == old(self).viewer && action == Action::Idle
                    }
                },
                Message::Close => {
                    &&& final(self).images == old(self).images
                    &&& final(self).previews@ == old(self).previews@
                    &&& final(self).viewer == old(self).viewer.spec_close(old(self).now)
                    &&& action == Action::Idle
                },
                Message::Animate(_) => spec_stable(*old(self), *final(self)) && action
                    == Action::Idle,
                Message::KeyPressed(key) => {
                    &&& final(self).images == old(self).images
                    &&& final(self).previews@ == old(self).previews@
                    &&& if !old(self).viewer.spec_is_open(old(self).now) {
                        final(self).viewer == old(self).viewer && action == Action::Idle
                    } else {
                        match key {
                            Key::Escape => final(self).viewer == old(self).viewer.spec_close(
                                old(self).now,
                            ) && action == Action::Idle,
                            Key::ArrowLeft | Key::ArrowRight => {
                                let direction = (if key == Key::ArrowLeft {
                                    Direction::Prev
                                } else {
                                    Direction::Next
                                });
                                if old(self).viewer.current_index is Some {
                                    let step = old(self).viewer.spec_navigate(
                                        direction,
                                        old(self).images@.len() as int,
                                    );
                                    &&& final(self).viewer == step.0
                                    &&& action == (match step.1 {
                                        Some(target) => Action::DecodeOriginal {
                                            id: target,
                                            path: old(self).images@[target.0 as int].path,
                                        },
                                        None => Action::Idle,
                                    })
                                } else {
                                    final(self).viewer == old(self).viewer && action
                                        == Action::Idle
                                }
                            },
                            Key::Other => final(self).viewer == old(self).viewer && action
                                == Action::Idle,
                        }
                    }
                },
            },
    {
        match message {
            Message::ImagesListed(result) => {
                match result {
                    Ok(images) => {
                        if ids_dense(&images) {
                            self.images = images;
                            self.previews = PreviewCache::new();
                            self.viewer = Viewer::new();
                        }
                    },
                    Err(_) => {},
                }
                Action::Idle
            },
            Message::ImagePoppedIn(id) => {
                if (id.0 as usize) < self.images.len() {
                    let requested = self.previews.on_visible(id);
                    if requested {
                        let path = self.images[id.0 as usize].path.clone();
                        Action::DecodeThumbnail { id, path }
                    } else {
                        Action::Idle
                    }
                } else {
                    Action::Idle
                }
            },
            Message::ImageDownloaded(id, result) => {
                match result {
                    Ok(rgba) => {
                        let now = self.now;
                        self.viewer.show(id, rgba, now);
                    },
                    Err(_) => {},
                }
                Action::Idle
            },
            Message::ThumbnailDownloaded(id, result) => {
                match result {
                    Ok(rgba) => {
                        let now = self.now;
                        self.previews.on_decoded(id, rgba, now);
                    },
                    Err(_) => {},
                }
                Action::Idle
            },
            Message::ThumbnailHovered(id, entered) => {
                let now = self.now;
                self.previews.on_hover(id, entered, now);
                Action::Idle
            },
            Message::Open(id) => {
                if (id.0 as usize) < self.images.len() {
                    let now = self.now;
                    self.viewer.open(now);
                    self.viewer.set_current_id(Some(id));
                    self.viewer.set_current_index(Some(id.0 as usize));
                    let path = self.images[id.0 as usize].path.clone();
                    Action::DecodeOriginal { id, path }
                } else {
                    Action::Idle
                }
            },
            Message::Close => {
                let now = self.now;
                self.viewer.close(now);
                Action::Idle
            },
            Message::Animate(t) => {
                self.now = t;
                Action::Idle
            },
            Message::KeyPressed(key) => {
                let now = self.now;
                if !self.viewer.is_open(now) {
                    return Action::Idle;
                }
                match key {
                    Key::Escape => {
                        self.viewer.close(now);
                        Action::Idle
                    },
                    Key::ArrowLeft | Key::ArrowRight => {
                        let direction = if matches!(key, Key::ArrowLeft) {
                            Direction::Prev
                        } else {
                            Direction::Next
                        };
                        match self.viewer.current_index() {
                            Some(_) => {
                                let count = self.images.len();
                                let target = self.viewer.navigate(direction, count);
                                match target {
                                    Some(t) => {
                                        let path = self.images[t.0 as usize].path.clone();
                                        Action::DecodeOriginal { id: t, path }
                                    },
                                    None => Action::Idle,
                                }
                            },
                            None => Action::Idle,
                        }
                    },
                    Key::Other => Action::Idle,
                }
            },
        }
    }
}

/// Executable check that a delivered list carries dense 0-based ids.
fn ids_dense(images: &Vec<Image>) -> (b: bool)
    ensures
        b == (spec_ids_dense(images@) && images@.len() <= u32::MAX),
{
    if images.len() > u32::MAX as usize {
        return false;
    }
    let mut i: usize = 0;
    while i < images.len()
        invariant
            i <= images@.len(),
            images@.len() <= u32::MAX,
            forall|j: int| 0 <= j < i ==> (#[trigger] images@[j]).id == Id(j as u32),
        decreases images@.len() - i,
    {
        if images[i].id.0 as usize != i {
            return false;
        }
        i = i + 1;
    }
    true
}

} // verus!
