//! The event-loop scheduler's verifiable core: a registry that owns one
//! window per live window id, routing of window-system events to the right
//! window, the process-wide exit flag, the aggregated wake target, and the
//! idle pass that decides between redrawing, sleeping until a deadline, and
//! sleeping indefinitely.
//!
//! The caller runs the actual OS loop: it receives events, performs drawing
//! and decoding, and hands this module plain values; every decision — who
//! gets the event, when to wake, when to stop — is made and proved here.

use vstd::prelude::*;

use crate::picture_widget::DecodeError;
use crate::picture_widget::PictureWidget;
use crate::picture_widget::TextureHandle;
use crate::picture_widget::WidgetEvent;
use crate::picture_widget::resolved_texture;
use crate::picture_widget::resolved_widget;
use crate::picture_widget::spec_pending_path;
use crate::picture_widget::spec_resident;
use crate::picture_widget::widget_after;
use crate::schedule::WakeRequest;
use crate::schedule::aggregate_control_flow;
use crate::schedule::combine;
use crate::schedule::fold_wake;
use crate::schedule::fold_wake_requests;
use crate::schedule::normalize_control_flow;
use crate::schedule::normalized;

verus! {

/// One window-system event, already routed to a window id by the caller.
pub enum WindowEventKind {
    /// The OS asks the window to repaint now.
    RedrawRequested,
    /// The user asked to close the window; the whole application exits at
    /// the next idle pass.
    CloseRequested,
    /// The OS destroyed the window; it leaves the registry after this event.
    Destroyed,
    /// Anything the window forwards to its widget.
    Widget(WidgetEvent),
}

/// A live window: its OS identity, its picture widget, and whether it has
/// nothing time-driven pending (so the loop may sleep).
pub struct Window {
    pub id: u64,
    pub widget: PictureWidget,
    pub should_sleep: bool,
}

impl Window {
    pub fn new(id: u64) -> (r: Window)
        ensures
            r.id == id,
            r.widget == (PictureWidget {
                click: false,
                hover: false,
                image_texture: None,
                rendered_valid: false,
            }),
            r.should_sleep,
    {
        Window { id, widget: PictureWidget::new(), should_sleep: true }
    }
}

/// A window after one routed event: a redraw marks its rendering valid, a
/// widget event updates the widget, everything else leaves it unchanged
/// (destruction removes the whole window instead).
pub open spec fn window_after_route(w: Window, kind: WindowEventKind) -> Window {
    match kind {
        WindowEventKind::RedrawRequested => Window {
            widget: PictureWidget { rendered_valid: true, ..w.widget },
            ..w
        },
        WindowEventKind::CloseRequested => w,
        WindowEventKind::Destroyed => w,
        WindowEventKind::Widget(ev) => Window { widget: widget_after(w.widget, ev), ..w },
    }
}

/// The ids of the windows whose rendering is no longer valid, in registry
/// order; each needs a redraw requested for it.
pub open spec fn dirty_ids(s: Seq<Window>) -> Seq<u64>
    decreases s.len(),
{
    if s.len() == 0 {
        Seq::empty()
    } else {
        dirty_ids(s.drop_last()) + if !s.last().widget.rendered_valid {
            seq![s.last().id]
        } else {
            Seq::empty()
        }
    }
}

/// What the idle pass decided: terminate the loop now, or keep running after
/// requesting a redraw for each listed window.
pub enum IdleOutcome {
    Exit,
    Continue(Vec<u64>),
}

/// The scheduler state: the registry owning every live window, the
/// process-wide exit flag, and the current aggregated wake target (the
/// mirror of the OS-level sleep target).
pub struct Application {
    pub windows: Vec<Window>,
    pub exit_requested: bool,
    pub control: WakeRequest,
}

impl Application {
    /// Registry invariant: exactly one entry per live window id.
    pub open spec fn wf(&self) -> bool {
        forall|i: int, j: int|
            0 <= i < j < self.windows@.len() ==> #[trigger] self.windows@[i].id
                != #[trigger] self.windows@[j].id
    }

    /// Whether a window with this id is tracked.
    pub open spec fn has_window(&self, id: u64) -> bool {
        exists|i: int| 0 <= i < self.windows@.len() && #[trigger] self.windows@[i].id == id
    }

    /// The registry index of the window with this id.
    pub open spec fn window_index(&self, id: u64) -> int {
        choose|i: int| 0 <= i < self.windows@.len() && #[trigger] self.windows@[i].id == id
    }

    /// The tracked window with this id.
    pub open spec fn spec_window(&self, id: u64) -> Window {
        self.windows@[self.window_index(id)]
    }

    pub fn new() -> (r: Application)
        ensures
            r.windows@.len() == 0,
            !r.exit_requested,
            r.control == WakeRequest::Wait,
            r.wf(),
    {
        Application { windows: Vec::new(), exit_requested: false, control: WakeRequest::Wait }
    }

    /// Whether a window with this id is tracked.
    pub fn contains_window(&self, id: u64) -> (r: bool)
        ensures
            r == self.has_window(id),
    {
        let mut i: usize = 0;
        while i < self.windows.len()
            invariant
                0 <= i <= self.windows@.len(),
                forall|j: int| 0 <= j < i ==> #[trigger] self.windows@[j].id != id,
            decreases self.windows@.len() - i,
        {
            if self.windows[i].id == id {
                return true;
            }
            i = i + 1;
        }
        false
    }

    /// The registry index of the tracked window with this id.
    fn find_window(&self, id: u64) -> (idx: usize)
        requires
            self.wf(),
            self.has_window(id),
        ensures
            idx < self.windows@.len(),
            self.windows@[idx as int].id == id,
            idx as int == self.window_index(id),
    {
        let mut i: usize = 0;
        while i < self.windows.len()
            invariant
                self.wf(),
                self.has_window(id),
                0 <= i <= self.windows@.len(),
                forall|j: int| 0 <= j < i ==> #[trigger] self.windows@[j].id != id,
            decreases self.windows@.len() - i,
        {
            if self.windows[i].id == id {
                proof {
                    let k = self.window_index(id);
                    assert(0 <= k < self.windows@.len() && self.windows@[k].id == id);
                    if k < i as int {
                        assert(self.windows@[k].id != self.windows@[i as int].id);
                    }
                    if k > i as int {
                        assert(self.windows@[i as int].id != self.windows@[k].id);
                    }
                }
                return i;
            }
            i = i + 1;
        }
        proof {
            let k = choose|k: int|
                0 <= k < self.windows@.len() && #[trigger] self.windows@[k].id == id;
            assert(self.windows@[k].id == id);
            assert(false);
        }
        0
    }

    /// Takes ownership of a window for the time between registration and its
    /// OS-reported destruction. Ids are never reused while a window is
    /// tracked, so the id must not be tracked yet.
    pub fn register_window(&mut self, window: Window)
        requires
            old(self).wf(),
            !old(self).has_window(window.id),
        ensures
            final(self).wf(),
            final(self).windows@ == old(self).windows@.push(window),
            final(self).has_window(window.id),
            final(self).exit_requested == old(self).exit_requested,
            final(self).control == old(self).control,
    {
        let ghost wid = window.id;
        self.windows.push(window);
        proof {
            assert(self.windows@.last().id == wid);
            assert forall|i: int, j: int| 0 <= i < j < self.windows@.len() implies #[trigger] self
                .windows@[i].id != #[trigger] self.windows@[j].id by {
                if j < self.windows@.len() - 1 {
                    assert(old(self).windows@[i].id != old(self).windows@[j].id);
                } else {
                    assert(old(self).windows@[i].id == self.windows@[i].id);
                    if self.windows@[i].id == wid {
                        assert(old(self).has_window(wid));
                    }
                }
            }
        }
    }

    /// Re-normalizes the stored wake target against the current time; run at
    /// the top of every loop iteration, because time has moved since the
    /// target was set.
    pub fn begin_iteration(&mut self, now_micros: u64)
        ensures
            final(self).control == normalized(old(self).control, now_micros),
            final(self).windows == old(self).windows,
            final(self).exit_requested == old(self).exit_requested,
    {
        self.control = normalize_control_flow(self.control, now_micros);
    }

    /// Absorbs the wake requests one pass of global event handlers reported,
    /// most urgent winning; a less urgent report never weakens the target.
    pub fn absorb_wake_requests(&mut self, reqs: &Vec<WakeRequest>)
        ensures
            final(self).control == fold_wake(old(self).control, reqs@),
            final(self).windows == old(self).windows,
            final(self).exit_requested == old(self).exit_requested,
    {
        self.control = fold_wake_requests(self.control, reqs);
    }

    /// Routes one window-system event to the window that owns the id, after
    /// the global handlers have seen it:
    /// a redraw request marks the window's rendering valid and absorbs the
    /// wake request its draw reported (`redraw_report`; pass `Wait`
    /// otherwise); a close request sets the process-wide exit flag, checked
    /// at the next idle pass; a destruction event removes the window from
    /// the registry after the event, releasing everything it owned; a widget
    /// event updates the window's widget.
    ///
    /// An id the registry does not track is a programming error, not a
    /// runtime condition: the caller must check before dispatching and fail
    /// loudly.
    pub fn route_window_event(&mut self, id: u64, kind: WindowEventKind, redraw_report: WakeRequest)
        requires
            old(self).wf(),
            old(self).has_window(id),
        ensures
            final(self).wf(),
            final(self).exit_requested == (old(self).exit_requested || kind is CloseRequested),
            final(self).control == (if kind is RedrawRequested {
                combine(old(self).control, redraw_report)
            } else {
                old(self).control
            }),
            (if kind is Destroyed {
                final(self).windows@ == old(self).windows@.remove(old(self).window_index(id))
            } else {
                final(self).windows@ == old(self).windows@.update(
                    old(self).window_index(id),
                    window_after_route(old(self).spec_window(id), kind),
                )
            }),
            kind is Destroyed ==> !final(self).has_window(id),
    {
        let idx = self.find_window(id);
        let ghost before = *self;
        match kind {
            WindowEventKind::RedrawRequested => {
                let w = &mut self.windows[idx];
                w.widget.rendered_valid = true;
                let (next, _) = aggregate_control_flow(self.control, redraw_report);
                self.control = next;
            },
            WindowEventKind::CloseRequested => {
                self.exit_requested = true;
                proof {
                    assert(self.windows@ =~= before.windows@.update(
                        idx as int,
                        window_after_route(before.spec_window(id), kind),
                    ));
                }
            },
            WindowEventKind::Destroyed => {
                let _removed = self.windows.remove(idx);
                proof {
                    assert forall|i: int, j: int|
                        0 <= i < j < self.windows@.len() implies #[trigger] self.windows@[i].id
                        != #[trigger] self.windows@[j].id by {
                        let bi = if i < idx as int { i } else { i + 1 };
                        let bj = if j < idx as int { j } else { j + 1 };
                        assert(self.windows@[i] == before.windows@[bi]);
                        assert(self.windows@[j] == before.windows@[bj]);
                    }
                    assert forall|i: int| 0 <= i < self.windows@.len() implies #[trigger] self
                        .windows@[i].id != id by {
                        let bi = if i < idx as int { i } else { i + 1 };
                        assert(self.windows@[i] == before.windows@[bi]);
                    }
                }
            },
            WindowEventKind::Widget(ev) => {
                let w = &mut self.windows[idx];
                w.widget.handle_event(ev);
            },
        }
        proof {
            if !(kind is Destroyed) {
                assert forall|i: int, j: int|
                    0 <= i < j < self.windows@.len() implies #[trigger] self.windows@[i].id
                    != #[trigger] self.windows@[j].id by {
                    assert(before.windows@[i].id != before.windows@[j].id);
                }
            }
        }
    }

    /// The path whose decode the window's picture still awaits, if any; the
    /// caller decodes and uploads it, then hands the outcome to
    /// [`Application::draw_window_picture`].
    pub fn pending_picture_path(&self, id: u64) -> (r: Option<String>)
        requires
            self.wf(),
            self.has_window(id),
        ensures
            match r {
                Some(p) => spec_pending_path(self.spec_window(id).widget) == Some(p@),
                None => spec_pending_path(self.spec_window(id).widget) is None,
            },
    {
        let idx = self.find_window(id);
        self.windows[idx].widget.pending_path()
    }

    /// Draws one window's picture: resolves the resource from the outside
    /// decode-and-upload outcome (present exactly when a decode was
    /// pending), marks the window's rendering valid, and returns the texture
    /// the renderer uses this frame — the resident handle unchanged when no
    /// decode was needed, nothing after a failed decode.
    pub fn draw_window_picture(
        &mut self,
        id: u64,
        upload: Option<Result<TextureHandle, DecodeError>>,
    ) -> (r: Option<TextureHandle>)
        requires
            old(self).wf(),
            old(self).has_window(id),
            (spec_pending_path(old(self).spec_window(id).widget) is Some) <==> (upload is Some),
        ensures
            final(self).wf(),
            final(self).windows@ == old(self).windows@.update(
                old(self).window_index(id),
                (Window {
                    widget: PictureWidget {
                        rendered_valid: true,
                        ..resolved_widget(old(self).spec_window(id).widget, upload)
                    },
                    ..old(self).spec_window(id)
                }),
            ),
            r == resolved_texture(old(self).spec_window(id).widget, upload),
            final(self).exit_requested == old(self).exit_requested,
            final(self).control == old(self).control,
    {
        let idx = self.find_window(id);
        let ghost before = *self;
        let w = &mut self.windows[idx];
        let r = w.widget.draw(upload);
        proof {
            assert forall|i: int, j: int|
                0 <= i < j < self.windows@.len() implies #[trigger] self.windows@[i].id
                != #[trigger] self.windows@[j].id by {
                assert(before.windows@[i].id != before.windows@[j].id);
            }
        }
        r
    }

    /// Records the outcome of one window's periodic maintenance (advancing
    /// playback and the like, done outside): whether the window now objects
    /// to sleeping, and whether maintenance invalidated its rendering.
    pub fn note_maintenance(&mut self, id: u64, should_sleep: bool, needs_redraw: bool)
        requires
            old(self).wf(),
            old(self).has_window(id),
        ensures
            final(self).wf(),
            final(self).windows@ == old(self).windows@.update(
                old(self).window_index(id),
                (Window {
                    should_sleep,
                    widget: PictureWidget {
                        rendered_valid: old(self).spec_window(id).widget.rendered_valid
                            && !needs_redraw,
                        ..old(self).spec_window(id).widget
                    },
                    ..old(self).spec_window(id)
                }),
            ),
            final(self).exit_requested == old(self).exit_requested,
            final(self).control == old(self).control,
    {
        let idx = self.find_window(id);
        let ghost before = *self;
        let w = &mut self.windows[idx];
        w.should_sleep = should_sleep;
        if needs_redraw {
            w.widget.rendered_valid = false;
        }
        proof {
            assert forall|i: int, j: int|
                0 <= i < j < self.windows@.len() implies #[trigger] self.windows@[i].id
                != #[trigger] self.windows@[j].id by {
                assert(before.windows@[i].id != before.windows@[j].id);
            }
        }
    }

    /// The idle pass, run on the "about to sleep" pulse once every live
    /// window's maintenance has been recorded. If the exit flag is set the
    /// loop terminates immediately, skipping further idle work. Otherwise
    /// every dirty window is listed for an immediate redraw and the wake
    /// target is forced to "as soon as possible"; if instead no window
    /// objects to sleeping, the target relaxes to "wait indefinitely" —
    /// unless a component already demanded a timed wake, which is never
    /// weakened.
    pub fn idle_pass(&mut self) -> (r: IdleOutcome)
        ensures
            final(self).windows == old(self).windows,
            final(self).exit_requested == old(self).exit_requested,
            old(self).exit_requested ==> r is Exit && final(self).control == old(self).control,
            !old(self).exit_requested ==> {
                &&& r matches IdleOutcome::Continue(ids) && ids@ == dirty_ids(old(self).windows@)
                &&& final(self).control == {
                    if exists|i: int|
                        0 <= i < old(self).windows@.len() && !(#[trigger] old(
                            self,
                        ).windows@[i]).widget.rendered_valid {
                        WakeRequest::Poll
                    } else if (forall|i: int|
                        0 <= i < old(self).windows@.len() ==> (#[trigger] old(
                            self,
                        ).windows@[i]).should_sleep) && !(old(self).control is WaitUntil) {
                        WakeRequest::Wait
                    } else {
                        old(self).control
                    }
                }
            },
    {
        if self.exit_requested {
            return IdleOutcome::Exit;
        }
        let mut ids: Vec<u64> = Vec::new();
        let mut all_sleep = true;
        let mut any_dirty = false;
        let mut i: usize = 0;
        proof {
            assert(self.windows@.take(0).len() == 0);
        }
        while i < self.windows.len()
            invariant
                0 <= i <= self.windows@.len(),
                *self == *old(self),
                ids@ == dirty_ids(self.windows@.take(i as int)),
                all_sleep == (forall|j: int|
                    0 <= j < i ==> (#[trigger] self.windows@[j]).should_sleep),
                any_dirty == (exists|j: int|
                    0 <= j < i && !(#[trigger] self.windows@[j]).widget.rendered_valid),
            decreases self.windows@.len() - i,
        {
            proof {
                assert(self.windows@.take(i + 1 as int).drop_last() =~= self.windows@.take(
                    i as int,
                ));
                assert(self.windows@.take(i + 1 as int).last() == self.windows@[i as int]);
            }
            let w = &self.windows[i];
            if !w.widget.rendered_valid {
                ids.push(w.id);
                any_dirty = true;
            }
            if !w.should_sleep {
                all_sleep = false;
            }
            i = i + 1;
        }
        proof {
            assert(self.windows@.take(self.windows@.len() as int) =~= self.windows@);
        }
        if any_dirty {
            self.control = WakeRequest::Poll;
        } else {
            let timed = match self.control {
                WakeRequest::WaitUntil(_) => true,
                _ => false,
            };
            if all_sleep && !timed {
                self.control = WakeRequest::Wait;
            }
        }
        IdleOutcome::Continue(ids)
    }
}

/// Sets the process-wide exit flag; the loop terminates at its next idle
/// pass, never in the middle of a phase.
pub fn request_exit(app: &mut Application)
    ensures
        final(app).exit_requested,
        final(app).windows == old(app).windows,
        final(app).control == old(app).control,
{
    app.exit_requested = true;
}

/// Some tracked window's picture is resident with this handle.
pub open spec fn references_texture(app: Application, h: TextureHandle) -> bool {
    exists|i: int|
        0 <= i < app.windows@.len() && spec_resident(
            (#[trigger] app.windows@[i]).widget,
        ) == Some(h)
}

/// Law: destroying a window removes it from the registry, so a subsequent
/// dispatch to its id hits an id the registry no longer tracks: the
/// precondition of every dispatching function ([`Application::route_window_event`]
/// requires `has_window`) is violated — a programming error the caller must
/// fail loudly on, never a routable event. And, as long as no other window
/// shared the same handle, the window's previously resident texture is
/// referenced by no tracked window any more: no further draw can reach it.
/// The hypotheses are exactly what routing a `Destroyed` event ensures.
pub proof fn lemma_destroy_releases_window(
    before: Application,
    after: Application,
    id: u64,
    h: TextureHandle,
)
    requires
        before.wf(),
        before.has_window(id),
        after.windows@ == before.windows@.remove(before.window_index(id)),
        spec_resident(before.spec_window(id).widget) == Some(h),
        forall|j: int|
            0 <= j < before.windows@.len() && j != before.window_index(id) ==> spec_resident(
                (#[trigger] before.windows@[j]).widget,
            ) != Some(h),
    ensures
        !after.has_window(id),
        !references_texture(after, h),
        after.wf(),
{
    let idx = before.window_index(id);
    assert(before.windows@[idx].id == id);
    assert forall|i: int| 0 <= i < after.windows@.len() implies #[trigger] after.windows@[i].id
        != id && spec_resident(after.windows@[i].widget) != Some(h) by {
        let bi = if i < idx {
            i
        } else {
            i + 1
        };
        assert(after.windows@[i] == before.windows@[bi]);
    }
    assert forall|i: int, j: int| 0 <= i < j < after.windows@.len() implies #[trigger] after
        .windows@[i].id != #[trigger] after.windows@[j].id by {
        let bi = if i < idx {
            i
        } else {
            i + 1
        };
        let bj = if j < idx {
            j
        } else {
            j + 1
        };
        assert(after.windows@[i] == before.windows@[bi]);
        assert(after.windows@[j] == before.windows@[bj]);
        assert(before.windows@[bi].id != before.windows@[bj].id);
    }
}

} // verus!
