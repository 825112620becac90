//! The lazily materialized picture a widget displays: a two-state resource
//! that is either a requested path awaiting decode or a resident texture
//! handle, plus the widget bookkeeping around it (hover, click, and the
//! redraw-needed flag).
//!
//! Decoding and GPU upload are outside collaborators: their outcome is handed
//! in as a plain value, and every state decision about that outcome is made
//! here. A failed decode clears the resource to "no resource"; a resident
//! handle is returned as-is, with no repeated decode.

use vstd::prelude::*;

verus! {

/// An opaque handle to a texture resident on the GPU, together with the
/// pixel dimensions the renderer needs.
#[derive(Clone, Copy, Debug, PartialEq, Eq, Structural)]
pub struct TextureHandle {
    pub id: u64,
    pub width: u32,
    pub height: u32,
}

/// Why a decode failed. Recoverable: the widget is left with no displayable
/// image and the loop continues.
#[derive(Clone, Copy, Debug, PartialEq, Eq, Structural)]
pub enum DecodeError {
    MissingFile,
    UnsupportedFormat,
    CorruptData,
}

/// The two mutually exclusive states of a picture resource: a path whose
/// decode has been requested but not performed, or a texture resident on the
/// GPU.
pub enum Picture {
    LoadRequested(String),
    Ready(TextureHandle),
}

impl Picture {
    /// The path still awaiting decode, if any.
    pub fn requested_path(&self) -> (r: Option<String>)
        ensures
            r == (match *self {
                Picture::LoadRequested(p) => Some(p),
                Picture::Ready(_) => None::<String>,
            }),
    {
        match self {
            Picture::LoadRequested(p) => Some(p.clone()),
            Picture::Ready(_) => None,
        }
    }

    /// The resident texture, if the picture has been materialized; `None`
    /// while a decode is still pending. Costs nothing and touches no file.
    pub fn texture(&self) -> (r: Option<TextureHandle>)
        ensures
            r == (match *self {
                Picture::Ready(h) => Some(h),
                Picture::LoadRequested(_) => None::<TextureHandle>,
            }),
    {
        match self {
            Picture::Ready(h) => Some(*h),
            Picture::LoadRequested(_) => None,
        }
    }

    /// Applies the outcome of the outside decode-and-upload of the requested
    /// path: on success the old state is swapped out for a resident texture;
    /// on failure the state is left untouched and the error is returned for
    /// the owner to act on. On an already-resident picture this is a no-op
    /// that succeeds — a redundant materialization changes nothing.
    pub fn upload_to_texture(&mut self, upload: Result<TextureHandle, DecodeError>) -> (r: Result<
        (),
        DecodeError,
    >)
        ensures
            match *old(self) {
                Picture::LoadRequested(_) => match upload {
                    Ok(h) => *final(self) == Picture::Ready(h) && r == Ok::<(), DecodeError>(()),
                    Err(e) => *final(self) == *old(self) && r == Err::<(), DecodeError>(e),
                },
                Picture::Ready(_) => *final(self) == *old(self) && r == Ok::<(), DecodeError>(()),
            },
    {
        match self {
            Picture::Ready(_) => Ok(()),
            Picture::LoadRequested(_) => match upload {
                Ok(h) => {
                    *self = Picture::Ready(h);
                    Ok(())
                },
                Err(e) => Err(e),
            },
        }
    }
}

/// The picture widget's verifiable state: pointer bookkeeping, the picture
/// resource, and whether the last rendering is still valid.
pub struct PictureWidget {
    pub click: bool,
    pub hover: bool,
    pub image_texture: Option<Picture>,
    pub rendered_valid: bool,
}

/// An event forwarded to the widget. The cursor-over-widget test is a
/// geometric question answered by the caller; the widget only records it.
pub enum WidgetEvent {
    MouseMove { over_widget: bool },
    MouseButton { left: bool, pressed: bool },
    DroppedFile(String),
    Other,
}

/// The path whose decode the widget still awaits, if any.
pub open spec fn spec_pending_path(w: PictureWidget) -> Option<Seq<char>> {
    match w.image_texture {
        Some(Picture::LoadRequested(p)) => Some(p@),
        _ => None,
    }
}

/// The widget's resident texture, if any.
pub open spec fn spec_resident(w: PictureWidget) -> Option<TextureHandle> {
    match w.image_texture {
        Some(Picture::Ready(h)) => Some(h),
        _ => None,
    }
}

/// The widget after a resolve whose outside decode-and-upload outcome was
/// `upload` (`None` when no decode was needed): success makes the resource
/// resident, failure clears it to no resource, and a widget that was not
/// pending is untouched.
pub open spec fn resolved_widget(
    w: PictureWidget,
    upload: Option<Result<TextureHandle, DecodeError>>,
) -> PictureWidget {
    if spec_pending_path(w) is Some {
        match upload {
            Some(Ok(h)) => PictureWidget { image_texture: Some(Picture::Ready(h)), ..w },
            Some(Err(_)) => PictureWidget { image_texture: None, ..w },
            None => w,
        }
    } else {
        w
    }
}

/// The texture a resolve hands the renderer: the fresh handle on a
/// successful materialization, the already-resident handle when none was
/// needed, nothing after a failure or with no resource.
pub open spec fn resolved_texture(
    w: PictureWidget,
    upload: Option<Result<TextureHandle, DecodeError>>,
) -> Option<TextureHandle> {
    if spec_pending_path(w) is Some {
        match upload {
            Some(Ok(h)) => Some(h),
            _ => None,
        }
    } else {
        spec_resident(w)
    }
}

/// The widget after handling one event.
pub open spec fn widget_after(w: PictureWidget, event: WidgetEvent) -> PictureWidget {
    match event {
        WidgetEvent::MouseMove { over_widget } => PictureWidget { hover: over_widget, ..w },
        WidgetEvent::MouseButton { left, pressed } => if left {
            PictureWidget {
                click: if pressed {
                    w.hover
                } else {
                    false
                },
                rendered_valid: false,
                ..w
            }
        } else {
            w
        },
        WidgetEvent::DroppedFile(p) => PictureWidget {
            image_texture: Some(Picture::LoadRequested(p)),
            rendered_valid: false,
            ..w
        },
        WidgetEvent::Other => w,
    }
}

impl PictureWidget {
    pub fn new() -> (r: PictureWidget)
        ensures
            r == (PictureWidget {
                click: false,
                hover: false,
                image_texture: None,
                rendered_valid: false,
            }),
    {
        PictureWidget { click: false, hover: false, image_texture: None, rendered_valid: false }
    }

    /// True when no redraw is needed.
    pub fn is_valid(&self) -> (r: bool)
        ensures
            r == self.rendered_valid,
    {
        self.rendered_valid
    }

    /// The path whose decode this widget still awaits; the caller decodes it
    /// and hands the outcome to [`PictureWidget::draw`].
    pub fn pending_path(&self) -> (r: Option<String>)
        ensures
            match r {
                Some(p) => spec_pending_path(*self) == Some(p@),
                None => spec_pending_path(*self) is None,
            },
    {
        match &self.image_texture {
            Some(pic) => pic.requested_path(),
            None => None,
        }
    }

    /// The resident texture, if the picture is already materialized.
    pub fn resident_texture(&self) -> (r: Option<TextureHandle>)
        ensures
            r == spec_resident(*self),
    {
        match &self.image_texture {
            Some(pic) => pic.texture(),
            None => None,
        }
    }

    /// Resolves the picture for drawing. `upload` is the outcome of the
    /// outside decode-and-upload, present exactly when a decode was pending:
    /// success transitions the resource to resident and returns the handle; a
    /// failure clears the resource to "no resource", never leaving a
    /// half-constructed state behind. With no pending decode the resident
    /// handle, if any, is returned unchanged, with no repeated decode.
    pub fn get_texture(&mut self, upload: Option<Result<TextureHandle, DecodeError>>) -> (r:
        Option<TextureHandle>)
        requires
            (spec_pending_path(*old(self)) is Some) <==> (upload is Some),
        ensures
            *final(self) == resolved_widget(*old(self), upload),
            r == resolved_texture(*old(self), upload),
    {
        match upload {
            Some(outcome) => {
                let failed: bool;
                match &mut self.image_texture {
                    Some(pic) => {
                        match pic.upload_to_texture(outcome) {
                            Ok(_) => {
                                return pic.texture();
                            },
                            Err(_) => {
                                failed = true;
                            },
                        }
                    },
                    None => {
                        proof {
                            assert(false);
                        }
                        failed = false;
                    },
                }
                if failed {
                    self.image_texture = None;
                }
                None
            },
            None => {
                match &self.image_texture {
                    Some(pic) => pic.texture(),
                    None => None,
                }
            },
        }
    }

    /// One draw pass: resolves the picture exactly as
    /// [`PictureWidget::get_texture`] does, hands back the texture the
    /// renderer should use this frame, and marks the rendering valid.
    pub fn draw(&mut self, upload: Option<Result<TextureHandle, DecodeError>>) -> (r: Option<
        TextureHandle,
    >)
        requires
            (spec_pending_path(*old(self)) is Some) <==> (upload is Some),
        ensures
            *final(self) == (PictureWidget {
                rendered_valid: true,
                ..resolved_widget(*old(self), upload)
            }),
            r == resolved_texture(*old(self), upload),
    {
        let r = self.get_texture(upload);
        self.rendered_valid = true;
        r
    }

    /// Handles one forwarded event: records hover, arms or releases a click
    /// and invalidates the rendering, or replaces the picture by a new load
    /// request for a dropped file, discarding any resident texture.
    pub fn handle_event(&mut self, event: WidgetEvent)
        ensures
            *final(self) == widget_after(*old(self), event),
    {
        match event {
            WidgetEvent::MouseMove { over_widget } => {
                self.hover = over_widget;
            },
            WidgetEvent::MouseButton { left, pressed } => {
                if left {
                    self.click = if pressed {
                        self.hover
                    } else {
                        false
                    };
                    self.rendered_valid = false;
                }
            },
            WidgetEvent::DroppedFile(p) => {
                self.image_texture = Some(Picture::LoadRequested(p));
                self.rendered_valid = false;
            },
            WidgetEvent::Other => {},
        }
    }
}

/// Law: materialization is idempotent. Resolving a pending resource with a
/// successful decode-and-upload makes it resident and returns the new
/// handle; a second resolve without an intervening load request needs no
/// decode at all, changes nothing, and returns the same handle.
pub proof fn lemma_resolve_idempotent(w: PictureWidget, h: TextureHandle)
    requires
        spec_pending_path(w) is Some,
    ensures
        ({
            let w1 = resolved_widget(w, Some(Ok(h)));
            &&& resolved_texture(w, Some(Ok(h))) == Some(h)
            &&& spec_pending_path(w1) is None
            &&& resolved_widget(w1, None) == w1
            &&& resolved_texture(w1, None) == Some(h)
        }),
{
}

/// Law: a failed decode transitions the resource to "no resource", never to
/// a stale resident state: the resolve returns no texture, and a subsequent
/// draw attempt needs no decode and again produces no texture, not a crash.
pub proof fn lemma_decode_failure_clears(w: PictureWidget, e: DecodeError)
    requires
        spec_pending_path(w) is Some,
    ensures
        ({
            let w1 = resolved_widget(w, Some(Err(e)));
            &&& w1.image_texture is None
            &&& resolved_texture(w, Some(Err(e))) is None
            &&& spec_pending_path(w1) is None
            &&& resolved_widget(w1, None) == w1
            &&& resolved_texture(w1, None) is None
        }),
{
}

} // verus!
