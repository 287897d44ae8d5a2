use vstd::prelude::*;

use crate::error::{ErrorKind, XCapError, XCapResult};

verus! {

/// What a capture is aimed at: one display or one window, by platform id.
#[derive(Clone, Copy, Debug, PartialEq, Eq, Structural)]
pub enum CaptureTarget {
    Display(u32),
    Window(u32),
}

/// One shareable display of a snapshot, geometry in whole pixels.
#[derive(Clone, Copy, Debug, PartialEq, Eq, Structural)]
pub struct DisplayRecord {
    pub id: u32,
    pub x: i32,
    pub y: i32,
    pub width: u32,
    pub height: u32,
}

/// The application that owns a window.
#[derive(Clone, Debug)]
pub struct OwningApp {
    pub name: String,
    pub pid: i32,
}

/// One shareable window of a snapshot, geometry in whole points.
#[derive(Clone, Debug)]
pub struct WindowRecord {
    pub id: u32,
    pub title: Option<String>,
    pub owner: Option<OwningApp>,
    pub layer: isize,
    pub x: i32,
    pub y: i32,
    pub width: u32,
    pub height: u32,
    pub on_screen: bool,
}

/// One enumeration snapshot: the displays and windows that may be captured now.
#[derive(Clone, Debug)]
pub struct ShareableContent {
    pub displays: Vec<DisplayRecord>,
    pub windows: Vec<WindowRecord>,
}

/// The target names a surface of the snapshot.
pub open spec fn target_in(c: ShareableContent, t: CaptureTarget) -> bool {
    match t {
        CaptureTarget::Display(id) => exists|i: int|
            0 <= i < c.displays@.len() && #[trigger] c.displays@[i].id == id,
        CaptureTarget::Window(id) => exists|i: int|
            0 <= i < c.windows@.len() && #[trigger] c.windows@[i].id == id,
    }
}

/// The snapshot lists no surface at all.
pub open spec fn content_empty(c: ShareableContent) -> bool {
    c.displays@.len() == 0 && c.windows@.len() == 0
}

impl ShareableContent {
    /// A snapshot with no surfaces.
    pub fn empty() -> (r: ShareableContent)
        ensures
            content_empty(r),
    {
        ShareableContent { displays: Vec::new(), windows: Vec::new() }
    }
}

/// Accepts a snapshot that the platform returned: `PermissionDenied` where the
/// process is not authorized, `NoContent` where the snapshot is empty.
pub fn list_shareable_content(authorized: bool, snapshot: ShareableContent) -> (r: XCapResult<
    ShareableContent,
>)
    ensures
        match r {
            Ok(c) => authorized && !content_empty(snapshot) && c == snapshot,
            Err(e) => {
                &&& !authorized ==> e.kind == ErrorKind::PermissionDenied
                &&& authorized ==> content_empty(snapshot) && e.kind == ErrorKind::NoContent
            },
        },
{
    if !authorized {
        return Err(
            XCapError::with_kind(
                ErrorKind::PermissionDenied,
                "screen recording permission is not granted",
            ),
        );
    }
    if snapshot.displays.len() == 0 && snapshot.windows.len() == 0 {
        return Err(XCapError::with_kind(ErrorKind::NoContent, "no shareable content"));
    }
    Ok(snapshot)
}

/// Checks that `target` names a surface of `snapshot`; a stale id gives
/// `TargetNotFound`.
pub fn resolve_target(snapshot: &ShareableContent, target: CaptureTarget) -> (r: XCapResult<()>)
    ensures
        r is Ok <==> target_in(*snapshot, target),
        r matches Err(e) ==> e.kind == ErrorKind::TargetNotFound,
{
    match target {
        CaptureTarget::Display(id) => {
            let mut i: usize = 0;
            while i < snapshot.displays.len()
                invariant
                    target == CaptureTarget::Display(id),
                    i <= snapshot.displays@.len(),
                    forall|j: int| 0 <= j < i ==> #[trigger] snapshot.displays@[j].id != id,
                decreases snapshot.displays@.len() - i,
            {
                if snapshot.displays[i].id == id {
                    assert(snapshot.displays@[i as int].id == id);
                    return Ok(());
                }
                i += 1;
            }
        },
        CaptureTarget::Window(id) => {
            let mut i: usize = 0;
            while i < snapshot.windows.len()
                invariant
                    target == CaptureTarget::Window(id),
                    i <= snapshot.windows@.len(),
                    forall|j: int| 0 <= j < i ==> #[trigger] snapshot.windows@[j].id != id,
                decreases snapshot.windows@.len() - i,
            {
                if snapshot.windows[i].id == id {
                    assert(snapshot.windows@[i as int].id == id);
                    return Ok(());
                }
                i += 1;
            }
        },
    }
    Err(XCapError::with_kind(ErrorKind::TargetNotFound, "capture target not found"))
}

/// The display sits at the global origin.
pub open spec fn at_origin(d: DisplayRecord) -> bool {
    d.x == 0 && d.y == 0
}

/// The id of the primary display: the first display at the origin, else the
/// first display, else 0 for an empty list.
pub fn primary_display_id(displays: &Vec<DisplayRecord>) -> (r: u32)
    ensures
        (exists|i: int| 0 <= i < displays@.len() && at_origin(#[trigger] displays@[i])) ==> exists|
            i: int,
        |
            0 <= i < displays@.len() && at_origin(#[trigger] displays@[i]) && r == displays@[i].id
                && forall|j: int| 0 <= j < i ==> !at_origin(#[trigger] displays@[j]),
        !(exists|i: int| 0 <= i < displays@.len() && at_origin(#[trigger] displays@[i])) ==> r == (
        if displays@.len() > 0 {
            displays@[0].id
        } else {
            0u32
        }),
{
    let mut i: usize = 0;
    while i < displays.len()
        invariant
            i <= displays@.len(),
            forall|j: int| 0 <= j < i ==> !at_origin(#[trigger] displays@[j]),
        decreases displays@.len() - i,
    {
        if displays[i].x == 0 && displays[i].y == 0 {
            assert(at_origin(displays@[i as int]));
            return displays[i].id;
        }
        i += 1;
    }
    if displays.len() > 0 {
        displays[0].id
    } else {
        0
    }
}

/// An empty snapshot is never taken for success, and no id resolves against
/// it: a capture with an id from an earlier snapshot reports `TargetNotFound`.
pub proof fn lemma_empty_snapshot_resolves_nothing(snapshot: ShareableContent, target: CaptureTarget)
    requires
        content_empty(snapshot),
    ensures
        !target_in(snapshot, target),
{
}

} // verus!
