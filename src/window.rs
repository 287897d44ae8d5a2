use vstd::prelude::*;

use crate::content::{ShareableContent, WindowRecord};
use crate::error::{ErrorKind, XCapError, XCapResult};

verus! {

/// Windows narrower or shorter than this are taken to be invisible.
pub const MIN_WINDOW_SIDE: u32 = 10;

/// A running application, as far as focus is concerned.
#[derive(Clone, Copy, Debug, PartialEq, Eq, Structural)]
pub struct RunningApp {
    pub pid: i32,
    pub is_active: bool,
}

/// A capturable window with its metadata.
#[derive(Clone, Debug)]
pub struct Window {
    pub window_id: u32,
    pub app_name: String,
    pub title: String,
    /// Process id of the owning application; negative where unknown.
    pub pid: i32,
    pub x: i32,
    pub y: i32,
    pub width: u32,
    pub height: u32,
    pub is_on_screen: bool,
    /// The owning application is the frontmost one.
    pub is_app_active: bool,
    /// 0 for a normal window; above 0 for panels, overlays and status items.
    pub window_layer: isize,
}

/// The pid of the first active application, or -1 where none is active.
pub open spec fn first_active_pid(apps: Seq<RunningApp>) -> i32
    decreases apps.len(),
{
    if apps.len() == 0 {
        -1i32
    } else if apps[0].is_active {
        apps[0].pid
    } else {
        first_active_pid(apps.subrange(1, apps.len() as int))
    }
}

/// The window is large enough to be listed.
pub open spec fn big_enough(r: WindowRecord) -> bool {
    r.width >= MIN_WINDOW_SIDE && r.height >= MIN_WINDOW_SIDE
}

/// The records that `Window::all` lists, in snapshot order.
pub open spec fn listed_records(recs: Seq<WindowRecord>) -> Seq<WindowRecord>
    decreases recs.len(),
{
    if recs.len() == 0 {
        Seq::empty()
    } else {
        let prev = listed_records(recs.drop_last());
        if big_enough(recs.last()) {
            prev.push(recs.last())
        } else {
            prev
        }
    }
}

/// Process id of the record's owner, or -1 where it has none.
pub open spec fn owner_pid(r: WindowRecord) -> i32 {
    match r.owner {
        Some(o) => o.pid,
        None => -1i32,
    }
}

/// `w` is the window that record `r` describes while `frontmost` is the pid
/// of the frontmost application.
pub open spec fn describes(w: Window, r: WindowRecord, frontmost: i32) -> bool {
    &&& w.window_id == r.id
    &&& w.title@ == match r.title {
        Some(t) => t@,
        None => Seq::empty(),
    }
    &&& w.app_name@ == match r.owner {
        Some(o) => o.name@,
        None => Seq::empty(),
    }
    &&& w.pid == owner_pid(r)
    &&& w.is_app_active == (owner_pid(r) >= 0 && owner_pid(r) == frontmost)
    &&& w.x == r.x
    &&& w.y == r.y
    &&& w.width == r.width
    &&& w.height == r.height
    &&& w.is_on_screen == r.on_screen
    &&& w.window_layer == r.layer
}

/// The pid of the frontmost application: the first one marked active, or -1.
pub fn frontmost_pid(apps: &Vec<RunningApp>) -> (r: i32)
    ensures
        r == first_active_pid(apps@),
{
    let mut i: usize = 0;
    assert(apps@.subrange(0, apps@.len() as int) =~= apps@);
    while i < apps.len()
        invariant
            i <= apps@.len(),
            first_active_pid(apps@) == first_active_pid(apps@.subrange(i as int, apps@.len() as int)),
        decreases apps@.len() - i,
    {
        let ghost rest = apps@.subrange(i as int, apps@.len() as int);
        if apps[i].is_active {
            return apps[i].pid;
        }
        assert(rest.subrange(1, rest.len() as int) =~= apps@.subrange(i + 1, apps@.len() as int));
        i += 1;
    }
    assert(apps@.subrange(i as int, apps@.len() as int).len() == 0);
    -1
}

fn window_from_record(r: &WindowRecord, frontmost: i32) -> (w: Window)
    ensures
        describes(w, *r, frontmost),
{
    let title = match &r.title {
        Some(t) => t.clone(),
        None => String::new(),
    };
    let (app_name, pid) = match &r.owner {
        Some(o) => (o.name.clone(), o.pid),
        None => (String::new(), -1i32),
    };
    Window {
        window_id: r.id,
        app_name,
        title,
        pid,
        x: r.x,
        y: r.y,
        width: r.width,
        height: r.height,
        is_on_screen: r.on_screen,
        is_app_active: pid >= 0 && pid == frontmost,
        window_layer: r.layer,
    }
}

impl Window {
    /// A window with the given metadata.
    pub fn new(
        window_id: u32,
        app_name: String,
        title: String,
        pid: i32,
        x: i32,
        y: i32,
        width: u32,
        height: u32,
        is_on_screen: bool,
        is_app_active: bool,
        window_layer: isize,
    ) -> (w: Window)
        ensures
            w == (Window {
                window_id,
                app_name,
                title,
                pid,
                x,
                y,
                width,
                height,
                is_on_screen,
                is_app_active,
                window_layer,
            }),
    {
        Window {
            window_id,
            app_name,
            title,
            pid,
            x,
            y,
            width,
            height,
            is_on_screen,
            is_app_active,
            window_layer,
        }
    }

    /// The windows of a snapshot that are at least `MIN_WINDOW_SIDE` wide and
    /// high, in snapshot order; `frontmost_pid` marks which are in the active
    /// application. `NoContent` where no window qualifies.
    pub fn all(content: &ShareableContent, frontmost_pid: i32) -> (r: XCapResult<Vec<Window>>)
        ensures
            match r {
                Ok(ws) => {
                    &&& listed_records(content.windows@).len() > 0
                    &&& ws@.len() == listed_records(content.windows@).len()
                    &&& forall|k: int|
                        0 <= k < ws@.len() ==> describes(
                            #[trigger] ws@[k],
                            listed_records(content.windows@)[k],
                            frontmost_pid,
                        )
                },
                Err(e) => listed_records(content.windows@).len() == 0 && e.kind
                    == ErrorKind::NoContent,
            },
    {
        let recs = &content.windows;
        if recs.len() == 0 {
            return Err(XCapError::no_windows());
        }
        let mut out: Vec<Window> = Vec::new();
        let mut i: usize = 0;
        while i < recs.len()
            invariant
                i <= recs@.len(),
                out@.len() == listed_records(recs@.subrange(0, i as int)).len(),
                forall|k: int|
                    0 <= k < out@.len() ==> describes(
                        #[trigger] out@[k],
                        listed_records(recs@.subrange(0, i as int))[k],
                        frontmost_pid,
                    ),
            decreases recs@.len() - i,
        {
            let ghost before = recs@.subrange(0, i as int);
            let ghost after = recs@.subrange(0, i + 1 as int);
            assert(after.drop_last() =~= before);
            assert(after.last() == recs@[i as int]);
            let rec = &recs[i];
            if rec.width >= MIN_WINDOW_SIDE && rec.height >= MIN_WINDOW_SIDE {
                let w = window_from_record(rec, frontmost_pid);
                out.push(w);
            }
            i += 1;
        }
        assert(recs@.subrange(0, recs@.len() as int) =~= recs@);
        if out.len() == 0 {
            return Err(XCapError::no_windows());
        }
        Ok(out)
    }

    pub fn id(&self) -> (r: XCapResult<u32>)
        ensures
            r matches Ok(v) && v == self.window_id,
    {
        Ok(self.window_id)
    }

    pub fn raw_id(&self) -> (r: u32)
        ensures
            r == self.window_id,
    {
        self.window_id
    }

    /// The owning process id; an error where it is unknown (negative).
    pub fn pid(&self) -> (r: XCapResult<u32>)
        ensures
            match r {
                Ok(v) => self.pid >= 0 && v == self.pid,
                Err(e) => self.pid < 0 && e.kind == ErrorKind::Other,
            },
    {
        if self.pid < 0 {
            return Err(XCapError::new("Process ID not available"));
        }
        Ok(self.pid as u32)
    }

    pub fn app_name(&self) -> (r: XCapResult<String>)
        ensures
            r matches Ok(v) && v@ == self.app_name@,
    {
        Ok(self.app_name.clone())
    }

    pub fn title(&self) -> (r: XCapResult<String>)
        ensures
            r matches Ok(v) && v@ == self.title@,
    {
        Ok(self.title.clone())
    }

    pub fn x(&self) -> (r: XCapResult<i32>)
        ensures
            r matches Ok(v) && v == self.x,
    {
        Ok(self.x)
    }

    pub fn y(&self) -> (r: XCapResult<i32>)
        ensures
            r matches Ok(v) && v == self.y,
    {
        Ok(self.y)
    }

    pub fn width(&self) -> (r: XCapResult<u32>)
        ensures
            r matches Ok(v) && v == self.width,
    {
        Ok(self.width)
    }

    pub fn height(&self) -> (r: XCapResult<u32>)
        ensures
            r matches Ok(v) && v == self.height,
    {
        Ok(self.height)
    }

    /// A window that is not on screen counts as minimized.
    pub fn is_minimized(&self) -> (r: XCapResult<bool>)
        ensures
            r matches Ok(v) && v == !self.is_on_screen,
    {
        Ok(!self.is_on_screen)
    }

    /// Maximization is not tracked: always false.
    pub fn is_maximized(&self) -> (r: XCapResult<bool>)
        ensures
            r matches Ok(v) && !v,
    {
        Ok(false)
    }

    /// Focused: the owning application is frontmost and the window sits at
    /// the normal layer, so floating overlays of that application are not.
    pub fn is_focused(&self) -> (r: XCapResult<bool>)
        ensures
            r matches Ok(v) && v == (self.is_app_active && self.window_layer == 0),
    {
        Ok(self.is_app_active && self.window_layer == 0)
    }

    pub fn is_on_screen(&self) -> (r: bool)
        ensures
            r == self.is_on_screen,
    {
        self.is_on_screen
    }

    /// 0 for a normal window; above 0 for panels, overlays and status items.
    pub fn window_layer(&self) -> (r: isize)
        ensures
            r == self.window_layer,
    {
        self.window_layer
    }
}

} // verus!
