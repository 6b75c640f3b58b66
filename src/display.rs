//! The controller bring-up state machine, and the display session it yields:
//! a fixed geometry and the current contents of the surface, changed only by
//! full-surface clears and filled rectangles.
use vstd::prelude::*;
use crate::broker::Pin;
use crate::bus::Transport;
use crate::color::Color565;

verus! {

/// Side length of the square panel, in pixels.
pub const PANEL_SIZE: u16 = 240;

/// Where the controller is in its bring-up protocol.
#[derive(Clone, Copy, Debug, PartialEq, Eq, Structural)]
pub enum InitState {
    Unpowered,
    Reset,
    CommandSequenceRunning,
    Ready,
    Failed,
}

/// What the hardware reported after the last bring-up action.
#[derive(Clone, Copy, Debug, PartialEq, Eq, Structural)]
pub enum InitEvent {
    /// The reset line was pulsed low, then high.
    ResetPulsed,
    /// The controller's initialization command sequence was written.
    CommandsWritten,
    /// The declared geometry was accepted.
    GeometryAccepted,
    /// A transport write failed or the controller answered unexpectedly.
    Fault,
}

/// The controller could not be brought up; its state is undefined after this.
#[derive(Clone, Copy, Debug, PartialEq, Eq, Structural)]
pub enum DisplayInitError {
    /// The protocol failed at the given state.
    FailedAt(InitState),
}

/// The transition table: each state accepts only its own next step, `Ready`
/// and `Failed` are final, and anything unexpected fails the bring-up.
pub open spec fn next_state(s: InitState, e: InitEvent) -> InitState {
    match s {
        InitState::Ready => InitState::Ready,
        InitState::Failed => InitState::Failed,
        InitState::Unpowered => if e == InitEvent::ResetPulsed {
            InitState::Reset
        } else {
            InitState::Failed
        },
        InitState::Reset => if e == InitEvent::CommandsWritten {
            InitState::CommandSequenceRunning
        } else {
            InitState::Failed
        },
        InitState::CommandSequenceRunning => if e == InitEvent::GeometryAccepted {
            InitState::Ready
        } else {
            InitState::Failed
        },
    }
}

/// One step of the bring-up protocol.
pub fn step(s: InitState, e: InitEvent) -> (n: InitState)
    ensures
        n == next_state(s, e),
{
    match s {
        InitState::Ready => InitState::Ready,
        InitState::Failed => InitState::Failed,
        InitState::Unpowered => if e == InitEvent::ResetPulsed {
            InitState::Reset
        } else {
            InitState::Failed
        },
        InitState::Reset => if e == InitEvent::CommandsWritten {
            InitState::CommandSequenceRunning
        } else {
            InitState::Failed
        },
        InitState::CommandSequenceRunning => if e == InitEvent::GeometryAccepted {
            InitState::Ready
        } else {
            InitState::Failed
        },
    }
}

/// A surface of `width` x `height` pixels with every pixel `c`.
pub open spec fn uniform(rows: Seq<Seq<u16>>, width: nat, height: nat, c: u16) -> bool {
    &&& rows.len() == height
    &&& forall|y: int| 0 <= y < height ==> (#[trigger] rows[y]).len() == width
    &&& forall|y: int, x: int| 0 <= y < height && 0 <= x < width ==> #[trigger] rows[y][x] == c
}

/// The contents of a surface held as a vector of rows.
pub open spec fn rows_view(rows: Seq<Vec<u16>>) -> Seq<Seq<u16>> {
    Seq::new(rows.len(), |i: int| rows[i]@)
}

/// Whether pixel (px, py) lies in the rectangle with top-left (x, y) and size
/// w x h.
pub open spec fn in_rect(px: int, py: int, x: int, y: int, w: int, h: int) -> bool {
    x <= px < x + w && y <= py < y + h
}

/// The controller on its way to `Ready`, owning the transport and reset line.
#[derive(Debug)]
pub struct DisplayInit {
    transport: Transport,
    reset: Pin,
    width: u16,
    height: u16,
    state: InitState,
}

impl DisplayInit {
    pub closed spec fn spec_state(&self) -> InitState {
        self.state
    }

    pub closed spec fn spec_width(&self) -> u16 {
        self.width
    }

    pub closed spec fn spec_height(&self) -> u16 {
        self.height
    }

    pub closed spec fn spec_transport(&self) -> &Transport {
        &self.transport
    }

    pub closed spec fn reset_index(&self) -> nat {
        self.reset.spec_index()
    }

    /// Starts bring-up of an unpowered controller that will be declared
    /// `width` x `height`.
    pub fn new(transport: Transport, reset: Pin, width: u16, height: u16) -> (d: DisplayInit)
        ensures
            d.spec_state() == InitState::Unpowered,
            d.spec_width() == width,
            d.spec_height() == height,
            d.spec_transport() == transport,
            d.reset_index() == reset.spec_index(),
    {
        DisplayInit { transport, reset, width, height, state: InitState::Unpowered }
    }

    /// The current protocol state.
    pub fn state(&self) -> (s: InitState)
        ensures
            s == self.spec_state(),
    {
        self.state
    }

    /// Feeds the outcome of the last hardware action to the protocol.
    pub fn on_event(&mut self, e: InitEvent)
        ensures
            final(self).spec_state() == next_state(old(self).spec_state(), e),
            final(self).spec_width() == old(self).spec_width(),
            final(self).spec_height() == old(self).spec_height(),
    {
        self.state = step(self.state, e);
    }

    /// The drawable session if the protocol reached `Ready`, else the state
    /// it stopped in. A blank surface needs `width * height` to fit in memory.
    pub fn finish(self) -> (r: Result<DisplaySession, DisplayInitError>)
        requires
            self.spec_width() as int * self.spec_height() as int <= usize::MAX,
        ensures
            r.is_ok() <==> self.spec_state() == InitState::Ready,
            r.is_err() ==> r == Err::<DisplaySession, DisplayInitError>(
                DisplayInitError::FailedAt(self.spec_state()),
            ),
            r.is_ok() ==> r->Ok_0.wf() && r->Ok_0.spec_width() == self.spec_width()
                && r->Ok_0.spec_height() == self.spec_height(),
    {
        if self.state != InitState::Ready {
            return Err(DisplayInitError::FailedAt(self.state));
        }
        let rows = blank_rows(self.width, self.height);
        Ok(
            DisplaySession {
                transport: self.transport,
                reset: self.reset,
                width: self.width,
                height: self.height,
                rows,
            },
        )
    }
}

/// A row of `width` pixels, all `c`.
fn solid_row(width: u16, c: u16) -> (row: Vec<u16>)
    ensures
        row@.len() == width,
        forall|x: int| 0 <= x < width ==> row@[x] == c,
{
    let mut row: Vec<u16> = Vec::new();
    let mut x: u16 = 0;
    while x < width
        invariant
            x <= width,
            row@.len() == x,
            forall|i: int| 0 <= i < x ==> row@[i] == c,
        decreases width - x,
    {
        row.push(c);
        x = x + 1;
    }
    row
}

/// `height` rows of `width` black pixels.
fn blank_rows(width: u16, height: u16) -> (rows: Vec<Vec<u16>>)
    ensures
        uniform(rows_view(rows@), width as nat, height as nat, 0),
{
    solid_rows(width, height, 0)
}

/// `height` rows of `width` pixels, all `c`.
fn solid_rows(width: u16, height: u16, c: u16) -> (rows: Vec<Vec<u16>>)
    ensures
        uniform(rows_view(rows@), width as nat, height as nat, c),
{
    let mut rows: Vec<Vec<u16>> = Vec::new();
    let mut y: u16 = 0;
    while y < height
        invariant
            y <= height,
            rows@.len() == y,
            forall|j: int| 0 <= j < y ==> (#[trigger] rows@[j])@.len() == width,
            forall|j: int, x: int| 0 <= j < y && 0 <= x < width ==> #[trigger] rows@[j]@[x] == c,
        decreases height - y,
    {
        let row = solid_row(width, c);
        rows.push(row);
        y = y + 1;
    }
    assert(uniform(rows_view(rows@), width as nat, height as nat, c));
    rows
}

/// An initialized controller with a fixed geometry, 16-bit 5-6-5 pixels, and
/// the surface contents that the render operations have written to it.
#[derive(Debug)]
pub struct DisplaySession {
    transport: Transport,
    reset: Pin,
    width: u16,
    height: u16,
    rows: Vec<Vec<u16>>,
}

impl DisplaySession {
    pub closed spec fn spec_width(&self) -> u16 {
        self.width
    }

    pub closed spec fn spec_height(&self) -> u16 {
        self.height
    }

    /// The surface contents, row by row.
    pub closed spec fn surface(&self) -> Seq<Seq<u16>> {
        rows_view(self.rows@)
    }

    pub open spec fn wf(&self) -> bool {
        &&& self.surface().len() == self.spec_height()
        &&& forall|y: int|
            0 <= y < self.spec_height() ==> (#[trigger] self.surface()[y]).len()
                == self.spec_width()
    }

    /// The color stored at (x, y), on the surface.
    pub open spec fn pixel_at(&self, x: int, y: int) -> u16 {
        self.surface()[y][x]
    }

    /// Width and height of the surface's bounding box.
    pub fn size(&self) -> (r: (u16, u16))
        ensures
            r == (self.spec_width(), self.spec_height()),
    {
        (self.width, self.height)
    }

    /// Reads back pixel (x, y); `None` off the surface.
    pub fn pixel(&self, x: u16, y: u16) -> (r: Option<Color565>)
        requires
            self.wf(),
        ensures
            r.is_some() <==> x < self.spec_width() && y < self.spec_height(),
            r.is_some() ==> r->Some_0.raw == self.pixel_at(x as int, y as int),
    {
        if x < self.width && y < self.height {
            assert(self.surface()[y as int] == self.rows@[y as int]@);
            Some(Color565 { raw: self.rows[y as usize][x as usize] })
        } else {
            None
        }
    }

    /// Fills the whole surface with `c` in one write.
    pub fn clear(&mut self, c: Color565)
        requires
            old(self).wf(),
        ensures
            final(self).wf(),
            final(self).spec_width() == old(self).spec_width(),
            final(self).spec_height() == old(self).spec_height(),
            uniform(
                final(self).surface(),
                final(self).spec_width() as nat,
                final(self).spec_height() as nat,
                c.raw,
            ),
    {
        let mut y: u16 = 0;
        while y < self.height
            invariant
                self.wf(),
                y <= self.spec_height(),
                self.spec_width() == old(self).spec_width(),
                self.spec_height() == old(self).spec_height(),
                forall|j: int, x: int|
                    0 <= j < y && 0 <= x < self.spec_width() ==> #[trigger] self.surface()[j][x]
                        == c.raw,
            decreases self.spec_height() - y,
        {
            let ghost prev = self.surface();
            let row = solid_row(self.width, c.raw);
            let ghost fresh = row@;
            self.rows.set(y as usize, row);
            assert forall|j: int| 0 <= j < self.spec_height() && j != y implies self.surface()[j]
                == prev[j] by {}
            assert(self.surface()[y as int] == fresh);
            assert forall|j: int| 0 <= j < self.spec_height() implies (
            #[trigger] self.surface()[j]).len() == self.spec_width() by {
                if j != y {
                    assert(prev[j].len() == self.spec_width());
                }
            }
            assert forall|j: int, x: int|
                0 <= j < y + 1 && 0 <= x < self.spec_width() implies #[trigger] self.surface()[j][x]
                == c.raw by {
                if j != y {
                    assert(self.surface()[j] == prev[j]);
                }
            }
            y = y + 1;
        }
    }

    /// Fills the part of the rectangle with top-left (x, y) and size w x h
    /// that lies on the surface with `c`; the other pixels keep their colors.
    pub fn fill_rect(&mut self, x: u32, y: u32, w: u32, h: u32, c: Color565)
        requires
            old(self).wf(),
        ensures
            final(self).wf(),
            final(self).spec_width() == old(self).spec_width(),
            final(self).spec_height() == old(self).spec_height(),
            forall|px: int, py: int|
                0 <= px < old(self).spec_width() && 0 <= py < old(self).spec_height() ==> (
                #[trigger] final(self).pixel_at(px, py)) == if in_rect(
                    px,
                    py,
                    x as int,
                    y as int,
                    w as int,
                    h as int,
                ) {
                    c.raw
                } else {
                    old(self).pixel_at(px, py)
                },
    {
        let ghost before = self.surface();
        let mut row_i: u16 = 0;
        while row_i < self.height
            invariant
                self.wf(),
                row_i <= self.spec_height(),
                self.spec_width() == old(self).spec_width(),
                self.spec_height() == old(self).spec_height(),
                before == old(self).surface(),
                forall|px: int, py: int|
                    0 <= px < self.spec_width() && 0 <= py < self.spec_height() ==> (
                    #[trigger] self.surface()[py][px]) == if py < row_i && in_rect(
                        px,
                        py,
                        x as int,
                        y as int,
                        w as int,
                        h as int,
                    ) {
                        c.raw
                    } else {
                        before[py][px]
                    },
            decreases self.spec_height() - row_i,
        {
            let row_in = (row_i as u64) >= (y as u64) && (row_i as u64) < (y as u64) + (h as u64);
            if row_in {
                assert(self.surface()[row_i as int] == self.rows@[row_i as int]@);
                let mut new_row: Vec<u16> = Vec::new();
                let mut col: u16 = 0;
                while col < self.width
                    invariant
                        self.wf(),
                        col <= self.spec_width(),
                        row_i < self.spec_height(),
                        self.surface()[row_i as int] == self.rows@[row_i as int]@,
                        y as int <= row_i as int && (row_i as int) < y as int + h as int,
                        new_row@.len() == col,
                        forall|px: int|
                            0 <= px < col ==> new_row@[px] == if in_rect(
                                px,
                                row_i as int,
                                x as int,
                                y as int,
                                w as int,
                                h as int,
                            ) {
                                c.raw
                            } else {
                                self.pixel_at(px, row_i as int)
                            },
                    decreases self.spec_width() - col,
                {
                    let col_in = (col as u64) >= (x as u64) && (col as u64) < (x as u64) + (
                    w as u64);
                    if col_in {
                        new_row.push(c.raw);
                    } else {
                        let old_px = self.rows[row_i as usize][col as usize];
                        new_row.push(old_px);
                    }
                    col = col + 1;
                }
                let ghost prev = self.surface();
                let ghost fresh = new_row@;
                self.rows.set(row_i as usize, new_row);
                assert forall|py: int|
                    0 <= py < self.spec_height() && py != row_i implies self.surface()[py]
                    == prev[py] by {}
                assert(self.surface()[row_i as int] == fresh);
                assert(fresh.len() == self.spec_width());
                assert forall|px: int, py: int|
                    0 <= px < self.spec_width() && 0 <= py < self.spec_height() implies (
                    #[trigger] self.surface()[py][px]) == if py < row_i + 1 && in_rect(
                        px,
                        py,
                        x as int,
                        y as int,
                        w as int,
                        h as int,
                    ) {
                        c.raw
                    } else {
                        before[py][px]
                    } by {
                    if py != row_i {
                        assert(self.surface()[py] == prev[py]);
                        assert(prev[py][px] == self.surface()[py][px]);
                    }
                }
                assert forall|py: int| 0 <= py < self.spec_height() implies (
                #[trigger] self.surface()[py]).len() == self.spec_width() by {
                    if py != row_i {
                        assert(prev[py].len() == self.spec_width());
                    }
                }
            }
            row_i = row_i + 1;
        }
    }
}

/// Reading back a cleared surface: after `clear(c)`, every pixel on the
/// surface reads back as `c`, whatever the geometry.
pub proof fn cleared_surface_reads_back(s: DisplaySession, c: Color565)
    requires
        s.wf(),
        uniform(s.surface(), s.spec_width() as nat, s.spec_height() as nat, c.raw),
    ensures
        forall|x: int, y: int|
            0 <= x < s.spec_width() && 0 <= y < s.spec_height() ==> #[trigger] s.pixel_at(x, y)
                == c.raw,
{
}

/// Filling a rectangle that covers the whole bounding box leaves the surface
/// uniformly the fill color, whatever it held before.
pub proof fn full_box_fill_is_uniform(before: DisplaySession, after: DisplaySession, c: Color565)
    requires
        before.wf(),
        after.wf(),
        after.spec_width() == before.spec_width(),
        after.spec_height() == before.spec_height(),
        forall|px: int, py: int|
            0 <= px < before.spec_width() && 0 <= py < before.spec_height() ==> (
            #[trigger] after.pixel_at(px, py)) == if in_rect(
                px,
                py,
                0,
                0,
                before.spec_width() as int,
                before.spec_height() as int,
            ) {
                c.raw
            } else {
                before.pixel_at(px, py)
            },
    ensures
        uniform(after.surface(), after.spec_width() as nat, after.spec_height() as nat, c.raw),
{
    assert forall|y: int, x: int|
        0 <= y < after.spec_height() && 0 <= x < after.spec_width() implies #[trigger] after.surface()[y][x]
        == c.raw by {
        assert(after.pixel_at(x, y) == c.raw);
    }
}

} // verus!
