//! The strictly ordered bring-up: acquire the peripherals, claim each role's
//! pin, configure the bus and transport, then hand both to the controller's
//! bring-up protocol. The first failure ends the sequence.
use vstd::prelude::*;
use crate::broker::{
    AcquisitionError, PeripheralBroker, Peripherals, Pin, PinConfigError, GPIO_COUNT,
};
use crate::bus::{bus_error, frequency_supported, BusConfig, BusConfigError, SpiMode, Transport};
use crate::color::Color565;
use crate::display::{
    in_rect, next_state, uniform, DisplayInit, DisplayInitError, DisplaySession, InitEvent,
    InitState, PANEL_SIZE,
};
use crate::wiring::{roles_distinct, Wiring};

verus! {

/// The first failure of a bring-up run.
#[derive(Clone, Copy, Debug, PartialEq, Eq, Structural)]
pub enum BringUpError {
    Acquisition(AcquisitionError),
    Pin(PinConfigError),
    Bus(BusConfigError),
    DisplayInit(DisplayInitError),
    Render(RenderError),
}

/// A write counter after one more write; it stops at its largest value.
pub open spec fn bumped(n: u64) -> u64 {
    if n < u64::MAX {
        (n + 1) as u64
    } else {
        u64::MAX
    }
}

/// Every pin of a freshly acquired peripheral set.
pub open spec fn all_pins() -> Set<nat> {
    Set::new(|i: nat| i < GPIO_COUNT)
}

/// Why pin `p` cannot be claimed from the pins `free`, if it cannot.
pub open spec fn pin_error(free: Set<nat>, p: u8) -> Option<PinConfigError> {
    if p >= GPIO_COUNT {
        Some(PinConfigError::NoSuchPin)
    } else if !free.contains(p as nat) {
        Some(PinConfigError::AlreadyClaimed)
    } else {
        None
    }
}

/// The first failure when claiming, from `free`, the output pins of reset,
/// data/command select and backlight, in that order. The bus pins are the
/// bus stage's to claim.
pub open spec fn wiring_error(free: Set<nat>, w: Wiring) -> Option<PinConfigError> {
    let f1 = free.remove(w.reset as nat);
    let f2 = f1.remove(w.dc as nat);
    if pin_error(free, w.reset) is Some {
        pin_error(free, w.reset)
    } else if pin_error(f1, w.dc) is Some {
        pin_error(f1, w.dc)
    } else {
        pin_error(f2, w.backlight)
    }
}

/// The pins left for the bus once the output pins of `w` are claimed from
/// `free`.
pub open spec fn left_for_bus(free: Set<nat>, w: Wiring) -> Set<nat> {
    free.remove(w.reset as nat).remove(w.dc as nat).remove(w.backlight as nat)
}

/// The output pins, each owned once.
#[derive(Debug)]
pub struct RolePins {
    pub reset: Pin,
    pub dc: Pin,
    pub backlight: Pin,
}

/// The pins of `pins` are those that `w` names.
pub open spec fn pins_match(pins: &RolePins, w: Wiring) -> bool {
    &&& pins.reset.spec_index() == w.reset
    &&& pins.dc.spec_index() == w.dc
    &&& pins.backlight.spec_index() == w.backlight
}

/// Claims the pin of each role that `w` names, in the order of
/// `wiring_error`; stops at the first pin that cannot be claimed.
pub fn claim_pins(periph: &mut Peripherals, w: Wiring) -> (r: Result<RolePins, PinConfigError>)
    requires
        old(periph).wf(),
    ensures
        final(periph).wf(),
        final(periph).spi2_available() == old(periph).spi2_available(),
        r.is_ok() <==> wiring_error(old(periph).free(), w) is None,
        r.is_err() ==> Some(r->Err_0) == wiring_error(old(periph).free(), w),
        r.is_ok() ==> pins_match(&r->Ok_0, w) && final(periph).free() == left_for_bus(
            old(periph).free(),
            w,
        ),
{
    let reset = match periph.take_pin(w.reset) {
        Ok(p) => p,
        Err(e) => return Err(e),
    };
    let dc = match periph.take_pin(w.dc) {
        Ok(p) => p,
        Err(e) => return Err(e),
    };
    let backlight = match periph.take_pin(w.backlight) {
        Ok(p) => p,
        Err(e) => return Err(e),
    };
    Ok(RolePins { reset, dc, backlight })
}

/// A wiring whose roles have distinct pins on the chip passes every
/// configuring stage on a fresh broker at a supported clock.
pub proof fn distinct_wiring_claims_cleanly(w: Wiring, hz: u32)
    requires
        frequency_supported(hz),
        roles_distinct(w),
        w.reset < GPIO_COUNT,
        w.dc < GPIO_COUNT,
        w.backlight < GPIO_COUNT,
        w.sclk < GPIO_COUNT,
        w.sdo < GPIO_COUNT,
    ensures
        prepare_error(false, w, hz) is None,
{
}

/// The first failure that the configuring stages meet, given whether the
/// peripherals were already taken, the wiring and the bus clock.
pub open spec fn prepare_error(taken: bool, w: Wiring, hz: u32) -> Option<BringUpError> {
    if taken {
        Some(BringUpError::Acquisition(AcquisitionError::AlreadyTaken))
    } else if wiring_error(all_pins(), w) is Some {
        Some(BringUpError::Pin(wiring_error(all_pins(), w)->Some_0))
    } else if bus_error(left_for_bus(all_pins(), w), true, w.sclk, w.sdo, hz) is Some {
        Some(BringUpError::Bus(bus_error(left_for_bus(all_pins(), w), true, w.sclk, w.sdo, hz)->Some_0))
    } else {
        None
    }
}

/// What the configuring stages hand on: the controller ready to be brought
/// up, and the backlight line, which is driven high before bring-up.
#[derive(Debug)]
pub struct Prepared {
    pub init: DisplayInit,
    pub backlight: Pin,
}

/// Runs the configuring stages in order: acquire the peripherals, claim the
/// pins of `w`, configure the bus at `baudrate_hz` in `mode`, join the
/// transport, and set up a 240x240 controller bring-up over it.
pub fn prepare(broker: &mut PeripheralBroker, w: Wiring, baudrate_hz: u32, mode: SpiMode) -> (r:
    Result<Prepared, BringUpError>)
    ensures
        final(broker).is_taken(),
        r.is_ok() <==> prepare_error(old(broker).is_taken(), w, baudrate_hz) is None,
        r.is_err() ==> Some(r->Err_0) == prepare_error(old(broker).is_taken(), w, baudrate_hz),
        r.is_ok() ==> ({
            let init = r->Ok_0.init;
            &&& init.spec_state() == InitState::Unpowered
            &&& init.spec_width() == PANEL_SIZE
            &&& init.spec_height() == PANEL_SIZE
            &&& init.reset_index() == w.reset
            &&& init.spec_transport().dc_index() == w.dc
            &&& init.spec_transport().bus().sclk_index() == w.sclk
            &&& init.spec_transport().bus().sdo_index() == w.sdo
            &&& init.spec_transport().bus().spec_baudrate() == baudrate_hz
            &&& init.spec_transport().bus().spec_mode() == mode
            &&& r->Ok_0.backlight.spec_index() == w.backlight
        }),
{
    let mut periph = match broker.acquire() {
        Ok(p) => p,
        Err(e) => return Err(BringUpError::Acquisition(e)),
    };
    assert(periph.free() =~= all_pins());
    let pins = match claim_pins(&mut periph, w) {
        Ok(p) => p,
        Err(e) => return Err(BringUpError::Pin(e)),
    };
    let RolePins { reset, dc, backlight } = pins;
    let bus = match BusConfig::claim(&mut periph, w.sclk, w.sdo, baudrate_hz, mode) {
        Ok(b) => b,
        Err(e) => return Err(BringUpError::Bus(e)),
    };
    let transport = match Transport::new(bus, dc) {
        Ok(t) => t,
        Err(e) => return Err(BringUpError::Bus(e)),
    };
    Ok(Prepared { init: DisplayInit::new(transport, reset, PANEL_SIZE, PANEL_SIZE), backlight })
}

/// A render operation could not be carried out.
#[derive(Clone, Copy, Debug, PartialEq, Eq, Structural)]
pub enum RenderError {
    /// It was issued before the display reached `Ready`.
    NotReady,
    /// Its write to the transport failed.
    WriteFailed,
}

/// A configuring stage carried out by the hardware drivers.
#[derive(Clone, Copy, Debug, PartialEq, Eq, Structural)]
pub enum SetupStep {
    /// Taking the hardware peripheral set.
    Peripherals,
    /// Configuring the output pins.
    Pins,
    /// Configuring the bus and device drivers.
    Bus,
}

/// The failure recorded when the driver of `step` refuses it.
pub open spec fn setup_failure(step: SetupStep) -> BringUpError {
    match step {
        SetupStep::Peripherals => BringUpError::Acquisition(AcquisitionError::AlreadyTaken),
        SetupStep::Pins => BringUpError::Pin(PinConfigError::DriverRefused),
        SetupStep::Bus => BringUpError::Bus(BusConfigError::DriverRefused),
    }
}

/// Where a run stands.
#[derive(Clone, Copy, Debug, PartialEq, Eq, Structural)]
pub enum Stage {
    /// The controller's bring-up protocol is under way.
    Initializing,
    /// The display session exists; render operations are accepted.
    Ready,
    /// A stage failed; nothing is rendered from here on.
    Failed,
}

/// One run of the bring-up: exactly one of the controller in bring-up, the
/// display session, or the first failure.
#[derive(Debug)]
pub struct Run {
    init: Option<DisplayInit>,
    session: Option<DisplaySession>,
    error: Option<BringUpError>,
    writes: u64,
}

impl Run {
    pub closed spec fn spec_stage(&self) -> Stage {
        if self.session is Some {
            Stage::Ready
        } else if self.error is Some {
            Stage::Failed
        } else {
            Stage::Initializing
        }
    }

    /// The protocol state while initializing.
    pub closed spec fn init_state(&self) -> InitState {
        self.init->Some_0.spec_state()
    }

    /// The geometry declared to the controller while initializing.
    pub closed spec fn init_geometry(&self) -> (u16, u16) {
        (self.init->Some_0.spec_width(), self.init->Some_0.spec_height())
    }

    /// The session once ready.
    pub closed spec fn spec_session(&self) -> DisplaySession {
        self.session->Some_0
    }

    /// The failure once failed.
    pub closed spec fn spec_error(&self) -> BringUpError {
        self.error->Some_0
    }

    /// Render operations that reached the transport during this run.
    pub closed spec fn spec_render_writes(&self) -> u64 {
        self.writes
    }

    pub closed spec fn wf(&self) -> bool {
        &&& (self.init is Some) == (self.session is None && self.error is None)
        &&& !(self.session is Some && self.error is Some)
        &&& self.init is Some ==> {
            &&& self.init->Some_0.spec_width() as int * self.init->Some_0.spec_height() as int
                <= usize::MAX
            &&& self.init->Some_0.spec_state() != InitState::Ready
            &&& self.init->Some_0.spec_state() != InitState::Failed
        }
        &&& self.session is Some ==> self.session->Some_0.wf()
        &&& self.init is Some ==> self.writes == 0
        &&& self.error is Some && !(self.error->Some_0 is Render) ==> self.writes == 0
    }

    /// Starts a run from the outcome of the configuring stages.
    pub fn start(prepared: Result<DisplayInit, BringUpError>) -> (run: Run)
        requires
            prepared.is_ok() ==> prepared->Ok_0.spec_state() == InitState::Unpowered
                && prepared->Ok_0.spec_width() as int * prepared->Ok_0.spec_height() as int
                <= usize::MAX,
        ensures
            run.wf(),
            run.spec_render_writes() == 0,
            prepared.is_ok() ==> run.spec_stage() == Stage::Initializing && run.init_state()
                == InitState::Unpowered && run.init_geometry() == (
                prepared->Ok_0.spec_width(),
                prepared->Ok_0.spec_height(),
            ),
            prepared.is_err() ==> run.spec_stage() == Stage::Failed && run.spec_error()
                == prepared->Err_0,
    {
        match prepared {
            Ok(init) => Run { init: Some(init), session: None, error: None, writes: 0 },
            Err(e) => Run { init: None, session: None, error: Some(e), writes: 0 },
        }
    }

    /// Where the run stands.
    pub fn stage(&self) -> (s: Stage)
        requires
            self.wf(),
        ensures
            s == self.spec_stage(),
    {
        if self.session.is_some() {
            Stage::Ready
        } else if self.error.is_some() {
            Stage::Failed
        } else {
            Stage::Initializing
        }
    }

    /// Feeds the outcome of the last bring-up action. Reaching `Ready` opens
    /// the display session; a failure is recorded with the state it happened
    /// in. A run that is no longer initializing ignores further events.
    pub fn on_display_event(&mut self, e: InitEvent)
        requires
            old(self).wf(),
        ensures
            final(self).wf(),
            old(self).spec_stage() != Stage::Initializing ==> *final(self) == *old(self),
            old(self).spec_stage() == Stage::Initializing ==> ({
                let s = old(self).init_state();
                let n = next_state(s, e);
                &&& n == InitState::Ready ==> final(self).spec_stage() == Stage::Ready
                    && final(self).spec_render_writes() == 0
                    && final(self).spec_session().spec_width() == old(self).init_geometry().0
                    && final(self).spec_session().spec_height() == old(self).init_geometry().1
                &&& n == InitState::Failed ==> final(self).spec_stage() == Stage::Failed
                    && final(self).spec_error() == BringUpError::DisplayInit(
                    DisplayInitError::FailedAt(s),
                )
                &&& n != InitState::Ready && n != InitState::Failed ==> final(self).spec_stage()
                    == Stage::Initializing && final(self).init_state() == n
                    && final(self).init_geometry() == old(self).init_geometry()
            }),
    {
        let mut init = match self.init.take() {
            Some(i) => i,
            None => return,
        };
        let before = init.state();
        init.on_event(e);
        let now = init.state();
        if now == InitState::Ready {
            match init.finish() {
                Ok(session) => {
                    self.session = Some(session);
                },
                Err(err) => {
                    self.error = Some(BringUpError::DisplayInit(err));
                },
            }
        } else if now == InitState::Failed {
            self.error = Some(BringUpError::DisplayInit(DisplayInitError::FailedAt(before)));
        } else {
            self.init = Some(init);
        }
    }

    /// Fills the whole surface with `c`; rejected unless the run is `Ready`,
    /// in which case nothing reaches the transport.
    pub fn clear(&mut self, c: Color565) -> (r: Result<(), RenderError>)
        requires
            old(self).wf(),
        ensures
            final(self).wf(),
            r.is_ok() <==> old(self).spec_stage() == Stage::Ready,
            r.is_err() ==> r == Err::<(), RenderError>(RenderError::NotReady) && *final(self)
                == *old(self),
            r.is_ok() ==> ({
                let before = old(self).spec_session();
                let after = final(self).spec_session();
                &&& final(self).spec_stage() == Stage::Ready
                &&& after.spec_width() == before.spec_width()
                &&& after.spec_height() == before.spec_height()
                &&& uniform(
                    after.surface(),
                    after.spec_width() as nat,
                    after.spec_height() as nat,
                    c.raw,
                )
                &&& final(self).spec_render_writes() == bumped(old(self).spec_render_writes())
            }),
    {
        let mut session = match self.session.take() {
            Some(s) => s,
            None => return Err(RenderError::NotReady),
        };
        session.clear(c);
        self.session = Some(session);
        if self.writes < u64::MAX {
            self.writes = self.writes + 1;
        }
        Ok(())
    }

    /// Fills the part of the rectangle with top-left (x, y) and size w x h
    /// that lies on the surface; rejected unless the run is `Ready`.
    pub fn fill_rect(&mut self, x: u32, y: u32, w: u32, h: u32, c: Color565) -> (r: Result<
        (),
        RenderError,
    >)
        requires
            old(self).wf(),
        ensures
            final(self).wf(),
            r.is_ok() <==> old(self).spec_stage() == Stage::Ready,
            r.is_err() ==> r == Err::<(), RenderError>(RenderError::NotReady) && *final(self)
                == *old(self),
            r.is_ok() ==> ({
                let before = old(self).spec_session();
                let after = final(self).spec_session();
                &&& final(self).spec_stage() == Stage::Ready
                &&& after.spec_width() == before.spec_width()
                &&& after.spec_height() == before.spec_height()
                &&& forall|px: int, py: int|
                    0 <= px < before.spec_width() && 0 <= py < before.spec_height() ==> (
                    #[trigger] after.pixel_at(px, py)) == if in_rect(
                        px,
                        py,
                        x as int,
                        y as int,
                        w as int,
                        h as int,
                    ) {
                        c.raw
                    } else {
                        before.pixel_at(px, py)
                    }
                &&& final(self).spec_render_writes() == bumped(old(self).spec_render_writes())
            }),
    {
        let mut session = match self.session.take() {
            Some(s) => s,
            None => return Err(RenderError::NotReady),
        };
        session.fill_rect(x, y, w, h, c);
        self.session = Some(session);
        if self.writes < u64::MAX {
            self.writes = self.writes + 1;
        }
        Ok(())
    }

    /// Reads back pixel (x, y); `None` unless the run is `Ready` and the
    /// pixel lies on the surface.
    pub fn pixel(&self, x: u16, y: u16) -> (r: Option<Color565>)
        requires
            self.wf(),
        ensures
            r.is_some() <==> self.spec_stage() == Stage::Ready && x
                < self.spec_session().spec_width() && y < self.spec_session().spec_height(),
            r.is_some() ==> r->Some_0.raw == self.spec_session().pixel_at(x as int, y as int),
    {
        match &self.session {
            Some(s) => s.pixel(x, y),
            None => None,
        }
    }

    /// Width and height of the drawable surface once `Ready`.
    pub fn size(&self) -> (r: Option<(u16, u16)>)
        requires
            self.wf(),
        ensures
            r.is_some() <==> self.spec_stage() == Stage::Ready,
            r.is_some() ==> r->Some_0 == (
                self.spec_session().spec_width(),
                self.spec_session().spec_height(),
            ),
    {
        match &self.session {
            Some(s) => Some(s.size()),
            None => None,
        }
    }

    /// Render operations that reached the transport during this run.
    pub fn render_writes(&self) -> (n: u64)
        requires
            self.wf(),
        ensures
            n == self.spec_render_writes(),
    {
        self.writes
    }

    /// The run's result: `None` while initializing, `Ok` once ready, the
    /// first failure once failed.
    pub fn outcome(&self) -> (r: Option<Result<(), BringUpError>>)
        requires
            self.wf(),
        ensures
            self.spec_stage() == Stage::Initializing ==> r is None,
            self.spec_stage() == Stage::Ready ==> r == Some(Ok::<(), BringUpError>(())),
            self.spec_stage() == Stage::Failed ==> r == Some(
                Err::<(), BringUpError>(self.spec_error()),
            ),
    {
        if self.session.is_some() {
            Some(Ok(()))
        } else {
            match self.error {
                Some(e) => Some(Err(e)),
                None => None,
            }
        }
    }

    /// The run's result once no more bring-up events will come: a protocol
    /// still under way counts as failed in the state it stopped in.
    pub fn settle(&self) -> (r: Result<(), BringUpError>)
        requires
            self.wf(),
        ensures
            self.spec_stage() == Stage::Initializing ==> r == Err::<(), BringUpError>(
                BringUpError::DisplayInit(DisplayInitError::FailedAt(self.init_state())),
            ),
            self.spec_stage() == Stage::Ready ==> r == Ok::<(), BringUpError>(()),
            self.spec_stage() == Stage::Failed ==> r == Err::<(), BringUpError>(
                self.spec_error(),
            ),
    {
        if self.session.is_some() {
            return Ok(());
        }
        match self.error {
            Some(e) => Err(e),
            None => match &self.init {
                Some(init) => Err(BringUpError::DisplayInit(DisplayInitError::FailedAt(init.state()))),
                None => Ok(()),
            },
        }
    }

    /// Records whether the driver of a configuring stage accepted it. A
    /// refusal before the protocol has started fails the run with that
    /// stage's error; anything else leaves the run as it is.
    pub fn on_setup_result(&mut self, step: SetupStep, ok: bool)
        requires
            old(self).wf(),
        ensures
            final(self).wf(),
            !ok && old(self).spec_stage() == Stage::Initializing && old(self).init_state()
                == InitState::Unpowered ==> final(self).spec_stage() == Stage::Failed && final(
                self).spec_error() == setup_failure(step) && final(self).spec_render_writes()
                == 0,
            ok || old(self).spec_stage() != Stage::Initializing || old(self).init_state()
                != InitState::Unpowered ==> *final(self) == *old(self),
    {
        if ok {
            return;
        }
        let unpowered = match &self.init {
            Some(init) => init.state() == InitState::Unpowered,
            None => false,
        };
        if unpowered {
            self.init = None;
            self.error = Some(
                match step {
                    SetupStep::Peripherals => BringUpError::Acquisition(
                        AcquisitionError::AlreadyTaken,
                    ),
                    SetupStep::Pins => BringUpError::Pin(PinConfigError::DriverRefused),
                    SetupStep::Bus => BringUpError::Bus(BusConfigError::DriverRefused),
                },
            );
        }
    }

    /// Records whether the last render operation's write reached the
    /// display. A failed write fails a ready run with a render error and
    /// closes its session; anything else leaves the run as it is.
    pub fn on_render_result(&mut self, ok: bool)
        requires
            old(self).wf(),
        ensures
            final(self).wf(),
            !ok && old(self).spec_stage() == Stage::Ready ==> final(self).spec_stage()
                == Stage::Failed && final(self).spec_error() == BringUpError::Render(
                RenderError::WriteFailed,
            ) && final(self).spec_render_writes() == old(self).spec_render_writes(),
            ok || old(self).spec_stage() != Stage::Ready ==> *final(self) == *old(self),
    {
        if !ok && self.session.is_some() {
            self.session = None;
            self.error = Some(BringUpError::Render(RenderError::WriteFailed));
        }
    }
}

/// A run whose bring-up failed has sent nothing to the display from the
/// render operations: the failure came before any session existed, and a
/// failed run rejects every later render call and event unchanged.
pub proof fn failed_bring_up_renders_nothing(r: Run)
    requires
        r.wf(),
        r.spec_stage() == Stage::Failed,
        !(r.spec_error() is Render),
    ensures
        r.spec_render_writes() == 0,
{
}

} // verus!
