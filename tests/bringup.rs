use st7789_bringup::bringup::{
    claim_pins, prepare, BringUpError, Prepared, RenderError, Run, SetupStep, Stage,
};
use st7789_bringup::broker::{AcquisitionError, PeripheralBroker, PinConfigError, GPIO_COUNT};
use st7789_bringup::bus::{
    BusConfig, BusConfigError, SpiMode, Transport, DISPLAY_BAUDRATE_HZ, MAX_BAUDRATE_HZ,
};
use st7789_bringup::color::Color565;
use st7789_bringup::display::{
    step, DisplayInit, DisplayInitError, DisplaySession, InitEvent, InitState, PANEL_SIZE,
};
use st7789_bringup::supervisor::{
    begin, host_outcome, supervise, Action, HostError, Phase, GRACE_PERIOD_SECS,
    IDLE_INTERVAL_SECS,
};
use st7789_bringup::wiring::Wiring;

fn board_run() -> Run {
    let mut broker = PeripheralBroker::new();
    let prepared = prepare(&mut broker, Wiring::board(), DISPLAY_BAUDRATE_HZ, SpiMode::Mode3);
    let mut run = Run::start(prepared.map(|p| p.init));
    run.on_display_event(InitEvent::ResetPulsed);
    run.on_display_event(InitEvent::CommandsWritten);
    run.on_display_event(InitEvent::GeometryAccepted);
    run
}

fn session(width: u16, height: u16) -> DisplaySession {
    let mut broker = PeripheralBroker::new();
    let mut periph = broker.acquire().unwrap();
    let reset = periph.take_pin(0).unwrap();
    let dc = periph.take_pin(1).unwrap();
    let sclk = periph.take_pin(2).unwrap();
    let sdo = periph.take_pin(4).unwrap();
    let host = periph.take_spi2().unwrap();
    let bus = BusConfig::configure(host, sclk, sdo, 1_000_000, SpiMode::Mode0).unwrap();
    let transport = Transport::new(bus, dc).unwrap();
    let mut init = DisplayInit::new(transport, reset, width, height);
    init.on_event(InitEvent::ResetPulsed);
    init.on_event(InitEvent::CommandsWritten);
    init.on_event(InitEvent::GeometryAccepted);
    init.finish().unwrap()
}

#[test]
fn acquisition_succeeds_once() {
    let mut broker = PeripheralBroker::new();
    assert!(broker.acquire().is_ok());
    assert_eq!(broker.acquire().unwrap_err(), AcquisitionError::AlreadyTaken);
    assert_eq!(broker.acquire().unwrap_err(), AcquisitionError::AlreadyTaken);
}

#[test]
fn second_prepare_fails_with_acquisition_error() {
    let mut broker = PeripheralBroker::new();
    assert!(prepare(&mut broker, Wiring::board(), DISPLAY_BAUDRATE_HZ, SpiMode::Mode3).is_ok());
    let again = prepare(&mut broker, Wiring::board(), DISPLAY_BAUDRATE_HZ, SpiMode::Mode3);
    assert_eq!(
        again.unwrap_err(),
        BringUpError::Acquisition(AcquisitionError::AlreadyTaken)
    );
}

#[test]
fn board_wiring_roles_are_distinct() {
    let w = Wiring::board();
    assert_eq!((w.reset, w.backlight, w.dc, w.sclk, w.sdo), (0, 10, 1, 2, 4));
    assert!(w.is_injective());
    let shared = Wiring { sdo: 1, ..w };
    assert!(!shared.is_injective());
}

#[test]
fn pins_are_handed_out_once() {
    let mut broker = PeripheralBroker::new();
    let mut periph = broker.acquire().unwrap();
    assert!(periph.is_free(10));
    let p = periph.take_pin(10).unwrap();
    assert_eq!(p.index(), 10);
    assert!(!periph.is_free(10));
    assert_eq!(periph.take_pin(10).unwrap_err(), PinConfigError::AlreadyClaimed);
    assert_eq!(periph.take_pin(GPIO_COUNT).unwrap_err(), PinConfigError::NoSuchPin);
    assert!(periph.take_spi2().is_some());
    assert!(periph.take_spi2().is_none());
}

#[test]
fn claim_reports_first_bad_role() {
    let mut broker = PeripheralBroker::new();
    let mut periph = broker.acquire().unwrap();
    let w = Wiring { backlight: 0, ..Wiring::board() };
    assert_eq!(claim_pins(&mut periph, w).unwrap_err(), PinConfigError::AlreadyClaimed);
    let mut broker = PeripheralBroker::new();
    let mut periph = broker.acquire().unwrap();
    let w = Wiring { backlight: 40, ..Wiring::board() };
    assert_eq!(claim_pins(&mut periph, w).unwrap_err(), PinConfigError::NoSuchPin);
    let mut broker = PeripheralBroker::new();
    let mut periph = broker.acquire().unwrap();
    let pins = claim_pins(&mut periph, Wiring::board()).unwrap();
    assert_eq!(pins.backlight.index(), 10);
    assert_eq!(pins.dc.index(), 1);
    assert!(periph.is_free(2));
    assert!(periph.is_free(4));
}

#[test]
fn prepare_with_bad_bus_pin_fails_at_bus() {
    let cases = [
        (Wiring { dc: 2, ..Wiring::board() }, BusConfigError::InvalidPin),
        (Wiring { sclk: 99, ..Wiring::board() }, BusConfigError::InvalidPin),
        (Wiring { sdo: 22, ..Wiring::board() }, BusConfigError::InvalidPin),
        (Wiring { sdo: 10, ..Wiring::board() }, BusConfigError::InvalidPin),
        (Wiring { sdo: 2, ..Wiring::board() }, BusConfigError::SharedPin),
    ];
    for (w, e) in cases {
        let mut broker = PeripheralBroker::new();
        let r = prepare(&mut broker, w, DISPLAY_BAUDRATE_HZ, SpiMode::Mode3);
        assert_eq!(r.unwrap_err(), BringUpError::Bus(e));
    }
}

#[test]
fn prepare_with_bad_output_pin_fails_at_pins() {
    let mut broker = PeripheralBroker::new();
    let w = Wiring { dc: 0, ..Wiring::board() };
    let r = prepare(&mut broker, w, DISPLAY_BAUDRATE_HZ, SpiMode::Mode3);
    assert_eq!(r.unwrap_err(), BringUpError::Pin(PinConfigError::AlreadyClaimed));
}

#[test]
fn bus_claim_consumes_what_it_took() {
    let mut broker = PeripheralBroker::new();
    let mut periph = broker.acquire().unwrap();
    let r = BusConfig::claim(&mut periph, 2, 4, 0, SpiMode::Mode3);
    assert_eq!(r.unwrap_err(), BusConfigError::UnsupportedFrequency);
    assert!(!periph.is_free(2));
    assert!(!periph.is_free(4));
    let r = BusConfig::claim(&mut periph, 5, 6, DISPLAY_BAUDRATE_HZ, SpiMode::Mode3);
    assert_eq!(r.unwrap_err(), BusConfigError::ControllerUnavailable);

    let mut broker = PeripheralBroker::new();
    let mut periph = broker.acquire().unwrap();
    let bus = BusConfig::claim(&mut periph, 5, 6, DISPLAY_BAUDRATE_HZ, SpiMode::Mode1).unwrap();
    assert_eq!((bus.sclk(), bus.sdo(), bus.baudrate_hz()), (5, 6, 26_000_000));
    assert_eq!(bus.mode(), SpiMode::Mode1);
}

#[test]
fn driver_refusals_fail_the_run() {
    let steps = [
        (SetupStep::Peripherals, BringUpError::Acquisition(AcquisitionError::AlreadyTaken)),
        (SetupStep::Pins, BringUpError::Pin(PinConfigError::DriverRefused)),
        (SetupStep::Bus, BringUpError::Bus(BusConfigError::DriverRefused)),
    ];
    for (step, err) in steps {
        let mut broker = PeripheralBroker::new();
        let prepared = prepare(&mut broker, Wiring::board(), DISPLAY_BAUDRATE_HZ, SpiMode::Mode3);
        let mut run = Run::start(prepared.map(|p| p.init));
        run.on_setup_result(step, true);
        assert_eq!(run.stage(), Stage::Initializing);
        run.on_setup_result(step, false);
        assert_eq!(run.stage(), Stage::Failed);
        assert_eq!(run.settle(), Err(err));
        run.on_display_event(InitEvent::ResetPulsed);
        assert_eq!(run.clear(Color565::red()), Err(RenderError::NotReady));
        assert_eq!(run.render_writes(), 0);
    }
}

#[test]
fn failed_render_write_becomes_the_result() {
    let mut run = board_run();
    assert_eq!(run.clear(Color565::red()), Ok(()));
    run.on_render_result(true);
    assert_eq!(run.settle(), Ok(()));
    run.on_render_result(false);
    assert_eq!(run.stage(), Stage::Failed);
    assert_eq!(run.settle(), Err(BringUpError::Render(RenderError::WriteFailed)));
    assert_eq!(run.render_writes(), 1);
    assert_eq!(run.clear(Color565::green()), Err(RenderError::NotReady));
    assert_eq!(run.render_writes(), 1);
}

#[test]
fn unfinished_protocol_settles_as_failure() {
    let mut broker = PeripheralBroker::new();
    let prepared = prepare(&mut broker, Wiring::board(), DISPLAY_BAUDRATE_HZ, SpiMode::Mode3);
    let mut run = Run::start(prepared.map(|p| p.init));
    run.on_display_event(InitEvent::ResetPulsed);
    let err = BringUpError::DisplayInit(DisplayInitError::FailedAt(InitState::Reset));
    assert_eq!(run.settle(), Err(err));
    run.on_setup_result(SetupStep::Bus, false);
    assert_eq!(run.stage(), Stage::Initializing);
}

#[test]
fn prepare_builds_configured_transport() {
    let mut broker = PeripheralBroker::new();
    let Prepared { init, backlight } =
        prepare(&mut broker, Wiring::board(), DISPLAY_BAUDRATE_HZ, SpiMode::Mode3).unwrap();
    assert_eq!(backlight.index(), 10);
    assert_eq!(init.state(), InitState::Unpowered);
}

#[test]
fn bus_configuration_checks_frequency() {
    let mut broker = PeripheralBroker::new();
    let mut periph = broker.acquire().unwrap();
    let host = periph.take_spi2().unwrap();
    let sclk = periph.take_pin(2).unwrap();
    let sdo = periph.take_pin(4).unwrap();
    let bus = BusConfig::configure(host, sclk, sdo, MAX_BAUDRATE_HZ, SpiMode::Mode3).unwrap();
    assert_eq!((bus.sclk(), bus.sdo()), (2, 4));
    assert_eq!(bus.baudrate_hz(), 80_000_000);
    assert_eq!(bus.mode(), SpiMode::Mode3);

    let mut broker = PeripheralBroker::new();
    let mut periph = broker.acquire().unwrap();
    let host = periph.take_spi2().unwrap();
    let sclk = periph.take_pin(2).unwrap();
    let sdo = periph.take_pin(4).unwrap();
    let r = BusConfig::configure(host, sclk, sdo, MAX_BAUDRATE_HZ + 1, SpiMode::Mode3);
    assert_eq!(r.unwrap_err(), BusConfigError::UnsupportedFrequency);
}

#[test]
fn init_protocol_transitions() {
    assert_eq!(step(InitState::Unpowered, InitEvent::ResetPulsed), InitState::Reset);
    assert_eq!(
        step(InitState::Reset, InitEvent::CommandsWritten),
        InitState::CommandSequenceRunning
    );
    assert_eq!(
        step(InitState::CommandSequenceRunning, InitEvent::GeometryAccepted),
        InitState::Ready
    );
    assert_eq!(step(InitState::Unpowered, InitEvent::CommandsWritten), InitState::Failed);
    assert_eq!(step(InitState::Reset, InitEvent::Fault), InitState::Failed);
    assert_eq!(step(InitState::Failed, InitEvent::ResetPulsed), InitState::Failed);
    assert_eq!(step(InitState::Ready, InitEvent::Fault), InitState::Ready);
}

#[test]
fn color_encoding() {
    assert_eq!(Color565::new(0x1f, 0x00, 0x0a).into_storage(), 0b11111_000000_01010);
    assert_eq!(Color565::new(0xff, 0xff, 0xff).raw, 0xFFFF);
    assert_eq!(Color565::new(1, 2, 3).raw, (1 << 11) | (2 << 5) | 3);
    assert_eq!(Color565::red().raw, 0xF800);
    assert_eq!(Color565::green().raw, 0x07E0);
}

#[test]
fn clear_reads_back_everywhere() {
    for (w, h) in [(1u16, 1u16), (3, 2), (7, 5)] {
        let mut s = session(w, h);
        assert_eq!(s.size(), (w, h));
        assert_eq!(s.pixel(0, 0).unwrap().raw, 0);
        let c = Color565::new(3, 40, 17);
        s.clear(c);
        for y in 0..h {
            for x in 0..w {
                assert_eq!(s.pixel(x, y), Some(c));
            }
        }
        assert_eq!(s.pixel(w, 0), None);
        assert_eq!(s.pixel(0, h), None);
    }
}

#[test]
fn fill_rect_is_clipped_to_surface() {
    let mut s = session(4, 3);
    let blue = Color565::new(0, 0, 31);
    s.fill_rect(2, 1, 10, 10, blue);
    for y in 0..3u16 {
        for x in 0..4u16 {
            let expect = if x >= 2 && y >= 1 { blue.raw } else { 0 };
            assert_eq!(s.pixel(x, y).unwrap().raw, expect);
        }
    }
    s.fill_rect(u32::MAX, u32::MAX, u32::MAX, u32::MAX, Color565::red());
    assert_eq!(s.pixel(3, 2).unwrap(), blue);
}

#[test]
fn render_before_ready_is_rejected() {
    let mut broker = PeripheralBroker::new();
    let prepared = prepare(&mut broker, Wiring::board(), DISPLAY_BAUDRATE_HZ, SpiMode::Mode3);
    let mut run = Run::start(prepared.map(|p| p.init));
    assert_eq!(run.stage(), Stage::Initializing);
    assert_eq!(run.clear(Color565::red()), Err(RenderError::NotReady));
    run.on_display_event(InitEvent::ResetPulsed);
    assert_eq!(
        run.fill_rect(0, 0, 1, 1, Color565::red()),
        Err(RenderError::NotReady)
    );
    assert_eq!(run.render_writes(), 0);
    assert_eq!(run.outcome(), None);
    assert_eq!(run.size(), None);
}

#[test]
fn display_fault_fails_run_without_rendering() {
    let mut broker = PeripheralBroker::new();
    let prepared = prepare(&mut broker, Wiring::board(), DISPLAY_BAUDRATE_HZ, SpiMode::Mode3);
    let mut run = Run::start(prepared.map(|p| p.init));
    run.on_display_event(InitEvent::ResetPulsed);
    run.on_display_event(InitEvent::Fault);
    assert_eq!(run.stage(), Stage::Failed);
    let err = BringUpError::DisplayInit(DisplayInitError::FailedAt(InitState::Reset));
    assert_eq!(run.outcome(), Some(Err(err)));
    run.on_display_event(InitEvent::CommandsWritten);
    assert_eq!(run.clear(Color565::green()), Err(RenderError::NotReady));
    assert_eq!(run.render_writes(), 0);
    assert_eq!(run.pixel(0, 0), None);
}

#[test]
fn idle_loop_never_returns() {
    let mut phase = Phase::Parked;
    for _ in 0..1000 {
        let (next, action) = supervise(phase);
        assert_eq!(next, Phase::Parked);
        match action {
            Action::Sleep(secs) => assert!(secs >= 1),
            Action::Return(_) => panic!("parked worker returned"),
        }
        phase = next;
    }
    assert_eq!(IDLE_INTERVAL_SECS, 1);
}

#[test]
fn success_parks_after_grace() {
    let (next, action) = supervise(begin(Ok(())));
    assert_eq!(action, Action::Sleep(GRACE_PERIOD_SECS));
    assert_eq!(GRACE_PERIOD_SECS, 5);
    assert_eq!(next, Phase::Parked);
}

#[test]
fn end_to_end_render() {
    let mut run = board_run();
    assert_eq!(run.stage(), Stage::Ready);
    assert_eq!(run.outcome(), Some(Ok(())));
    assert_eq!(run.size(), Some((PANEL_SIZE, PANEL_SIZE)));
    assert_eq!(run.clear(Color565::red()), Ok(()));
    assert_eq!(run.pixel(239, 239), Some(Color565::red()));
    assert_eq!(run.clear(Color565::green()), Ok(()));
    let (w, h) = run.size().unwrap();
    assert_eq!(run.fill_rect(0, 0, w as u32, h as u32, Color565::green()), Ok(()));
    for y in 0..h {
        for x in 0..w {
            let p = run.pixel(x, y).unwrap();
            assert_eq!(p, Color565::green());
            assert_ne!(p, Color565::red());
        }
    }
    assert_eq!(run.render_writes(), 3);
}

#[test]
fn end_to_end_bus_failure() {
    for hz in [0u32, 100_000_000] {
        let mut broker = PeripheralBroker::new();
        let prepared = prepare(&mut broker, Wiring::board(), hz, SpiMode::Mode3);
        let err = BringUpError::Bus(BusConfigError::UnsupportedFrequency);
        assert!(matches!(prepared, Err(e) if e == err));
        let mut run = Run::start(prepared.map(|p| p.init));
        assert_eq!(run.stage(), Stage::Failed);
        assert_eq!(run.clear(Color565::red()), Err(RenderError::NotReady));
        assert_eq!(run.render_writes(), 0);
        let outcome = run.outcome().unwrap();
        assert_eq!(outcome, Err(err));
        let (next, action) = supervise(begin(outcome));
        assert_eq!(action, Action::Sleep(GRACE_PERIOD_SECS));
        let (_, action) = supervise(next);
        assert_eq!(action, Action::Return(err));
        let hosted = host_outcome(true, true, outcome);
        assert_eq!(hosted, Err(HostError::Worker(err)));
        assert!(!hosted.unwrap_err().bypasses_grace());
    }
}

#[test]
fn thread_failures_are_fatal_without_grace() {
    assert_eq!(host_outcome(false, false, Ok(())), Err(HostError::ThreadSpawn));
    assert_eq!(host_outcome(true, false, Ok(())), Err(HostError::ThreadJoin));
    assert_eq!(host_outcome(true, true, Ok(())), Ok(()));
    assert!(HostError::ThreadSpawn.bypasses_grace());
    assert!(HostError::ThreadJoin.bypasses_grace());
}
