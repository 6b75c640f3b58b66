//! One-time ownership of the peripheral set, and its split into individually
//! owned pins and the bus controller.
use vstd::prelude::*;

verus! {

/// Number of general-purpose I/O lines the chip exposes (indices 0 to 21).
pub const GPIO_COUNT: u8 = 22;

/// The peripheral set was already handed out.
#[derive(Clone, Copy, Debug, PartialEq, Eq, Structural)]
pub enum AcquisitionError {
    AlreadyTaken,
}

/// A pin could not be claimed from the peripheral set.
#[derive(Clone, Copy, Debug, PartialEq, Eq, Structural)]
pub enum PinConfigError {
    /// No such pin on this chip.
    NoSuchPin,
    /// The pin was already handed to another role.
    AlreadyClaimed,
    /// The pin driver refused to configure the pin.
    DriverRefused,
}

/// The right to drive one physical pin. It cannot be copied: the only way to
/// obtain one is to claim it from the peripheral set.
#[derive(Debug)]
pub struct Pin {
    index: u8,
}

impl Pin {
    pub closed spec fn spec_index(&self) -> nat {
        self.index as nat
    }

    /// The physical pin index.
    pub fn index(&self) -> (i: u8)
        ensures
            i as nat == self.spec_index(),
    {
        self.index
    }
}

/// The right to drive the second SPI bus controller.
#[derive(Debug)]
pub struct SpiHost {
    _private: (),
}

/// Exclusive access to all pins and bus controllers. Each resource leaves the
/// set at most once.
#[derive(Debug)]
pub struct Peripherals {
    free_pins: Vec<bool>,
    spi2_free: bool,
}

impl Peripherals {
    /// The pins still held by the set.
    pub closed spec fn free(&self) -> Set<nat> {
        Set::new(|i: nat| i < self.free_pins@.len() && self.free_pins@[i as int])
    }

    pub closed spec fn spi2_available(&self) -> bool {
        self.spi2_free
    }

    pub closed spec fn wf(&self) -> bool {
        self.free_pins@.len() == GPIO_COUNT as nat
    }

    /// Whether pin `index` is still held by the set.
    pub fn is_free(&self, index: u8) -> (r: bool)
        requires
            self.wf(),
        ensures
            r == self.free().contains(index as nat),
    {
        index < GPIO_COUNT && self.free_pins[index as usize]
    }

    /// Hands out pin `index`; it is never handed out again.
    pub fn take_pin(&mut self, index: u8) -> (r: Result<Pin, PinConfigError>)
        requires
            old(self).wf(),
        ensures
            final(self).wf(),
            final(self).spi2_available() == old(self).spi2_available(),
            index >= GPIO_COUNT ==> r == Err::<Pin, PinConfigError>(PinConfigError::NoSuchPin),
            index < GPIO_COUNT && !old(self).free().contains(index as nat) ==> r == Err::<
                Pin,
                PinConfigError,
            >(PinConfigError::AlreadyClaimed),
            r.is_err() ==> final(self).free() == old(self).free(),
            old(self).free().contains(index as nat) ==> r.is_ok() && r->Ok_0.spec_index()
                == index as nat && final(self).free() == old(self).free().remove(index as nat),
    {
        if index >= GPIO_COUNT {
            return Err(PinConfigError::NoSuchPin);
        }
        if !self.free_pins[index as usize] {
            return Err(PinConfigError::AlreadyClaimed);
        }
        self.free_pins.set(index as usize, false);
        assert(self.free() =~= old(self).free().remove(index as nat));
        Ok(Pin { index })
    }

    /// Hands out the second SPI bus controller, once.
    pub fn take_spi2(&mut self) -> (r: Option<SpiHost>)
        requires
            old(self).wf(),
        ensures
            final(self).wf(),
            final(self).free() == old(self).free(),
            r.is_some() == old(self).spi2_available(),
            !final(self).spi2_available(),
    {
        if self.spi2_free {
            self.spi2_free = false;
            Some(SpiHost { _private: () })
        } else {
            None
        }
    }
}

/// Hands out the peripheral set at most once over its lifetime. The program
/// owns exactly one broker, so the set exists at most once per process.
#[derive(Debug)]
pub struct PeripheralBroker {
    taken: bool,
}

impl PeripheralBroker {
    pub closed spec fn is_taken(&self) -> bool {
        self.taken
    }

    /// A broker that has not handed out the set yet.
    pub fn new() -> (b: PeripheralBroker)
        ensures
            !b.is_taken(),
    {
        PeripheralBroker { taken: false }
    }

    /// Hands out the full peripheral set on the first call; every later call
    /// fails with `AlreadyTaken`.
    pub fn acquire(&mut self) -> (r: Result<Peripherals, AcquisitionError>)
        ensures
            final(self).is_taken(),
            r.is_ok() == !old(self).is_taken(),
            old(self).is_taken() ==> r == Err::<Peripherals, AcquisitionError>(
                AcquisitionError::AlreadyTaken,
            ),
            r.is_ok() ==> r->Ok_0.wf() && r->Ok_0.spi2_available() && forall|i: nat|
                r->Ok_0.free().contains(i) <==> i < GPIO_COUNT,
    {
        if self.taken {
            return Err(AcquisitionError::AlreadyTaken);
        }
        self.taken = true;
        let mut free_pins: Vec<bool> = Vec::new();
        let mut i: u8 = 0;
        while i < GPIO_COUNT
            invariant
                i <= GPIO_COUNT,
                free_pins@.len() == i as nat,
                forall|j: int| 0 <= j < i ==> free_pins@[j],
            decreases GPIO_COUNT - i,
        {
            free_pins.push(true);
            i = i + 1;
        }
        Ok(Peripherals { free_pins, spi2_free: true })
    }
}

} // verus!
