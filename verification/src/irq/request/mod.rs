//! IRQ allocation and handling.

pub mod flags;

use vstd::prelude::*;

use crate::error::{errno_of, to_result, Error};

verus! {

/// Flags to be used when registering IRQ handlers.
///
/// They can be combined with the operators `|`, `&`, and `!`.
///
/// Values can be used from the [`flags`] module.
#[derive(Clone, Copy)]
pub struct Flags(usize);

impl View for Flags {
    type V = usize;

    /// The flag bits.
    closed spec fn view(&self) -> usize {
        self.0
    }
}

impl Flags {
    /// The flag bits, as handed to `request_irq`.
    pub fn bits(&self) -> (r: usize)
        ensures
            r == self@,
    {
        self.0
    }
}

impl core::ops::BitOr for Flags {
    type Output = Self;

    fn bitor(self, rhs: Self) -> (r: Self::Output)
        ensures
            r@ == self@ | rhs@,
    {
        Self(self.0 | rhs.0)
    }
}

impl vstd::std_specs::ops::BitOrSpecImpl for Flags {
    open spec fn obeys_bitor_spec() -> bool {
        true
    }

    open spec fn bitor_req(self, rhs: Flags) -> bool {
        true
    }

    closed spec fn bitor_spec(self, rhs: Flags) -> Flags {
        Flags(self.0 | rhs.0)
    }
}

impl core::ops::BitAnd for Flags {
    type Output = Self;

    fn bitand(self, rhs: Self) -> (r: Self::Output)
        ensures
            r@ == self@ & rhs@,
    {
        Self(self.0 & rhs.0)
    }
}

impl vstd::std_specs::ops::BitAndSpecImpl for Flags {
    open spec fn obeys_bitand_spec() -> bool {
        true
    }

    open spec fn bitand_req(self, rhs: Flags) -> bool {
        true
    }

    closed spec fn bitand_spec(self, rhs: Flags) -> Flags {
        Flags(self.0 & rhs.0)
    }
}

impl core::ops::Not for Flags {
    type Output = Self;

    fn not(self) -> (r: Self::Output)
        ensures
            r@ == !self@,
    {
        Self(!self.0)
    }
}

impl vstd::std_specs::ops::NotSpecImpl for Flags {
    open spec fn obeys_not_spec() -> bool {
        true
    }

    open spec fn not_req(self) -> bool {
        true
    }

    closed spec fn not_spec(self) -> Flags {
        Flags(!self.0)
    }
}

/// Combining flags with `|` does not depend on the order, and `!x & y`
/// removes exactly the bits of `x` from `y`.
pub proof fn lemma_flags_algebra(a: Flags, b: Flags, c: Flags)
    ensures
        (a@ | b@) == (b@ | a@),
        ((a@ | b@) | c@) == (a@ | (b@ | c@)),
        (a@ & b@) == (b@ & a@),
        ((a@ | b@) & a@) == a@,
        ((!a@ & b@) & a@) == 0,
        (!a@ & (a@ | b@)) == (!a@ & b@),
        !(!a@) == a@,
{
    let x = a@;
    let y = b@;
    let z = c@;
    assert((x | y) == (y | x)) by (bit_vector);
    assert(((x | y) | z) == (x | (y | z))) by (bit_vector);
    assert((x & y) == (y & x)) by (bit_vector);
    assert(((x | y) & x) == x) by (bit_vector);
    assert(((!x & y) & x) == 0) by (bit_vector);
    assert((!x & (x | y)) == (!x & y)) by (bit_vector);
    assert(!(!x) == x) by (bit_vector);
}

/// The value that can be returned from an IrqHandler or a ThreadedIrqHandler.
pub enum IrqReturn {
    /// The interrupt was not from this device or was not handled.
    NotHandled,
    /// The interrupt was handled by this device.
    Handled,
}

/// C value of "the interrupt was not from this device or was not handled".
pub const IRQ_NONE: u32 = 0;

/// C value of "the interrupt was handled by this device".
pub const IRQ_HANDLED: u32 = 1;

/// C value of "the handler wants the handler thread to wake up".
pub const IRQ_WAKE_THREAD: u32 = 2;

impl IrqReturn {
    /// The C `irqreturn_t` value of this return.
    pub open spec fn raw(self) -> u32 {
        match self {
            IrqReturn::NotHandled => IRQ_NONE,
            IrqReturn::Handled => IRQ_HANDLED,
        }
    }

    /// Converts to the C `irqreturn_t` value.
    pub fn to_raw(self) -> (r: u32)
        ensures
            r == self.raw(),
    {
        match self {
            IrqReturn::NotHandled => IRQ_NONE,
            IrqReturn::Handled => IRQ_HANDLED,
        }
    }
}

/// Callbacks for an IRQ handler.
pub trait Handler: Sync {
    /// The actual handler function. As usual, sleeps are not allowed in IRQ
    /// context.
    fn handle_irq(&self) -> IrqReturn;
}

/// A registration of an IRQ handler for a given IRQ line.
///
/// The handler is owned by the registration for as long as the line is
/// requested; the C side calls it through [`handle_irq_callback`].
pub struct Registration<T: Handler> {
    irq: u32,
    flags: Flags,
    name: &'static str,
    handler: T,
}

impl<T: Handler> Registration<T> {
    /// The IRQ line this registration holds.
    pub closed spec fn irq(&self) -> u32 {
        self.irq
    }

    /// The flags the line was requested with.
    pub closed spec fn flags(&self) -> usize {
        self.flags@
    }

    /// The name the line was requested under.
    pub closed spec fn name(&self) -> Seq<char> {
        self.name@
    }

    /// The handler registered for the line.
    pub closed spec fn registered_handler(&self) -> T {
        self.handler
    }

    /// Registers the IRQ handler with the system for the given IRQ number.
    ///
    /// `request_irq` makes the kernel's `request_irq` call for the line, the
    /// flag bits and the name, with [`handle_irq_callback`] as the handler
    /// and this registration as its data; it is called once. A negative
    /// errno from it refuses the registration and drops the handler,
    /// anything else keeps it.
    pub fn register<F: FnOnce(u32, usize, &'static str) -> i32>(
        irq: u32,
        flags: Flags,
        name: &'static str,
        handler: T,
        request_irq: F,
    ) -> (r: Result<Self, Error>)
        requires
            call_requires(request_irq, (irq, flags@, name)),
        ensures
            exists|ret: i32|
                {
                    &&& #[trigger] call_ensures(request_irq, (irq, flags@, name), ret)
                    &&& ret < 0 ==> r is Err && r->Err_0.errno() == errno_of(ret)
                    &&& ret >= 0 ==> r is Ok && r->Ok_0.irq() == irq && r->Ok_0.flags() == flags@
                        && r->Ok_0.name() == name@ && r->Ok_0.registered_handler() == handler
                },
    {
        let ret = request_irq(irq, flags.bits(), name);
        let r = match to_result(ret) {
            Ok(()) => Ok(Registration { irq, flags, name, handler }),
            Err(e) => Err(e),
        };
        assert(call_ensures(request_irq, (irq, flags@, name), ret));
        r
    }

    /// Returns a reference to the handler that was registered with the system.
    pub fn handler(&self) -> (r: &T)
        ensures
            *r == self.registered_handler(),
    {
        &self.handler
    }

    /// Ends the registration.
    ///
    /// `free_irq` makes the kernel's `free_irq` call for the line, which
    /// waits until no handler of the line runs; it is called once, with the
    /// line this registration holds. Only after it has returned is the
    /// handler handed back, to be dropped.
    pub fn free<F: FnOnce(u32)>(self, free_irq: F) -> (r: T)
        requires
            call_requires(free_irq, (self.irq(),)),
        ensures
            call_ensures(free_irq, (self.irq(),), ()),
            r == self.registered_handler(),
    {
        free_irq(self.irq);
        self.handler
    }
}

/// Runs the handler of a registration for an interrupt on its line and gives
/// the C `irqreturn_t` value to hand back.
pub fn handle_irq_callback<T: Handler>(_irq: i32, data: &T) -> (r: u32)
    ensures
        r == IRQ_NONE || r == IRQ_HANDLED,
        exists|ret: IrqReturn| call_ensures(T::handle_irq, (data,), ret) && r == ret.raw(),
{
    data.handle_irq().to_raw()
}

/// The value that can be returned from `ThreadedHandler::handle_irq`.
pub enum ThreadedIrqReturn {
    /// The interrupt was not from this device or was not handled.
    NotHandled,
    /// The interrupt was handled by this device.
    Handled,
    /// The handler wants the handler thread to wake up.
    WakeThread,
}

impl ThreadedIrqReturn {
    /// The C `irqreturn_t` value of this return.
    pub open spec fn raw(self) -> u32 {
        match self {
            ThreadedIrqReturn::NotHandled => IRQ_NONE,
            ThreadedIrqReturn::Handled => IRQ_HANDLED,
            ThreadedIrqReturn::WakeThread => IRQ_WAKE_THREAD,
        }
    }

    /// Converts to the C `irqreturn_t` value.
    pub fn to_raw(self) -> (r: u32)
        ensures
            r == self.raw(),
    {
        match self {
            ThreadedIrqReturn::NotHandled => IRQ_NONE,
            ThreadedIrqReturn::Handled => IRQ_HANDLED,
            ThreadedIrqReturn::WakeThread => IRQ_WAKE_THREAD,
        }
    }
}

/// Callbacks for a threaded IRQ handler.
pub trait ThreadedHandler: Sync {
    /// The actual handler function. As usual, sleeps are not allowed in IRQ
    /// context.
    fn handle_irq(&self) -> ThreadedIrqReturn;

    /// The threaded handler function. This function is called from the irq
    /// handler thread, which is automatically created by the system.
    fn thread_fn(&self) -> IrqReturn;
}

/// A registration of a threaded IRQ handler for a given IRQ line.
///
/// Two callbacks are required: one to handle the IRQ, and one to handle any
/// other work in a separate thread.
///
/// The thread handler is only called if the IRQ handler returns `WakeThread`.
pub struct ThreadedRegistration<T: ThreadedHandler> {
    irq: u32,
    flags: Flags,
    name: &'static str,
    handler: T,
}

impl<T: ThreadedHandler> ThreadedRegistration<T> {
    /// The IRQ line this registration holds.
    pub closed spec fn irq(&self) -> u32 {
        self.irq
    }

    /// The flags the line was requested with.
    pub closed spec fn flags(&self) -> usize {
        self.flags@
    }

    /// The name the line was requested under.
    pub closed spec fn name(&self) -> Seq<char> {
        self.name@
    }

    /// The handler registered for the line.
    pub closed spec fn registered_handler(&self) -> T {
        self.handler
    }

    /// Registers the threaded IRQ handler with the system for the given IRQ
    /// number.
    ///
    /// `request_threaded_irq` makes the kernel's `request_threaded_irq` call
    /// for the line, the flag bits and the name, with
    /// [`handle_threaded_irq_callback`] and [`thread_fn_callback`] as the
    /// handlers and this registration as their data; it is called once. A
    /// negative errno from it refuses the registration and drops the
    /// handler, anything else keeps it.
    pub fn register<F: FnOnce(u32, usize, &'static str) -> i32>(
        irq: u32,
        flags: Flags,
        name: &'static str,
        handler: T,
        request_threaded_irq: F,
    ) -> (r: Result<Self, Error>)
        requires
            call_requires(request_threaded_irq, (irq, flags@, name)),
        ensures
            exists|ret: i32|
                {
                    &&& #[trigger] call_ensures(request_threaded_irq, (irq, flags@, name), ret)
                    &&& ret < 0 ==> r is Err && r->Err_0.errno() == errno_of(ret)
                    &&& ret >= 0 ==> r is Ok && r->Ok_0.irq() == irq && r->Ok_0.flags() == flags@
                        && r->Ok_0.name() == name@ && r->Ok_0.registered_handler() == handler
                },
    {
        let ret = request_threaded_irq(irq, flags.bits(), name);
        let r = match to_result(ret) {
            Ok(()) => Ok(ThreadedRegistration { irq, flags, name, handler }),
            Err(e) => Err(e),
        };
        assert(call_ensures(request_threaded_irq, (irq, flags@, name), ret));
        r
    }

    /// Returns a reference to the handler that was registered with the system.
    pub fn handler(&self) -> (r: &T)
        ensures
            *r == self.registered_handler(),
    {
        &self.handler
    }

    /// Ends the registration.
    ///
    /// `free_irq` makes the kernel's `free_irq` call for the line, which
    /// waits until no handler of the line runs; it is called once, with the
    /// line this registration holds. Only after it has returned is the
    /// handler handed back, to be dropped.
    pub fn free<F: FnOnce(u32)>(self, free_irq: F) -> (r: T)
        requires
            call_requires(free_irq, (self.irq(),)),
        ensures
            call_ensures(free_irq, (self.irq(),), ()),
            r == self.registered_handler(),
    {
        free_irq(self.irq);
        self.handler
    }
}

/// Runs the hard-IRQ part of a threaded handler and gives the C
/// `irqreturn_t` value to hand back.
pub fn handle_threaded_irq_callback<T: ThreadedHandler>(_irq: i32, data: &T) -> (r: u32)
    ensures
        r == IRQ_NONE || r == IRQ_HANDLED || r == IRQ_WAKE_THREAD,
        exists|ret: ThreadedIrqReturn| call_ensures(T::handle_irq, (data,), ret) && r == ret.raw(),
{
    data.handle_irq().to_raw()
}

/// Runs the thread part of a threaded handler and gives the C
/// `irqreturn_t` value to hand back.
pub fn thread_fn_callback<T: ThreadedHandler>(_irq: i32, data: &T) -> (r: u32)
    ensures
        r == IRQ_NONE || r == IRQ_HANDLED,
        exists|ret: IrqReturn| call_ensures(T::thread_fn, (data,), ret) && r == ret.raw(),
{
    data.thread_fn().to_raw()
}

} // verus!
