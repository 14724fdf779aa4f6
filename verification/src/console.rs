//! One writer for the whole program, behind a spin lock.

use crate::writer::{draw_pattern, Writer};
use core::fmt::Write;
use core::ops::DerefMut;
use spin::{Mutex, MutexGuard};
use vstd::prelude::*;

verus! {

/// `spin::Mutex`, a lock that spins until it is free.
#[verifier::external_type_specification]
#[verifier::external_body]
#[verifier::reject_recursive_types(T)]
pub struct ExMutex<T: ?Sized>(Mutex<T>);

/// `spin::MutexGuard`, which holds the lock until it is dropped.
#[verifier::external_type_specification]
#[verifier::external_body]
#[verifier::reject_recursive_types(T)]
pub struct ExMutexGuard<'a, T: ?Sized + 'a>(MutexGuard<'a, T>);

/// `Mutex::new`: a free lock around `user_data`. Nothing is claimed of it.
pub assume_specification<T>[ Mutex::<T>::new ](user_data: T) -> (mutex: Mutex<T>);

/// `Mutex::into_inner`: the lock is given up for what it guards. What that
/// is depends on everyone who held the lock, so nothing is claimed of it.
pub assume_specification<T>[ Mutex::<T>::into_inner ](mutex: Mutex<T>) -> (user_data: T);

/// `Mutex::lock`: spins until the lock is free and takes it. It does not
/// return while someone else holds the lock, and never if the caller holds
/// it already. Nothing is claimed of what the guard then guards.
pub assume_specification<T: ?Sized>[ Mutex::<T>::lock ](mutex: &Mutex<T>) -> (guard: MutexGuard<
    '_,
    T,
>);

/// `MutexGuard::deref_mut`: the writer that the held lock guards. What
/// state it is in depends on everyone who held the lock before, so nothing
/// is claimed of it.
#[verifier::external_body]
fn guarded<'a, 'b>(guard: &'a mut MutexGuard<'b, Writer>) -> (writer: &'a mut Writer) {
    guard.deref_mut()
}

/// `core::fmt::Arguments`, a format string with its arguments, not yet
/// rendered.
#[verifier::external_type_specification]
#[verifier::external_body]
pub struct ExArguments<'a>(core::fmt::Arguments<'a>);

/// `core::fmt::Write::write_fmt`: renders `args` and hands each piece of
/// the text to the writer's `write_str`. What the text is depends on the
/// formatting code of the arguments, and the call fails if that code
/// fails, so nothing is claimed of the outcome.
#[verifier::external_body]
fn write_formatted(writer: &mut Writer, args: core::fmt::Arguments<'_>) -> (result: Result<
    (),
    core::fmt::Error,
>) {
    writer.write_fmt(args)
}

/// The handle through which every part of a program reaches the one
/// writer. Each call takes the lock, writes, and gives the lock back, so no
/// caller can hold it across calls. What the display shows after a call
/// depends on what the other holders of the handle wrote, so the contracts
/// here promise nothing of it: what one write does to the writer is stated
/// on [`Writer`].
///
/// The lock is a spin lock. A call made while another call on the same
/// console is still running on the same thread, as from formatting code
/// inside [`Console::write_fmt`], never gets the lock and never returns.
pub struct Console {
    writer: Mutex<Writer>,
}

impl Console {
    /// A console around `writer`.
    pub fn new(writer: Writer) -> (console: Console) {
        Console { writer: Mutex::new(writer) }
    }

    /// Gives the handle up for the writer behind it.
    pub fn into_writer(self) -> (writer: Writer) {
        self.writer.into_inner()
    }

    /// Takes the lock and writes one byte with [`Writer::write_byte`].
    pub fn write_byte(&self, byte: u8) {
        let mut guard = self.writer.lock();
        let writer = guarded(&mut guard);
        writer.write_byte(byte);
    }

    /// Takes the lock and writes `s` with [`Writer::write_string`].
    pub fn write_string(&self, s: &str) {
        let mut guard = self.writer.lock();
        let writer = guarded(&mut guard);
        writer.write_string(s);
    }

    /// Takes the lock and writes `s` with [`Writer::write_str`]; the
    /// result is always `Ok`.
    pub fn write_str(&self, s: &str) -> (result: Result<(), core::fmt::Error>)
        ensures
            result.is_ok(),
    {
        let mut guard = self.writer.lock();
        let writer = guarded(&mut guard);
        writer.write_str(s)
    }

    /// Takes the lock and fills the display with the placeholder glyph, as
    /// [`draw_pattern`] does, in one critical section.
    pub fn draw_pattern(&self) {
        let mut guard = self.writer.lock();
        let writer = guarded(&mut guard);
        draw_pattern(writer);
    }

    /// Takes the lock, renders `args` and writes the text as it comes, all
    /// in one critical section. An error is one of the formatting code: the
    /// writer itself never fails.
    pub fn write_fmt(&self, args: core::fmt::Arguments<'_>) -> (result: Result<
        (),
        core::fmt::Error,
    >) {
        let mut guard = self.writer.lock();
        let writer = guarded(&mut guard);
        write_formatted(writer, args)
    }
}

/// Writes rendered text to the console in one critical section.
pub fn _print(console: &Console, text: &str) {
    let _ = console.write_str(text);
}

} // verus!
