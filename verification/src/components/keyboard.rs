//! IBM PC Keyboard - Simple scancode buffer
//!
//! The Keyboard is a simple data structure that buffers scancodes from the GUI.
//! It does not implement IoDevice - all I/O is handled by the PPI.

use std::collections::VecDeque;
use std::sync::{Arc, RwLock};
use vstd::prelude::*;

verus! {

#[verifier::external_type_specification]
#[verifier::external_body]
#[verifier::reject_recursive_types(T)]
pub struct ExRwLock<T: ?Sized>(RwLock<T>);

/// Takes the front of the shared queue under its write lock
/// (`RwLock::write` then `VecDeque::pop_front`). Other threads push into the
/// queue, so the contract states nothing about the byte returned.
#[verifier::external_body]
fn shared_queue_pop_front(queue: &Arc<RwLock<VecDeque<u8>>>) -> Option<u8> {
    queue.write().ok()?.pop_front()
}

/// Tells under the read lock whether the shared queue holds a byte
/// (`RwLock::read` then `VecDeque::is_empty`); a poisoned lock reads as
/// empty. Other threads push into the queue, so nothing is stated.
#[verifier::external_body]
fn shared_queue_nonempty(queue: &Arc<RwLock<VecDeque<u8>>>) -> bool {
    queue.read().map(|q| !q.is_empty()).unwrap_or(false)
}

/// Under the write lock, empties the shared queue and pushes one byte
/// (`RwLock::write`, `VecDeque::clear`, `VecDeque::push_back`). Other
/// threads may push afterwards, so nothing is stated.
#[verifier::external_body]
fn shared_queue_reset(queue: &Arc<RwLock<VecDeque<u8>>>, byte: u8) {
    if let Ok(mut q) = queue.write() {
        q.clear();
        q.push_back(byte);
    }
}

/// Another handle on the same shared queue (`Arc::clone`): the contract
/// claims the new handle designates the same queue.
#[verifier::external_body]
fn shared_queue_handle(queue: &Arc<RwLock<VecDeque<u8>>>) -> (r: Arc<RwLock<VecDeque<u8>>>)
    ensures
        r == *queue,
{
    queue.clone()
}

/// The self-test code the keyboard sends after a reset.
pub const SELF_TEST_PASSED: u8 = 0xAA;

/// IBM PC Keyboard
///
/// Simple scancode buffer that receives input from the GUI.
/// The PPI pulls scancodes from this buffer during its tick().
pub struct Keyboard {
    /// Shared queue of keyboard scancodes from GUI
    pub scancode_queue: Arc<RwLock<VecDeque<u8>>>,
}

impl Keyboard {
    /// Create a new keyboard with the given scancode queue
    pub fn new(scancode_queue: Arc<RwLock<VecDeque<u8>>>) -> (r: Self)
        ensures
            r.scancode_queue == scancode_queue,
    {
        Self { scancode_queue }
    }

    /// Pop the next scancode from the queue
    ///
    /// Returns the next available scancode, or None if queue is empty.
    pub fn pop_scancode(&mut self) -> (r: Option<u8>)
        ensures
            final(self).scancode_queue == old(self).scancode_queue,
    {
        shared_queue_pop_front(&self.scancode_queue)
    }

    /// Check if there are scancodes available
    pub fn has_scancode(&self) -> bool {
        shared_queue_nonempty(&self.scancode_queue)
    }

    /// Reset the keyboard
    ///
    /// Clears the queue and pushes the 0xAA self-test success code.
    pub fn reset(&mut self)
        ensures
            final(self).scancode_queue == old(self).scancode_queue,
    {
        shared_queue_reset(&self.scancode_queue, SELF_TEST_PASSED);
    }

    /// Get the keyboard scancode queue for GUI integration
    pub fn scancode_queue(&self) -> (r: Arc<RwLock<VecDeque<u8>>>)
        ensures
            r == self.scancode_queue,
    {
        shared_queue_handle(&self.scancode_queue)
    }
}

} // verus!
