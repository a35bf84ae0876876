//! The host-callback facade: the plugin's outbound path.
//!
//! Every outbound call re-presents the plugin's own descriptor address and a
//! numeric opcode to the host's callback; the raw shim owns that address, so
//! here the callback is the capability itself.  Nothing can be promised
//! about the host's answers: the construction logic therefore takes the
//! reported protocol version as a plain argument (see
//! [`crate::interfaces::create_instance`]).

use vstd::prelude::*;
use crate::api::Payload;

verus! {

/// Host opcode: a parameter was changed from the plugin side.
pub const HOST_OPCODE_AUTOMATE: i32 = 0;
/// Host opcode: which protocol version does the host speak?
pub const HOST_OPCODE_VERSION: i32 = 1;
/// Host opcode: the identifier of the plugin being constructed.
pub const HOST_OPCODE_CURRENT_ID: i32 = 2;
/// Host opcode: give the host idle time.
pub const HOST_OPCODE_IDLE: i32 = 3;

/// The host's callback function.  The host supplies it; the plugin only
/// calls it, so no answer is specified.  An implementation answering the
/// version query with zero declares itself too old to host this plugin.
pub trait HostCallback {
    /// One call back into the host: an opcode with the protocol's argument
    /// shape, minus the descriptor address the shim re-presents.
    fn callback(
        &mut self,
        opcode: i32,
        index: i32,
        value: isize,
        payload: &mut Payload,
        opt_bits: u32,
    ) -> isize;
}

/// The handle a plugin holds to speak to its host.  It owns the callback
/// capability; it owns nothing on the host's side.
pub struct Host<C: HostCallback> {
    callback: C,
}

impl<C: HostCallback> Host<C> {
    /// Wrap the host's callback.
    pub fn new(callback: C) -> Host<C> {
        Host { callback }
    }

    /// Borrow the wrapped callback.
    pub fn callback_ref(&self) -> &C {
        &self.callback
    }

    /// Send one raw query to the host.  What comes back is the host's
    /// business; callers must not rely on any particular answer.
    pub fn query(
        &mut self,
        opcode: i32,
        index: i32,
        value: isize,
        payload: &mut Payload,
        opt_bits: u32,
    ) -> isize {
        self.callback.callback(opcode, index, value, payload, opt_bits)
    }

    /// Ask the host which protocol version it speaks.  Zero marks a host
    /// too old to drive this plugin.
    pub fn vst_version(&mut self) -> i32 {
        let mut payload = Payload::Empty;
        let raw = self.query(HOST_OPCODE_VERSION, 0, 0, &mut payload, 0);
        #[verifier::truncate] (raw as i32)
    }

    /// Tell the host a parameter changed from the plugin side, for example
    /// from the editor.  The new value travels as the raw bits of the
    /// single-precision value.
    pub fn automate(&mut self, index: i32, value_bits: u32) {
        let mut payload = Payload::Empty;
        let _ = self.query(HOST_OPCODE_AUTOMATE, index, 0, &mut payload, value_bits);
    }
}

} // verus!
