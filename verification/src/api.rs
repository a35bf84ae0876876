//! The fixed-layout descriptor the host reads, and the payload argument of
//! the dispatch entry point.
//!
//! At the raw ABI the descriptor also carries the entry-point function
//! pointers, an opaque pointer to the plugin cell and a zeroed reserved byte
//! region; those live in the unverified export shim.  Everything the host
//! reads as plain data is modelled here.

use vstd::prelude::*;
use crate::VST_MAGIC;
use crate::plugin::Info;
use crate::enums::flags_for;
use crate::enums::compute_flags;

verus! {

/// The descriptor record a host reads to learn a plugin's shape.  Every
/// field is populated once, at construction, from the plugin's declared
/// [`Info`], and never reassigned afterwards.
#[derive(Clone, Copy, PartialEq, Eq, Structural, Debug)]
pub struct AEffect {
    /// Always [`VST_MAGIC`]; a host treats any other value as invalid.
    pub magic: i32,
    /// Number of presets.
    pub num_programs: i32,
    /// Number of parameters; each preset has this many.
    pub num_params: i32,
    /// Number of input channels of audio.
    pub num_inputs: i32,
    /// Number of output channels of audio.
    pub num_outputs: i32,
    /// Capability bit-flags, combined by bitwise or.
    pub flags: i32,
    /// Reserved for the host; must stay zero.
    pub reserved1: isize,
    /// Reserved for the host; must stay zero.
    pub reserved2: isize,
    /// Latency, in frames, the host should compensate for.
    pub initial_delay: i32,
    /// Meaningless legacy field, kept zeroed for layout compatibility.
    pub real_qualities: i32,
    /// Meaningless legacy field, kept zeroed for layout compatibility.
    pub off_qualities: i32,
    /// Legacy input/output ratio, kept zeroed; stored as raw bits of the
    /// single-precision value.
    pub io_ratio_bits: u32,
    /// Identifier the host uses to tell plugins apart.
    pub unique_id: i32,
    /// Plugin version.
    pub version: i32,
}

/// Whether the descriptor `e` is exactly what a plugin declaring `info`
/// (and reporting an editor iff `has_editor`) must expose: the magic
/// constant, the declared counts and identifiers, the derived capability
/// word, and zeroes in every reserved field.
pub open spec fn effect_matches(e: AEffect, info: Info, has_editor: bool) -> bool {
    &&& e.magic == VST_MAGIC
    &&& e.num_programs == info.presets
    &&& e.num_params == info.parameters
    &&& e.num_inputs == info.inputs
    &&& e.num_outputs == info.outputs
    &&& e.flags == flags_for(info, has_editor)
    &&& e.reserved1 == 0
    &&& e.reserved2 == 0
    &&& e.initial_delay == info.initial_delay
    &&& e.real_qualities == 0
    &&& e.off_qualities == 0
    &&& e.io_ratio_bits == 0
    &&& e.unique_id == info.unique_id
    &&& e.version == info.version
}

/// Populate a descriptor from a plugin's declaration.  This is the only
/// place descriptor fields are given their values.
pub fn build_effect(info: &Info, has_editor: bool) -> (e: AEffect)
    ensures
        effect_matches(e, *info, has_editor),
{
    AEffect {
        magic: VST_MAGIC,
        num_programs: info.presets,
        num_params: info.parameters,
        num_inputs: info.inputs,
        num_outputs: info.outputs,
        flags: compute_flags(info, has_editor),
        reserved1: 0,
        reserved2: 0,
        initial_delay: info.initial_delay,
        real_qualities: 0,
        off_qualities: 0,
        io_ratio_bits: 0,
        unique_id: info.unique_id,
        version: info.version,
    }
}

/// The geometry of an editor window, as the host protocol frames it.
#[derive(Clone, Copy, PartialEq, Eq, Structural, Debug)]
pub struct EditorRect {
    /// Top edge.
    pub top: i16,
    /// Left edge.
    pub left: i16,
    /// Bottom edge.
    pub bottom: i16,
    /// Right edge.
    pub right: i16,
}

/// The untyped payload argument of a dispatch call, in typed form.  The raw
/// protocol passes one pointer whose meaning depends on the opcode: a
/// caller-owned buffer the plugin writes into, a byte chunk, a record to
/// fill in, or nothing.
#[derive(Clone, PartialEq, Eq, Debug)]
pub enum Payload {
    /// No payload accompanies the call.
    Empty,
    /// Text: a query string on the way in, or a name written for the host
    /// on the way out.
    Text(String),
    /// An opaque byte chunk, such as preset data.
    Data(Vec<u8>),
    /// Editor geometry written for the host.
    Rect(EditorRect),
    /// Channel information written for the host.
    Channel(crate::channels::ChannelInfo),
}

} // verus!
