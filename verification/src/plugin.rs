//! Plugin metadata: the `Info` record a plugin declares about itself, and the
//! category vocabulary the host understands.

use vstd::prelude::*;
use crate::host::{Host, HostCallback};
use crate::Vst;

verus! {

/// The broad family a plugin belongs to, advertised to the host.
#[derive(Clone, Copy, PartialEq, Eq, Structural, Debug)]
pub enum Category {
    /// Unknown or unspecified.
    Unknown,
    /// An audio effect.
    Effect,
    /// An instrument driven by events.
    Synth,
    /// An analysis tool that produces no audio of its own.
    Analysis,
    /// A mastering processor.
    Mastering,
    /// A spatializer / panner.
    Spacializer,
    /// A room effect such as delay or reverb.
    RoomFx,
    /// A surround effect.
    SurroundFx,
    /// A restoration processor (denoise, declick, ...).
    Restoration,
    /// An offline-only processor.
    OfflineProcess,
    /// A shell plugin hosting sub-plugins.
    Shell,
    /// A tone or signal generator.
    Generator,
}

impl Category {
    /// The numeric code the host protocol assigns to this category.
    pub open spec fn spec_code(self) -> isize {
        match self {
            Category::Unknown => 0,
            Category::Effect => 1,
            Category::Synth => 2,
            Category::Analysis => 3,
            Category::Mastering => 4,
            Category::Spacializer => 5,
            Category::RoomFx => 6,
            Category::SurroundFx => 7,
            Category::Restoration => 8,
            Category::OfflineProcess => 9,
            Category::Shell => 10,
            Category::Generator => 11,
        }
    }

    /// Turn the category into the numeric code the host protocol expects.
    pub fn code(self) -> (r: isize)
        ensures
            r == self.spec_code(),
    {
        match self {
            Category::Unknown => 0,
            Category::Effect => 1,
            Category::Synth => 2,
            Category::Analysis => 3,
            Category::Mastering => 4,
            Category::Spacializer => 5,
            Category::RoomFx => 6,
            Category::SurroundFx => 7,
            Category::Restoration => 8,
            Category::OfflineProcess => 9,
            Category::Shell => 10,
            Category::Generator => 11,
        }
    }
}

/// Everything a plugin declares about itself.  The descriptor the host reads
/// is populated from one of these at construction and never changes afterwards.
pub struct Info {
    /// Plugin name, shown by the host.
    pub name: String,
    /// Vendor name.
    pub vendor: String,
    /// Number of presets (programs).
    pub presets: i32,
    /// Number of automatable parameters.
    pub parameters: i32,
    /// Number of input channels.
    pub inputs: i32,
    /// Number of output channels.
    pub outputs: i32,
    /// Identifier the host uses to tell plugins apart.
    pub unique_id: i32,
    /// Plugin version.
    pub version: i32,
    /// Category of this plugin.
    pub category: Category,
    /// Latency, in frames, that the plugin introduces.
    pub initial_delay: i32,
    /// Whether presets are exchanged as opaque chunks of bytes.
    pub preset_chunks: bool,
    /// Whether the plugin can process 64-bit samples.
    pub f64_precision: bool,
    /// Whether the plugin is silent when stopped.
    pub silent_when_stopped: bool,
}

impl Default for Info {
    /// A stereo effect with one preset, no parameters and double-precision
    /// processing enabled.
    fn default() -> (r: Info)
        ensures
            r.name@ == "VST"@,
            r.vendor@ == Seq::<char>::empty(),
            r.presets == 1,
            r.parameters == 0,
            r.inputs == 2,
            r.outputs == 2,
            r.unique_id == 0,
            r.version == 1,
            r.category == Category::Effect,
            r.initial_delay == 0,
            r.preset_chunks == false,
            r.f64_precision == true,
            r.silent_when_stopped == false,
    {
        Info {
            name: "VST".to_owned(),
            vendor: String::new(),
            presets: 1,
            parameters: 0,
            inputs: 2,
            outputs: 2,
            unique_id: 0,
            version: 1,
            category: Category::Effect,
            initial_delay: 0,
            preset_chunks: false,
            f64_precision: true,
            silent_when_stopped: false,
        }
    }
}

/// How many parameter slots [`BasicPlugin`] keeps.
pub const BASIC_PARAMETERS: usize = 8;

/// What a parameter table holds after a write: an in-range write replaces
/// the one slot, an out-of-range write changes nothing.
pub open spec fn param_store_set(params: Seq<u32>, index: int, value: u32) -> Seq<u32> {
    if 0 <= index < params.len() {
        params.update(index, value)
    } else {
        params
    }
}

/// What a parameter read answers: the slot's value in range, the neutral
/// zero outside it.
pub open spec fn param_store_get(params: Seq<u32>, index: int) -> u32 {
    if 0 <= index < params.len() {
        params[index]
    } else {
        0
    }
}

/// Law: writing a parameter and reading the same slot back yields exactly
/// the value written, for every slot in range.
pub proof fn lemma_param_round_trip(params: Seq<u32>, index: int, value: u32)
    requires
        0 <= index < params.len(),
    ensures
        param_store_get(param_store_set(params, index, value), index) == value,
{
}

/// Law: a parameter write leaves every other slot exactly as it was.
pub proof fn lemma_param_write_isolated(params: Seq<u32>, index: int, value: u32, other: int)
    requires
        0 <= other < params.len(),
        other != index,
    ensures
        param_store_get(param_store_set(params, index, value), other) == param_store_get(
            params,
            other,
        ),
{
}

/// A minimal plugin that stores its parameter values verbatim: the
/// reference implementation of the parameter accessors, and the plugin the
/// round-trip law is exercised on.  Everything else keeps the trait
/// defaults.
pub struct BasicPlugin<C: HostCallback> {
    host: Host<C>,
    params: Vec<u32>,
}

impl<C: HostCallback> BasicPlugin<C> {
    /// The stored parameter table.
    pub closed spec fn param_values(&self) -> Seq<u32> {
        self.params@
    }
}

impl<C: HostCallback> Vst for BasicPlugin<C> {
    type H = C;

    fn new(host: Host<C>) -> (r: Self)
        ensures
            r.param_values().len() == BASIC_PARAMETERS,
            forall|i: int| 0 <= i < BASIC_PARAMETERS ==> r.param_values()[i] == 0,
    {
        let mut params: Vec<u32> = Vec::new();
        let mut i: usize = 0;
        while i < BASIC_PARAMETERS
            invariant
                i <= BASIC_PARAMETERS,
                params@.len() == i,
                forall|k: int| 0 <= k < i ==> params@[k] == 0,
            decreases BASIC_PARAMETERS - i,
        {
            params.push(0);
            i += 1;
        }
        BasicPlugin { host, params }
    }

    fn get_info(&self) -> (r: Info)
        ensures
            r.presets == 1,
            r.parameters == BASIC_PARAMETERS as i32,
            r.inputs == 2,
            r.outputs == 2,
            r.f64_precision == true,
    {
        Info {
            name: "Basic".to_owned(),
            vendor: String::new(),
            presets: 1,
            parameters: BASIC_PARAMETERS as i32,
            inputs: 2,
            outputs: 2,
            unique_id: 0,
            version: 1,
            category: Category::Effect,
            initial_delay: 0,
            preset_chunks: false,
            f64_precision: true,
            silent_when_stopped: false,
        }
    }

    fn get_parameter(&self, index: i32) -> (r: u32)
        ensures
            r == param_store_get(self.param_values(), index as int),
    {
        if index >= 0 && (index as usize) < self.params.len() {
            self.params[index as usize]
        } else {
            0
        }
    }

    fn set_parameter(&mut self, index: i32, value: u32)
        ensures
            final(self).param_values() == param_store_set(
                old(self).param_values(),
                index as int,
                value,
            ),
    {
        if index >= 0 && (index as usize) < self.params.len() {
            self.params.set(index as usize, value);
        }
    }
}

} // verus!
