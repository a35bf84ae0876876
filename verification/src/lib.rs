//! A safe, verified core for building VST 2.4 audio plugins.
//!
//! The host side of the protocol speaks in raw pointers, opcodes and a
//! fixed-layout record.  This crate models that boundary with plain,
//! verified data: the plugin descriptor ([`api::AEffect`]), the opcode
//! dispatcher and lifecycle manager ([`interfaces`]), the audio-buffer
//! bridge ([`buffer::AudioBuffer`]) and the host-callback facade
//! ([`host::Host`]).  Samples and single-precision values travel as their
//! raw bit patterns (`u32`, `u64`), so moving one here is exactly the
//! bitwise copy the protocol performs.  The raw ABI shims a finished plugin
//! exports are a thin unverified layer over these entry points.
//!
//! A plugin implements the [`Vst`] trait; every method except `new` and
//! `get_info` has a default that does nothing or answers neutrally.

use vstd::prelude::*;

pub mod api;
pub mod buffer;
pub mod channels;
pub mod enums;
pub mod host;
pub mod interfaces;
pub mod plugin;
pub mod text;

use crate::api::{EditorRect, Payload};
use crate::buffer::AudioBuffer;
use crate::channels::ChannelInfo;
use crate::enums::{CanDo, Supported};
use crate::host::{Host, HostCallback};
use crate::interfaces::{create_instance, PluginInstance};
use crate::plugin::Info;

verus! {

/// VST plugins are identified by a magic number.  This corresponds to
/// 0x56737450, the four ASCII characters `VstP` packed into a 32-bit word.
pub const VST_MAGIC: i32 = 0x56737450;

/// Must be implemented by all VST plugins.
///
/// All methods except `new` and `get_info` provide a default implementation
/// which does nothing, or answers neutrally, and can be safely overridden.
pub trait Vst: Sized {
    /// The host-callback type this plugin is driven by.
    type H: HostCallback;

    /// Construct the plugin.  The [`Host`] handle is the plugin's only way
    /// to speak to its host; a plugin that wants it later stores it here.
    fn new(host: Host<Self::H>) -> Self;

    /// The plugin's declaration of itself; the descriptor the host reads is
    /// populated from it once, at construction.
    fn get_info(&self) -> Info;

    /// Called when the host has received the descriptor and the plugin is
    /// fully initialized.
    fn init(&mut self)
        default_ensures
            *final(self) == *old(self),
    {
    }

    /// Set the current preset to the index specified by `preset`.
    fn change_preset(&mut self, preset: i32)
        default_ensures
            *final(self) == *old(self),
    {
    }

    /// Get the current preset index.
    fn get_preset_num(&self) -> (r: i32)
        default_ensures
            r == 0,
    {
        0
    }

    /// Set the current preset name.
    fn set_preset_name(&mut self, name: String)
        default_ensures
            *final(self) == *old(self),
    {
    }

    /// Get the name of the preset at the index specified by `preset`.
    fn get_preset_name(&self, preset: i32) -> (r: String)
        default_ensures
            r@.len() == 0,
    {
        String::new()
    }

    /// Get parameter label for parameter at `index` (e.g. "db", "sec", "%").
    fn get_parameter_label(&self, index: i32) -> (r: String)
        default_ensures
            r@.len() == 0,
    {
        String::new()
    }

    /// Get the parameter value rendered as text for parameter at `index`
    /// (e.g. "1.0", "150", "Plate", "Off").  Rendering the stored bits as a
    /// number is floating-point work this core does not do, so the default
    /// answers the empty string; a plugin that wants its values displayed
    /// overrides this.
    fn get_parameter_text(&self, index: i32) -> (r: String)
        default_ensures
            r@.len() == 0,
    {
        String::new()
    }

    /// Get the name of parameter at `index`.
    fn get_parameter_name(&self, index: i32) -> (r: String)
        default_ensures
            r@ == "Param "@ + crate::text::decimal(index as int),
    {
        crate::text::prefixed_number("Param ", index)
    }

    /// Get the value of parameter at `index`, as the raw bits of a
    /// single-precision value between 0.0 and 1.0.
    fn get_parameter(&self, index: i32) -> (r: u32)
        default_ensures
            r == 0,
    {
        0
    }

    /// Set the value of parameter at `index`; `value` carries the raw bits
    /// of a single-precision value between 0.0 and 1.0.
    fn set_parameter(&mut self, index: i32, value: u32)
        default_ensures
            *final(self) == *old(self),
    {
    }

    /// Return whether parameter at `index` can be automated.
    fn can_be_automated(&self, index: i32) -> (r: bool)
        default_ensures
            r == false,
    {
        false
    }

    /// Use a string the user typed as input for the parameter at `index`.
    /// Returns whether the input string was used.
    fn string_to_parameter(&self, index: i32, text: String) -> (r: bool)
        default_ensures
            r == false,
    {
        false
    }

    /// Called when the sample rate is changed by the host; `rate` carries
    /// the raw bits of the host's single-precision value.
    fn sample_rate_changed(&mut self, rate: u32)
        default_ensures
            *final(self) == *old(self),
    {
    }

    /// Called when the maximum block size is changed by the host.
    fn block_size_changed(&mut self, size: i64)
        default_ensures
            *final(self) == *old(self),
    {
    }

    /// Called when the plugin is turned on.
    fn on_resume(&mut self)
        default_ensures
            *final(self) == *old(self),
    {
    }

    /// Called when the plugin is turned off.
    fn on_suspend(&mut self)
        default_ensures
            *final(self) == *old(self),
    {
    }

    /// Vendor specific handling; the payload travels in typed form.
    fn vendor_specific(&mut self, index: i32, value: isize, payload: &mut Payload, opt_bits: u32)
        default_ensures
            *final(self) == *old(self),
            *final(payload) == *old(payload),
    {
    }

    /// Return whether the plugin supports the queried action.
    fn can_do(&self, query: CanDo) -> (r: Supported)
        default_ensures
            r == Supported::Maybe,
    {
        Supported::Maybe
    }

    /// Get the tail size of the plugin when it is stopped, in frames.
    fn get_tail_size(&self) -> (r: isize)
        default_ensures
            r == 0,
    {
        0
    }

    /// Process a buffer of single-precision audio, given as raw sample bits.
    /// Every implementation keeps the buffer's shape; the default copies
    /// each input channel into its paired output channel unchanged.
    fn process(&mut self, buffer: &mut AudioBuffer<u32>)
        requires
            old(buffer).well_formed(),
        ensures
            final(buffer).well_formed(),
            final(buffer).inputs == old(buffer).inputs,
            final(buffer).samples == old(buffer).samples,
            final(buffer).outputs@.len() == old(buffer).outputs@.len(),
        default_ensures
            *final(self) == *old(self),
            forall|c: int|
                0 <= c < final(buffer).pair_count() ==> (#[trigger] final(buffer).outputs@[c])@
                    == final(buffer).inputs@[c]@,
            forall|c: int|
                final(buffer).pair_count() <= c < final(buffer).outputs@.len()
                    ==> final(buffer).outputs@[c] == old(buffer).outputs@[c],
    {
        buffer.passthrough();
    }

    /// Process a buffer of double-precision audio, given as raw sample bits.
    /// Every implementation keeps the buffer's shape; the default copies
    /// each input channel into its paired output channel unchanged.
    fn process_f64(&mut self, buffer: &mut AudioBuffer<u64>)
        requires
            old(buffer).well_formed(),
        ensures
            final(buffer).well_formed(),
            final(buffer).inputs == old(buffer).inputs,
            final(buffer).samples == old(buffer).samples,
            final(buffer).outputs@.len() == old(buffer).outputs@.len(),
        default_ensures
            *final(self) == *old(self),
            forall|c: int|
                0 <= c < final(buffer).pair_count() ==> (#[trigger] final(buffer).outputs@[c])@
                    == final(buffer).inputs@[c]@,
            forall|c: int|
                final(buffer).pair_count() <= c < final(buffer).outputs@.len()
                    ==> final(buffer).outputs@[c] == old(buffer).outputs@[c],
    {
        buffer.passthrough();
    }

    /// Whether the plugin provides an editor window.  The editor capability
    /// bit in the descriptor is derived from this at construction.
    fn has_editor(&self) -> (r: bool)
        default_ensures
            r == false,
    {
        false
    }

    /// The editor's window geometry.
    fn editor_rect(&self) -> (r: EditorRect)
        default_ensures
            r == (EditorRect { top: 0, left: 0, bottom: 0, right: 0 }),
    {
        EditorRect { top: 0, left: 0, bottom: 0, right: 0 }
    }

    /// Open the editor; returns whether it opened.
    fn editor_open(&mut self) -> (r: bool)
        default_ensures
            r == false,
    {
        false
    }

    /// Close the editor.
    fn editor_close(&mut self)
        default_ensures
            *final(self) == *old(self),
    {
    }

    /// Give the editor idle time.
    fn editor_idle(&mut self)
        default_ensures
            *final(self) == *old(self),
    {
    }

    /// If `preset_chunks` is declared, the raw chunk data for the current
    /// preset.
    fn get_preset_data(&mut self) -> (r: Vec<u8>)
        default_ensures
            *final(self) == *old(self),
            r@.len() == 0,
    {
        Vec::new()
    }

    /// If `preset_chunks` is declared, the raw chunk data for the current
    /// plugin bank.
    fn get_bank_data(&mut self) -> (r: Vec<u8>)
        default_ensures
            *final(self) == *old(self),
            r@.len() == 0,
    {
        Vec::new()
    }

    /// If `preset_chunks` is declared, load a preset from chunk data.
    fn load_preset_data(&mut self, data: Vec<u8>)
        default_ensures
            *final(self) == *old(self),
    {
    }

    /// If `preset_chunks` is declared, load a preset bank from chunk data.
    fn load_bank_data(&mut self, data: Vec<u8>)
        default_ensures
            *final(self) == *old(self),
    {
    }

    /// Information about the input channel at `input`.
    fn get_input_info(&self, input: i32) -> (r: ChannelInfo)
        default_ensures
            r.name@ == "Input channel "@ + crate::text::decimal(input as int),
            r.short_name@ == "In "@ + crate::text::decimal(input as int),
            r.active == true,
    {
        ChannelInfo::new(
            crate::text::prefixed_number("Input channel ", input),
            Some(crate::text::prefixed_number("In ", input)),
            true,
        )
    }

    /// Information about the output channel at `output`.
    fn get_output_info(&self, output: i32) -> (r: ChannelInfo)
        default_ensures
            r.name@ == "Output channel "@ + crate::text::decimal(output as int),
            r.short_name@ == "Out "@ + crate::text::decimal(output as int),
            r.active == true,
    {
        ChannelInfo::new(
            crate::text::prefixed_number("Output channel ", output),
            Some(crate::text::prefixed_number("Out ", output)),
            true,
        )
    }
}

/// Initialize a VST plugin and return its instance, or `None` when the host
/// declares itself too old (protocol version zero).  Every exported entry
/// symbol of a finished plugin funnels into this routine.
///
/// Whether an instance comes back is the host's decision (its callback
/// reports the protocol version); [`create_instance`] states the two
/// outcomes exactly.  Any instance returned is live, its descriptor matches
/// its recorded declaration, and that declaration is an answer of the held
/// plugin's own `get_info` and `has_editor`.
pub fn plugin_main<P: Vst>(callback: P::H) -> (r: Option<PluginInstance<P>>)
    ensures
        r matches Some(inst) ==> inst.live() && inst.wf(),
        r matches Some(inst) ==> (inst.spec_plugin() matches Some(p)
            && (exists|h: Host<P::H>| #[trigger] call_ensures(P::new, (h,), p))
            && call_ensures(P::get_info, (&p,), inst.spec_declared())
            && call_ensures(P::has_editor, (&p,), inst.spec_editor())),
{
    let mut host = Host::new(callback);
    let version = host.vst_version();
    create_instance::<P>(host, version)
}

} // verus!
