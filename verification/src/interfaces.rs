//! The entry points the host drives, and the lifecycle of a plugin instance.
//!
//! The raw ABI installs thin shims for these in the descriptor's
//! function-pointer table; each shim resolves the instance behind the
//! descriptor's opaque pointer and calls the function here.  The instance is
//! a state machine with two states: *live*, from construction until the
//! terminate opcode, and *terminated* afterwards; the only transition is the
//! terminate opcode, and it is one-directional.  Calling any entry point on
//! a terminated instance is out of contract (the host promises never to do
//! it), which the `live` preconditions record.

use vstd::prelude::*;
use crate::Vst;
use crate::api::{build_effect, AEffect, EditorRect, Payload};
use crate::channels::ChannelInfo;
use crate::buffer::AudioBuffer;
use crate::enums::{can_do_matches, decode_opcode, opcode_of, parse_can_do, CanDo, OpCode, Supported};
use crate::host::Host;
use crate::plugin::Info;

verus! {

/// One constructed plugin behind its descriptor.  It owns the plugin object
/// exclusively: the indirection cell of the raw ABI is this `Option`, which
/// teardown empties exactly once.
pub struct PluginInstance<P: Vst> {
    /// The descriptor the host reads.  Populated once, at construction, and
    /// never reassigned: no entry point writes to it.
    effect: AEffect,
    /// The plugin object; `None` once the terminate opcode has run.
    plugin: Option<P>,
    /// The `Info` the plugin declared at construction.
    declared: Ghost<Info>,
    /// Whether the plugin reported an editor at construction.
    editor_declared: Ghost<bool>,
}

impl<P: Vst> PluginInstance<P> {
    /// Whether the instance still owns its plugin object: true from
    /// construction until the terminate opcode runs.
    pub closed spec fn live(&self) -> bool {
        self.plugin is Some
    }

    /// The descriptor, as the host sees it.
    pub closed spec fn spec_effect(&self) -> AEffect {
        self.effect
    }

    /// The `Info` the plugin declared at construction.
    pub closed spec fn spec_declared(&self) -> Info {
        self.declared@
    }

    /// Whether the plugin reported an editor at construction.
    pub closed spec fn spec_editor(&self) -> bool {
        self.editor_declared@
    }

    /// The plugin object the instance holds: the one construction stored,
    /// until teardown takes it.
    pub closed spec fn spec_plugin(&self) -> Option<P> {
        self.plugin
    }

    /// The descriptor is exactly what the declared `Info` and the reported
    /// editor dictate: the magic constant, the declared counts and
    /// identifiers, the derived capability word, zeroed reserved fields.
    pub open spec fn wf(&self) -> bool {
        crate::api::effect_matches(self.spec_effect(), self.spec_declared(), self.spec_editor())
    }

    /// Whether the instance is still live, as a runtime answer: the raw
    /// shim uses it to refuse calls after teardown instead of going out of
    /// contract.
    pub fn is_live(&self) -> (r: bool)
        ensures
            r == self.live(),
    {
        self.plugin.is_some()
    }

    /// Borrow the plugin object: exactly the one the instance holds.
    pub fn get_vst(&self) -> (r: &P)
        requires
            self.live(),
        ensures
            self.spec_plugin() == Some(*r),
    {
        match &self.plugin {
            Some(p) => p,
            None => unreached(),
        }
    }

    /// Borrow the descriptor, as the host reads it.
    pub fn effect(&self) -> (r: &AEffect)
        ensures
            *r == self.spec_effect(),
    {
        &self.effect
    }
}

/// Finish construction once the host has answered the protocol-version
/// query: a version of zero means the callback is non-functional ("host too
/// old") and yields no instance; any other version constructs the plugin
/// object and populates the descriptor from its declaration.  No plugin
/// object is ever constructed on the failure path.
///
/// The `call_ensures` clauses tie the recorded declaration to the held
/// plugin: what the descriptor was built from is an answer of that very
/// plugin's `get_info` and `has_editor`.  A caller who knows the concrete
/// plugin type therefore inherits whatever those methods ensure of their
/// results.
pub fn create_instance<P: Vst>(host: Host<P::H>, vst_version: i32) -> (r: Option<
    PluginInstance<P>,
>)
    ensures
        r is Some <==> vst_version != 0,
        r matches Some(inst) ==> inst.live() && inst.wf(),
        r matches Some(inst) ==> (inst.spec_plugin() matches Some(p)
            && call_ensures(P::new, (host,), p)
            && call_ensures(P::get_info, (&p,), inst.spec_declared())
            && call_ensures(P::has_editor, (&p,), inst.spec_editor())),
{
    if vst_version == 0 {
        return None;
    }
    let plugin = P::new(host);
    let info = plugin.get_info();
    let has_editor = plugin.has_editor();
    let effect = build_effect(&info, has_editor);
    Some(
        PluginInstance {
            effect,
            plugin: Some(plugin),
            declared: Ghost(info),
            editor_declared: Ghost(has_editor),
        },
    )
}

/// The answer for a chunk request: the chunk's length, clamped to the
/// pointer-sized integer the protocol returns it in.
pub open spec fn chunk_answer(len: nat) -> isize {
    if len > isize::MAX {
        isize::MAX
    } else {
        len as isize
    }
}

/// What the dispatcher owes in the caller-owned payload for each operation,
/// given the payload as it arrived (`before`) and as it is handed back
/// (`after`): the name queries write text, the channel queries a channel
/// record, a successful geometry query the editor's rectangle, a chunk
/// request the chunk with its length as the answer.  Vendor-specific calls
/// hand the payload to the plugin.  Every other operation returns the
/// payload exactly as it arrived.
pub open spec fn payload_pinned(op: OpCode, before: Payload, after: Payload, r: isize) -> bool {
    match op {
        OpCode::GetCurrentPresetName => after is Text,
        OpCode::GetParameterLabel => after is Text,
        OpCode::GetParameterDisplay => after is Text,
        OpCode::GetParameterName => after is Text,
        OpCode::GetPresetName => after is Text,
        OpCode::GetEffectName => after is Text,
        OpCode::GetVendorName => after is Text,
        OpCode::GetProductName => after is Text,
        OpCode::GetInputInfo => after is Channel,
        OpCode::GetOutputInfo => after is Channel,
        OpCode::EditorGetRect => if r == 1 {
            after is Rect
        } else {
            after == before
        },
        OpCode::GetData => after matches Payload::Data(d) && r == chunk_answer(d@.len()),
        OpCode::VendorSpecific => true,
        _ => after == before,
    }
}

/// The part of the dispatcher's answer that does not depend on the plugin:
/// commands answer zero, yes/no questions answer zero or one, the name
/// queries answer one, a capability query answers the tri-state code, a
/// category its numeric code, and the protocol-version query the version
/// this bridge speaks.
pub open spec fn answer_pinned(op: OpCode, r: isize) -> bool {
    match op {
        OpCode::Initialize => r == 0,
        OpCode::Shutdown => r == 0,
        OpCode::ChangePreset => r == 0,
        OpCode::SetCurrentPresetName => r == 0,
        OpCode::GetCurrentPresetName => r == 0,
        OpCode::GetParameterLabel => r == 0,
        OpCode::GetParameterDisplay => r == 0,
        OpCode::GetParameterName => r == 0,
        OpCode::SetSampleRate => r == 0,
        OpCode::SetBlockSize => r == 0,
        OpCode::StateChanged => r == 0,
        OpCode::EditorClose => r == 0,
        OpCode::EditorIdle => r == 0,
        OpCode::SetData => r == 0,
        OpCode::GetPresetName => r == 0,
        OpCode::VendorSpecific => r == 0,
        OpCode::EditorGetRect => r == 0 || r == 1,
        OpCode::EditorOpen => r == 0 || r == 1,
        OpCode::CanBeAutomated => r == 0 || r == 1,
        OpCode::StringToParameter => r == 0 || r == 1,
        OpCode::GetInputInfo => r == 1,
        OpCode::GetOutputInfo => r == 1,
        OpCode::GetEffectName => r == 1,
        OpCode::GetVendorName => r == 1,
        OpCode::GetProductName => r == 1,
        OpCode::GetCategory => 0 <= r <= 11,
        OpCode::CanDoQuery => -1 <= r <= 1,
        OpCode::GetVstVersion => r == 2400,
        OpCode::GetCurrentPresetNum => true,
        OpCode::GetTailSize => true,
        OpCode::GetData => r >= 0,
        OpCode::GetVendorVersion => true,
    }
}

/// The single dispatch entry point for every non-audio operation.
///
/// A recognized opcode is routed to exactly one typed plugin method; an
/// unrecognized opcode returns the neutral zero and invokes nothing, so
/// unknown future host queries cannot disturb the plugin.  The terminate
/// opcode instead runs teardown: the plugin object is dropped, exactly once,
/// and the instance leaves the live state for good.  The descriptor is never
/// written to, whatever the opcode.
pub fn dispatch<P: Vst>(
    instance: &mut PluginInstance<P>,
    opcode: i32,
    index: i32,
    value: isize,
    payload: &mut Payload,
    opt_bits: u32,
) -> (r: isize)
    requires
        old(instance).live(),
    ensures
        final(instance).spec_effect() == old(instance).spec_effect(),
        final(instance).spec_declared() == old(instance).spec_declared(),
        final(instance).spec_editor() == old(instance).spec_editor(),
        opcode_of(opcode) is None ==> r == 0 && *final(instance) == *old(instance)
            && *final(payload) == *old(payload),
        opcode_of(opcode) == Some(OpCode::Shutdown) ==> r == 0 && !final(instance).live(),
        opcode_of(opcode) != Some(OpCode::Shutdown) ==> final(instance).live(),
        opcode_of(opcode) matches Some(op) ==> answer_pinned(op, r),
        opcode_of(opcode) matches Some(op) ==> payload_pinned(op, *old(payload), *final(payload), r),
        opcode_of(opcode) == Some(OpCode::GetPresetName) ==> (old(instance).spec_plugin()
            matches Some(pv) && (exists|s: String|
            #![auto]
            *final(payload) == Payload::Text(s) && call_ensures(
                P::get_preset_name,
                (&pv, index),
                s,
            ))),
        opcode_of(opcode) == Some(OpCode::GetCurrentPresetName) ==> (old(instance).spec_plugin()
            matches Some(pv) && (exists|n: i32, s: String|
            #![auto]
            *final(payload) == Payload::Text(s) && call_ensures(P::get_preset_num, (&pv,), n)
                && call_ensures(P::get_preset_name, (&pv, n), s))),
        opcode_of(opcode) == Some(OpCode::GetParameterLabel) ==> (old(instance).spec_plugin()
            matches Some(pv) && (exists|s: String|
            #![auto]
            *final(payload) == Payload::Text(s) && call_ensures(
                P::get_parameter_label,
                (&pv, index),
                s,
            ))),
        opcode_of(opcode) == Some(OpCode::GetParameterDisplay) ==> (old(instance).spec_plugin()
            matches Some(pv) && (exists|s: String|
            #![auto]
            *final(payload) == Payload::Text(s) && call_ensures(
                P::get_parameter_text,
                (&pv, index),
                s,
            ))),
        opcode_of(opcode) == Some(OpCode::GetParameterName) ==> (old(instance).spec_plugin()
            matches Some(pv) && (exists|s: String|
            #![auto]
            *final(payload) == Payload::Text(s) && call_ensures(
                P::get_parameter_name,
                (&pv, index),
                s,
            ))),
        opcode_of(opcode) == Some(OpCode::GetEffectName) || opcode_of(opcode) == Some(
            OpCode::GetProductName,
        ) ==> (old(instance).spec_plugin() matches Some(pv) && (exists|i: Info|
            #![auto]
            *final(payload) == Payload::Text(i.name) && call_ensures(P::get_info, (&pv,), i))),
        opcode_of(opcode) == Some(OpCode::GetVendorName) ==> (old(instance).spec_plugin()
            matches Some(pv) && (exists|i: Info|
            #![auto]
            *final(payload) == Payload::Text(i.vendor) && call_ensures(P::get_info, (&pv,), i))),
        opcode_of(opcode) == Some(OpCode::GetVendorVersion) ==> (old(instance).spec_plugin()
            matches Some(pv) && (exists|i: Info|
            #![auto]
            r == i.version as isize && call_ensures(P::get_info, (&pv,), i))),
        opcode_of(opcode) == Some(OpCode::GetCategory) ==> (old(instance).spec_plugin()
            matches Some(pv) && (exists|i: Info|
            #![auto]
            r == i.category.spec_code() && call_ensures(P::get_info, (&pv,), i))),
        opcode_of(opcode) == Some(OpCode::GetInputInfo) ==> (old(instance).spec_plugin()
            matches Some(pv) && (exists|ci: ChannelInfo|
            #![auto]
            *final(payload) == Payload::Channel(ci) && call_ensures(
                P::get_input_info,
                (&pv, index),
                ci,
            ))),
        opcode_of(opcode) == Some(OpCode::GetOutputInfo) ==> (old(instance).spec_plugin()
            matches Some(pv) && (exists|ci: ChannelInfo|
            #![auto]
            *final(payload) == Payload::Channel(ci) && call_ensures(
                P::get_output_info,
                (&pv, index),
                ci,
            ))),
        (opcode_of(opcode) == Some(OpCode::EditorGetRect) && r == 1) ==> (old(
            instance,
        ).spec_plugin() matches Some(pv) && (exists|rect: EditorRect|
            #![auto]
            *final(payload) == Payload::Rect(rect) && call_ensures(P::editor_rect, (&pv,), rect))),
        opcode_of(opcode) == Some(OpCode::GetCurrentPresetNum) ==> (old(instance).spec_plugin()
            matches Some(pv) && (exists|n: i32|
            #![auto]
            r == n as isize && call_ensures(P::get_preset_num, (&pv,), n))),
        opcode_of(opcode) == Some(OpCode::GetTailSize) ==> (old(instance).spec_plugin()
            matches Some(pv) && call_ensures(P::get_tail_size, (&pv,), r)),
        (opcode_of(opcode) == Some(OpCode::GetData) && index != 0) ==> (old(
            instance,
        ).spec_plugin() matches Some(pv) && final(instance).spec_plugin() matches Some(qv) && (
        exists|m: &mut P, d: Vec<u8>|
            #![auto]
            mut_ref_current(m) == pv && mut_ref_future(m) == qv && *final(payload)
                == Payload::Data(d) && call_ensures(P::get_preset_data, (m,), d))),
        (opcode_of(opcode) == Some(OpCode::GetData) && index == 0) ==> (old(
            instance,
        ).spec_plugin() matches Some(pv) && final(instance).spec_plugin() matches Some(qv) && (
        exists|m: &mut P, d: Vec<u8>|
            #![auto]
            mut_ref_current(m) == pv && mut_ref_future(m) == qv && *final(payload)
                == Payload::Data(d) && call_ensures(P::get_bank_data, (m,), d))),
        opcode_of(opcode) == Some(OpCode::CanBeAutomated) ==> (old(instance).spec_plugin()
            matches Some(pv) && (exists|b: bool|
            #![auto]
            r == (if b { 1isize } else { 0isize }) && call_ensures(
                P::can_be_automated,
                (&pv, index),
                b,
            ))),
        opcode_of(opcode) == Some(OpCode::StringToParameter) ==> (*old(payload)
            matches Payload::Text(t) ==> (old(instance).spec_plugin() matches Some(pv) && (exists|
            b: bool,
        |
            #![auto]
            r == (if b { 1isize } else { 0isize }) && call_ensures(
                P::string_to_parameter,
                (&pv, index, t),
                b,
            )))),
        opcode_of(opcode) == Some(OpCode::CanDoQuery) ==> (*old(payload) matches Payload::Text(t)
            ==> (old(instance).spec_plugin() matches Some(pv) && (exists|c: CanDo, sup: Supported|
            #![auto]
            can_do_matches(c, t@) && call_ensures(P::can_do, (&pv, c), sup) && r
                == sup.spec_code()))),
{
    let op = match decode_opcode(opcode) {
        Some(op) => op,
        None => {
            return 0;
        },
    };
    if let OpCode::Shutdown = op {
        // Teardown: drop the plugin object (running its teardown logic)
        // exactly once.  The raw shim frees the indirection cell and the
        // descriptor afterwards; nothing may touch this instance again.
        let _plugin = instance.plugin.take();
        return 0;
    }
    let taken = instance.plugin.take();
    match taken {
        Some(mut p) => {
            let r = dispatch_to_plugin(&mut p, op, index, value, payload, opt_bits);
            instance.plugin = Some(p);
            r
        },
        None => 0,
    }
}

/// Route one recognized, non-terminate opcode to its plugin method and
/// reinterpret the answer into the host's numeric contract: booleans become
/// 0 or 1, tri-state answers their small signed code, strings and records
/// are written into the caller-owned payload.
fn dispatch_to_plugin<P: Vst>(
    p: &mut P,
    op: OpCode,
    index: i32,
    value: isize,
    payload: &mut Payload,
    opt_bits: u32,
) -> (r: isize)
    ensures
        answer_pinned(op, r),
        payload_pinned(op, *old(payload), *final(payload), r),
        op == OpCode::GetPresetName ==> (exists|s: String|
            #![auto]
            *final(payload) == Payload::Text(s) && call_ensures(
                P::get_preset_name,
                (old(p), index),
                s,
            )),
        op == OpCode::GetCurrentPresetName ==> (exists|n: i32, s: String|
            #![auto]
            *final(payload) == Payload::Text(s) && call_ensures(P::get_preset_num, (old(p),), n)
                && call_ensures(P::get_preset_name, (old(p), n), s)),
        op == OpCode::GetParameterLabel ==> (exists|s: String|
            #![auto]
            *final(payload) == Payload::Text(s) && call_ensures(
                P::get_parameter_label,
                (old(p), index),
                s,
            )),
        op == OpCode::GetParameterDisplay ==> (exists|s: String|
            #![auto]
            *final(payload) == Payload::Text(s) && call_ensures(
                P::get_parameter_text,
                (old(p), index),
                s,
            )),
        op == OpCode::GetParameterName ==> (exists|s: String|
            #![auto]
            *final(payload) == Payload::Text(s) && call_ensures(
                P::get_parameter_name,
                (old(p), index),
                s,
            )),
        op == OpCode::GetEffectName || op == OpCode::GetProductName ==> (exists|i: Info|
            #![auto]
            *final(payload) == Payload::Text(i.name) && call_ensures(P::get_info, (old(p),), i)),
        op == OpCode::GetVendorName ==> (exists|i: Info|
            #![auto]
            *final(payload) == Payload::Text(i.vendor) && call_ensures(P::get_info, (old(p),), i)),
        op == OpCode::GetVendorVersion ==> (exists|i: Info|
            #![auto]
            r == i.version as isize && call_ensures(P::get_info, (old(p),), i)),
        op == OpCode::GetCategory ==> (exists|i: Info|
            #![auto]
            r == i.category.spec_code() && call_ensures(P::get_info, (old(p),), i)),
        op == OpCode::GetInputInfo ==> (exists|ci: ChannelInfo|
            #![auto]
            *final(payload) == Payload::Channel(ci) && call_ensures(
                P::get_input_info,
                (old(p), index),
                ci,
            )),
        op == OpCode::GetOutputInfo ==> (exists|ci: ChannelInfo|
            #![auto]
            *final(payload) == Payload::Channel(ci) && call_ensures(
                P::get_output_info,
                (old(p), index),
                ci,
            )),
        (op == OpCode::EditorGetRect && r == 1) ==> (exists|rect: EditorRect|
            #![auto]
            *final(payload) == Payload::Rect(rect) && call_ensures(P::editor_rect, (old(p),), rect)),
        op == OpCode::GetCurrentPresetNum ==> (exists|n: i32|
            #![auto]
            r == n as isize && call_ensures(P::get_preset_num, (old(p),), n)),
        (op == OpCode::GetData && index != 0) ==> (exists|m: &mut P, d: Vec<u8>|
            #![auto]
            mut_ref_current(m) == *old(p) && mut_ref_future(m) == *final(p) && *final(payload)
                == Payload::Data(d) && call_ensures(P::get_preset_data, (m,), d)),
        (op == OpCode::GetData && index == 0) ==> (exists|m: &mut P, d: Vec<u8>|
            #![auto]
            mut_ref_current(m) == *old(p) && mut_ref_future(m) == *final(p) && *final(payload)
                == Payload::Data(d) && call_ensures(P::get_bank_data, (m,), d)),
        op == OpCode::GetTailSize ==> call_ensures(P::get_tail_size, (old(p),), r),
        op == OpCode::CanBeAutomated ==> (exists|b: bool|
            #![auto]
            r == (if b { 1isize } else { 0isize }) && call_ensures(
                P::can_be_automated,
                (old(p), index),
                b,
            )),
        op == OpCode::StringToParameter ==> (*old(payload) matches Payload::Text(t) ==> (exists|
            b: bool,
        |
            #![auto]
            r == (if b { 1isize } else { 0isize }) && call_ensures(
                P::string_to_parameter,
                (old(p), index, t),
                b,
            ))),
        op == OpCode::CanDoQuery ==> (*old(payload) matches Payload::Text(t) ==> (exists|
            c: CanDo,
            sup: Supported,
        |
            #![auto]
            can_do_matches(c, t@) && call_ensures(P::can_do, (old(p), c), sup) && r
                == sup.spec_code())),
{
    match op {
        OpCode::Initialize => {
            p.init();
            0
        },
        OpCode::Shutdown => 0,  // handled by the dispatcher, never reaches here
        OpCode::ChangePreset => {
            p.change_preset(#[verifier::truncate] (value as i32));
            0
        },
        OpCode::GetCurrentPresetNum => p.get_preset_num() as isize,
        OpCode::SetCurrentPresetName => {
            if let Payload::Text(name) = &*payload {
                let name = name.clone();
                p.set_preset_name(name);
            }
            0
        },
        OpCode::GetCurrentPresetName => {
            let current = p.get_preset_num();
            *payload = Payload::Text(p.get_preset_name(current));
            0
        },
        OpCode::GetParameterLabel => {
            *payload = Payload::Text(p.get_parameter_label(index));
            0
        },
        OpCode::GetParameterDisplay => {
            *payload = Payload::Text(p.get_parameter_text(index));
            0
        },
        OpCode::GetParameterName => {
            *payload = Payload::Text(p.get_parameter_name(index));
            0
        },
        OpCode::SetSampleRate => {
            p.sample_rate_changed(opt_bits);
            0
        },
        OpCode::SetBlockSize => {
            p.block_size_changed(value as i64);
            0
        },
        OpCode::StateChanged => {
            if value != 0 {
                p.on_resume();
            } else {
                p.on_suspend();
            }
            0
        },
        OpCode::EditorGetRect => {
            if p.has_editor() {
                *payload = Payload::Rect(p.editor_rect());
                1
            } else {
                0
            }
        },
        OpCode::EditorOpen => if p.editor_open() {
            1
        } else {
            0
        },
        OpCode::EditorClose => {
            p.editor_close();
            0
        },
        OpCode::EditorIdle => {
            p.editor_idle();
            0
        },
        OpCode::GetData => {
            let chunk = if index != 0 {
                p.get_preset_data()
            } else {
                p.get_bank_data()
            };
            let len = chunk.len();
            *payload = Payload::Data(chunk);
            if len > isize::MAX as usize {
                isize::MAX
            } else {
                len as isize
            }
        },
        OpCode::SetData => {
            if let Payload::Data(data) = &*payload {
                let data = data.clone();
                if index != 0 {
                    p.load_preset_data(data);
                } else {
                    p.load_bank_data(data);
                }
            }
            0
        },
        OpCode::CanBeAutomated => if p.can_be_automated(index) {
            1
        } else {
            0
        },
        OpCode::StringToParameter => {
            if let Payload::Text(text) = &*payload {
                let text = text.clone();
                if p.string_to_parameter(index, text) {
                    1
                } else {
                    0
                }
            } else {
                0
            }
        },
        OpCode::GetPresetName => {
            *payload = Payload::Text(p.get_preset_name(index));
            0
        },
        OpCode::GetInputInfo => {
            *payload = Payload::Channel(p.get_input_info(index));
            1
        },
        OpCode::GetOutputInfo => {
            *payload = Payload::Channel(p.get_output_info(index));
            1
        },
        OpCode::GetCategory => p.get_info().category.code(),
        OpCode::GetEffectName => {
            *payload = Payload::Text(p.get_info().name);
            1
        },
        OpCode::GetVendorName => {
            *payload = Payload::Text(p.get_info().vendor);
            1
        },
        OpCode::GetProductName => {
            *payload = Payload::Text(p.get_info().name);
            1
        },
        OpCode::GetVendorVersion => p.get_info().version as isize,
        OpCode::VendorSpecific => {
            p.vendor_specific(index, value, payload, opt_bits);
            0
        },
        OpCode::CanDoQuery => {
            if let Payload::Text(query) = &*payload {
                let query = query.clone();
                p.can_do(parse_can_do(query)).code()
            } else {
                0
            }
        },
        OpCode::GetTailSize => p.get_tail_size(),
        OpCode::GetVstVersion => 2400,
    }
}

/// The deprecated accumulate-mode single-precision processing entry point.
/// It is installed in the descriptor's table for layout compatibility;
/// modern hosts use the replacing entries, and this bridge leaves both the
/// instance and the buffer untouched.
pub fn process_deprecated<P: Vst>(instance: &mut PluginInstance<P>, buffer: &mut AudioBuffer<u32>)
    requires
        old(instance).live(),
    ensures
        *final(instance) == *old(instance),
        *final(buffer) == *old(buffer),
{
}

/// The single-precision replace-processing entry point: hands the buffer to
/// the plugin's `process`, which writes its output over the output channels
/// in place.
pub fn process_replacing<P: Vst>(instance: &mut PluginInstance<P>, buffer: &mut AudioBuffer<u32>)
    requires
        old(instance).live(),
        old(buffer).well_formed(),
    ensures
        final(instance).live(),
        final(instance).spec_effect() == old(instance).spec_effect(),
        final(instance).spec_declared() == old(instance).spec_declared(),
        final(instance).spec_editor() == old(instance).spec_editor(),
        final(buffer).well_formed(),
        final(buffer).inputs == old(buffer).inputs,
        final(buffer).samples == old(buffer).samples,
        final(buffer).outputs@.len() == old(buffer).outputs@.len(),
{
    let taken = instance.plugin.take();
    match taken {
        Some(mut p) => {
            p.process(buffer);
            instance.plugin = Some(p);
        },
        None => {},
    }
}

/// The double-precision replace-processing entry point: hands the buffer to
/// the plugin's `process_f64`, which writes its output over the output
/// channels in place.
pub fn process_replacing_f64<P: Vst>(
    instance: &mut PluginInstance<P>,
    buffer: &mut AudioBuffer<u64>,
)
    requires
        old(instance).live(),
        old(buffer).well_formed(),
    ensures
        final(instance).live(),
        final(instance).spec_effect() == old(instance).spec_effect(),
        final(instance).spec_declared() == old(instance).spec_declared(),
        final(instance).spec_editor() == old(instance).spec_editor(),
        final(buffer).well_formed(),
        final(buffer).inputs == old(buffer).inputs,
        final(buffer).samples == old(buffer).samples,
        final(buffer).outputs@.len() == old(buffer).outputs@.len(),
{
    let taken = instance.plugin.take();
    match taken {
        Some(mut p) => {
            p.process_f64(buffer);
            instance.plugin = Some(p);
        },
        None => {},
    }
}

/// The parameter-read entry point, answering in the raw bits of the
/// single-precision value.  The answer is the held plugin's own: a caller
/// who knows the concrete plugin type inherits what its `get_parameter`
/// ensures.
pub fn get_parameter<P: Vst>(instance: &PluginInstance<P>, index: i32) -> (r: u32)
    requires
        instance.live(),
    ensures
        instance.spec_plugin() matches Some(p) && call_ensures(
            P::get_parameter,
            (&p, index),
            r,
        ),
{
    match &instance.plugin {
        Some(p) => p.get_parameter(index),
        None => 0,
    }
}

/// The parameter-write entry point; `value` carries the raw bits of the
/// single-precision value.
pub fn set_parameter<P: Vst>(instance: &mut PluginInstance<P>, index: i32, value: u32)
    requires
        old(instance).live(),
    ensures
        final(instance).live(),
        final(instance).spec_effect() == old(instance).spec_effect(),
        final(instance).spec_declared() == old(instance).spec_declared(),
        final(instance).spec_editor() == old(instance).spec_editor(),
        exists|m: &mut P|
            {
                &&& Some(mut_ref_current(m)) == old(instance).spec_plugin()
                &&& Some(mut_ref_future(m)) == final(instance).spec_plugin()
                &&& #[trigger] call_ensures(P::set_parameter, (m, index, value), ())
            },
{
    let taken = instance.plugin.take();
    match taken {
        Some(mut p) => {
            p.set_parameter(index, value);
            instance.plugin = Some(p);
        },
        None => {},
    }
}

} // verus!
