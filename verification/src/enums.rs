//! The protocol vocabulary: capability bit-flags, opcodes, "can do" queries
//! and their tri-state answers.

use vstd::prelude::*;
use crate::plugin::{Category, Info};

verus! {

/// Flag bit: the plugin provides an editor window.
pub const HAS_EDITOR: i32 = 0x1;
/// Flag bit: the plugin supports single-precision replace processing.
/// This bridge always declares it.
pub const CAN_REPLACING: i32 = 0x10;
/// Flag bit: presets are exchanged as opaque byte chunks.
pub const PROGRAM_CHUNKS: i32 = 0x20;
/// Flag bit: the plugin is an instrument.
pub const IS_SYNTH: i32 = 0x100;
/// Flag bit: the plugin produces no sound when the transport is stopped.
pub const NO_SOUND_IN_STOP: i32 = 0x200;
/// Flag bit: the plugin supports double-precision replace processing.
pub const CAN_DOUBLE_REPLACING: i32 = 0x1000;

/// The capability word derived from a plugin's declared `Info` and from
/// whether it reports an editor.  Replace processing is always declared;
/// the other bits mirror the declaration.
pub open spec fn flags_for(info: Info, has_editor: bool) -> i32 {
    CAN_REPLACING | (if info.f64_precision {
        CAN_DOUBLE_REPLACING
    } else {
        0
    }) | (if has_editor {
        HAS_EDITOR
    } else {
        0
    }) | (if info.preset_chunks {
        PROGRAM_CHUNKS
    } else {
        0
    }) | (if info.category == Category::Synth {
        IS_SYNTH
    } else {
        0
    })
}

/// Compute the capability word for the descriptor's flag field.
pub fn compute_flags(info: &Info, has_editor: bool) -> (r: i32)
    ensures
        r == flags_for(*info, has_editor),
{
    let mut flag: i32 = CAN_REPLACING;
    flag = flag | (if info.f64_precision { CAN_DOUBLE_REPLACING } else { 0 });
    flag = flag | (if has_editor { HAS_EDITOR } else { 0 });
    flag = flag | (if info.preset_chunks { PROGRAM_CHUNKS } else { 0 });
    flag = flag | (if matches!(info.category, Category::Synth) { IS_SYNTH } else { 0 });
    flag
}

/// Law: the capability word advertises exactly what was declared.  A plugin
/// declaring double precision has the double-replace bit set; the editor bit
/// is set if and only if an editor was reported; the replace bit is always set.
pub proof fn lemma_flag_bits(info: Info, has_editor: bool)
    ensures
        info.f64_precision ==> flags_for(info, has_editor) & CAN_DOUBLE_REPLACING != 0,
        !info.f64_precision ==> flags_for(info, has_editor) & CAN_DOUBLE_REPLACING == 0,
        has_editor ==> flags_for(info, has_editor) & HAS_EDITOR != 0,
        !has_editor ==> flags_for(info, has_editor) & HAS_EDITOR == 0,
        flags_for(info, has_editor) & CAN_REPLACING != 0,
{
    let a: i32 = if info.f64_precision { CAN_DOUBLE_REPLACING } else { 0 };
    let b: i32 = if has_editor { HAS_EDITOR } else { 0 };
    let c: i32 = if info.preset_chunks { PROGRAM_CHUNKS } else { 0 };
    let d: i32 = if info.category == Category::Synth { IS_SYNTH } else { 0 };
    assert(flags_for(info, has_editor) == 0x10i32 | a | b | c | d);
    assert(a == 0x1000i32 || a == 0i32);
    assert(b == 0x1i32 || b == 0i32);
    assert(c == 0x20i32 || c == 0i32);
    assert(d == 0x100i32 || d == 0i32);
    assert(forall|y: i32, z: i32, w: i32|
        ((y == 0x1i32 || y == 0i32) && (z == 0x20i32 || z == 0i32) && (w == 0x100i32 || w == 0i32))
            ==> ((0x10i32 | 0x1000i32 | y | z | w) & 0x1000i32 != 0)) by (bit_vector);
    assert(forall|y: i32, z: i32, w: i32|
        ((y == 0x1i32 || y == 0i32) && (z == 0x20i32 || z == 0i32) && (w == 0x100i32 || w == 0i32))
            ==> ((0x10i32 | 0i32 | y | z | w) & 0x1000i32 == 0)) by (bit_vector);
    assert(forall|x: i32, z: i32, w: i32|
        ((x == 0x1000i32 || x == 0i32) && (z == 0x20i32 || z == 0i32) && (w == 0x100i32 || w
            == 0i32)) ==> ((0x10i32 | x | 0x1i32 | z | w) & 0x1i32 != 0)) by (bit_vector);
    assert(forall|x: i32, z: i32, w: i32|
        ((x == 0x1000i32 || x == 0i32) && (z == 0x20i32 || z == 0i32) && (w == 0x100i32 || w
            == 0i32)) ==> ((0x10i32 | x | 0i32 | z | w) & 0x1i32 == 0)) by (bit_vector);
    assert(forall|x: i32, y: i32, z: i32, w: i32|
        ((x == 0x1000i32 || x == 0i32) && (y == 0x1i32 || y == 0i32) && (z == 0x20i32 || z == 0i32)
            && (w == 0x100i32 || w == 0i32)) ==> ((0x10i32 | x | y | z | w) & 0x10i32 != 0))
        by (bit_vector);
}

/// A numeric operation selector the host sends through the dispatch entry
/// point.  Unknown codes are deliberately not represented: they map to no
/// operation and the dispatcher answers them with a neutral zero.
#[derive(Clone, Copy, PartialEq, Eq, Structural, Debug)]
pub enum OpCode {
    /// Called after the descriptor has been handed to the host.
    Initialize,
    /// Tear the plugin down.  No call may follow this one.
    Shutdown,
    /// Change the current preset.
    ChangePreset,
    /// Ask for the current preset index.
    GetCurrentPresetNum,
    /// Rename the current preset.
    SetCurrentPresetName,
    /// Ask for the current preset's name.
    GetCurrentPresetName,
    /// Ask for a parameter's unit label.
    GetParameterLabel,
    /// Ask for a parameter's value rendered as text.
    GetParameterDisplay,
    /// Ask for a parameter's name.
    GetParameterName,
    /// The host changed the sample rate.
    SetSampleRate,
    /// The host changed the maximum block size.
    SetBlockSize,
    /// The plugin was turned on or off.
    StateChanged,
    /// Ask for the editor's geometry.
    EditorGetRect,
    /// Open the editor.
    EditorOpen,
    /// Close the editor.
    EditorClose,
    /// Give the editor idle time.
    EditorIdle,
    /// Ask for the current preset or bank as a byte chunk.
    GetData,
    /// Load a preset or bank from a byte chunk.
    SetData,
    /// Ask whether a parameter can be automated.
    CanBeAutomated,
    /// Offer a string the user typed for a parameter.
    StringToParameter,
    /// Ask for the name of a preset by index.
    GetPresetName,
    /// Ask for information about an input channel.
    GetInputInfo,
    /// Ask for information about an output channel.
    GetOutputInfo,
    /// Ask for the plugin's category.
    GetCategory,
    /// Ask for the plugin's name.
    GetEffectName,
    /// Ask for the vendor's name.
    GetVendorName,
    /// Ask for the product's name.
    GetProductName,
    /// Ask for the vendor's version.
    GetVendorVersion,
    /// A vendor-defined operation.
    VendorSpecific,
    /// Ask whether the plugin supports a named action.
    CanDoQuery,
    /// Ask for the tail length after input stops.
    GetTailSize,
    /// Ask which protocol version the plugin speaks.
    GetVstVersion,
}

/// The operation, if any, that a numeric opcode selects.
pub open spec fn opcode_of(code: i32) -> Option<OpCode> {
    if code == 0 { Some(OpCode::Initialize) }
    else if code == 1 { Some(OpCode::Shutdown) }
    else if code == 2 { Some(OpCode::ChangePreset) }
    else if code == 3 { Some(OpCode::GetCurrentPresetNum) }
    else if code == 4 { Some(OpCode::SetCurrentPresetName) }
    else if code == 5 { Some(OpCode::GetCurrentPresetName) }
    else if code == 6 { Some(OpCode::GetParameterLabel) }
    else if code == 7 { Some(OpCode::GetParameterDisplay) }
    else if code == 8 { Some(OpCode::GetParameterName) }
    else if code == 10 { Some(OpCode::SetSampleRate) }
    else if code == 11 { Some(OpCode::SetBlockSize) }
    else if code == 12 { Some(OpCode::StateChanged) }
    else if code == 13 { Some(OpCode::EditorGetRect) }
    else if code == 14 { Some(OpCode::EditorOpen) }
    else if code == 15 { Some(OpCode::EditorClose) }
    else if code == 19 { Some(OpCode::EditorIdle) }
    else if code == 23 { Some(OpCode::GetData) }
    else if code == 24 { Some(OpCode::SetData) }
    else if code == 26 { Some(OpCode::CanBeAutomated) }
    else if code == 27 { Some(OpCode::StringToParameter) }
    else if code == 29 { Some(OpCode::GetPresetName) }
    else if code == 33 { Some(OpCode::GetInputInfo) }
    else if code == 34 { Some(OpCode::GetOutputInfo) }
    else if code == 35 { Some(OpCode::GetCategory) }
    else if code == 45 { Some(OpCode::GetEffectName) }
    else if code == 47 { Some(OpCode::GetVendorName) }
    else if code == 48 { Some(OpCode::GetProductName) }
    else if code == 49 { Some(OpCode::GetVendorVersion) }
    else if code == 50 { Some(OpCode::VendorSpecific) }
    else if code == 51 { Some(OpCode::CanDoQuery) }
    else if code == 52 { Some(OpCode::GetTailSize) }
    else if code == 58 { Some(OpCode::GetVstVersion) }
    else { None }
}

/// Decode a numeric opcode; unknown codes yield `None`.
pub fn decode_opcode(code: i32) -> (r: Option<OpCode>)
    ensures
        r == opcode_of(code),
{
    match code {
        0 => Some(OpCode::Initialize),
        1 => Some(OpCode::Shutdown),
        2 => Some(OpCode::ChangePreset),
        3 => Some(OpCode::GetCurrentPresetNum),
        4 => Some(OpCode::SetCurrentPresetName),
        5 => Some(OpCode::GetCurrentPresetName),
        6 => Some(OpCode::GetParameterLabel),
        7 => Some(OpCode::GetParameterDisplay),
        8 => Some(OpCode::GetParameterName),
        10 => Some(OpCode::SetSampleRate),
        11 => Some(OpCode::SetBlockSize),
        12 => Some(OpCode::StateChanged),
        13 => Some(OpCode::EditorGetRect),
        14 => Some(OpCode::EditorOpen),
        15 => Some(OpCode::EditorClose),
        19 => Some(OpCode::EditorIdle),
        23 => Some(OpCode::GetData),
        24 => Some(OpCode::SetData),
        26 => Some(OpCode::CanBeAutomated),
        27 => Some(OpCode::StringToParameter),
        29 => Some(OpCode::GetPresetName),
        33 => Some(OpCode::GetInputInfo),
        34 => Some(OpCode::GetOutputInfo),
        35 => Some(OpCode::GetCategory),
        45 => Some(OpCode::GetEffectName),
        47 => Some(OpCode::GetVendorName),
        48 => Some(OpCode::GetProductName),
        49 => Some(OpCode::GetVendorVersion),
        50 => Some(OpCode::VendorSpecific),
        51 => Some(OpCode::CanDoQuery),
        52 => Some(OpCode::GetTailSize),
        58 => Some(OpCode::GetVstVersion),
        _ => None,
    }
}

/// A tri-state answer to a capability query.
#[derive(Clone, Copy, PartialEq, Eq, Structural, Debug)]
pub enum Supported {
    /// The plugin supports the action.
    Yes,
    /// The plugin does not say either way.
    Maybe,
    /// The plugin does not support the action.
    No,
}

impl Supported {
    /// The small signed code the host expects for this answer.
    pub open spec fn spec_code(self) -> isize {
        match self {
            Supported::Yes => 1,
            Supported::Maybe => 0,
            Supported::No => -1isize,
        }
    }

    /// Turn the answer into the small signed code the host expects.
    pub fn code(self) -> (r: isize)
        ensures
            r == self.spec_code(),
    {
        match self {
            Supported::Yes => 1,
            Supported::Maybe => 0,
            Supported::No => -1isize,
        }
    }
}

/// An action the host may ask about through a capability query.  The query
/// arrives as a string; actions this vocabulary does not know are carried
/// through verbatim in `Other`.
#[derive(Clone, PartialEq, Eq, Debug)]
pub enum CanDo {
    /// The plugin sends events to the host.
    SendEvents,
    /// The plugin sends note events to the host.
    SendMidiEvent,
    /// The plugin consumes events.
    ReceiveEvents,
    /// The plugin consumes note events.
    ReceiveMidiEvent,
    /// The plugin consumes transport and tempo information.
    ReceiveTimeInfo,
    /// The plugin can run offline.
    Offline,
    /// The plugin names its event programs.
    MidiProgramNames,
    /// The plugin supports soft bypass.
    Bypass,
    /// A query this vocabulary does not know, carried verbatim.
    Other(String),
}

/// Whether a query string names one of the known capability actions.
pub open spec fn known_can_do(s: Seq<char>) -> bool {
    ||| s == "sendVstEvents"@
    ||| s == "sendVstMidiEvent"@
    ||| s == "receiveVstEvents"@
    ||| s == "receiveVstMidiEvent"@
    ||| s == "receiveVstTimeInfo"@
    ||| s == "offline"@
    ||| s == "midiProgramNames"@
    ||| s == "bypass"@
}

/// Whether `r` is the correct reading of the query string `s`.
pub open spec fn can_do_matches(r: CanDo, s: Seq<char>) -> bool {
    match r {
        CanDo::SendEvents => s == "sendVstEvents"@,
        CanDo::SendMidiEvent => s == "sendVstMidiEvent"@,
        CanDo::ReceiveEvents => s == "receiveVstEvents"@,
        CanDo::ReceiveMidiEvent => s == "receiveVstMidiEvent"@,
        CanDo::ReceiveTimeInfo => s == "receiveVstTimeInfo"@,
        CanDo::Offline => s == "offline"@,
        CanDo::MidiProgramNames => s == "midiProgramNames"@,
        CanDo::Bypass => s == "bypass"@,
        CanDo::Other(t) => t@ == s && !known_can_do(s),
    }
}

/// Read a capability query string into the `CanDo` vocabulary.
pub fn parse_can_do(s: String) -> (r: CanDo)
    ensures
        can_do_matches(r, s@),
{
    if s == "sendVstEvents".to_owned() {
        CanDo::SendEvents
    } else if s == "sendVstMidiEvent".to_owned() {
        CanDo::SendMidiEvent
    } else if s == "receiveVstEvents".to_owned() {
        CanDo::ReceiveEvents
    } else if s == "receiveVstMidiEvent".to_owned() {
        CanDo::ReceiveMidiEvent
    } else if s == "receiveVstTimeInfo".to_owned() {
        CanDo::ReceiveTimeInfo
    } else if s == "offline".to_owned() {
        CanDo::Offline
    } else if s == "midiProgramNames".to_owned() {
        CanDo::MidiProgramNames
    } else if s == "bypass".to_owned() {
        CanDo::Bypass
    } else {
        CanDo::Other(s)
    }
}

} // verus!
