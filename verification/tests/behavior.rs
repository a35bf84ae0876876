//! Dispatch, processing, parameter and capability-flag behaviour.

use vst2::api::{EditorRect, Payload};
use vst2::buffer::AudioBuffer;
use vst2::enums::{CanDo, Supported, CAN_DOUBLE_REPLACING, CAN_REPLACING, HAS_EDITOR, IS_SYNTH,
    PROGRAM_CHUNKS};
use vst2::host::{Host, HostCallback, HOST_OPCODE_VERSION};
use vst2::interfaces::{dispatch, get_parameter, process_replacing, process_replacing_f64,
    set_parameter};
use vst2::plugin::{BasicPlugin, Category, Info, BASIC_PARAMETERS};
use vst2::{plugin_main, Vst};

struct TestCallback {
    version: isize,
}

impl HostCallback for TestCallback {
    fn callback(
        &mut self,
        opcode: i32,
        _index: i32,
        _value: isize,
        _payload: &mut Payload,
        _opt_bits: u32,
    ) -> isize {
        if opcode == HOST_OPCODE_VERSION {
            self.version
        } else {
            0
        }
    }
}

fn pass_callback() -> TestCallback {
    TestCallback { version: 1 }
}

/// A plugin that keeps every trait default.
struct DefaultPlugin;

impl Vst for DefaultPlugin {
    type H = TestCallback;

    fn new(_host: Host<TestCallback>) -> Self {
        DefaultPlugin
    }

    fn get_info(&self) -> Info {
        Info { name: "Default".to_string(), ..Default::default() }
    }
}

/// A synth with an editor, chunked presets, no double precision, and a few
/// overridden queries.
struct SynthPlugin;

impl Vst for SynthPlugin {
    type H = TestCallback;

    fn new(_host: Host<TestCallback>) -> Self {
        SynthPlugin
    }

    fn get_info(&self) -> Info {
        Info {
            name: "Synth".to_string(),
            category: Category::Synth,
            f64_precision: false,
            preset_chunks: true,
            ..Default::default()
        }
    }

    fn has_editor(&self) -> bool {
        true
    }

    fn editor_rect(&self) -> EditorRect {
        EditorRect { top: 0, left: 0, bottom: 300, right: 400 }
    }

    fn can_do(&self, query: CanDo) -> Supported {
        match query {
            CanDo::Bypass => Supported::Yes,
            CanDo::Other(_) => Supported::No,
            _ => Supported::Maybe,
        }
    }

    fn get_preset_name(&self, preset: i32) -> String {
        format!("Preset {}", preset)
    }
}

const GET_VST_VERSION: i32 = 58;
const CAN_DO: i32 = 51;
const GET_PRESET_NAME: i32 = 29;
const GET_EFFECT_NAME: i32 = 45;
const GET_VENDOR_VERSION: i32 = 49;
const GET_CATEGORY: i32 = 35;
const EDITOR_GET_RECT: i32 = 13;
const GET_TAIL_SIZE: i32 = 52;
const GET_PARAMETER_NAME: i32 = 8;
const GET_INPUT_INFO: i32 = 33;
const GET_OUTPUT_INFO: i32 = 34;
const GET_DATA: i32 = 23;

#[test]
fn capability_flags_follow_declaration() {
    // Double precision declared, no editor: the double-replace bit is set,
    // the editor bit is not, replace is always set.
    let default_inst = plugin_main::<DefaultPlugin>(pass_callback()).unwrap();
    let flags = default_inst.effect().flags;
    assert_ne!(flags & CAN_REPLACING, 0);
    assert_ne!(flags & CAN_DOUBLE_REPLACING, 0);
    assert_eq!(flags & HAS_EDITOR, 0);
    assert_eq!(flags & IS_SYNTH, 0);
    assert_eq!(flags & PROGRAM_CHUNKS, 0);
    assert_eq!(flags, 0x1010);

    // Editor, chunks and synth declared, double precision not.
    let synth_inst = plugin_main::<SynthPlugin>(pass_callback()).unwrap();
    let flags = synth_inst.effect().flags;
    assert_ne!(flags & CAN_REPLACING, 0);
    assert_eq!(flags & CAN_DOUBLE_REPLACING, 0);
    assert_ne!(flags & HAS_EDITOR, 0);
    assert_ne!(flags & IS_SYNTH, 0);
    assert_ne!(flags & PROGRAM_CHUNKS, 0);
    assert_eq!(flags, 0x131);
}

#[test]
fn unknown_opcode_returns_zero_and_changes_nothing() {
    let mut instance = plugin_main::<DefaultPlugin>(pass_callback()).unwrap();
    let before = *instance.effect();
    let mut payload = Payload::Empty;
    let r = dispatch(&mut instance, 9999, 7, 7, &mut payload, 7);
    assert_eq!(r, 0);
    assert_eq!(payload, Payload::Empty);
    assert_eq!(*instance.effect(), before);
    // The instance is still live and answers queries.
    let r = dispatch(&mut instance, GET_VST_VERSION, 0, 0, &mut payload, 0);
    assert_eq!(r, 2400);
}

#[test]
fn get_vst_version_opcode() {
    let mut instance = plugin_main::<DefaultPlugin>(pass_callback()).unwrap();
    let mut payload = Payload::Empty;
    assert_eq!(dispatch(&mut instance, GET_VST_VERSION, 0, 0, &mut payload, 0), 2400);
}

#[test]
fn default_processing_is_passthrough_f32() {
    let mut instance = plugin_main::<DefaultPlugin>(pass_callback()).unwrap();
    let left: Vec<f32> = vec![0.25, -1.5, 0.0, 3.75, 0.125];
    let right: Vec<f32> = vec![1.0, 2.0, -3.0, 4.0, -5.0];
    let inputs: Vec<Vec<u32>> = vec![
        left.iter().map(|x| x.to_bits()).collect(),
        right.iter().map(|x| x.to_bits()).collect(),
    ];
    let outputs: Vec<Vec<u32>> = vec![vec![0; 5], vec![0; 5]];
    let mut buffer = AudioBuffer::new(inputs.clone(), outputs, 5);

    process_replacing(&mut instance, &mut buffer);

    assert_eq!(buffer.outputs, inputs);
    for (ch, expect) in buffer.outputs.iter().zip([left, right].iter()) {
        let got: Vec<f32> = ch.iter().map(|b| f32::from_bits(*b)).collect();
        assert_eq!(&got, expect);
    }
}

#[test]
fn default_processing_is_passthrough_f64() {
    let mut instance = plugin_main::<DefaultPlugin>(pass_callback()).unwrap();
    let left: Vec<f64> = vec![0.25, -1.5, 0.0];
    let right: Vec<f64> = vec![6.5, -7.25, 8.0];
    let inputs: Vec<Vec<u64>> = vec![
        left.iter().map(|x| x.to_bits()).collect(),
        right.iter().map(|x| x.to_bits()).collect(),
    ];
    let outputs: Vec<Vec<u64>> = vec![vec![0; 3], vec![0; 3]];
    let mut buffer = AudioBuffer::new(inputs.clone(), outputs, 3);

    process_replacing_f64(&mut instance, &mut buffer);

    assert_eq!(buffer.outputs, inputs);
    for (ch, expect) in buffer.outputs.iter().zip([left, right].iter()) {
        let got: Vec<f64> = ch.iter().map(|b| f64::from_bits(*b)).collect();
        assert_eq!(&got, expect);
    }
}

#[test]
fn passthrough_leaves_extra_output_channels_alone() {
    // One input channel, two output channels: only the paired channel is
    // written.
    let mut instance = plugin_main::<DefaultPlugin>(pass_callback()).unwrap();
    let inputs: Vec<Vec<u32>> = vec![vec![1, 2, 3]];
    let outputs: Vec<Vec<u32>> = vec![vec![9, 9, 9], vec![7, 7, 7]];
    let mut buffer = AudioBuffer::new(inputs, outputs, 3);
    process_replacing(&mut instance, &mut buffer);
    assert_eq!(buffer.outputs[0], vec![1, 2, 3]);
    assert_eq!(buffer.outputs[1], vec![7, 7, 7]);
}

#[test]
fn parameter_round_trip() {
    let mut instance =
        plugin_main::<BasicPlugin<TestCallback>>(pass_callback()).unwrap();
    assert_eq!(instance.effect().num_params, BASIC_PARAMETERS as i32);
    for i in 0..BASIC_PARAMETERS as i32 {
        let value = (0.1_f32 + i as f32 * 0.07).to_bits();
        set_parameter(&mut instance, i, value);
        assert_eq!(get_parameter(&instance, i), value);
        let as_float = f32::from_bits(get_parameter(&instance, i));
        assert_eq!(as_float, 0.1_f32 + i as f32 * 0.07);
    }
}

#[test]
fn parameter_out_of_range_is_neutral() {
    let mut instance =
        plugin_main::<BasicPlugin<TestCallback>>(pass_callback()).unwrap();
    set_parameter(&mut instance, 0, 0.5_f32.to_bits());
    set_parameter(&mut instance, -1, 0.9_f32.to_bits());
    set_parameter(&mut instance, BASIC_PARAMETERS as i32, 0.9_f32.to_bits());
    assert_eq!(get_parameter(&instance, -1), 0);
    assert_eq!(get_parameter(&instance, BASIC_PARAMETERS as i32), 0);
    // The in-range slot was untouched by the out-of-range writes.
    assert_eq!(get_parameter(&instance, 0), 0.5_f32.to_bits());
}

#[test]
fn can_do_query_answers() {
    let mut instance = plugin_main::<SynthPlugin>(pass_callback()).unwrap();

    let mut payload = Payload::Text("bypass".to_string());
    assert_eq!(dispatch(&mut instance, CAN_DO, 0, 0, &mut payload, 0), 1);

    let mut payload = Payload::Text("sendVstEvents".to_string());
    assert_eq!(dispatch(&mut instance, CAN_DO, 0, 0, &mut payload, 0), 0);

    let mut payload = Payload::Text("frobnicate".to_string());
    assert_eq!(dispatch(&mut instance, CAN_DO, 0, 0, &mut payload, 0), -1);

    // No query string at all: the neutral answer.
    let mut payload = Payload::Empty;
    assert_eq!(dispatch(&mut instance, CAN_DO, 0, 0, &mut payload, 0), 0);
}

#[test]
fn preset_name_is_written_to_payload() {
    let mut instance = plugin_main::<SynthPlugin>(pass_callback()).unwrap();
    let mut payload = Payload::Empty;
    let r = dispatch(&mut instance, GET_PRESET_NAME, 3, 0, &mut payload, 0);
    assert_eq!(r, 0);
    assert_eq!(payload, Payload::Text("Preset 3".to_string()));
}

#[test]
fn effect_and_vendor_names_are_written_to_payload() {
    let mut instance = plugin_main::<SynthPlugin>(pass_callback()).unwrap();
    let mut payload = Payload::Empty;
    assert_eq!(dispatch(&mut instance, GET_EFFECT_NAME, 0, 0, &mut payload, 0), 1);
    assert_eq!(payload, Payload::Text("Synth".to_string()));
    assert_eq!(dispatch(&mut instance, GET_VENDOR_VERSION, 0, 0, &mut payload, 0), 1);
}

#[test]
fn category_code_is_reported() {
    let mut instance = plugin_main::<SynthPlugin>(pass_callback()).unwrap();
    let mut payload = Payload::Empty;
    assert_eq!(dispatch(&mut instance, GET_CATEGORY, 0, 0, &mut payload, 0), 2);
}

#[test]
fn editor_rect_is_reported() {
    let mut instance = plugin_main::<SynthPlugin>(pass_callback()).unwrap();
    let mut payload = Payload::Empty;
    let r = dispatch(&mut instance, EDITOR_GET_RECT, 0, 0, &mut payload, 0);
    assert_eq!(r, 1);
    assert_eq!(payload, Payload::Rect(EditorRect { top: 0, left: 0, bottom: 300, right: 400 }));

    // A plugin without an editor answers zero and writes nothing.
    let mut plain = plugin_main::<DefaultPlugin>(pass_callback()).unwrap();
    let mut payload = Payload::Empty;
    assert_eq!(dispatch(&mut plain, EDITOR_GET_RECT, 0, 0, &mut payload, 0), 0);
    assert_eq!(payload, Payload::Empty);
}

#[test]
fn tail_size_defaults_to_zero() {
    let mut instance = plugin_main::<DefaultPlugin>(pass_callback()).unwrap();
    let mut payload = Payload::Empty;
    assert_eq!(dispatch(&mut instance, GET_TAIL_SIZE, 0, 0, &mut payload, 0), 0);
}

#[test]
fn supported_codes() {
    assert_eq!(Supported::Yes.code(), 1);
    assert_eq!(Supported::Maybe.code(), 0);
    assert_eq!(Supported::No.code(), -1);
}

#[test]
fn default_channel_info_carries_the_index() {
    let mut instance = plugin_main::<DefaultPlugin>(pass_callback()).unwrap();
    let mut payload = Payload::Empty;
    assert_eq!(dispatch(&mut instance, GET_INPUT_INFO, 3, 0, &mut payload, 0), 1);
    match &payload {
        Payload::Channel(info) => {
            assert_eq!(info.name, "Input channel 3");
            assert_eq!(info.short_name, "In 3");
            assert!(info.active);
        }
        other => panic!("expected channel info, got {:?}", other),
    }
    assert_eq!(dispatch(&mut instance, GET_OUTPUT_INFO, 11, 0, &mut payload, 0), 1);
    match &payload {
        Payload::Channel(info) => {
            assert_eq!(info.name, "Output channel 11");
            assert_eq!(info.short_name, "Out 11");
        }
        other => panic!("expected channel info, got {:?}", other),
    }
}

#[test]
fn default_parameter_name_carries_the_index() {
    let mut instance = plugin_main::<DefaultPlugin>(pass_callback()).unwrap();
    let mut payload = Payload::Empty;
    assert_eq!(dispatch(&mut instance, GET_PARAMETER_NAME, 2, 0, &mut payload, 0), 0);
    assert_eq!(payload, Payload::Text("Param 2".to_string()));
    assert_eq!(dispatch(&mut instance, GET_PARAMETER_NAME, -5, 0, &mut payload, 0), 0);
    assert_eq!(payload, Payload::Text("Param -5".to_string()));
}

#[test]
fn chunk_request_answers_the_length() {
    let mut instance = plugin_main::<DefaultPlugin>(pass_callback()).unwrap();
    let mut payload = Payload::Empty;
    // The default plugin hands back an empty chunk; the answer is its length.
    let r = dispatch(&mut instance, GET_DATA, 1, 0, &mut payload, 0);
    assert_eq!(r, 0);
    assert_eq!(payload, Payload::Data(Vec::new()));
}
