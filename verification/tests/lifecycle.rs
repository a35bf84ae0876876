//! The construction and teardown behaviour of a plugin instance.

use std::cell::Cell;
use std::rc::Rc;

use vst2::api::Payload;
use vst2::host::{Host, HostCallback, HOST_OPCODE_VERSION};
use vst2::interfaces::dispatch;
use vst2::plugin::Info;
use vst2::{plugin_main, Vst, VST_MAGIC};

struct TestCallback {
    version: isize,
    plugin_dropped: Rc<Cell<bool>>,
}

impl HostCallback for TestCallback {
    fn callback(
        &mut self,
        opcode: i32,
        _index: i32,
        _value: isize,
        _payload: &mut Payload,
        _opt_bits: u32,
    ) -> isize {
        if opcode == HOST_OPCODE_VERSION {
            self.version
        } else {
            0
        }
    }
}

fn pass_callback() -> TestCallback {
    TestCallback { version: 1, plugin_dropped: Rc::new(Cell::new(false)) }
}

fn fail_callback() -> TestCallback {
    TestCallback { version: 0, plugin_dropped: Rc::new(Cell::new(false)) }
}

struct TestPlugin {
    host: Host<TestCallback>,
}

impl Vst for TestPlugin {
    type H = TestCallback;

    fn new(host: Host<TestCallback>) -> Self {
        TestPlugin { host }
    }

    fn get_info(&self) -> Info {
        Info {
            name: "Test Plugin".to_string(),
            vendor: "overdrivenpotato".to_string(),
            presets: 1,
            parameters: 1,
            unique_id: 5678,
            version: 1234,
            initial_delay: 123,
            ..Default::default()
        }
    }
}

impl Drop for TestPlugin {
    fn drop(&mut self) {
        self.host.callback_ref().plugin_dropped.set(true);
    }
}

struct CountingCallback {
    version: isize,
    drops: Rc<Cell<u32>>,
}

impl HostCallback for CountingCallback {
    fn callback(
        &mut self,
        opcode: i32,
        _index: i32,
        _value: isize,
        _payload: &mut Payload,
        _opt_bits: u32,
    ) -> isize {
        if opcode == HOST_OPCODE_VERSION {
            self.version
        } else {
            0
        }
    }
}

struct CountingPlugin {
    host: Host<CountingCallback>,
}

impl Vst for CountingPlugin {
    type H = CountingCallback;
    fn new(host: Host<CountingCallback>) -> Self {
        CountingPlugin { host }
    }
    fn get_info(&self) -> Info {
        Info { name: "Counting".to_string(), ..Default::default() }
    }
}

impl Drop for CountingPlugin {
    fn drop(&mut self) {
        let drops = &self.host.callback_ref().drops;
        drops.set(drops.get() + 1);
    }
}

const SHUTDOWN: i32 = 1;

#[test]
fn old_hosts() {
    assert!(plugin_main::<TestPlugin>(fail_callback()).is_none());
}

#[test]
fn lib_old_hosts() {
    assert!(plugin_main::<TestPlugin>(fail_callback()).is_none());
}

#[test]
fn host_callback() {
    assert!(plugin_main::<TestPlugin>(fail_callback()).is_none());
}

#[test]
fn aeffect_created() {
    let aeffect = plugin_main::<TestPlugin>(pass_callback());
    assert!(aeffect.is_some());
}

#[test]
fn vst_drop() {
    let dropped = Rc::new(Cell::new(false));
    let callback = TestCallback { version: 1, plugin_dropped: dropped.clone() };
    let aeffect = plugin_main::<TestPlugin>(callback);
    assert!(aeffect.is_some());
    let mut instance = aeffect.unwrap();

    let mut payload = Payload::Empty;
    dispatch(&mut instance, SHUTDOWN, 0, 0, &mut payload, 0);

    // Assert that the VST is shut down and dropped.
    assert!(dropped.get());
}

#[test]
fn vst_no_drop() {
    let aeffect = plugin_main::<TestPlugin>(pass_callback());
    assert!(aeffect.is_some());
    let mut instance = aeffect.unwrap();

    // Make sure this doesn't crash.
    let mut payload = Payload::Empty;
    dispatch(&mut instance, SHUTDOWN, 0, 0, &mut payload, 0);
}

#[test]
fn vst_deref() {
    let aeffect = plugin_main::<TestPlugin>(pass_callback());
    assert!(aeffect.is_some());
    let instance = aeffect.unwrap();

    let vst = instance.get_vst();
    // Assert that deref works correctly.
    assert!(vst.get_info().name == "Test Plugin");
}

#[test]
fn aeffect_params() {
    let instance = plugin_main::<TestPlugin>(pass_callback()).unwrap();
    let aeffect = instance.effect();

    assert_eq!(aeffect.magic, VST_MAGIC);
    assert_eq!(aeffect.num_programs, 1);
    assert_eq!(aeffect.num_params, 1);
    assert_eq!(aeffect.num_inputs, 2);
    assert_eq!(aeffect.num_outputs, 2);
    assert_eq!(aeffect.reserved1, 0);
    assert_eq!(aeffect.reserved2, 0);
    assert_eq!(aeffect.initial_delay, 123);
    assert_eq!(aeffect.unique_id, 5678);
    assert_eq!(aeffect.version, 1234);
}

#[test]
fn construction_failure_runs_no_teardown() {
    let dropped = Rc::new(Cell::new(false));
    let callback = TestCallback { version: 0, plugin_dropped: dropped.clone() };
    assert!(plugin_main::<TestPlugin>(callback).is_none());
    // The failure path constructs no plugin object, so no teardown ran.
    assert!(!dropped.get());
}

#[test]
fn drop_runs_exactly_once() {
    let dropped = Rc::new(Cell::new(0u32));
    let callback = CountingCallback { version: 1, drops: dropped.clone() };
    let mut instance = plugin_main::<CountingPlugin>(callback).unwrap();
    assert_eq!(dropped.get(), 0);
    let mut payload = Payload::Empty;
    let r = dispatch(&mut instance, SHUTDOWN, 0, 0, &mut payload, 0);
    assert_eq!(r, 0);
    // Teardown ran exactly once.
    assert_eq!(dropped.get(), 1);
}
