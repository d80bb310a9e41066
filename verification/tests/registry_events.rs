//! Registry merging, enumeration, defaults, and hot-plug event handling.

use audir::events::{DataFlow, DeviceState, Event, Role};
use audir::format::{SubFormat, WaveFormat};
use audir::instance::{EngineSnapshot, Instance};
use audir::registry::EndpointDesc;
use audir::Error;

fn engine_format() -> WaveFormat {
    WaveFormat {
        format_tag: 0xFFFE,
        channels: 2,
        samples_per_sec: 48_000,
        avg_bytes_per_sec: 384_000,
        block_align: 8,
        bits_per_sample: 32,
        cb_size: 22,
        valid_bits_per_sample: 32,
        channel_mask: 0x3,
        sub_format: SubFormat::IeeeFloat,
    }
}

fn endpoint(id: &str, state: DeviceState) -> EndpointDesc {
    EndpointDesc {
        id: id.to_owned(),
        name: format!("endpoint {}", id),
        state,
        mix_format: engine_format(),
        buffer_size: 480,
    }
}

fn snapshot(capture: Vec<EndpointDesc>, render: Vec<EndpointDesc>) -> EngineSnapshot {
    EngineSnapshot { capture, render, default_input: None, default_output: None }
}

#[test]
fn merged_device_has_both_flags() {
    let instance = Instance::create(
        "merge",
        snapshot(
            vec![endpoint("headset", DeviceState::Active)],
            vec![endpoint("headset", DeviceState::Active)],
        ),
    );

    let devices = instance.enumerate_physical_devices();
    assert_eq!(devices.len(), 1);

    let properties = instance.physical_device_properties(devices[0]).unwrap();
    assert!(properties.streams.input);
    assert!(properties.streams.output);
}

#[test]
fn capture_only_device_has_input_flag_alone() {
    let instance = Instance::create(
        "capture",
        snapshot(vec![endpoint("mic", DeviceState::Active)], vec![]),
    );

    let devices = instance.enumerate_physical_devices();
    assert_eq!(devices.len(), 1);
    let properties = instance.physical_device_properties(devices[0]).unwrap();
    assert!(properties.streams.input);
    assert!(!properties.streams.output);
    assert_eq!(properties.device_name, "endpoint mic");
}

#[test]
fn merge_keeps_insertion_order_and_identity() {
    let instance = Instance::create(
        "order",
        snapshot(
            vec![endpoint("a", DeviceState::Active), endpoint("b", DeviceState::Active)],
            vec![endpoint("b", DeviceState::Active), endpoint("c", DeviceState::Active)],
        ),
    );

    assert_eq!(instance.registry.len(), 3);
    let a = instance.physical_device_properties(0).unwrap();
    let b = instance.physical_device_properties(1).unwrap();
    let c = instance.physical_device_properties(2).unwrap();
    assert_eq!(a.device_name, "endpoint a");
    assert!(a.streams.input && !a.streams.output);
    assert_eq!(b.device_name, "endpoint b");
    assert!(b.streams.input && b.streams.output);
    assert_eq!(c.device_name, "endpoint c");
    assert!(!c.streams.input && c.streams.output);
}

#[test]
fn inactive_device_is_recorded_but_not_enumerated() {
    let instance = Instance::create(
        "inactive",
        snapshot(vec![], vec![endpoint("sleeping", DeviceState::Disabled)]),
    );

    assert!(instance.enumerate_physical_devices().is_empty());
    assert_eq!(instance.registry.len(), 1);
    let properties = instance.physical_device_properties(0).unwrap();
    assert_eq!(properties.device_name, "endpoint sleeping");
}

#[test]
fn stale_handle_properties_is_validation() {
    let instance = Instance::create("stale", snapshot(vec![], vec![]));
    assert!(matches!(instance.physical_device_properties(0), Err(Error::Validation)));
}

#[test]
fn default_output_resolves_to_registry_entry() {
    let mut snap = snapshot(vec![], vec![endpoint("speakers", DeviceState::Active)]);
    snap.default_output = Some("speakers".to_owned());
    let instance = Instance::create("default", snap);

    assert_eq!(instance.default_physical_output_device(), Ok(Some(0)));
    assert_eq!(instance.default_physical_input_device(), Ok(None));
}

#[test]
fn default_for_unknown_id_is_not_found() {
    let mut snap = snapshot(vec![], vec![endpoint("speakers", DeviceState::Active)]);
    snap.default_input = Some("ghost".to_owned());
    let instance = Instance::create("ghost", snap);

    assert_eq!(instance.default_physical_input_device(), Err(Error::NotFound));
}

#[test]
fn poll_events_on_empty_queue_is_noop() {
    let mut instance = Instance::create(
        "idle",
        snapshot(vec![], vec![endpoint("speakers", DeviceState::Active)]),
    );

    let events = instance.poll_events();
    assert!(events.is_empty());
    assert_eq!(instance.registry.len(), 1);
    let again = instance.poll_events();
    assert!(again.is_empty());
}

#[test]
fn events_drain_in_arrival_order() {
    let mut instance = Instance::create("fifo", snapshot(vec![], vec![]));

    instance.notifier.on_device_added("one".to_owned());
    instance.notifier.on_device_state_changed("one".to_owned(), DeviceState::Disabled);
    instance.notifier.on_device_removed("one".to_owned());

    let events = instance.poll_events();
    assert_eq!(
        events,
        vec![
            Event::Added("one".to_owned()),
            Event::Changed { device: "one".to_owned(), state: DeviceState::Disabled },
            Event::Removed("one".to_owned()),
        ],
    );
    assert!(instance.poll_events().is_empty());
}

#[test]
fn non_console_default_change_is_ignored() {
    let mut instance = Instance::create("roles", snapshot(vec![], vec![]));

    instance.notifier.on_default_device_changed(
        DataFlow::Render,
        Role::Multimedia,
        "movie box".to_owned(),
    );
    assert!(instance.poll_events().is_empty());

    instance.notifier.on_default_device_changed(
        DataFlow::Render,
        Role::Console,
        "speakers".to_owned(),
    );
    let events = instance.poll_events();
    assert_eq!(
        events,
        vec![Event::Default { device: "speakers".to_owned(), flow: DataFlow::Render }],
    );
}

#[test]
fn property_value_change_queues_nothing() {
    let mut instance = Instance::create("props", snapshot(vec![], vec![]));
    instance.notifier.on_property_value_changed("speakers".to_owned());
    assert!(instance.poll_events().is_empty());
}

#[test]
fn added_event_inserts_identity_record() {
    let mut instance = Instance::create("hotplug", snapshot(vec![], vec![]));

    instance.apply_event(&Event::Added("fresh".to_owned()));
    assert_eq!(instance.registry.len(), 1);
    // identity only: not active, so not enumerated
    assert!(instance.enumerate_physical_devices().is_empty());
    let properties = instance.physical_device_properties(0).unwrap();
    assert!(!properties.streams.input && !properties.streams.output);

    // a second add of the same id changes nothing
    instance.apply_event(&Event::Added("fresh".to_owned()));
    assert_eq!(instance.registry.len(), 1);
}

#[test]
fn changed_event_updates_state() {
    let mut instance = Instance::create(
        "statechange",
        snapshot(vec![], vec![endpoint("speakers", DeviceState::Disabled)]),
    );
    assert!(instance.enumerate_physical_devices().is_empty());

    instance.apply_event(
        &Event::Changed { device: "speakers".to_owned(), state: DeviceState::Active },
    );
    assert_eq!(instance.enumerate_physical_devices(), vec![0]);
}

#[test]
fn removed_event_marks_record_not_present() {
    let mut instance = Instance::create(
        "unplug",
        snapshot(vec![], vec![endpoint("speakers", DeviceState::Active)]),
    );
    assert_eq!(instance.enumerate_physical_devices(), vec![0]);

    instance.apply_event(&Event::Removed("speakers".to_owned()));
    assert!(instance.enumerate_physical_devices().is_empty());
    // the identity survives, so the handle stays valid
    assert_eq!(instance.registry.len(), 1);
}

#[test]
fn default_event_retargets_default_device() {
    let mut snap = snapshot(
        vec![],
        vec![endpoint("old", DeviceState::Active), endpoint("new", DeviceState::Active)],
    );
    snap.default_output = Some("old".to_owned());
    let mut instance = Instance::create("retarget", snap);
    assert_eq!(instance.default_physical_output_device(), Ok(Some(0)));

    instance.apply_event(
        &Event::Default { device: "new".to_owned(), flow: DataFlow::Render },
    );
    assert_eq!(instance.default_physical_output_device(), Ok(Some(1)));
    assert_eq!(instance.default_physical_input_device(), Ok(None));
}
