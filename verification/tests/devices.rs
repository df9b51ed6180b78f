use audio_engine::devices::get_default_config;
use audio_engine::devices::get_default_device;
use audio_engine::devices::get_device;
use audio_engine::devices::get_devices;
use audio_engine::devices::get_hosts;
use audio_engine::devices::get_max_channels;
use audio_engine::devices::get_supported_formats;
use audio_engine::devices::get_supported_input_configs;
use audio_engine::devices::get_supported_output_configs;
use audio_engine::devices::get_supported_sample_rates;
use audio_engine::devices::DeviceCaps;
use audio_engine::devices::DeviceRegistry;
use audio_engine::devices::DiscoveredDevice;
use audio_engine::types::sample_format_to_js_string;
use audio_engine::types::AudioError;
use audio_engine::types::ConfigRange;
use audio_engine::types::DeviceConfig;
use audio_engine::types::SampleFormat;

fn range(channels: u16, min: u32, max: u32, format: SampleFormat) -> ConfigRange {
    ConfigRange { channels, min_sample_rate: min, max_sample_rate: max, format }
}

fn caps(input: Vec<ConfigRange>, output: Vec<ConfigRange>) -> DeviceCaps {
    DeviceCaps {
        input_configs: input,
        output_configs: output,
        default_input_config: Some(DeviceConfig {
            sample_rate: 44100,
            channels: 2,
            format: SampleFormat::F32,
        }),
        default_output_config: None,
    }
}

fn registry_with_mic() -> DeviceRegistry {
    let mut registry = DeviceRegistry::new();
    registry.insert_device(
        "mic".to_string(),
        caps(
            vec![
                range(2, 44100, 48000, SampleFormat::F32),
                range(1, 22050, 44100, SampleFormat::I16),
                range(2, 44100, 44100, SampleFormat::F32),
            ],
            vec![range(2, 48000, 96000, SampleFormat::I16), range(4, 8000, 8000, SampleFormat::U16)],
        ),
    );
    registry
}

#[test]
fn hosts_use_name_as_id() {
    let hosts = get_hosts(vec!["ALSA".to_string(), "JACK".to_string()]);
    assert_eq!(hosts.len(), 2);
    assert_eq!(hosts[0].id, "ALSA");
    assert_eq!(hosts[0].name, "ALSA");
    assert_eq!(hosts[1].id, "JACK");
    assert_eq!(hosts[1].name, "JACK");
}

#[test]
fn supported_configs_are_exactly_what_the_provider_reported() {
    let registry = registry_with_mic();
    let input = get_supported_input_configs(&registry, "mic").unwrap();
    assert_eq!(input.len(), 3);
    assert_eq!(input[0], range(2, 44100, 48000, SampleFormat::F32));
    assert_eq!(input[1], range(1, 22050, 44100, SampleFormat::I16));
    assert_eq!(input[2], range(2, 44100, 44100, SampleFormat::F32));
    let output = get_supported_output_configs(&registry, "mic").unwrap();
    assert_eq!(output.len(), 2);
    assert_eq!(output[0], range(2, 48000, 96000, SampleFormat::I16));
}

#[test]
fn zero_ranges_for_a_direction_is_unsupported() {
    let mut registry = DeviceRegistry::new();
    registry.insert_device(
        "speaker".to_string(),
        caps(vec![], vec![range(2, 48000, 48000, SampleFormat::F32)]),
    );
    assert_eq!(get_supported_input_configs(&registry, "speaker").unwrap_err(), AudioError::Unsupported);
    assert!(get_supported_output_configs(&registry, "speaker").is_ok());
}

#[test]
fn unknown_device_is_not_found() {
    let registry = DeviceRegistry::new();
    assert_eq!(get_supported_input_configs(&registry, "nope").unwrap_err(), AudioError::DeviceNotFound);
    assert_eq!(get_supported_output_configs(&registry, "nope").unwrap_err(), AudioError::DeviceNotFound);
    assert_eq!(get_supported_formats(&registry, "nope").unwrap_err(), AudioError::DeviceNotFound);
    assert_eq!(get_supported_sample_rates(&registry, "nope").unwrap_err(), AudioError::DeviceNotFound);
    assert_eq!(get_max_channels(&registry, "nope").unwrap_err(), AudioError::DeviceNotFound);
    assert!(get_device(&registry, "nope").is_none());
}

#[test]
fn sample_rates_are_ascending_and_hold_every_boundary() {
    let registry = registry_with_mic();
    let rates = get_supported_sample_rates(&registry, "mic").unwrap();
    assert_eq!(rates, vec![8000, 22050, 44100, 48000, 96000]);
}

#[test]
fn formats_keep_discovery_order_without_duplicates() {
    let registry = registry_with_mic();
    let formats = get_supported_formats(&registry, "mic").unwrap();
    assert_eq!(formats, vec![SampleFormat::F32, SampleFormat::I16, SampleFormat::U16]);
}

#[test]
fn max_channels_spans_both_directions() {
    let registry = registry_with_mic();
    assert_eq!(get_max_channels(&registry, "mic").unwrap(), 4);
    let mut empty = DeviceRegistry::new();
    empty.insert_device("bare".to_string(), caps(vec![], vec![]));
    assert_eq!(get_max_channels(&empty, "bare").unwrap(), 0);
}

#[test]
fn default_config_prefers_the_registered_device() {
    let registry = registry_with_mic();
    let config = get_default_config(&registry, "mic", true, None).unwrap();
    assert_eq!(config, DeviceConfig { sample_rate: 44100, channels: 2, format: SampleFormat::F32 });
    assert_eq!(get_default_config(&registry, "mic", false, None).unwrap_err(), AudioError::ProviderError);
}

#[test]
fn default_config_falls_back_to_the_default_device() {
    let registry = DeviceRegistry::new();
    let fallback = caps(vec![range(1, 16000, 16000, SampleFormat::I16)], vec![]);
    let config = get_default_config(&registry, "ghost", true, Some(&fallback)).unwrap();
    assert_eq!(config.sample_rate, 44100);
    assert_eq!(
        get_default_config(&registry, "ghost", true, None).unwrap_err(),
        AudioError::DeviceNotFound
    );
}

#[test]
fn enumeration_registers_devices_and_computes_default_flags() {
    let mut registry = DeviceRegistry::new();
    let discovered = vec![
        DiscoveredDevice { name: "mic".to_string(), caps: caps(vec![range(1, 8000, 8000, SampleFormat::I16)], vec![]) },
        DiscoveredDevice { name: "speaker".to_string(), caps: caps(vec![], vec![range(2, 48000, 48000, SampleFormat::F32)]) },
    ];
    let default_input = "mic".to_string();
    let default_output = "speaker".to_string();
    let infos = get_devices(&mut registry, "ALSA", discovered, Some(&default_input), Some(&default_output));
    assert_eq!(infos.len(), 2);
    assert_eq!(infos[0].name, "mic");
    assert_eq!(infos[0].device_id, "mic");
    assert_eq!(infos[0].host_id, "ALSA");
    assert!(infos[0].is_default_input);
    assert!(!infos[0].is_default_output);
    assert!(!infos[1].is_default_input);
    assert!(infos[1].is_default_output);
    assert!(get_device(&registry, "mic").is_some());
    assert!(get_device(&registry, "speaker").is_some());
}

#[test]
fn default_device_is_registered_and_flagged_against_both_defaults() {
    let mut registry = DeviceRegistry::new();
    let default_input = "headset".to_string();
    let default_output = "headset".to_string();
    // one device can be the default for both directions
    let info = get_default_device(
        &mut registry,
        false,
        Some(DiscoveredDevice { name: "headset".to_string(), caps: caps(vec![], vec![]) }),
        "ALSA",
        Some(&default_input),
        Some(&default_output),
    )
    .unwrap();
    assert_eq!(info.device_id, "headset");
    assert_eq!(info.host_id, "ALSA");
    assert!(info.is_default_input);
    assert!(info.is_default_output);
    assert!(get_device(&registry, "headset").is_some());

    let mic = "mic".to_string();
    let speaker = "speaker".to_string();
    let info = get_default_device(
        &mut registry,
        true,
        Some(DiscoveredDevice { name: "mic".to_string(), caps: caps(vec![], vec![]) }),
        "ALSA",
        Some(&mic),
        Some(&speaker),
    )
    .unwrap();
    assert!(info.is_default_input);
    assert!(!info.is_default_output);

    assert_eq!(
        get_default_device(&mut registry, true, None, "ALSA", Some(&mic), None).unwrap_err(),
        AudioError::DeviceNotFound
    );
}

#[test]
fn sample_formats_render_their_names() {
    assert_eq!(sample_format_to_js_string(SampleFormat::I16), "i16");
    assert_eq!(sample_format_to_js_string(SampleFormat::U16), "u16");
    assert_eq!(sample_format_to_js_string(SampleFormat::F32), "f32");
    assert_eq!(sample_format_to_js_string(SampleFormat::Unknown), "unknown");
}

#[test]
fn every_error_carries_its_message() {
    assert_eq!(AudioError::DeviceNotFound.message(), "Device not found");
    assert_eq!(AudioError::StreamNotFound.message(), "Stream not found");
    assert_eq!(AudioError::Unsupported.message(), "Device does not support the requested direction");
    assert_eq!(AudioError::ConfigRejected.message(), "Failed to build stream");
    assert_eq!(AudioError::InvalidBuffer.message(), "Invalid buffer size: buffer cannot be empty");
    assert_eq!(AudioError::WrongDirection.message(), "Cannot write to an input stream");
    assert_eq!(AudioError::StreamInactive.message(), "Stream is not active");
    assert_eq!(AudioError::BackpressureExceeded.message(), "Failed to write to stream: buffer full");
    assert_eq!(AudioError::ProviderError.message(), "Audio provider error");
}
