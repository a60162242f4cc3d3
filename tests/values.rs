use opus_parvulum::automation::{apply_changes, due_count, last_due, Breakpoint, ParamQueue, END_OF_BLOCK};
use opus_parvulum::bus::{
    block_is_silent, block_shape, output_silence_flags, BlockShape, BOTH_SILENT,
    can_process_sample_size, channel_count, check_setup, Answer, BusSet, DIR_INPUT, DIR_OUTPUT,
    MEDIA_AUDIO, MEDIA_EVENT, SAMPLE_32, SAMPLE_64, STEREO,
};
use opus_parvulum::controller::{load_values, save_values, OpusController};
use opus_parvulum::factory::{
    ClassKind, Factory, COMPONENT_SDK_VERSION, CONTROLLER_CID, PROCESSOR_CID,
};
use opus_parvulum::latency::{compute_latency, priming_shortfall, to_host_frames};
use opus_parvulum::loss::packet_lost;
use opus_parvulum::params::{
    as_bandwidth, as_bool, as_complexity, as_gain, as_percentage, from_bandwidth, from_bool,
    from_complexity, from_gain, from_percentage, Bandwidth, CodecSettings, Parameter, Unit,
    NORM_ONE,
};

#[test]
fn const_component_sdk_version() {
    assert_eq!(COMPONENT_SDK_VERSION, "VST 3.6.13");
}

#[test]
fn component_infos_dont_panic() {
    let f = Factory::new();
    assert_eq!(f.count_classes(), 2);
    let a = Factory::get_class(0).unwrap();
    assert_eq!(a.kind, ClassKind::Processor);
    assert_eq!(a.cid, PROCESSOR_CID);
    assert_eq!(a.name, "Opus Parvulum");
    assert_eq!(a.class_flags, 1);
    let b = Factory::get_class(1).unwrap();
    assert_eq!(b.kind, ClassKind::Controller);
    assert_eq!(b.cid, CONTROLLER_CID);
    assert_eq!(b.category, "Component Controller Class");
    assert_eq!(b.subcategories, "");
    assert_eq!(a.category, "Audio Module Class");
    assert_eq!(a.subcategories, "Fx");
    assert!(Factory::get_class(2).is_none());
    assert!(Factory::get_class(-1).is_none());
}

#[test]
fn class_ids_name_their_classes() {
    assert_eq!(Factory::class_of(&PROCESSOR_CID), Some(ClassKind::Processor));
    assert_eq!(Factory::class_of(&CONTROLLER_CID), Some(ClassKind::Controller));
    let mut other = PROCESSOR_CID;
    other[15] ^= 1;
    assert_eq!(Factory::class_of(&other), None);
}

#[test]
fn host_frame_conversion_rounds_up() {
    assert_eq!(to_host_frames(960, 48000), 960);
    assert_eq!(to_host_frames(960, 44100), 882);
    assert_eq!(to_host_frames(78, 44100), 72);
    assert_eq!(to_host_frames(1, 96000), 2);
    assert_eq!(to_host_frames(1, 44100), 1);
    assert_eq!(to_host_frames(0, 44100), 0);
}

#[test]
fn latency_formula_values() {
    assert_eq!(compute_latency(0, 0, 48000), 960);
    assert_eq!(compute_latency(78, 0, 44100), 72 + 882);
    assert_eq!(compute_latency(10, 7, 96000), 20 + 7 + 1920);
    assert_eq!(priming_shortfall(960, 900), 60);
    assert_eq!(priming_shortfall(960, 1000), 0);
}

#[test]
fn normalized_values_read_as_settings() {
    assert!(!as_bool(500_000));
    assert!(as_bool(500_001));
    assert_eq!(as_gain(0), -8);
    assert_eq!(as_gain(NORM_ONE), 8);
    assert_eq!(as_gain(500_000), 0);
    assert_eq!(as_gain(400_000), -1);
    assert_eq!(as_gain(440_000), 0);
    assert_eq!(as_complexity(900_000), 9);
    assert_eq!(as_complexity(949_999), 9);
    assert_eq!(as_complexity(950_000), 10);
    assert_eq!(as_percentage(254_999), 25);
    assert_eq!(as_percentage(255_000), 26);
    assert_eq!(as_bandwidth(0), Bandwidth::Narrowband);
    assert_eq!(as_bandwidth(250_000), Bandwidth::Mediumband);
    assert_eq!(as_bandwidth(600_000), Bandwidth::Wideband);
    assert_eq!(as_bandwidth(750_000), Bandwidth::Superwideband);
    assert_eq!(as_bandwidth(NORM_ONE), Bandwidth::Fullband);
    assert_eq!(as_bandwidth(1_200_000), Bandwidth::Auto);
}

#[test]
fn settings_write_back_as_normalized_values() {
    assert_eq!(from_bool(true), NORM_ONE);
    assert_eq!(from_bool(false), 0);
    assert_eq!(from_gain(-8), 0);
    assert_eq!(from_gain(0), 500_000);
    assert_eq!(from_gain(8), NORM_ONE);
    assert_eq!(from_complexity(9), 900_000);
    assert_eq!(from_percentage(25), 250_000);
    assert_eq!(from_bandwidth(Bandwidth::Superwideband), 750_000);
    assert_eq!(from_bandwidth(Bandwidth::Auto), NORM_ONE);
    for c in 0..=10u8 {
        assert_eq!(as_complexity(from_complexity(c)), c);
    }
    for g in -8..=8 {
        assert_eq!(as_gain(from_gain(g)), g);
    }
}

#[test]
fn parameter_ids_round_trip() {
    for id in 0..8u32 {
        assert_eq!(Parameter::from_id(id).unwrap().id(), id);
    }
    assert_eq!(Parameter::from_id(8), None);
    assert_eq!(Parameter::Gain.unit(), Unit::Decoder);
    assert_eq!(Parameter::RandomLoss.unit().id(), 3);
    assert_eq!(Unit::Root.get_info().parent_unit_id, -1);
    assert_eq!(Unit::Network.get_info().parent_unit_id, 0);
    assert_eq!(Unit::Decoder.get_info().name, "Decoder");
}

#[test]
fn parameter_descriptors() {
    let d = Parameter::Complexity.get_parameter_info();
    assert_eq!(d.title, "Complexity");
    assert_eq!(d.step_count, 10);
    assert_eq!(d.default_value, 900_000);
    let b = Parameter::Bypass.get_parameter_info();
    assert!(b.is_bypass);
    assert_eq!(b.unit, Unit::Root);
    assert_eq!(Parameter::Gain.get_parameter_info().default_value, 500_000);
}

#[test]
fn settings_follow_parameter_values() {
    let mut s = CodecSettings::new();
    assert_eq!(s.complexity, 9);
    s.set_value(Parameter::Complexity, 300_000);
    assert_eq!(s.complexity, 3);
    s.set_value(Parameter::Gain, 2_000_000);
    assert_eq!(s.gain, 8);
    s.set_value(Parameter::RandomLoss, 123_456);
    assert_eq!(s.get_value(Parameter::RandomLoss), 123_456);
    s.set_value(Parameter::MaxBandwith, 500_000);
    assert_eq!(s.max_bandwidth, Bandwidth::Wideband);
    assert_eq!(s.get_value(Parameter::Complexity), 300_000);
}

#[test]
fn packet_loss_decision() {
    assert!(!packet_lost(0, 0));
    assert!(!packet_lost(u32::MAX, 0));
    assert!(packet_lost(0, 1));
    assert!(packet_lost(u32::MAX, NORM_ONE));
    assert!(!packet_lost(1 << 31, 500_000));
    assert!(packet_lost(1 << 31, 500_001));
}

#[test]
fn due_breakpoints_stop_at_the_horizon() {
    let points = vec![
        Breakpoint { offset: 0, value: 200_000 },
        Breakpoint { offset: 500, value: 800_000 },
    ];
    assert_eq!(due_count(&points, 0), 0);
    assert_eq!(last_due(&points, 0), None);
    assert_eq!(last_due(&points, 480), Some(200_000));
    assert_eq!(last_due(&points, 500), Some(200_000));
    assert_eq!(last_due(&points, 501), Some(800_000));
    assert_eq!(last_due(&points, END_OF_BLOCK), Some(800_000));
    assert_eq!(last_due(&Vec::new(), END_OF_BLOCK), None);
}

#[test]
fn automation_sets_only_due_parameters() {
    let changes = vec![
        ParamQueue {
            param: Parameter::Complexity,
            points: vec![
                Breakpoint { offset: 0, value: 200_000 },
                Breakpoint { offset: 500, value: 800_000 },
            ],
        },
        ParamQueue {
            param: Parameter::InbandFec,
            points: vec![Breakpoint { offset: 700, value: NORM_ONE }],
        },
    ];
    let mut s = CodecSettings::new();
    assert!(apply_changes(&mut s, &changes, 480));
    assert_eq!(s.complexity, 2);
    assert!(!s.inband_fec);
    assert!(apply_changes(&mut s, &changes, END_OF_BLOCK));
    assert_eq!(s.complexity, 8);
    assert!(s.inband_fec);
    let mut t = CodecSettings::new();
    assert!(!apply_changes(&mut t, &changes, 0));
    assert_eq!(t, CodecSettings::new());
}

#[test]
fn channel_count_counts_speakers() {
    assert_eq!(channel_count(0), 0);
    assert_eq!(channel_count(STEREO), 2);
    assert_eq!(channel_count(0b1011_0000), 3);
    assert_eq!(channel_count(u64::MAX), 64);
}

#[test]
fn sample_size_and_setup_checks() {
    assert_eq!(can_process_sample_size(SAMPLE_32), Answer::Yes);
    assert_eq!(can_process_sample_size(SAMPLE_64), Answer::No);
    assert_eq!(can_process_sample_size(7), Answer::InvalidArgument);
    assert_eq!(check_setup(0, SAMPLE_32), Answer::Yes);
    assert_eq!(check_setup(2, SAMPLE_64), Answer::No);
    assert_eq!(check_setup(3, SAMPLE_32), Answer::No);
}

#[test]
fn buses_are_listed_and_switched() {
    let mut buses = BusSet::new();
    buses.add_audio_input("Stereo In", STEREO);
    buses.add_audio_output("Stereo Out", STEREO);
    assert_eq!(buses.bus_count(MEDIA_AUDIO, DIR_INPUT), 1);
    assert_eq!(buses.bus_count(MEDIA_AUDIO, DIR_OUTPUT), 1);
    assert_eq!(buses.bus_count(MEDIA_EVENT, DIR_INPUT), 0);
    let info = buses.bus_info(MEDIA_AUDIO, DIR_OUTPUT, 0).ok().unwrap();
    assert_eq!(info.channel_count, 2);
    assert_eq!(info.name, "Stereo Out");
    assert_eq!(info.flags, 1);
    assert!(matches!(buses.bus_info(MEDIA_AUDIO, DIR_INPUT, 1), Err(Answer::InvalidArgument)));
    assert!(matches!(buses.bus_info(MEDIA_EVENT, DIR_INPUT, 0), Err(Answer::No)));
    assert_eq!(buses.activate_bus(MEDIA_AUDIO, DIR_INPUT, 0, true), Answer::Yes);
    assert!(buses.inputs[0].active);
    assert!(!buses.outputs[0].active);
    assert_eq!(buses.activate_bus(MEDIA_AUDIO, DIR_INPUT, 3, true), Answer::InvalidArgument);
    assert_eq!(buses.bus_arrangement(0, 0), Some(STEREO));
    assert_eq!(buses.bus_arrangement(1, 1), None);
    buses.clear();
    assert_eq!(buses.bus_count(MEDIA_AUDIO, DIR_INPUT), 0);
}

#[test]
fn controller_store_keeps_values() {
    let mut store = OpusController::new();
    assert_eq!(store.get_parameter_count(), 8);
    assert_eq!(store.get_param_normalized(2), 0);
    assert_eq!(store.get_parameter_info(7).ok().unwrap().param, Parameter::Gain);
    assert!(matches!(store.get_parameter_info(8), Err(Answer::InvalidArgument)));
    assert!(matches!(store.get_parameter_info(-1), Err(Answer::InvalidArgument)));
    assert_eq!(store.get_unit_count(), 4);
    assert_eq!(store.get_unit_info(1).unwrap().name, "Encoder");
    assert!(store.get_unit_info(4).is_none());
    assert_eq!(store.set_param_normalized(2, 700_000), Answer::Yes);
    assert_eq!(store.get_param_normalized(2), 700_000);
    assert_eq!(store.set_param_normalized(8, 1), Answer::InvalidArgument);
    assert_eq!(store.get_param_normalized(8), 0);
    store.set_component_state(&vec![1, 2, 3]);
    assert_eq!(store.get_param_normalized(0), 1);
    assert_eq!(store.get_param_normalized(2), 3);
    assert_eq!(store.get_param_normalized(3), 0);
}

#[test]
fn saved_settings_load_back() {
    let mut s = CodecSettings::new();
    s.set_value(Parameter::Gain, 750_000);
    s.set_value(Parameter::RandomLoss, 50_000);
    s.set_value(Parameter::InbandFec, NORM_ONE);
    let saved = save_values(&s);
    assert_eq!(saved.len(), 8);
    assert_eq!(saved[1], NORM_ONE);
    assert_eq!(saved[2], 900_000);
    let mut t = CodecSettings::new();
    t.set_value(Parameter::Complexity, 0);
    load_values(&mut t, &saved);
    assert_eq!(t, s);
}

#[test]
fn block_shapes_and_silence_flags() {
    assert_eq!(block_shape(0, 0, 0, 0), BlockShape::ParamsOnly);
    assert_eq!(block_shape(1, 2, 1, 2), BlockShape::Stereo);
    assert_eq!(block_shape(1, 1, 1, 2), BlockShape::Invalid);
    assert_eq!(block_shape(0, 0, 1, 2), BlockShape::Invalid);
    assert!(block_is_silent(0b11));
    assert!(block_is_silent(0b111));
    assert!(!block_is_silent(0b01));
    assert_eq!(output_silence_flags(true), BOTH_SILENT);
    assert_eq!(output_silence_flags(false), 0);
}

#[test]
fn activating_a_bad_audio_bus_is_an_invalid_argument() {
    let mut buses = BusSet::new();
    buses.add_audio_input("Stereo In", STEREO);
    assert_eq!(buses.activate_bus(MEDIA_AUDIO, 5, 0, true), Answer::InvalidArgument);
    assert_eq!(buses.activate_bus(MEDIA_AUDIO, DIR_OUTPUT, 0, true), Answer::InvalidArgument);
    assert_eq!(buses.activate_bus(MEDIA_EVENT, DIR_INPUT, 0, true), Answer::No);
    assert!(!buses.inputs[0].active);
}
