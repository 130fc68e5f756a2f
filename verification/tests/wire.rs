use alvr_dfr::capabilities::{
    decode_video_streaming_capabilities, encode_video_streaming_capabilities, split_extra_data,
    CapabilitiesError, VideoStreamingCapabilities, VideoStreamingCapabilitiesLegacy,
};
use alvr_dfr::float::Float32;
use alvr_dfr::packets::{StreamConfigPacket, UVec2};
use alvr_dfr::stream_config::{decode_stream_config, NegotiationDefaults, StreamConfigError};

fn f(x: f32) -> Float32 {
    Float32 { bits: x.to_bits() }
}

fn caps(rates: Vec<Float32>) -> VideoStreamingCapabilities {
    VideoStreamingCapabilities {
        default_view_resolution: UVec2 { x: 2144, y: 2272 },
        supported_refresh_rates: rates,
        microphone_sample_rate: 48000,
        supports_foveated_encoding: false,
        encoder_high_profile: false,
        encoder_10_bits: true,
        encoder_av1: false,
        multimodal_protocol: true,
        prefer_10bit: true,
        prefer_full_range: false,
        preferred_encoding_gamma: "1.5".to_string(),
        prefer_hdr: true,
    }
}

const CAPS_JSON: &str = r#"{"default_view_resolution":[2144,2272],"supported_refresh_rates":[72.0,90.0],"microphone_sample_rate":48000,"supports_foveated_encoding":false,"encoder_high_profile":false,"encoder_10_bits":true,"encoder_av1":false,"multimodal_protocol":true,"prefer_10bit":true,"prefer_full_range":false,"preferred_encoding_gamma":1.5,"prefer_hdr":true}"#;

fn legacy(data: Vec<Float32>) -> VideoStreamingCapabilitiesLegacy {
    VideoStreamingCapabilitiesLegacy {
        default_view_resolution: UVec2 { x: 1, y: 2 },
        supported_refresh_rates_plus_extra_data: data,
        microphone_sample_rate: 3,
    }
}

#[test]
fn bytes_travel_as_negative_numbers() {
    for b in 0..=255u8 {
        let x = Float32::from_negated_byte(b);
        assert_eq!(x.bits, (-(b as f32)).to_bits());
        assert_eq!(x.whole_magnitude(), b);
        assert_eq!(x.is_below_zero(), b != 0);
    }
}

#[test]
fn numbers_are_classified_by_their_bits() {
    for x in [0.0f32, -0.0, 1.0, -1.0, 1e-40, -1e-40, 254.99, 255.0, 256.0, 1e30, f32::MAX] {
        assert_eq!(f(x).is_below_zero(), x < 0.0);
        assert!(f(x).is_finite());
        assert!(!f(x).is_nan());
        assert_eq!(f(x).whole_magnitude(), x.abs() as u8);
    }
    assert!(f(f32::NAN).is_nan());
    assert!(!f(f32::NAN).is_finite());
    assert!(!f(-f32::NAN).is_below_zero());
    assert!(f(f32::NEG_INFINITY).is_below_zero());
    assert_eq!(f(f32::NEG_INFINITY).whole_magnitude(), 255);
}

#[test]
fn capabilities_are_framed_behind_the_rates() {
    let r = encode_video_streaming_capabilities(&caps(vec![f(72.0), f(90.0)]), "ab").unwrap();
    assert_eq!(r.default_view_resolution, UVec2 { x: 2144, y: 2272 });
    assert_eq!(r.microphone_sample_rate, 48000);
    assert_eq!(
        r.supported_refresh_rates_plus_extra_data,
        vec![f(72.0), f(90.0), f(-97.0), f(-98.0)]
    );
}

#[test]
fn capabilities_round_trip() {
    let sent = encode_video_streaming_capabilities(&caps(vec![f(72.0), f(90.0)]), CAPS_JSON).unwrap();
    let got = decode_video_streaming_capabilities(&sent).unwrap();
    assert_eq!(got.default_view_resolution, UVec2 { x: 2144, y: 2272 });
    assert_eq!(got.supported_refresh_rates, vec![f(72.0), f(90.0)]);
    assert_eq!(got.microphone_sample_rate, 48000);
    assert!(!got.supports_foveated_encoding);
    assert!(!got.encoder_high_profile);
    assert!(got.encoder_10_bits);
    assert!(!got.encoder_av1);
    assert!(got.multimodal_protocol);
    assert!(got.prefer_10bit);
    assert!(!got.prefer_full_range);
    assert_eq!(got.preferred_encoding_gamma, "1.5");
    assert!(got.prefer_hdr);
}

#[test]
fn framing_loses_nothing() {
    let data = vec![f(72.0), f(-1.0), f(0.0), f(-255.0)];
    let (rates, bytes) = split_extra_data(&data);
    assert_eq!(rates, vec![f(72.0), f(0.0)]);
    assert_eq!(bytes, vec![1, 255]);
}

#[test]
fn missing_capabilities_have_defaults() {
    for text in ["", "null", "[1]", "{}", r#"{"prefer_hdr":1,"encoder_av1":"no"}"#] {
        let data: Vec<Float32> = text.bytes().map(Float32::from_negated_byte).collect();
        let got = decode_video_streaming_capabilities(&legacy(data)).unwrap();
        assert!(got.supports_foveated_encoding);
        assert!(got.encoder_high_profile);
        assert!(got.encoder_10_bits);
        assert!(got.encoder_av1);
        assert!(!got.multimodal_protocol);
        assert!(!got.prefer_10bit);
        assert!(got.prefer_full_range);
        assert_eq!(got.preferred_encoding_gamma, "1.0");
        assert!(!got.prefer_hdr);
        assert!(got.supported_refresh_rates.is_empty());
    }
}

#[test]
fn extra_data_that_is_not_text_is_refused() {
    assert_eq!(
        decode_video_streaming_capabilities(&legacy(vec![f(-255.0)])).err(),
        Some(CapabilitiesError::ExtraDataNotUtf8)
    );
}

#[test]
fn a_rate_that_json_cannot_express_is_refused() {
    for bad in [f32::NAN, f32::INFINITY] {
        assert_eq!(
            encode_video_streaming_capabilities(&caps(vec![f(72.0), f(bad)]), "").err(),
            Some(CapabilitiesError::RefreshRateNotFinite)
        );
    }
}

fn packet(negotiated: &str) -> StreamConfigPacket {
    StreamConfigPacket { session: "{}".to_string(), negotiated: negotiated.to_string() }
}

const DEFAULTS: NegotiationDefaults =
    NegotiationDefaults { enable_foveated_encoding: true, use_full_range: true };

#[test]
fn a_full_negotiation_is_read() {
    let text = r#"{"view_resolution":[1832,1920],"refresh_rate_hint":90.0,"game_audio_sample_rate":44100,"enable_foveated_encoding":false,"use_multimodal_protocol":true,"use_full_range":false,"encoding_gamma":2.2,"enable_hdr":true,"wired":true}"#;
    let c = decode_stream_config(&packet(text), DEFAULTS).unwrap();
    assert_eq!(c.view_resolution, UVec2 { x: 1832, y: 1920 });
    assert_eq!(c.refresh_rate_hint, "90.0");
    assert_eq!(c.game_audio_sample_rate, 44100);
    assert!(!c.enable_foveated_encoding);
    assert!(c.use_multimodal_protocol);
    assert!(!c.use_full_range);
    assert_eq!(c.encoding_gamma, "2.2");
    assert!(c.enable_hdr);
    assert!(c.wired);
}

#[test]
fn what_a_negotiation_leaves_out_has_defaults() {
    let text = r#"{"view_resolution":[1,2],"refresh_rate_hint":72,"game_audio_sample_rate":0,"wired":"yes","encoding_gamma":null}"#;
    for enable_foveated_encoding in [true, false] {
        for use_full_range in [true, false] {
            let defaults = NegotiationDefaults { enable_foveated_encoding, use_full_range };
            let c = decode_stream_config(&packet(text), defaults).unwrap();
            assert_eq!(c.enable_foveated_encoding, enable_foveated_encoding);
            assert_eq!(c.use_full_range, use_full_range);
            assert!(!c.use_multimodal_protocol);
            assert_eq!(c.encoding_gamma, "1.0");
            assert_eq!(c.refresh_rate_hint, "72");
            assert!(!c.enable_hdr);
            assert!(!c.wired);
        }
    }
}

#[test]
fn each_flaw_of_a_negotiation_is_told() {
    let err = |text: &str| decode_stream_config(&packet(text), DEFAULTS).err();
    assert_eq!(err(""), Some(StreamConfigError::NotJson));
    assert_eq!(err("{"), Some(StreamConfigError::NotJson));
    assert_eq!(err("{}"), Some(StreamConfigError::ViewResolution));
    assert_eq!(err("null"), Some(StreamConfigError::ViewResolution));
    assert_eq!(err(r#"{"view_resolution":[1]}"#), Some(StreamConfigError::ViewResolution));
    assert_eq!(err(r#"{"view_resolution":[1,2,3]}"#), Some(StreamConfigError::ViewResolution));
    assert_eq!(err(r#"{"view_resolution":[1,-2]}"#), Some(StreamConfigError::ViewResolution));
    assert_eq!(err(r#"{"view_resolution":{"x":1,"y":2}}"#), Some(StreamConfigError::ViewResolution));
    assert_eq!(err(r#"{"view_resolution":[1,2]}"#), Some(StreamConfigError::RefreshRateHint));
    assert_eq!(
        err(r#"{"view_resolution":[1,2],"refresh_rate_hint":"72"}"#),
        Some(StreamConfigError::RefreshRateHint)
    );
    for rate in ["1.5", "-1", "4294967296", "true", "3.0"] {
        assert_eq!(
            err(&format!(
                r#"{{"view_resolution":[1,2],"refresh_rate_hint":72,"game_audio_sample_rate":{rate}}}"#
            )),
            Some(StreamConfigError::GameAudioSampleRate)
        );
    }
}

#[test]
fn a_session_that_is_not_json_is_told_first() {
    for session in ["", "{", "{]"] {
        for negotiated in ["", "{}", r#"{"view_resolution":[1,2],"refresh_rate_hint":72,"game_audio_sample_rate":0}"#] {
            let packet = StreamConfigPacket {
                session: session.to_string(),
                negotiated: negotiated.to_string(),
            };
            assert_eq!(
                decode_stream_config(&packet, DEFAULTS).err(),
                Some(StreamConfigError::SessionNotJson)
            );
        }
    }
}

#[test]
fn settings_do_not_override_what_was_sent() {
    for flag in [true, false] {
        let text = format!(
            r#"{{"view_resolution":[1832,1920],"refresh_rate_hint":90.0,"game_audio_sample_rate":44100,"enable_foveated_encoding":{flag},"use_multimodal_protocol":{flag},"use_full_range":{flag},"encoding_gamma":2.2,"enable_hdr":{flag},"wired":{flag}}}"#
        );
        for default in [true, false] {
            let defaults =
                NegotiationDefaults { enable_foveated_encoding: default, use_full_range: default };
            let c = decode_stream_config(&packet(&text), defaults).unwrap();
            assert_eq!(c.view_resolution, UVec2 { x: 1832, y: 1920 });
            assert_eq!((c.refresh_rate_hint.as_str(), c.encoding_gamma.as_str()), ("90.0", "2.2"));
            assert_eq!(c.game_audio_sample_rate, 44100);
            assert_eq!([c.enable_foveated_encoding, c.use_multimodal_protocol], [flag, flag]);
            assert_eq!([c.use_full_range, c.enable_hdr, c.wired], [flag, flag, flag]);
        }
    }
}
