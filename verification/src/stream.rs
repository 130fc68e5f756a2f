//! The client's side of a stream: what is decoded, shown and reported back.

use crate::eye_pose_status_pico::{gaze_vector_set, is_gaze_vector_valid, law_valid_parts};
use crate::float::{law_bit_pattern, Float32};
use crate::packets::{
    DFRShiftData, DeviceMotion, DynamicFoveatedCenter, EyeTrackingDataPICO, EyeTrackingInputStatus,
    FaceData, Pose, UVec2, ViewParams, WiFiMetrics,
};
use crate::stream_config::NegotiatedStreamingConfig;
use crate::time::{larger, saturating_difference, Duration, Instant};
use crate::tracking::DeviceIds;
use crate::tracking_loop::is_used;
use vstd::prelude::*;

verus! {

/// How far behind the display a frame may be before its timestamp is brought forward, in
/// nanoseconds.
pub const MAX_FRAME_AGE_NANOS: u128 = 1_000_000_000;

/// For how long a reading of the wireless network is used, in nanoseconds.
pub const WIFI_REFRESH_NANOS: u128 = 100_000_000;

/// How often input is polled per displayed frame.
pub const POLLS_PER_FRAME: u128 = 3;

/// The settings that a stream hands on without looking at them.
pub trait HostTypes {
    type Chroma;

    type FoveatedEncoding;

    type PostProcessing;

    type Upscaling;

    type DecoderOptions;

    type InteractionSources;
}

/// How the surroundings show through.
#[derive(Debug)]
pub enum PassthroughMode<C> {
    Blend { premultiplied_alpha: bool, config: C },
    RgbChromaKey(C),
    HsvChromaKey(C),
    Other(C),
}

/// How the runtime foveates.
#[derive(Clone, Copy, PartialEq, Eq, Structural, Debug)]
pub enum ClientsideFoveationMode {
    Static { level: i32 },
    Dynamic { max_level: i32 },
}

/// The settings for foveation by the runtime.
#[derive(Clone, Copy, PartialEq, Eq, Structural, Debug)]
pub struct ClientsideFoveationConfig {
    pub mode: ClientsideFoveationMode,
    pub vertical_offset_deg: Float32,
}

/// What the server asks for while the stream runs.
pub struct RealTimeConfig<H: HostTypes> {
    pub passthrough: Option<PassthroughMode<H::Chroma>>,
    pub clientside_post_processing: Option<H::PostProcessing>,
    pub dynamic_foveated_center: Option<DynamicFoveatedCenter>,
}

/// The settings for video.
pub struct VideoSettings<H: HostTypes> {
    pub passthrough: Option<PassthroughMode<H::Chroma>>,
    pub foveated_encoding: Option<H::FoveatedEncoding>,
    pub clientside_foveation: Option<ClientsideFoveationConfig>,
    pub clientside_post_processing: Option<H::PostProcessing>,
    pub upscaling: Option<H::Upscaling>,
    pub force_software_decoder: bool,
    pub max_buffering_frames: Float32,
    pub buffering_history_weight: Float32,
    pub mediacodec_extra_options: H::DecoderOptions,
}

/// What a stream is set up with.
pub struct ParsedStreamConfig<H: HostTypes> {
    pub view_resolution: UVec2,
    /// A number as its JSON text.
    pub refresh_rate_hint: String,
    pub use_full_range: bool,
    /// A number as its JSON text.
    pub encoding_gamma: String,
    pub enable_hdr: bool,
    pub passthrough: Option<PassthroughMode<H::Chroma>>,
    pub foveated_encoding_config: Option<H::FoveatedEncoding>,
    pub clientside_foveation_config: Option<ClientsideFoveationConfig>,
    pub clientside_post_processing: Option<H::PostProcessing>,
    pub upscaling: Option<H::Upscaling>,
    pub dynamic_foveated_center: Option<DynamicFoveatedCenter>,
    pub force_software_decoder: bool,
    pub max_buffering_frames: Float32,
    pub buffering_history_weight: Float32,
    pub decoder_options: H::DecoderOptions,
    pub interaction_sources: H::InteractionSources,
}

impl<H: HostTypes> RealTimeConfig<H> {
    /// What the settings ask for. The foveal centre is up to eye tracking.
    pub fn from_settings(
        passthrough: Option<PassthroughMode<H::Chroma>>,
        clientside_post_processing: Option<H::PostProcessing>,
    ) -> (r: Self)
        ensures
            r.passthrough == passthrough,
            r.clientside_post_processing == clientside_post_processing,
            r.dynamic_foveated_center is None,
    {
        RealTimeConfig { passthrough, clientside_post_processing, dynamic_foveated_center: None }
    }
}

impl<H: HostTypes> ParsedStreamConfig<H> {
    /// What settings and negotiation lead to.
    pub open spec fn is_parsed(
        self,
        settings: VideoSettings<H>,
        negotiated: NegotiatedStreamingConfig,
        interaction_sources: H::InteractionSources,
    ) -> bool {
        &&& self.view_resolution == negotiated.view_resolution
        &&& self.refresh_rate_hint == negotiated.refresh_rate_hint
        &&& self.use_full_range == negotiated.use_full_range
        &&& self.encoding_gamma == negotiated.encoding_gamma
        &&& self.enable_hdr == negotiated.enable_hdr
        &&& self.passthrough == settings.passthrough
        &&& self.foveated_encoding_config == if negotiated.enable_foveated_encoding {
            settings.foveated_encoding
        } else {
            None
        }
        &&& self.clientside_foveation_config == settings.clientside_foveation
        &&& self.clientside_post_processing == settings.clientside_post_processing
        &&& self.upscaling == settings.upscaling
        &&& self.dynamic_foveated_center is None
        &&& self.force_software_decoder == settings.force_software_decoder
        &&& self.max_buffering_frames == settings.max_buffering_frames
        &&& self.buffering_history_weight == settings.buffering_history_weight
        &&& self.decoder_options == settings.mediacodec_extra_options
        &&& self.interaction_sources == interaction_sources
    }

    /// Brings settings and negotiation together. Foveated encoding is used where it is both set up
    /// and negotiated; the foveal centre comes while the stream runs.
    pub fn new(
        settings: VideoSettings<H>,
        negotiated: NegotiatedStreamingConfig,
        interaction_sources: H::InteractionSources,
    ) -> (r: Self)
        ensures
            r.is_parsed(settings, negotiated, interaction_sources),
            r.view_resolution == negotiated.view_resolution,
            r.refresh_rate_hint == negotiated.refresh_rate_hint,
            r.use_full_range == negotiated.use_full_range,
            r.encoding_gamma == negotiated.encoding_gamma,
            r.enable_hdr == negotiated.enable_hdr,
            r.passthrough == settings.passthrough,
            negotiated.enable_foveated_encoding ==> r.foveated_encoding_config
                == settings.foveated_encoding,
            !negotiated.enable_foveated_encoding ==> r.foveated_encoding_config is None,
            r.clientside_foveation_config == settings.clientside_foveation,
            r.clientside_post_processing == settings.clientside_post_processing,
            r.upscaling == settings.upscaling,
            r.dynamic_foveated_center is None,
            r.force_software_decoder == settings.force_software_decoder,
            r.max_buffering_frames == settings.max_buffering_frames,
            r.buffering_history_weight == settings.buffering_history_weight,
            r.decoder_options == settings.mediacodec_extra_options,
            r.interaction_sources == interaction_sources,
    {
        ParsedStreamConfig {
            view_resolution: negotiated.view_resolution,
            refresh_rate_hint: negotiated.refresh_rate_hint,
            use_full_range: negotiated.use_full_range,
            encoding_gamma: negotiated.encoding_gamma,
            enable_hdr: negotiated.enable_hdr,
            passthrough: settings.passthrough,
            foveated_encoding_config: if negotiated.enable_foveated_encoding {
                settings.foveated_encoding
            } else {
                None
            },
            clientside_foveation_config: settings.clientside_foveation,
            clientside_post_processing: settings.clientside_post_processing,
            upscaling: settings.upscaling,
            dynamic_foveated_center: None,
            force_software_decoder: settings.force_software_decoder,
            max_buffering_frames: settings.max_buffering_frames,
            buffering_history_weight: settings.buffering_history_weight,
            decoder_options: settings.mediacodec_extra_options,
            interaction_sources,
        }
    }
}

/// The extensions of the runtime on which its foveation rests.
#[derive(Clone, Copy, PartialEq, Eq, Structural, Debug)]
pub struct FoveationExtensions {
    pub swapchain_update_state: bool,
    pub foveation: bool,
    pub foveation_configuration: bool,
}

/// The foveation that is asked of the runtime.
#[derive(Clone, Copy, PartialEq, Eq, Structural, Debug)]
pub struct FoveationProfile {
    pub level: i32,
    pub vertical_offset: Float32,
    pub dynamic: bool,
}

/// The foveation that is asked of the runtime.
pub open spec fn profile_for(
    config: Option<ClientsideFoveationConfig>,
    extensions: FoveationExtensions,
) -> Option<FoveationProfile> {
    match config {
        Some(config) if extensions.swapchain_update_state && extensions.foveation
            && extensions.foveation_configuration => Some(
            match config.mode {
                ClientsideFoveationMode::Static { level } => FoveationProfile {
                    level,
                    vertical_offset: config.vertical_offset_deg,
                    dynamic: false,
                },
                ClientsideFoveationMode::Dynamic { max_level } => FoveationProfile {
                    level: max_level,
                    vertical_offset: config.vertical_offset_deg,
                    dynamic: true,
                },
            },
        ),
        _ => None,
    }
}

/// The foveation that is asked of the runtime: none where none is set up or the runtime lacks one of
/// the extensions.
pub fn foveation_profile(
    config: Option<ClientsideFoveationConfig>,
    extensions: FoveationExtensions,
) -> (r: Option<FoveationProfile>)
    ensures
        r is Some <==> config is Some && extensions.swapchain_update_state && extensions.foveation
            && extensions.foveation_configuration,
        r matches Some(profile) ==> profile == (match config->0.mode {
            ClientsideFoveationMode::Static { level } => FoveationProfile {
                level,
                vertical_offset: config->0.vertical_offset_deg,
                dynamic: false,
            },
            ClientsideFoveationMode::Dynamic { max_level } => FoveationProfile {
                level: max_level,
                vertical_offset: config->0.vertical_offset_deg,
                dynamic: true,
            },
        }),
        r == profile_for(config, extensions),
{
    if !extensions.swapchain_update_state || !extensions.foveation
        || !extensions.foveation_configuration {
        return None;
    }
    match config {
        Some(config) => {
            let (level, dynamic): (i32, bool) = match config.mode {
                ClientsideFoveationMode::Static { level } => (level, false),
                ClientsideFoveationMode::Dynamic { max_level } => (max_level, true),
            };
            Some(FoveationProfile { level, vertical_offset: config.vertical_offset_deg, dynamic })
        },
        None => None,
    }
}

/// How the renderer treats colours.
#[derive(Clone, Copy, PartialEq, Eq, Structural, Debug)]
pub struct RendererFlags {
    pub enable_srgb_correction: bool,
    pub fix_limited_range: bool,
}

/// How the renderer treats colours on a platform.
pub open spec fn flags_for(
    is_lynx: bool,
    is_pico: bool,
    use_full_range: bool,
    enable_hdr: bool,
) -> RendererFlags {
    RendererFlags {
        enable_srgb_correction: !is_lynx && !(is_pico && enable_hdr),
        fix_limited_range: use_full_range && !enable_hdr,
    }
}

/// How the renderer treats colours on a platform.
pub fn renderer_flags(is_lynx: bool, is_pico: bool, use_full_range: bool, enable_hdr: bool) -> (r:
    RendererFlags)
    ensures
        r.enable_srgb_correction == (!is_lynx && !(is_pico && enable_hdr)),
        r.fix_limited_range == (use_full_range && !enable_hdr),
        r == flags_for(is_lynx, is_pico, use_full_range, enable_hdr),
{
    RendererFlags {
        enable_srgb_correction: !is_lynx && !(is_pico && enable_hdr),
        fix_limited_range: use_full_range && !enable_hdr,
    }
}

/// A video codec.
#[derive(Clone, Copy, PartialEq, Eq, Structural, Debug)]
pub enum CodecType {
    H264,
    Hevc,
    AV1,
}

impl vstd::std_specs::convert::FromSpecImpl<DFRShiftData> for DynamicFoveatedCenter {
    open spec fn obeys_from_spec() -> bool {
        true
    }

    open spec fn from_spec(shift: DFRShiftData) -> DynamicFoveatedCenter {
        DynamicFoveatedCenter {
            center_shift_x: shift.shift_x,
            center_shift_y: shift.shift_y,
            left_shift_x: shift.left_shift_x,
            left_shift_y: shift.left_shift_y,
            right_shift_x: shift.right_shift_x,
            right_shift_y: shift.right_shift_y,
            sequence_id: Some(shift.sequence_id),
        }
    }
}

impl From<DFRShiftData> for DynamicFoveatedCenter {
    fn from(shift: DFRShiftData) -> (r: Self) {
        DynamicFoveatedCenter {
            center_shift_x: shift.shift_x,
            center_shift_y: shift.shift_y,
            left_shift_x: shift.left_shift_x,
            left_shift_y: shift.left_shift_y,
            right_shift_x: shift.right_shift_x,
            right_shift_y: shift.right_shift_y,
            sequence_id: Some(shift.sequence_id),
        }
    }
}

/// The foveal centre with which a frame was encoded, if it is known.
pub open spec fn center_of(shift: Option<DFRShiftData>) -> Option<DynamicFoveatedCenter> {
    match shift {
        Some(shift) => Some(
            vstd::std_specs::convert::FromSpec::<DFRShiftData>::from_spec(shift),
        ),
        None => None,
    }
}

/// What is shown next.
#[derive(Clone, Copy, Debug)]
pub struct ShownFrame {
    pub timestamp: Duration,
    pub view_params: [ViewParams; 2],
    /// The foveal centre with which the frame was encoded.
    pub shift: Option<DynamicFoveatedCenter>,
    /// The frame was shown before.
    pub reused: bool,
}

/// The time under which a frame is shown.
pub open spec fn shown_time(timestamp: nat, vsync_time: nat) -> nat {
    larger(timestamp, saturating_difference(vsync_time, MAX_FRAME_AGE_NANOS as nat))
}

/// The timestamp under which a frame is shown: its own, or the earliest that the runtime accepts.
pub fn displayed_timestamp(timestamp: Duration, vsync_time: Duration) -> (r: Duration)
    ensures
        r@ == larger(
            timestamp@,
            saturating_difference(vsync_time@, MAX_FRAME_AGE_NANOS as nat),
        ),
        r@ >= timestamp@,
        r@ + 1_000_000_000 >= vsync_time@,
        r@ == timestamp@ || r@ + 1_000_000_000 == vsync_time@,
        r@ == shown_time(timestamp@, vsync_time@),
{
    timestamp.max(vsync_time.saturating_sub(Duration { nanos: MAX_FRAME_AGE_NANOS }))
}

/// The two times of a decoded frame.
#[derive(Clone, Copy, PartialEq, Eq, Structural, Debug)]
pub struct FrameTimes {
    /// The timestamp with which the frame was encoded, under which its shift is looked up.
    pub lookup: Duration,
    /// The timestamp under which the frame is shown.
    pub shown: Duration,
}

/// The two times of a decoded frame. The shift is the one that the frame was encoded with, so it is
/// looked up under the frame's own timestamp even where that is brought forward for the runtime.
pub fn frame_times(timestamp: Duration, vsync_time: Duration) -> (r: FrameTimes)
    ensures
        r.lookup == timestamp,
        r.shown@ == larger(
            timestamp@,
            saturating_difference(vsync_time@, MAX_FRAME_AGE_NANOS as nat),
        ),
        vsync_time@ <= timestamp@ + 1_000_000_000 ==> r.shown == timestamp,
        vsync_time@ > timestamp@ + 1_000_000_000 ==> r.shown@ + 1_000_000_000 == vsync_time@,
        r.shown@ == shown_time(timestamp@, vsync_time@),
{
    FrameTimes { lookup: timestamp, shown: displayed_timestamp(timestamp, vsync_time) }
}

/// A frame is waited for.
pub open spec fn waits(has_frame: bool, now: Instant, deadline: Instant) -> bool {
    !has_frame && now@ < deadline@
}

/// Whether to wait on for a frame: there is none yet, and the deadline is not reached.
pub fn keep_polling(has_frame: bool, now: Instant, deadline: Instant) -> (r: bool)
    ensures
        r == (!has_frame && now@ < deadline@),
        r == waits(has_frame, now, deadline),
{
    !has_frame && now.nanos < deadline.nanos
}

/// A runtime's time, of which a negative one wraps around.
pub open spec fn runtime_nanos(nanos: i64) -> nat {
    if nanos >= 0 {
        nanos as nat
    } else {
        (nanos + 0x1_0000_0000_0000_0000) as nat
    }
}

/// The time until a frame is displayed, where it is reported.
pub open spec fn delay_of(reused: bool, vsync_time: Duration, runtime_now: Option<i64>) -> Option<
    nat,
> {
    match runtime_now {
        Some(nanos) if !reused => Some(
            saturating_difference(vsync_time@, runtime_nanos(nanos)),
        ),
        _ => None,
    }
}

/// The time until a frame is displayed, which is reported for a new frame where the runtime's time is
/// known.
pub fn submit_delay(reused: bool, vsync_time: Duration, runtime_now: Option<i64>) -> (r: Option<
    Duration,
>)
    ensures
        r is Some <==> !reused && runtime_now is Some,
        r matches Some(delay) ==> delay@ == saturating_difference(
            vsync_time@,
            runtime_nanos(runtime_now->0),
        ),
        r matches Some(delay) ==> (runtime_now->0 >= 0 ==> delay@ == if runtime_now->0
            <= vsync_time@ {
            vsync_time@ - runtime_now->0
        } else {
            0
        }),
        match r {
            Some(delay) => delay_of(reused, vsync_time, runtime_now) == Some(delay@),
            None => delay_of(reused, vsync_time, runtime_now) is None,
        },
{
    if reused {
        return None;
    }
    match runtime_now {
        Some(nanos) => {
            let since: u64 = if nanos >= 0 {
                nanos as u64
            } else {
                u64::MAX - (-(nanos + 1)) as u64
            };
            Some(vsync_time.saturating_sub(Duration::from_nanos(since)))
        },
        None => None,
    }
}

/// What a stream remembers between frames.
pub struct StreamState<H: HostTypes> {
    config: ParsedStreamConfig<H>,
    last_good_view_params: [ViewParams; 2],
    last_good_shift: Option<DynamicFoveatedCenter>,
    decoder: Option<(CodecType, Vec<u8>)>,
}

/// What a `StreamState` holds.
pub struct StreamView<H: HostTypes> {
    pub config: ParsedStreamConfig<H>,
    pub last_good_view_params: [ViewParams; 2],
    pub last_good_shift: Option<DynamicFoveatedCenter>,
    /// The codec and the configuration with which the decoder was set up.
    pub decoder: Option<(CodecType, Seq<u8>)>,
}

impl<H: HostTypes> View for StreamState<H> {
    type V = StreamView<H>;

    closed spec fn view(&self) -> StreamView<H> {
        StreamView {
            config: self.config,
            last_good_view_params: self.last_good_view_params,
            last_good_shift: self.last_good_shift,
            decoder: match self.decoder {
                Some(decoder) => Some((decoder.0, decoder.1@)),
                None => None,
            },
        }
    }
}

impl<H: HostTypes> StreamView<H> {
    /// A decoder has to be set up: there is none, or it was set up otherwise. A buffering parameter
    /// that is not a number is never the same as before.
    pub open spec fn needs_decoder(
        self,
        codec: CodecType,
        config_nal: Seq<u8>,
        same_options: bool,
    ) -> bool {
        ||| self.decoder != Some((codec, config_nal))
        ||| !same_options
        ||| self.config.max_buffering_frames.nan()
        ||| self.config.buffering_history_weight.nan()
    }

    /// Where the surroundings show through, whether the layer's colours are premultiplied.
    pub open spec fn alpha(self) -> Option<bool> {
        match self.config.passthrough {
            Some(mode) => Some(premultiplies(mode)),
            None => None,
        }
    }

    /// The state after the server asked for something else.
    pub open spec fn reconfigured(self, config: RealTimeConfig<H>) -> StreamView<H> {
        StreamView {
            config: ParsedStreamConfig {
                passthrough: config.passthrough,
                clientside_post_processing: config.clientside_post_processing,
                dynamic_foveated_center: config.dynamic_foveated_center,
                ..self.config
            },
            ..self
        }
    }

    /// The state after the codec and configuration of the video were noted.
    pub open spec fn with_decoder(self, codec: CodecType, config_nal: Seq<u8>) -> StreamView<H> {
        StreamView { decoder: Some((codec, config_nal)), ..self }
    }

    /// The state after a new frame was shown.
    pub open spec fn showing(
        self,
        view_params: [ViewParams; 2],
        shift: Option<DFRShiftData>,
    ) -> StreamView<H> {
        StreamView {
            last_good_view_params: view_params,
            last_good_shift: center_of(shift),
            ..self
        }
    }

    /// The last frame, shown once more.
    pub open spec fn repeated(self, vsync_time: Duration) -> ShownFrame {
        ShownFrame {
            timestamp: vsync_time,
            view_params: self.last_good_view_params,
            shift: self.last_good_shift,
            reused: true,
        }
    }
}

impl<H: HostTypes> StreamState<H> {
    /// Nothing is decoded or shown yet. `view_params` are those of no frame.
    pub fn new(config: ParsedStreamConfig<H>, view_params: [ViewParams; 2]) -> (r: Self)
        ensures
            r@ == (StreamView {
                config,
                last_good_view_params: view_params,
                last_good_shift: None,
                decoder: None,
            }),
    {
        StreamState {
            config,
            last_good_view_params: view_params,
            last_good_shift: None,
            decoder: None,
        }
    }

    /// What the stream is set up with.
    pub fn config(&self) -> (r: &ParsedStreamConfig<H>)
        ensures
            *r == self@.config,
    {
        &self.config
    }

    /// Whether the surroundings show through.
    pub fn uses_passthrough(&self) -> (r: bool)
        ensures
            r == self@.config.passthrough is Some,
    {
        self.config.passthrough.is_some()
    }

    /// Takes over what the server asks for.
    pub fn update_real_time_config(&mut self, config: RealTimeConfig<H>)
        ensures
            final(self)@ == (StreamView {
                config: ParsedStreamConfig {
                    passthrough: config.passthrough,
                    clientside_post_processing: config.clientside_post_processing,
                    dynamic_foveated_center: config.dynamic_foveated_center,
                    ..old(self)@.config
                },
                ..old(self)@
            }),
            final(self)@ == old(self)@.reconfigured(config),
    {
        self.config.passthrough = config.passthrough;
        self.config.clientside_post_processing = config.clientside_post_processing;
        self.config.dynamic_foveated_center = config.dynamic_foveated_center;
    }

    /// Notes the codec and configuration of the video. `same_options` says whether the decoder's
    /// options compare equal to those of the decoder in use. Returns whether a decoder has to be set
    /// up.
    pub fn maybe_initialize_decoder(
        &mut self,
        codec: CodecType,
        config_nal: Vec<u8>,
        same_options: bool,
    ) -> (r: bool)
        ensures
            r == old(self)@.needs_decoder(codec, config_nal@, same_options),
            final(self)@ == (StreamView {
                decoder: Some((codec, config_nal@)),
                ..old(self)@
            }),
            final(self)@ == old(self)@.with_decoder(codec, config_nal@),
    {
        let same = match &self.decoder {
            Some(decoder) => decoder.0 == codec && same_bytes(&decoder.1, &config_nal),
            None => false,
        };
        let needed = !same || !same_options || self.config.max_buffering_frames.is_nan()
            || self.config.buffering_history_weight.is_nan();
        if needed {
            self.decoder = Some((codec, config_nal));
        }
        needed
    }

    /// Shows a new frame: `shift` is what was looked up under the frame's own timestamp, with which
    /// it was encoded. Both the view and the shift are kept for when the frame is shown again.
    pub fn show_frame(
        &mut self,
        times: FrameTimes,
        view_params: [ViewParams; 2],
        shift: Option<DFRShiftData>,
    ) -> (r: ShownFrame)
        ensures
            r == (ShownFrame {
                timestamp: times.shown,
                view_params,
                shift: center_of(shift),
                reused: false,
            }),
            final(self)@ == old(self)@.showing(view_params, shift),
    {
        let center = match shift {
            Some(shift) => Some(DynamicFoveatedCenter::from(shift)),
            None => None,
        };
        self.last_good_view_params = view_params;
        self.last_good_shift = center;
        ShownFrame { timestamp: times.shown, view_params, shift: center, reused: false }
    }

    /// Shows the last frame once more, with the shift that it was encoded with.
    pub fn reuse_frame(&self, vsync_time: Duration) -> (r: ShownFrame)
        ensures
            r == self@.repeated(vsync_time),
    {
        ShownFrame {
            timestamp: vsync_time,
            view_params: self.last_good_view_params,
            shift: self.last_good_shift,
            reused: true,
        }
    }

    /// Where the surroundings show through, whether the layer's colours are premultiplied.
    pub fn layer_alpha(&self) -> (r: Option<bool>)
        ensures
            r == (match self@.config.passthrough {
                Some(mode) => Some(premultiplies(mode)),
                None => None,
            }),
            r == self@.alpha(),
    {
        match &self.config.passthrough {
            Some(mode) => Some(
                match mode {
                    PassthroughMode::Blend { premultiplied_alpha, .. } => *premultiplied_alpha,
                    PassthroughMode::RgbChromaKey(_) => true,
                    PassthroughMode::HsvChromaKey(_) => true,
                    PassthroughMode::Other(_) => false,
                },
            ),
            None => None,
        }
    }

    /// The post-processing that is asked of the runtime, where it has the extension.
    pub fn layer_post_processing(&self, has_extension: bool) -> (r: Option<&H::PostProcessing>)
        ensures
            r == (match self@.config.clientside_post_processing {
                Some(config) if has_extension => Some(&config),
                _ => None,
            }),
    {
        if has_extension {
            self.config.clientside_post_processing.as_ref()
        } else {
            None
        }
    }
}

/// The colours of a layer come premultiplied in a mode.
pub open spec fn premultiplies<C>(mode: PassthroughMode<C>) -> bool {
    match mode {
        PassthroughMode::Blend { premultiplied_alpha, .. } => premultiplied_alpha,
        PassthroughMode::RgbChromaKey(_) => true,
        PassthroughMode::HsvChromaKey(_) => true,
        PassthroughMode::Other(_) => false,
    }
}

/// Whether two lists hold the same bytes.
fn same_bytes(a: &Vec<u8>, b: &Vec<u8>) -> (r: bool)
    ensures
        r == (a@ == b@),
{
    if a.len() != b.len() {
        return false;
    }
    let mut i: usize = 0;
    while i < a.len()
        invariant
            i <= a@.len(),
            a@.len() == b@.len(),
            forall|j: int| 0 <= j < i ==> a@[j] == b@[j],
        decreases a@.len() - i,
    {
        if a[i] != b[i] {
            return false;
        }
        i += 1;
    }
    assert(a@ =~= b@);
    true
}

/// The eye trackers that the runtime offers.
#[derive(Clone, Copy, PartialEq, Eq, Structural, Debug)]
pub struct EyeSources {
    pub eye_tracker_fb: bool,
    pub face_tracker_pico: bool,
    pub eye_tracker_htc: bool,
    pub combined_eyes_source: bool,
}

impl EyeSources {
    /// There is an eye tracker.
    pub open spec fn any(self) -> bool {
        self.eye_tracker_fb || self.face_tracker_pico || self.eye_tracker_htc
            || self.combined_eyes_source
    }
}

/// A gaze is there: the pose of an eye, or an eye sample in which some gaze vector is valid.
pub open spec fn has_gaze(
    eye_gazes: [Option<Pose>; 2],
    pico_eye_tracking: Option<EyeTrackingDataPICO<Float32>>,
) -> bool {
    ||| eye_gazes[0] is Some
    ||| eye_gazes[1] is Some
    ||| pico_eye_tracking matches Some(data) && (gaze_vector_set(data.left_eye_pose_status)
        || gaze_vector_set(data.right_eye_pose_status) || gaze_vector_set(
        data.combined_eye_pose_status,
    ))
}

/// The state of eye input.
pub open spec fn eye_tracking_state(
    sources: EyeSources,
    eye_gazes: [Option<Pose>; 2],
    pico_eye_tracking: Option<EyeTrackingDataPICO<Float32>>,
) -> EyeTrackingInputStatus {
    if !sources.any() {
        EyeTrackingInputStatus::Unsupported
    } else if has_gaze(eye_gazes, pico_eye_tracking) {
        EyeTrackingInputStatus::Active
    } else {
        EyeTrackingInputStatus::Standby
    }
}

/// Tells the state of eye input: unsupported without a tracker, active where there is a gaze, and
/// otherwise on standby.
pub fn classify_eye_tracking_state(
    sources: &EyeSources,
    eye_gazes: &[Option<Pose>; 2],
    pico_eye_tracking: &Option<EyeTrackingDataPICO<Float32>>,
) -> (r: EyeTrackingInputStatus)
    ensures
        r == eye_tracking_state(*sources, *eye_gazes, *pico_eye_tracking),
{
    let has_any_tracker = sources.eye_tracker_fb || sources.face_tracker_pico
        || sources.eye_tracker_htc || sources.combined_eyes_source;
    if !has_any_tracker {
        return EyeTrackingInputStatus::Unsupported;
    }
    let has_tracked_pose = eye_gazes[0].is_some() || eye_gazes[1].is_some();
    let pico_gaze_valid = match pico_eye_tracking {
        Some(data) => is_gaze_vector_valid(data.left_eye_pose_status) || is_gaze_vector_valid(
            data.right_eye_pose_status,
        ) || is_gaze_vector_valid(data.combined_eye_pose_status),
        None => false,
    };
    if has_tracked_pose || pico_gaze_valid {
        EyeTrackingInputStatus::Active
    } else {
        EyeTrackingInputStatus::Standby
    }
}

/// What the runtime tells of the face, brought together.
pub open spec fn face_of(
    sources: EyeSources,
    eye_gazes: [Option<Pose>; 2],
    fb_face_expression: Option<Vec<Float32>>,
    pico_face_expression: Option<Vec<Float32>>,
    htc_eye_expression: Option<Vec<Float32>>,
    htc_lip_expression: Option<Vec<Float32>>,
    pico_eye_tracking_data: Option<EyeTrackingDataPICO<Float32>>,
) -> FaceData {
    FaceData {
        eye_gazes,
        fb_face_expression: if fb_face_expression is Some {
            fb_face_expression
        } else {
            pico_face_expression
        },
        htc_eye_expression,
        htc_lip_expression,
        pico_eye_tracking_data,
        eye_tracking_state: eye_tracking_state(sources, eye_gazes, pico_eye_tracking_data),
    }
}

/// Brings together what the runtime tells of the face. The expression of the first face tracker goes
/// before that of the second.
pub fn assemble_face_data(
    sources: &EyeSources,
    eye_gazes: [Option<Pose>; 2],
    fb_face_expression: Option<Vec<Float32>>,
    pico_face_expression: Option<Vec<Float32>>,
    htc_eye_expression: Option<Vec<Float32>>,
    htc_lip_expression: Option<Vec<Float32>>,
    pico_eye_tracking_data: Option<EyeTrackingDataPICO<Float32>>,
) -> (r: FaceData)
    ensures
        r == (FaceData {
            eye_gazes,
            fb_face_expression: if fb_face_expression is Some {
                fb_face_expression
            } else {
                pico_face_expression
            },
            htc_eye_expression,
            htc_lip_expression,
            pico_eye_tracking_data,
            eye_tracking_state: eye_tracking_state(*sources, eye_gazes, pico_eye_tracking_data),
        }),
        r == face_of(
            *sources,
            eye_gazes,
            fb_face_expression,
            pico_face_expression,
            htc_eye_expression,
            htc_lip_expression,
            pico_eye_tracking_data,
        ),
{
    let eye_tracking_state = classify_eye_tracking_state(
        sources,
        &eye_gazes,
        &pico_eye_tracking_data,
    );
    FaceData {
        eye_gazes,
        fb_face_expression: match fb_face_expression {
            Some(expression) => Some(expression),
            None => pico_face_expression,
        },
        htc_eye_expression,
        htc_lip_expression,
        pico_eye_tracking_data,
        eye_tracking_state,
    }
}

/// What comes of polling the runtime.
#[derive(Clone, Copy, PartialEq, Eq, Structural, Debug)]
pub enum InputStep {
    /// The runtime does not answer: polling ends.
    Stop,
    /// The head is not located: nothing is sent, and polling goes on at once.
    Skip,
    Send,
}

/// What comes of polling the runtime.
pub open spec fn step_after(actions_synced: bool, has_time: bool, has_head: bool) -> InputStep {
    if !actions_synced || !has_time {
        InputStep::Stop
    } else if !has_head {
        InputStep::Skip
    } else {
        InputStep::Send
    }
}

/// What comes of polling the runtime.
pub fn input_step(actions_synced: bool, has_time: bool, has_head: bool) -> (r: InputStep)
    ensures
        r == InputStep::Stop <==> !actions_synced || !has_time,
        r == InputStep::Skip <==> actions_synced && has_time && !has_head,
        r == InputStep::Send <==> actions_synced && has_time && has_head,
        r == step_after(actions_synced, has_time, has_head),
{
    if !actions_synced || !has_time {
        InputStep::Stop
    } else if !has_head {
        InputStep::Skip
    } else {
        InputStep::Send
    }
}

/// The motion of a hand's controller is sent: where both inputs may be there at once, or the hand has
/// no skeleton.
pub open spec fn hand_motion(
    id: u64,
    motion: Option<DeviceMotion>,
    has_skeleton: bool,
    multimodal_hands_enabled: bool,
) -> Seq<(u64, DeviceMotion)> {
    match motion {
        Some(motion) if multimodal_hands_enabled || !has_skeleton => seq![(id, motion)],
        _ => seq![],
    }
}

/// The motions that are sent.
pub open spec fn sent_motions(
    ids: DeviceIds,
    head_motion: DeviceMotion,
    left_hand_motion: Option<DeviceMotion>,
    left_has_skeleton: bool,
    right_hand_motion: Option<DeviceMotion>,
    right_has_skeleton: bool,
    multimodal_hands_enabled: bool,
    body_motions: Seq<(u64, DeviceMotion)>,
) -> Seq<(u64, DeviceMotion)> {
    seq![(ids.head, head_motion)] + hand_motion(
        ids.hand_left,
        left_hand_motion,
        left_has_skeleton,
        multimodal_hands_enabled,
    ) + hand_motion(
        ids.hand_right,
        right_hand_motion,
        right_has_skeleton,
        multimodal_hands_enabled,
    ) + body_motions
}

/// The motions that are sent: of the head, of the hands, and of the points of the body.
pub fn collect_device_motions(
    ids: &DeviceIds,
    head_motion: DeviceMotion,
    left_hand_motion: Option<DeviceMotion>,
    left_has_skeleton: bool,
    right_hand_motion: Option<DeviceMotion>,
    right_has_skeleton: bool,
    multimodal_hands_enabled: bool,
    body_motions: &Vec<(u64, DeviceMotion)>,
) -> (r: Vec<(u64, DeviceMotion)>)
    ensures
        r@ == seq![(ids.head, head_motion)] + hand_motion(
            ids.hand_left,
            left_hand_motion,
            left_has_skeleton,
            multimodal_hands_enabled,
        ) + hand_motion(
            ids.hand_right,
            right_hand_motion,
            right_has_skeleton,
            multimodal_hands_enabled,
        ) + body_motions@,
        r@ == sent_motions(
            *ids,
            head_motion,
            left_hand_motion,
            left_has_skeleton,
            right_hand_motion,
            right_has_skeleton,
            multimodal_hands_enabled,
            body_motions@,
        ),
{
    let mut motions: Vec<(u64, DeviceMotion)> = Vec::new();
    motions.push((ids.head, head_motion));
    let ghost head = seq![(ids.head, head_motion)];
    assert(motions@ =~= head);
    if multimodal_hands_enabled || !left_has_skeleton {
        if let Some(motion) = left_hand_motion {
            motions.push((ids.hand_left, motion));
        }
    }
    let ghost left = hand_motion(
        ids.hand_left,
        left_hand_motion,
        left_has_skeleton,
        multimodal_hands_enabled,
    );
    assert(motions@ =~= head + left);
    if multimodal_hands_enabled || !right_has_skeleton {
        if let Some(motion) = right_hand_motion {
            motions.push((ids.hand_right, motion));
        }
    }
    let ghost devices = head + left + hand_motion(
        ids.hand_right,
        right_hand_motion,
        right_has_skeleton,
        multimodal_hands_enabled,
    );
    assert(motions@ =~= devices);
    let mut i: usize = 0;
    while i < body_motions.len()
        invariant
            i <= body_motions@.len(),
            motions@ == devices + body_motions@.take(i as int),
        decreases body_motions@.len() - i,
    {
        motions.push(body_motions[i]);
        i += 1;
        assert(motions@ =~= devices + body_motions@.take(i as int));
    }
    assert(body_motions@.take(i as int) =~= body_motions@);
    motions
}

/// What the system tells of the wireless network.
#[derive(Clone, Copy, PartialEq, Eq, Structural, Debug)]
pub struct WiFiReading {
    pub timestamp_ns: u64,
    pub rssi_dbm: i32,
    pub frequency_mhz: u32,
    pub link_speed_mbps: u32,
}

/// The last reading of the wireless network and when it was taken. A reading is expensive, so it is
/// used for a while.
#[derive(Clone, Copy, Debug)]
pub struct WiFiCache {
    pub last: Option<(WiFiReading, Instant)>,
}

impl WiFiCache {
    /// A new reading is wanted: there is none, or the last one is too old.
    pub open spec fn stale(self, now: Instant) -> bool {
        match self.last {
            Some(last) => now@ > last.1@ + WIFI_REFRESH_NANOS,
            None => true,
        }
    }

    /// The cache after a reading was tried.
    pub open spec fn refreshed(self, reading: Option<WiFiReading>, now: Instant) -> WiFiCache {
        match reading {
            Some(reading) => WiFiCache { last: Some((reading, now)) },
            None => self,
        }
    }

    /// Nothing was read yet.
    pub fn new() -> (r: WiFiCache)
        ensures
            r.last is None,
    {
        WiFiCache { last: None }
    }

    /// Whether a new reading is wanted.
    pub fn is_stale(&self, now: Instant) -> (r: bool)
        ensures
            r == self.stale(now),
    {
        match self.last {
            Some(last) => now.nanos > last.1.nanos && now.nanos - last.1.nanos
                > WIFI_REFRESH_NANOS,
            None => true,
        }
    }

    /// Takes over a reading. A reading that failed leaves the last one in use.
    pub fn refresh(&mut self, reading: Option<WiFiReading>, now: Instant)
        ensures
            final(self).last == (match reading {
                Some(reading) => Some((reading, now)),
                None => old(self).last,
            }),
            *final(self) == old(self).refreshed(reading, now),
    {
        if let Some(reading) = reading {
            self.last = Some((reading, now));
        }
    }

    /// What is sent of the last reading. What the system does not tell is left out.
    pub fn metrics(&self) -> (r: Option<WiFiMetrics>)
        ensures
            match r {
                Some(metrics) => self.last matches Some(last) && {
                    &&& metrics.timestamp_ns == last.0.timestamp_ns
                    &&& metrics.rssi_dbm == last.0.rssi_dbm
                    &&& metrics.frequency_mhz == last.0.frequency_mhz
                    &&& metrics.link_speed_mbps == last.0.link_speed_mbps
                    &&& metrics.mcs_index is None
                    &&& metrics.snr_db is None
                    &&& metrics.tx_bitrate_mbps is None
                    &&& metrics.rx_bitrate_mbps is None
                    &&& metrics.tx_retries is None
                    &&& metrics.tx_failures is None
                    &&& metrics.wifi_standard@ == "UNKNOWN"@
                    &&& metrics.channel_width == 0
                    &&& metrics.guard_interval is None
                },
                None => self.last is None,
            },
    {
        match self.last {
            Some((reading, _)) => Some(
                WiFiMetrics {
                    timestamp_ns: reading.timestamp_ns,
                    rssi_dbm: reading.rssi_dbm,
                    frequency_mhz: reading.frequency_mhz,
                    link_speed_mbps: reading.link_speed_mbps,
                    mcs_index: None,
                    snr_db: None,
                    tx_bitrate_mbps: None,
                    rx_bitrate_mbps: None,
                    tx_retries: None,
                    tx_failures: None,
                    wifi_standard: "UNKNOWN".to_owned(),
                    channel_width: 0,
                    guard_interval: None,
                },
            ),
            None => None,
        }
    }
}

/// The timestamp of what is sent for a time, of which the low 64 bits of its nanoseconds are kept.
pub fn tracking_timestamp(now: Duration) -> (r: Duration)
    ensures
        r@ == now@ % 0x1_0000_0000_0000_0000,
{
    Duration::from_nanos(now.nanos_u64())
}

/// When input is polled next.
pub open spec fn next_poll(deadline: Instant, frame_interval: Duration) -> nat {
    deadline@ + frame_interval@ / POLLS_PER_FRAME as nat
}

/// Moves the deadline on by a poll's share of the frame interval.
pub fn advance_deadline(deadline: Instant, frame_interval: Duration) -> (r: Instant)
    requires
        next_poll(deadline, frame_interval) <= u128::MAX,
    ensures
        r@ == next_poll(deadline, frame_interval),
{
    Instant { nanos: deadline.nanos + frame_interval.nanos / POLLS_PER_FRAME }
}

/// Without a new frame the last one is shown again as it was shown first, with the shift that it was
/// encoded with.
pub proof fn law_reused_frame_keeps_its_shift<H: HostTypes>(
    state: StreamView<H>,
    view_params: [ViewParams; 2],
    shift: Option<DFRShiftData>,
    vsync_time: Duration,
)
    ensures
        state.showing(view_params, shift).repeated(vsync_time) == (ShownFrame {
            timestamp: vsync_time,
            view_params,
            shift: center_of(shift),
            reused: true,
        }),
{
}

/// A decoder is set up once for a codec and configuration, whatever is shown or asked for in
/// between, unless a buffering parameter is not a number.
pub proof fn law_decoder_is_set_up_once<H: HostTypes>(
    state: StreamView<H>,
    codec: CodecType,
    config_nal: Seq<u8>,
    view_params: [ViewParams; 2],
    shift: Option<DFRShiftData>,
    other_nal: Seq<u8>,
)
    requires
        state.decoder == Some((codec, config_nal)),
        !state.config.max_buffering_frames.nan(),
        !state.config.buffering_history_weight.nan(),
    ensures
        !state.needs_decoder(codec, config_nal, true),
        !state.showing(view_params, shift).needs_decoder(codec, config_nal, true),
        other_nal != config_nal ==> state.needs_decoder(codec, other_nal, true),
{
}

/// While a reading of the wireless network is in use no other is taken, and then one is.
pub proof fn law_readings_are_spaced(reading: WiFiReading, taken: Instant, now: Instant)
    ensures
        (WiFiCache { last: Some((reading, taken)) }).stale(now) <==> now@ > taken@
            + WIFI_REFRESH_NANOS,
{
}

/// Eye input is in one of three states: unsupported just where there is no tracker, and of the other
/// two active just where there is a gaze.
pub proof fn law_eye_tracking_states(
    sources: EyeSources,
    eye_gazes: [Option<Pose>; 2],
    pico_eye_tracking: Option<EyeTrackingDataPICO<Float32>>,
)
    ensures
        ({
            let state = eye_tracking_state(sources, eye_gazes, pico_eye_tracking);
            &&& state == EyeTrackingInputStatus::Unsupported <==> !sources.any()
            &&& state == EyeTrackingInputStatus::Active <==> sources.any() && has_gaze(
                eye_gazes,
                pico_eye_tracking,
            )
            &&& state == EyeTrackingInputStatus::Standby <==> sources.any() && !has_gaze(
                eye_gazes,
                pico_eye_tracking,
            )
        }),
{
}

/// What the client sends passes the server's own choice of devices unchanged: a hand is sent by its
/// controller or its skeleton, not by both, unless both inputs may be there at once.
pub proof fn law_sent_hands_are_used(
    ids: DeviceIds,
    left_hand_motion: Option<DeviceMotion>,
    left_has_skeleton: bool,
    right_hand_motion: Option<DeviceMotion>,
    right_has_skeleton: bool,
    multimodal: bool,
)
    requires
        ids.hand_left != ids.hand_right,
    ensures
        ({
            let hands = hand_motion(ids.hand_left, left_hand_motion, left_has_skeleton, multimodal)
                + hand_motion(ids.hand_right, right_hand_motion, right_has_skeleton, multimodal);
            forall|i: int|
                0 <= i < hands.len() ==> is_used(
                    ids,
                    multimodal,
                    left_has_skeleton,
                    right_has_skeleton,
                    (#[trigger] hands[i]).0,
                )
        }),
{
}

/// The foveal centre of a frame is the shift of the frame: each coordinate under its own name, with
/// its sequence number; and it is unknown where the shift is.
pub proof fn law_center_is_the_shift(shift: Option<DFRShiftData>)
    ensures
        shift is None <==> center_of(shift) is None,
        shift matches Some(data) ==> {
            let center = center_of(shift)->0;
            &&& center.center_shift_x == data.shift_x
            &&& center.center_shift_y == data.shift_y
            &&& center.left_shift_x == data.left_shift_x
            &&& center.left_shift_y == data.left_shift_y
            &&& center.right_shift_x == data.right_shift_x
            &&& center.right_shift_y == data.right_shift_y
            &&& center.sequence_id == Some(data.sequence_id)
        },
{
}

/// A runtime's time is kept as it is, and one before the epoch as what it differs by from 2^64.
pub proof fn law_runtime_times(nanos: i64)
    ensures
        nanos >= 0 ==> runtime_nanos(nanos) == nanos,
        nanos < 0 ==> runtime_nanos(nanos) - nanos == 0x1_0000_0000_0000_0000,
{
}

/// Showing a frame changes what is shown again and nothing else: neither the settings nor the
/// decoder.
pub proof fn law_showing_keeps_the_rest<H: HostTypes>(
    state: StreamView<H>,
    view_params: [ViewParams; 2],
    shift: Option<DFRShiftData>,
    vsync_time: Duration,
)
    ensures
        state.showing(view_params, shift).config == state.config,
        state.showing(view_params, shift).decoder == state.decoder,
        state.showing(view_params, shift).last_good_view_params == view_params,
        state.showing(view_params, shift).last_good_shift is Some <==> shift is Some,
        state.repeated(vsync_time).timestamp == vsync_time,
        state.repeated(vsync_time).view_params == state.last_good_view_params,
        state.repeated(vsync_time).shift == state.last_good_shift,
        state.repeated(vsync_time).reused,
{
}

/// The decoder stays just where codec, configuration and options are those it was set up with, and
/// both buffering parameters are numbers.
pub proof fn law_decoder_stays<H: HostTypes>(
    state: StreamView<H>,
    codec: CodecType,
    config_nal: Seq<u8>,
    same_options: bool,
)
    ensures
        !state.needs_decoder(codec, config_nal, same_options) <==> (state.decoder matches Some(
            decoder,
        ) && decoder.0 == codec && decoder.1 == config_nal) && same_options
            && state.config.max_buffering_frames.bits % 0x8000_0000 <= 0x7f80_0000
            && state.config.buffering_history_weight.bits % 0x8000_0000 <= 0x7f80_0000,
{
    law_bit_pattern(state.config.max_buffering_frames);
    law_bit_pattern(state.config.buffering_history_weight);
}

/// A chroma key comes premultiplied, a blend as it says, and nothing else does.
pub proof fn law_premultiplied_modes<C>(mode: PassthroughMode<C>)
    ensures
        premultiplies(mode) <==> {
            ||| mode is RgbChromaKey
            ||| mode is HsvChromaKey
            ||| mode matches PassthroughMode::Blend { premultiplied_alpha, .. }
                && premultiplied_alpha
        },
{
}

/// What eye input goes by: any of the four trackers supports it, and a gaze is the pose of either eye
/// or a sample in which the left, the right or the combined status has digit 1 or 8.
pub proof fn law_gaze_is_told_by_poses_and_flags(
    sources: EyeSources,
    eye_gazes: [Option<Pose>; 2],
    pico_eye_tracking: Option<EyeTrackingDataPICO<Float32>>,
)
    ensures
        ({
            let state = eye_tracking_state(sources, eye_gazes, pico_eye_tracking);
            let supported = sources.eye_tracker_fb || sources.face_tracker_pico
                || sources.eye_tracker_htc || sources.combined_eyes_source;
            let posed = eye_gazes[0] is Some || eye_gazes[1] is Some;
            let flagged = pico_eye_tracking matches Some(data) && {
                ||| (data.left_eye_pose_status / 2) % 2 == 1
                ||| (data.left_eye_pose_status / 0x100) % 2 == 1
                ||| (data.right_eye_pose_status / 2) % 2 == 1
                ||| (data.right_eye_pose_status / 0x100) % 2 == 1
                ||| (data.combined_eye_pose_status / 2) % 2 == 1
                ||| (data.combined_eye_pose_status / 0x100) % 2 == 1
            };
            &&& !supported ==> state == EyeTrackingInputStatus::Unsupported
            &&& supported && (posed || flagged) ==> state == EyeTrackingInputStatus::Active
            &&& supported && !posed && !flagged ==> state == EyeTrackingInputStatus::Standby
        }),
{
    if let Some(data) = pico_eye_tracking {
        law_valid_parts(data.left_eye_pose_status);
        law_valid_parts(data.right_eye_pose_status);
        law_valid_parts(data.combined_eye_pose_status);
    }
}

/// A hand's controller is sent once, under the hand's name, where it has a motion and the hand no
/// skeleton or both inputs are allowed; and not at all otherwise.
pub proof fn law_controllers_are_sent(
    id: u64,
    motion: Option<DeviceMotion>,
    has_skeleton: bool,
    multimodal_hands_enabled: bool,
)
    ensures
        ({
            let sent = hand_motion(id, motion, has_skeleton, multimodal_hands_enabled);
            &&& sent.len() == 1 || sent.len() == 0
            &&& sent.len() == 1 <==> motion is Some && (multimodal_hands_enabled || !has_skeleton)
            &&& sent.len() == 1 ==> sent[0] == (id, motion->0)
        }),
{
}

/// A reading of the wireless network is used for a tenth of a second; without one, one is wanted.
pub proof fn law_readings_are_used_for_a_while(cache: WiFiCache, now: Instant)
    ensures
        cache.stale(now) <==> (cache.last matches Some(last) ==> now@ - last.1@ > 100_000_000),
{
}

/// Three polls go into a frame's interval, as far as whole nanoseconds allow.
pub proof fn law_three_polls_per_frame(deadline: Instant, frame_interval: Duration)
    ensures
        ({
            let step = next_poll(deadline, frame_interval) - deadline@;
            3 * step <= frame_interval@ < 3 * step + 3
        }),
{
}

/// A frame is never shown as older than it is nor as more than a second behind the display: its own
/// time stands where it is recent enough, and otherwise the time a second before the display's. What
/// was brought forward once needs no more of it, and a later display never shows a frame as earlier.
pub proof fn law_shown_times(timestamp: nat, vsync_time: nat, later: nat)
    ensures
        vsync_time <= timestamp + 1_000_000_000 ==> shown_time(timestamp, vsync_time) == timestamp,
        vsync_time > timestamp + 1_000_000_000 ==> shown_time(timestamp, vsync_time)
            + 1_000_000_000 == vsync_time,
        shown_time(shown_time(timestamp, vsync_time), vsync_time) == shown_time(
            timestamp,
            vsync_time,
        ),
        vsync_time <= later ==> shown_time(timestamp, vsync_time) <= shown_time(timestamp, later),
{
}

/// A delay is reported for new frames alone, and only with the runtime's time; it ends at the display's
/// time, and is none where that is over.
pub proof fn law_delays(reused: bool, vsync_time: Duration, runtime_now: Option<i64>)
    ensures
        reused || runtime_now is None ==> delay_of(reused, vsync_time, runtime_now) is None,
        !reused && (runtime_now matches Some(nanos) && 0 <= nanos <= vsync_time@) ==> (delay_of(
            reused,
            vsync_time,
            runtime_now,
        ) matches Some(delay) && delay + runtime_now->0 == vsync_time@),
        !reused && (runtime_now matches Some(nanos) && nanos > vsync_time@) ==> delay_of(
            reused,
            vsync_time,
            runtime_now,
        ) == Some(0nat),
        !reused && (runtime_now matches Some(nanos) && nanos < 0) ==> (delay_of(
            reused,
            vsync_time,
            runtime_now,
        ) matches Some(delay) && (delay == 0 || delay + 0x1_0000_0000_0000_0000 + runtime_now->0
            == vsync_time@)),
{
}

/// Foveation is asked of the runtime just where it is set up and all three extensions are there, with
/// the level of the mode that is set, its offset, and dynamic just in the dynamic mode.
pub proof fn law_foveation_profiles(
    config: Option<ClientsideFoveationConfig>,
    extensions: FoveationExtensions,
)
    ensures
        profile_for(config, extensions) is None <==> config is None
            || !extensions.swapchain_update_state || !extensions.foveation
            || !extensions.foveation_configuration,
        profile_for(config, extensions) matches Some(profile) ==> {
            &&& profile.vertical_offset == config->0.vertical_offset_deg
            &&& profile.dynamic <==> config->0.mode is Dynamic
            &&& config->0.mode matches ClientsideFoveationMode::Static { level }
                ==> profile.level == level
            &&& config->0.mode matches ClientsideFoveationMode::Dynamic { max_level }
                ==> profile.level == max_level
        },
{
}

/// Colours are corrected on every platform but one, unless another one shows HDR; and the limited range
/// is fixed for full range video without HDR.
pub proof fn law_colour_treatment(
    is_lynx: bool,
    is_pico: bool,
    use_full_range: bool,
    enable_hdr: bool,
)
    ensures
        ({
            let flags = flags_for(is_lynx, is_pico, use_full_range, enable_hdr);
            &&& is_lynx ==> !flags.enable_srgb_correction
            &&& !is_lynx && !is_pico ==> flags.enable_srgb_correction
            &&& !is_lynx && is_pico ==> flags.enable_srgb_correction == !enable_hdr
            &&& enable_hdr ==> !flags.fix_limited_range
            &&& !enable_hdr ==> flags.fix_limited_range == use_full_range
        }),
{
}

/// What the server asks for last is in force, and only what it can ask for changes: not the decoder,
/// the last frame, or any other setting.
pub proof fn law_last_request_is_in_force<H: HostTypes>(
    state: StreamView<H>,
    first: RealTimeConfig<H>,
    last: RealTimeConfig<H>,
)
    ensures
        ({
            let after = state.reconfigured(first).reconfigured(last);
            &&& after.config.passthrough == last.passthrough
            &&& after.config.clientside_post_processing == last.clientside_post_processing
            &&& after.config.dynamic_foveated_center == last.dynamic_foveated_center
            &&& after == state.reconfigured(last)
            &&& after.decoder == state.decoder
            &&& after.last_good_shift == state.last_good_shift
            &&& after.last_good_view_params == state.last_good_view_params
            &&& after.config == (ParsedStreamConfig {
                passthrough: last.passthrough,
                clientside_post_processing: last.clientside_post_processing,
                dynamic_foveated_center: last.dynamic_foveated_center,
                ..state.config
            })
        }),
{
}

/// A decoder that was set up serves on for the same codec and configuration and for no other, whatever
/// the server asks for since, where the buffering parameters are numbers. Setting it up changes nothing
/// else.
pub proof fn law_decoder_serves_on<H: HostTypes>(
    state: StreamView<H>,
    codec: CodecType,
    config_nal: Seq<u8>,
    request: RealTimeConfig<H>,
    other: CodecType,
    other_nal: Seq<u8>,
)
    requires
        state.config.max_buffering_frames.bits % 0x8000_0000 <= 0x7f80_0000,
        state.config.buffering_history_weight.bits % 0x8000_0000 <= 0x7f80_0000,
    ensures
        ({
            let after = state.with_decoder(codec, config_nal).reconfigured(request);
            &&& !after.needs_decoder(codec, config_nal, true)
            &&& after.needs_decoder(codec, config_nal, false)
            &&& after.needs_decoder(other, other_nal, true) <==> other != codec || other_nal
                != config_nal
        }),
        state.with_decoder(codec, config_nal).config == state.config,
        state.with_decoder(codec, config_nal).last_good_shift == state.last_good_shift,
        state.with_decoder(codec, config_nal).last_good_view_params == state.last_good_view_params,
{
    law_bit_pattern(state.config.max_buffering_frames);
    law_bit_pattern(state.config.buffering_history_weight);
}

/// A face holds what was told of it, each part under its own name; the second face tracker's
/// expression counts only without one of the first.
pub proof fn law_face_is_what_was_told(
    sources: EyeSources,
    eye_gazes: [Option<Pose>; 2],
    fb_face_expression: Option<Vec<Float32>>,
    pico_face_expression: Option<Vec<Float32>>,
    htc_eye_expression: Option<Vec<Float32>>,
    htc_lip_expression: Option<Vec<Float32>>,
    pico_eye_tracking_data: Option<EyeTrackingDataPICO<Float32>>,
)
    ensures
        ({
            let face = face_of(
                sources,
                eye_gazes,
                fb_face_expression,
                pico_face_expression,
                htc_eye_expression,
                htc_lip_expression,
                pico_eye_tracking_data,
            );
            &&& face.eye_gazes == eye_gazes
            &&& fb_face_expression is Some ==> face.fb_face_expression == fb_face_expression
            &&& fb_face_expression is None ==> face.fb_face_expression == pico_face_expression
            &&& face.htc_eye_expression == htc_eye_expression
            &&& face.htc_lip_expression == htc_lip_expression
            &&& face.pico_eye_tracking_data == pico_eye_tracking_data
            &&& face.eye_tracking_state == eye_tracking_state(
                sources,
                eye_gazes,
                pico_eye_tracking_data,
            )
        }),
{
}

/// The head is sent first, the points of the body last and all of them, and between them each hand's
/// controller, the left one first, where it has a motion and the hand no skeleton or both inputs are
/// allowed.
pub proof fn law_motions_are_sent_in_order(
    ids: DeviceIds,
    head_motion: DeviceMotion,
    left_hand_motion: Option<DeviceMotion>,
    left_has_skeleton: bool,
    right_hand_motion: Option<DeviceMotion>,
    right_has_skeleton: bool,
    multimodal_hands_enabled: bool,
    body_motions: Seq<(u64, DeviceMotion)>,
)
    ensures
        ({
            let sent = sent_motions(
                ids,
                head_motion,
                left_hand_motion,
                left_has_skeleton,
                right_hand_motion,
                right_has_skeleton,
                multimodal_hands_enabled,
                body_motions,
            );
            let left = left_hand_motion is Some && (multimodal_hands_enabled
                || !left_has_skeleton);
            let right = right_hand_motion is Some && (multimodal_hands_enabled
                || !right_has_skeleton);
            let hands: int = (if left {
                1int
            } else {
                0
            }) + (if right {
                1int
            } else {
                0
            });
            &&& sent.len() == 1 + hands + body_motions.len()
            &&& sent[0] == (ids.head, head_motion)
            &&& left ==> sent[1] == (ids.hand_left, left_hand_motion->0)
            &&& right ==> sent[hands] == (ids.hand_right, right_hand_motion->0)
            &&& sent.skip(1 + hands) == body_motions
        }),
{
    let sent = sent_motions(
        ids,
        head_motion,
        left_hand_motion,
        left_has_skeleton,
        right_hand_motion,
        right_has_skeleton,
        multimodal_hands_enabled,
        body_motions,
    );
    assert(sent.skip(sent.len() - body_motions.len()) =~= body_motions);
}

/// A reading that was taken is the one in use, for a tenth of a second from then on; one that failed
/// leaves the last one and its age.
pub proof fn law_last_reading_is_in_use(
    cache: WiFiCache,
    reading: WiFiReading,
    taken: Instant,
    tried: Instant,
    now: Instant,
)
    ensures
        cache.refreshed(Some(reading), taken).last == Some((reading, taken)),
        cache.refreshed(Some(reading), taken).stale(now) <==> now@ - taken@ > 100_000_000,
        cache.refreshed(None, tried) == cache,
{
}

/// Waiting for a frame ends with the frame or with the deadline, whichever comes first, and does not
/// begin again.
pub proof fn law_waiting_ends(has_frame: bool, now: Instant, deadline: Instant, later: Instant)
    ensures
        waits(false, now, deadline) <==> now@ < deadline@,
        !waits(true, now, deadline),
        !waits(has_frame, now, deadline) && now@ <= later@ ==> !waits(has_frame, later, deadline),
{
}

/// A layer's colours have an alpha just where the surroundings show through, which the server's last
/// request decides: a chroma key premultiplies, a blend as it says, and nothing else does.
pub proof fn law_alpha_follows_the_request<H: HostTypes>(
    state: StreamView<H>,
    request: RealTimeConfig<H>,
)
    ensures
        state.reconfigured(request).alpha() is Some <==> request.passthrough is Some,
        request.passthrough matches Some(mode) ==> (state.reconfigured(request).alpha() == Some(
            true,
        ) <==> {
            ||| mode is RgbChromaKey
            ||| mode is HsvChromaKey
            ||| mode matches PassthroughMode::Blend { premultiplied_alpha, .. }
                && premultiplied_alpha
        }),
{
}

/// Input is sent just where the runtime synchronized, tells the time and locates the head; without the
/// head it is polled again, and without the others polling ends.
pub proof fn law_input_steps(actions_synced: bool, has_time: bool, has_head: bool)
    ensures
        step_after(true, true, true) is Send,
        step_after(true, true, false) is Skip,
        !(actions_synced && has_time) ==> step_after(actions_synced, has_time, has_head) is Stop,
{
}

/// A stream is set up with what was negotiated and, for the rest, with what the settings say; foveated
/// encoding takes both, and the foveal centre comes only while the stream runs.
pub proof fn law_stream_is_set_up<H: HostTypes>(
    parsed: ParsedStreamConfig<H>,
    settings: VideoSettings<H>,
    negotiated: NegotiatedStreamingConfig,
    interaction_sources: H::InteractionSources,
)
    requires
        parsed.is_parsed(settings, negotiated, interaction_sources),
    ensures
        parsed.foveated_encoding_config is Some <==> settings.foveated_encoding is Some
            && negotiated.enable_foveated_encoding,
        parsed.foveated_encoding_config is Some ==> parsed.foveated_encoding_config
            == settings.foveated_encoding,
        parsed.dynamic_foveated_center is None,
        parsed.view_resolution == negotiated.view_resolution,
        parsed.refresh_rate_hint@ == negotiated.refresh_rate_hint@,
        parsed.use_full_range == negotiated.use_full_range,
        parsed.encoding_gamma@ == negotiated.encoding_gamma@,
        parsed.enable_hdr == negotiated.enable_hdr,
        parsed.passthrough == settings.passthrough,
        parsed.clientside_foveation_config == settings.clientside_foveation,
        parsed.clientside_post_processing == settings.clientside_post_processing,
        parsed.upscaling == settings.upscaling,
        parsed.force_software_decoder == settings.force_software_decoder,
        parsed.max_buffering_frames == settings.max_buffering_frames,
        parsed.buffering_history_weight == settings.buffering_history_weight,
        parsed.decoder_options == settings.mediacodec_extra_options,
        parsed.interaction_sources == interaction_sources,
{
}

} // verus!
