//! The negotiated part of a stream's configuration.

use crate::json;
use crate::packets::{StreamConfigPacket, UVec2};
use crate::text::{bool_text, decimal, lemma_decimal_injective};
use vstd::prelude::*;

verus! {

/// What client and server agreed on for a stream.
#[derive(Debug)]
pub struct NegotiatedStreamingConfig {
    pub view_resolution: UVec2,
    /// A number as its JSON text.
    pub refresh_rate_hint: String,
    pub game_audio_sample_rate: u32,
    pub enable_foveated_encoding: bool,
    /// Whether the server's own hand trackers are used. This does not imply multimodal input.
    pub use_multimodal_protocol: bool,
    pub use_full_range: bool,
    /// A number as its JSON text.
    pub encoding_gamma: String,
    pub enable_hdr: bool,
    pub wired: bool,
}

/// What the session's settings say where the negotiated text is silent.
#[derive(Clone, Copy, PartialEq, Eq, Structural, Debug)]
pub struct NegotiationDefaults {
    pub enable_foveated_encoding: bool,
    pub use_full_range: bool,
}

/// Why a stream's configuration could not be read.
#[derive(Clone, Copy, PartialEq, Eq, Structural, Debug)]
pub enum StreamConfigError {
    /// The session's text is not JSON.
    SessionNotJson,
    /// The negotiated text is not JSON.
    NotJson,
    /// The view resolution is not a pair of unsigned numbers.
    ViewResolution,
    /// The refresh rate is not a number.
    RefreshRateHint,
    /// The sample rate is not an unsigned number.
    GameAudioSampleRate,
}

/// The text denotes a pair of unsigned 32 bit numbers.
pub open spec fn is_resolution(text: Seq<char>) -> bool {
    exists|x: u32, y: u32| text == #[trigger] json::pair_text(x as nat, y as nat)
}

/// The text denotes an unsigned 32 bit number.
pub open spec fn is_unsigned(text: Seq<char>) -> bool {
    exists|n: u32| text == #[trigger] decimal(n as nat)
}

/// The first reason, in the order of reading, why a text is not a negotiated configuration.
pub open spec fn negotiated_error(text: Seq<char>) -> Option<StreamConfigError> {
    match json::json_document(text) {
        None => Some(StreamConfigError::NotJson),
        Some(members) => if !is_resolution(json::member_text(members, "view_resolution"@)) {
            Some(StreamConfigError::ViewResolution)
        } else if !json::is_number(json::member_text(members, "refresh_rate_hint"@)) {
            Some(StreamConfigError::RefreshRateHint)
        } else if !is_unsigned(json::member_text(members, "game_audio_sample_rate"@)) {
            Some(StreamConfigError::GameAudioSampleRate)
        } else {
            None
        },
    }
}

/// The first reason, in the order of reading, why a packet is not a configuration: the session's text
/// comes before the negotiated one.
pub open spec fn packet_error(packet: StreamConfigPacket) -> Option<StreamConfigError> {
    if json::json_document(packet.session@) is None {
        Some(StreamConfigError::SessionNotJson)
    } else {
        negotiated_error(packet.negotiated@)
    }
}

/// `config` is what the members of a document say, with `defaults` for what they leave out.
pub open spec fn is_negotiated(
    config: NegotiatedStreamingConfig,
    members: Map<Seq<char>, Seq<char>>,
    defaults: NegotiationDefaults,
) -> bool {
    &&& json::member_text(members, "view_resolution"@) == json::pair_text(
        config.view_resolution.x as nat,
        config.view_resolution.y as nat,
    )
    &&& config.refresh_rate_hint@ == json::member_text(members, "refresh_rate_hint"@)
    &&& json::member_text(members, "game_audio_sample_rate"@) == decimal(
        config.game_audio_sample_rate as nat,
    )
    &&& config.enable_foveated_encoding == json::flag_or(
        Some(members),
        "enable_foveated_encoding"@,
        defaults.enable_foveated_encoding,
    )
    &&& config.use_multimodal_protocol == json::flag_or(
        Some(members),
        "use_multimodal_protocol"@,
        false,
    )
    &&& config.use_full_range == json::flag_or(
        Some(members),
        "use_full_range"@,
        defaults.use_full_range,
    )
    &&& config.encoding_gamma@ == json::number_or(Some(members), "encoding_gamma"@, "1.0"@)
    &&& config.enable_hdr == json::flag_or(Some(members), "enable_hdr"@, false)
    &&& config.wired == json::flag_or(Some(members), "wired"@, false)
}

/// Reads the negotiated configuration of a packet, both of whose texts have to be JSON. What the
/// session's text says is the caller's to merge; `defaults` are from the settings that it leads to.
pub fn decode_stream_config(
    packet: &StreamConfigPacket,
    defaults: NegotiationDefaults,
) -> (r: Result<NegotiatedStreamingConfig, StreamConfigError>)
    ensures
        match r {
            Ok(config) => {
                &&& packet_error(*packet) is None
                &&& json::json_document(packet.negotiated@) matches Some(members)
                &&& is_negotiated(config, members, defaults)
            },
            Err(e) => packet_error(*packet) == Some(e),
        },
{
    let session = json::parse(packet.session.as_str());
    if session.is_err() {
        return Err(StreamConfigError::SessionNotJson);
    }
    let parsed = json::parse(packet.negotiated.as_str());
    let value = match &parsed {
        Ok(value) => value,
        Err(_) => {
            return Err(StreamConfigError::NotJson);
        },
    };
    let view_resolution = match json::as_uvec2(json::member(value, "view_resolution")) {
        Ok(resolution) => resolution,
        Err(_) => {
            return Err(StreamConfigError::ViewResolution);
        },
    };
    let refresh_rate_hint = match json::number_text(json::member(value, "refresh_rate_hint")) {
        Some(number) => number,
        None => {
            return Err(StreamConfigError::RefreshRateHint);
        },
    };
    let game_audio_sample_rate: u32 = match json::as_u32(
        json::member(value, "game_audio_sample_rate"),
    ) {
        Ok(rate) => rate,
        Err(_) => {
            return Err(StreamConfigError::GameAudioSampleRate);
        },
    };
    Ok(
        NegotiatedStreamingConfig {
            view_resolution,
            refresh_rate_hint,
            game_audio_sample_rate,
            enable_foveated_encoding: json::read_flag(
                &parsed,
                "enable_foveated_encoding",
                defaults.enable_foveated_encoding,
            ),
            use_multimodal_protocol: json::read_flag(&parsed, "use_multimodal_protocol", false),
            use_full_range: json::read_flag(&parsed, "use_full_range", defaults.use_full_range),
            encoding_gamma: json::read_number(&parsed, "encoding_gamma", "1.0"),
            enable_hdr: json::read_flag(&parsed, "enable_hdr", false),
            wired: json::read_flag(&parsed, "wired", false),
        },
    )
}

/// No decimal digit is a comma or a bracket.
proof fn lemma_decimal_is_digits(n: nat)
    ensures
        forall|i: int| 0 <= i < decimal(n).len() ==> '0' <= #[trigger] decimal(n)[i] <= '9',
    decreases n,
{
    let last = decimal(n).last();
    assert(last as int == 48 + n % 10);
    if n >= 10 {
        lemma_decimal_is_digits(n / 10);
        assert forall|i: int| 0 <= i < decimal(n).len() implies '0' <= #[trigger] decimal(n)[i]
            <= '9' by {
            if i < decimal(n).len() - 1 {
                assert(decimal(n)[i] == decimal(n / 10)[i]);
            }
        }
    }
}

/// A pair's text tells both numbers.
proof fn lemma_pair_text_injective(a: nat, b: nat, c: nat, d: nat)
    requires
        json::pair_text(a, b) == json::pair_text(c, d),
    ensures
        a == c,
        b == d,
{
    let left = json::pair_text(a, b);
    let right = json::pair_text(c, d);
    lemma_decimal_is_digits(a);
    lemma_decimal_is_digits(c);
    let la = decimal(a).len() as int;
    let lc = decimal(c).len() as int;
    assert(left[1 + la] == ',');
    assert(right[1 + lc] == ',');
    if la < lc {
        assert(right[1 + la] == decimal(c)[la]);
    }
    if lc < la {
        assert(left[1 + lc] == decimal(a)[lc]);
    }
    assert(left.subrange(1, 1 + la) =~= decimal(a));
    assert(right.subrange(1, 1 + lc) =~= decimal(c));
    assert(left.subrange(2 + la, left.len() - 1) =~= decimal(b));
    assert(right.subrange(2 + lc, right.len() - 1) =~= decimal(d));
    lemma_decimal_injective(a, c);
    lemma_decimal_injective(b, d);
}

/// A document and the defaults leave no choice: two configurations read from them are the same.
pub proof fn law_negotiated_is_unique(
    first: NegotiatedStreamingConfig,
    second: NegotiatedStreamingConfig,
    members: Map<Seq<char>, Seq<char>>,
    defaults: NegotiationDefaults,
)
    requires
        is_negotiated(first, members, defaults),
        is_negotiated(second, members, defaults),
    ensures
        first.view_resolution == second.view_resolution,
        first.refresh_rate_hint@ == second.refresh_rate_hint@,
        first.game_audio_sample_rate == second.game_audio_sample_rate,
        first.enable_foveated_encoding == second.enable_foveated_encoding,
        first.use_multimodal_protocol == second.use_multimodal_protocol,
        first.use_full_range == second.use_full_range,
        first.encoding_gamma@ == second.encoding_gamma@,
        first.enable_hdr == second.enable_hdr,
        first.wired == second.wired,
{
    lemma_pair_text_injective(
        first.view_resolution.x as nat,
        first.view_resolution.y as nat,
        second.view_resolution.x as nat,
        second.view_resolution.y as nat,
    );
    lemma_decimal_injective(
        first.game_audio_sample_rate as nat,
        second.game_audio_sample_rate as nat,
    );
}

/// A text is a JSON document that tells the whole configuration.
pub open spec fn tells(text: Seq<char>, config: NegotiatedStreamingConfig) -> bool {
    json::json_document(text) matches Some(members) && {
        &&& json::member_text(members, "view_resolution"@) == json::pair_text(
            config.view_resolution.x as nat,
            config.view_resolution.y as nat,
        )
        &&& json::member_text(members, "refresh_rate_hint"@) == config.refresh_rate_hint@
        &&& json::is_number(config.refresh_rate_hint@)
        &&& json::member_text(members, "game_audio_sample_rate"@) == decimal(
            config.game_audio_sample_rate as nat,
        )
        &&& json::member_text(members, "enable_foveated_encoding"@) == bool_text(
            config.enable_foveated_encoding,
        )
        &&& json::member_text(members, "use_multimodal_protocol"@) == bool_text(
            config.use_multimodal_protocol,
        )
        &&& json::member_text(members, "use_full_range"@) == bool_text(config.use_full_range)
        &&& json::member_text(members, "encoding_gamma"@) == config.encoding_gamma@
        &&& json::is_number(config.encoding_gamma@)
        &&& json::member_text(members, "enable_hdr"@) == bool_text(config.enable_hdr)
        &&& json::member_text(members, "wired"@) == bool_text(config.wired)
    }
}

/// A configuration survives the packet: a text that tells it is decoded, whatever the defaults are,
/// and all of it comes out as it went in. The settings never override what was sent.
pub proof fn law_told_config_is_decoded(
    packet: StreamConfigPacket,
    config: NegotiatedStreamingConfig,
    defaults: NegotiationDefaults,
    decoded: NegotiatedStreamingConfig,
)
    requires
        json::json_document(packet.session@) is Some,
        tells(packet.negotiated@, config),
    ensures
        packet_error(packet) is None,
        is_negotiated(
            decoded,
            json::json_document(packet.negotiated@)->0,
            defaults,
        ) ==> {
            &&& decoded.view_resolution == config.view_resolution
            &&& decoded.refresh_rate_hint@ == config.refresh_rate_hint@
            &&& decoded.game_audio_sample_rate == config.game_audio_sample_rate
            &&& decoded.enable_foveated_encoding == config.enable_foveated_encoding
            &&& decoded.use_multimodal_protocol == config.use_multimodal_protocol
            &&& decoded.use_full_range == config.use_full_range
            &&& decoded.encoding_gamma@ == config.encoding_gamma@
            &&& decoded.enable_hdr == config.enable_hdr
            &&& decoded.wired == config.wired
        },
{
    let members = json::json_document(packet.negotiated@)->0;
    json::lemma_bool_of_text(true);
    json::lemma_bool_of_text(false);
    assert(is_negotiated(config, members, defaults));
    if is_negotiated(decoded, members, defaults) {
        law_negotiated_is_unique(decoded, config, members, defaults);
    }
}

/// Why a packet is refused: each reason comes just where its condition holds and none of those before
/// it does.
pub proof fn law_refusals(packet: StreamConfigPacket)
    ensures
        ({
            let error = packet_error(packet);
            let session = json::json_document(packet.session@);
            let document = json::json_document(packet.negotiated@);
            let members = document->0;
            let resolution = members.contains_key("view_resolution"@) && exists|x: u32, y: u32|
                members["view_resolution"@] == #[trigger] json::pair_text(x as nat, y as nat);
            let refresh = members.contains_key("refresh_rate_hint"@)
                && members["refresh_rate_hint"@].len() > 0 && (members["refresh_rate_hint"@][0]
                == '-' || '0' <= members["refresh_rate_hint"@][0] <= '9');
            let audio = members.contains_key("game_audio_sample_rate"@) && exists|n: u32|
                members["game_audio_sample_rate"@] == #[trigger] decimal(n as nat);
            &&& error == Some(StreamConfigError::SessionNotJson) <==> session is None
            &&& error == Some(StreamConfigError::NotJson) <==> session is Some && document is None
            &&& error == Some(StreamConfigError::ViewResolution) <==> session is Some
                && document is Some && !resolution
            &&& error == Some(StreamConfigError::RefreshRateHint) <==> session is Some
                && document is Some && resolution && !refresh
            &&& error == Some(StreamConfigError::GameAudioSampleRate) <==> session is Some
                && document is Some && resolution && refresh && !audio
            &&& error is None <==> session is Some && document is Some && resolution && refresh
                && audio
        }),
{
    let members = json::json_document(packet.negotiated@)->0;
    assert(json::null_text()[0] == 'n');
    assert forall|x: u32, y: u32| json::null_text() != #[trigger] json::pair_text(
        x as nat,
        y as nat,
    ) by {
        assert(json::pair_text(x as nat, y as nat)[0] == '[');
    }
    assert forall|n: u32| json::null_text() != #[trigger] decimal(n as nat) by {
        lemma_decimal_is_digits(n as nat);
        assert(decimal(n as nat).len() > 0);
        assert('0' <= decimal(n as nat)[0] <= '9');
    }
}

/// A configuration is read by name. Resolution, refresh rate and sample rate are those of the text; a
/// flag is the one that stands under its own name, and where none does foveation and range are those
/// of the settings and the others are off; the gamma is one where the text has none.
pub proof fn law_config_is_read_by_name(
    config: NegotiatedStreamingConfig,
    members: Map<Seq<char>, Seq<char>>,
    defaults: NegotiationDefaults,
)
    requires
        is_negotiated(config, members, defaults),
    ensures
        members.contains_key("view_resolution"@) ==> members["view_resolution"@]
            == json::pair_text(config.view_resolution.x as nat, config.view_resolution.y as nat),
        members.contains_key("refresh_rate_hint"@) ==> config.refresh_rate_hint@
            == members["refresh_rate_hint"@],
        members.contains_key("game_audio_sample_rate"@) ==> members["game_audio_sample_rate"@]
            == decimal(config.game_audio_sample_rate as nat),
        config.enable_foveated_encoding <==> (members.contains_key("enable_foveated_encoding"@)
            && members["enable_foveated_encoding"@] == "true"@) || (
        defaults.enable_foveated_encoding && !(members.contains_key("enable_foveated_encoding"@)
            && members["enable_foveated_encoding"@] == "false"@)),
        config.use_full_range <==> (members.contains_key("use_full_range"@)
            && members["use_full_range"@] == "true"@) || (defaults.use_full_range && !(
        members.contains_key("use_full_range"@) && members["use_full_range"@] == "false"@)),
        config.use_multimodal_protocol <==> members.contains_key("use_multimodal_protocol"@)
            && members["use_multimodal_protocol"@] == "true"@,
        config.enable_hdr <==> members.contains_key("enable_hdr"@) && members["enable_hdr"@]
            == "true"@,
        config.wired <==> members.contains_key("wired"@) && members["wired"@] == "true"@,
        config.encoding_gamma@ == if members.contains_key("encoding_gamma"@)
            && members["encoding_gamma"@].len() > 0 && (members["encoding_gamma"@][0] == '-' || '0'
            <= members["encoding_gamma"@][0] <= '9') {
            members["encoding_gamma"@]
        } else {
            "1.0"@
        },
{
    let document = Some(members);
    reveal_strlit("true");
    reveal_strlit("false");
    assert("true"@.len() != "false"@.len());
    json::law_flags_have_defaults(
        document,
        "enable_foveated_encoding"@,
        defaults.enable_foveated_encoding,
    );
    json::law_flags_have_defaults(document, "use_full_range"@, defaults.use_full_range);
    json::law_flags_have_defaults(document, "use_multimodal_protocol"@, false);
    json::law_flags_have_defaults(document, "enable_hdr"@, false);
    json::law_flags_have_defaults(document, "wired"@, false);
    json::law_numbers_have_defaults(document, "encoding_gamma"@, "1.0"@);
}

} // verus!
