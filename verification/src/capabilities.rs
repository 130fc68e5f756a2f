//! Video streaming capabilities in a packet that older servers understand.
//!
//! The packet has room for a list of refresh rates only. The capabilities travel as a JSON text
//! whose bytes follow the rates as negative numbers, which older servers pass over.

use crate::float::{law_bit_pattern, law_negated_byte_round_trip, law_whole_part, Float32};
use crate::json;
use crate::packets::UVec2;
use crate::text::bool_text;
use vstd::arithmetic::power2::pow2;
use vstd::prelude::*;
use vstd::string::*;
use vstd::utf8::*;

verus! {

/// Why bytes are not UTF-8.
#[verifier::external_type_specification]
#[verifier::external_body]
pub struct ExFromUtf8Error(std::string::FromUtf8Error);

/// `String::from_utf8` of the standard library: the text that the bytes encode, which exists where
/// they are valid UTF-8.
pub assume_specification[ String::from_utf8 ](vec: Vec<u8>) -> (r: Result<
    String,
    std::string::FromUtf8Error,
>)
    ensures
        r is Ok <==> valid_utf8(vec@),
        r matches Ok(s) ==> s@ == decode_utf8(vec@),
;

/// The packet as older servers know it.
#[derive(Debug)]
pub struct VideoStreamingCapabilitiesLegacy {
    pub default_view_resolution: UVec2,
    pub supported_refresh_rates_plus_extra_data: Vec<Float32>,
    pub microphone_sample_rate: u32,
}

/// What a client can stream.
#[derive(Debug)]
pub struct VideoStreamingCapabilities {
    pub default_view_resolution: UVec2,
    pub supported_refresh_rates: Vec<Float32>,
    pub microphone_sample_rate: u32,
    pub supports_foveated_encoding: bool,
    pub encoder_high_profile: bool,
    pub encoder_10_bits: bool,
    pub encoder_av1: bool,
    pub multimodal_protocol: bool,
    pub prefer_10bit: bool,
    pub prefer_full_range: bool,
    /// A number as its JSON text.
    pub preferred_encoding_gamma: String,
    pub prefer_hdr: bool,
}

/// Why capabilities could not be encoded or decoded.
#[derive(Clone, Copy, PartialEq, Eq, Structural, Debug)]
pub enum CapabilitiesError {
    /// A refresh rate is infinite or not a number, which JSON cannot express.
    RefreshRateNotFinite,
    /// The extra data is not text.
    ExtraDataNotUtf8,
}

/// `f` is the negative of `b`.
pub open spec fn is_negated_byte(f: Float32, b: u8) -> bool {
    f.negative_sign() && f.finite() && f.scaled_magnitude() == b as nat * pow2(149)
}

/// `data` holds the rates, followed by the negated bytes.
pub open spec fn is_framing(data: Seq<Float32>, rates: Seq<Float32>, bytes: Seq<u8>) -> bool {
    &&& data.len() == rates.len() + bytes.len()
    &&& data.take(rates.len() as int) == rates
    &&& forall|i: int|
        0 <= i < bytes.len() ==> is_negated_byte(#[trigger] data[rates.len() + i], bytes[i])
}

/// The numbers of a packet that are refresh rates.
pub open spec fn kept_rates(data: Seq<Float32>) -> Seq<Float32> {
    data.filter(|f: Float32| !f.below_zero())
}

/// The bytes that hide among the numbers of a packet.
pub open spec fn hidden_bytes(data: Seq<Float32>) -> Seq<u8> {
    data.filter(|f: Float32| f.below_zero()).map_values(|f: Float32| f.whole_magnitude_u8() as u8)
}

/// What a packet says of the capabilities, given the text that hides in it.
pub open spec fn are_capabilities_of(
    caps: VideoStreamingCapabilities,
    legacy: VideoStreamingCapabilitiesLegacy,
    text: Seq<char>,
) -> bool {
    let document = json::json_document(text);
    &&& caps.default_view_resolution == legacy.default_view_resolution
    &&& caps.supported_refresh_rates@ == kept_rates(
        legacy.supported_refresh_rates_plus_extra_data@,
    )
    &&& caps.microphone_sample_rate == legacy.microphone_sample_rate
    &&& caps.supports_foveated_encoding == json::flag_or(document, "supports_foveated_encoding"@, true)
    &&& caps.encoder_high_profile == json::flag_or(document, "encoder_high_profile"@, true)
    &&& caps.encoder_10_bits == json::flag_or(document, "encoder_10_bits"@, true)
    &&& caps.encoder_av1 == json::flag_or(document, "encoder_av1"@, true)
    &&& caps.multimodal_protocol == json::flag_or(document, "multimodal_protocol"@, false)
    &&& caps.prefer_10bit == json::flag_or(document, "prefer_10bit"@, false)
    &&& caps.prefer_full_range == json::flag_or(document, "prefer_full_range"@, true)
    &&& caps.preferred_encoding_gamma@ == json::number_or(document, "preferred_encoding_gamma"@, "1.0"@)
    &&& caps.prefer_hdr == json::flag_or(document, "prefer_hdr"@, false)
}

/// Frames capabilities for the wire. `caps_json` is their JSON text.
pub fn encode_video_streaming_capabilities(
    caps: &VideoStreamingCapabilities,
    caps_json: &str,
) -> (r: Result<VideoStreamingCapabilitiesLegacy, CapabilitiesError>)
    ensures
        match r {
            Ok(legacy) => {
                &&& forall|i: int|
                    0 <= i < caps.supported_refresh_rates@.len() ==> (
                    #[trigger] caps.supported_refresh_rates@[i]).finite()
                &&& legacy.default_view_resolution == caps.default_view_resolution
                &&& legacy.microphone_sample_rate == caps.microphone_sample_rate
                &&& is_framing(
                    legacy.supported_refresh_rates_plus_extra_data@,
                    caps.supported_refresh_rates@,
                    caps_json.spec_bytes(),
                )
            },
            Err(e) => {
                &&& e == CapabilitiesError::RefreshRateNotFinite
                &&& exists|i: int|
                    0 <= i < caps.supported_refresh_rates@.len() && !(
                    #[trigger] caps.supported_refresh_rates@[i]).finite()
            },
        },
{
    let rates = &caps.supported_refresh_rates;
    let mut data: Vec<Float32> = Vec::new();
    let mut i: usize = 0;
    while i < rates.len()
        invariant
            i <= rates@.len(),
            data@ == rates@.take(i as int),
            forall|j: int| 0 <= j < i ==> (#[trigger] rates@[j]).finite(),
            rates == &caps.supported_refresh_rates,
        decreases rates@.len() - i,
    {
        if !rates[i].is_finite() {
            return Err(CapabilitiesError::RefreshRateNotFinite);
        }
        data.push(rates[i]);
        assert(data@ =~= rates@.take(i + 1));
        i += 1;
    }
    assert(data@ =~= rates@);
    let bytes = caps_json.as_bytes();
    let mut k: usize = 0;
    while k < bytes.len()
        invariant
            k <= bytes@.len(),
            data@.len() == rates@.len() + k,
            data@.take(rates@.len() as int) == rates@,
            forall|j: int|
                0 <= j < k ==> is_negated_byte(#[trigger] data@[rates@.len() + j], bytes@[j]),
        decreases bytes@.len() - k,
    {
        let ghost before = data@;
        data.push(Float32::from_negated_byte(bytes[k]));
        assert(data@.take(rates@.len() as int) =~= before.take(rates@.len() as int));
        assert forall|j: int| 0 <= j < k + 1 implies is_negated_byte(
            #[trigger] data@[rates@.len() + j],
            bytes@[j],
        ) by {
            if j < k {
                assert(data@[rates@.len() + j] == before[rates@.len() + j]);
            }
        }
        k += 1;
    }
    Ok(
        VideoStreamingCapabilitiesLegacy {
            default_view_resolution: caps.default_view_resolution,
            supported_refresh_rates_plus_extra_data: data,
            microphone_sample_rate: caps.microphone_sample_rate,
        },
    )
}

/// One more number leaves the rates and bytes before it as they are.
proof fn lemma_split_push(data: Seq<Float32>, f: Float32)
    ensures
        kept_rates(data.push(f)) == if f.below_zero() {
            kept_rates(data)
        } else {
            kept_rates(data).push(f)
        },
        hidden_bytes(data.push(f)) == if f.below_zero() {
            hidden_bytes(data).push(f.whole_magnitude_u8() as u8)
        } else {
            hidden_bytes(data)
        },
{
    reveal(Seq::filter);
    assert(data.push(f).drop_last() =~= data);
    if f.below_zero() {
        assert(hidden_bytes(data.push(f)) =~= hidden_bytes(data).push(
            f.whole_magnitude_u8() as u8,
        ));
    }
}

/// Parts the numbers of a packet into refresh rates and hidden bytes.
pub fn split_extra_data(data: &Vec<Float32>) -> (r: (Vec<Float32>, Vec<u8>))
    ensures
        r.0@ == kept_rates(data@),
        r.1@ == hidden_bytes(data@),
{
    let mut rates: Vec<Float32> = Vec::new();
    let mut bytes: Vec<u8> = Vec::new();
    let mut i: usize = 0;
    proof {
        reveal(Seq::filter);
        assert(kept_rates(data@.take(0)) =~= Seq::empty());
        assert(hidden_bytes(data@.take(0)) =~= Seq::empty());
    }
    while i < data.len()
        invariant
            i <= data@.len(),
            rates@ == kept_rates(data@.take(i as int)),
            bytes@ == hidden_bytes(data@.take(i as int)),
        decreases data@.len() - i,
    {
        let f = data[i];
        proof {
            lemma_split_push(data@.take(i as int), f);
            assert(data@.take(i as int).push(f) =~= data@.take(i + 1));
        }
        if f.is_below_zero() {
            bytes.push(f.whole_magnitude());
        } else {
            rates.push(f);
        }
        i += 1;
    }
    assert(data@.take(i as int) =~= data@);
    (rates, bytes)
}

/// Takes capabilities from the wire. What the hidden text does not say has a default.
pub fn decode_video_streaming_capabilities(legacy: &VideoStreamingCapabilitiesLegacy) -> (r: Result<
    VideoStreamingCapabilities,
    CapabilitiesError,
>)
    ensures
        ({
            let bytes = hidden_bytes(legacy.supported_refresh_rates_plus_extra_data@);
            match r {
                Ok(caps) => valid_utf8(bytes) && are_capabilities_of(
                    caps,
                    *legacy,
                    decode_utf8(bytes),
                ),
                Err(e) => e == CapabilitiesError::ExtraDataNotUtf8 && !valid_utf8(bytes),
            }
        }),
{
    let (supported_refresh_rates, json_bytes) = split_extra_data(
        &legacy.supported_refresh_rates_plus_extra_data,
    );
    let text = match String::from_utf8(json_bytes) {
        Ok(text) => text,
        Err(_) => {
            return Err(CapabilitiesError::ExtraDataNotUtf8);
        },
    };
    let document = json::parse(text.as_str());
    Ok(
        VideoStreamingCapabilities {
            default_view_resolution: legacy.default_view_resolution,
            supported_refresh_rates,
            microphone_sample_rate: legacy.microphone_sample_rate,
            supports_foveated_encoding: json::read_flag(
                &document,
                "supports_foveated_encoding",
                true),
            encoder_high_profile: json::read_flag(&document, "encoder_high_profile", true),
            encoder_10_bits: json::read_flag(&document, "encoder_10_bits", true),
            encoder_av1: json::read_flag(&document, "encoder_av1", true),
            multimodal_protocol: json::read_flag(&document, "multimodal_protocol", false),
            prefer_10bit: json::read_flag(&document, "prefer_10bit", false),
            prefer_full_range: json::read_flag(&document, "prefer_full_range", true),
            preferred_encoding_gamma: json::read_number(
                &document,
                "preferred_encoding_gamma",
                "1.0"),
            prefer_hdr: json::read_flag(&document, "prefer_hdr", false),
        },
    )
}

/// Numbers that are not below zero are all rates.
proof fn lemma_rates_are_kept(rates: Seq<Float32>)
    requires
        forall|i: int| 0 <= i < rates.len() ==> !(#[trigger] rates[i]).below_zero(),
    ensures
        kept_rates(rates) == rates,
        hidden_bytes(rates) == Seq::<u8>::empty(),
    decreases rates.len(),
{
    reveal(Seq::filter);
    if rates.len() == 0 {
        assert(kept_rates(rates) =~= rates);
        assert(hidden_bytes(rates) =~= Seq::<u8>::empty());
    } else {
        lemma_rates_are_kept(rates.drop_last());
        lemma_split_push(rates.drop_last(), rates.last());
        assert(rates.drop_last().push(rates.last()) =~= rates);
    }
}

/// Framing loses nothing: rates that are not below zero and bytes that are not zero come out of a
/// packet as they went in.
pub proof fn law_framing_round_trip(data: Seq<Float32>, rates: Seq<Float32>, bytes: Seq<u8>)
    requires
        is_framing(data, rates, bytes),
        forall|i: int| 0 <= i < rates.len() ==> !(#[trigger] rates[i]).below_zero(),
        forall|i: int| 0 <= i < bytes.len() ==> #[trigger] bytes[i] != 0,
    ensures
        kept_rates(data) == rates,
        hidden_bytes(data) == bytes,
    decreases bytes.len(),
{
    if bytes.len() == 0 {
        assert(data.take(rates.len() as int) =~= data);
        lemma_rates_are_kept(rates);
        assert(bytes =~= Seq::<u8>::empty());
    } else {
        let shorter = data.drop_last();
        assert(shorter.take(rates.len() as int) =~= data.take(rates.len() as int));
        assert forall|i: int| 0 <= i < bytes.drop_last().len() implies is_negated_byte(
            #[trigger] shorter[rates.len() + i],
            bytes.drop_last()[i],
        ) by {
            assert(shorter[rates.len() + i] == data[rates.len() + i]);
        }
        law_framing_round_trip(shorter, rates, bytes.drop_last());
        assert(data[rates.len() + (bytes.len() - 1)] == data.last());
        law_negated_byte_round_trip(data.last(), bytes.last());
        lemma_split_push(shorter, data.last());
        assert(shorter.push(data.last()) =~= data);
        assert(bytes.drop_last().push(bytes.last()) =~= bytes);
    }
}

/// A text is a JSON document that tells the capabilities.
pub open spec fn tells(text: Seq<char>, caps: VideoStreamingCapabilities) -> bool {
    json::json_document(text) matches Some(members) && {
        &&& json::member_text(members, "supports_foveated_encoding"@) == bool_text(
            caps.supports_foveated_encoding,
        )
        &&& json::member_text(members, "encoder_high_profile"@) == bool_text(
            caps.encoder_high_profile,
        )
        &&& json::member_text(members, "encoder_10_bits"@) == bool_text(caps.encoder_10_bits)
        &&& json::member_text(members, "encoder_av1"@) == bool_text(caps.encoder_av1)
        &&& json::member_text(members, "multimodal_protocol"@) == bool_text(
            caps.multimodal_protocol,
        )
        &&& json::member_text(members, "prefer_10bit"@) == bool_text(caps.prefer_10bit)
        &&& json::member_text(members, "prefer_full_range"@) == bool_text(caps.prefer_full_range)
        &&& json::member_text(members, "preferred_encoding_gamma"@)
            == caps.preferred_encoding_gamma@
        &&& json::is_number(caps.preferred_encoding_gamma@)
        &&& json::member_text(members, "prefer_hdr"@) == bool_text(caps.prefer_hdr)
    }
}

/// Capabilities survive the packet: decoding what was encoded succeeds, gives the resolution, the
/// rates and the sample rate back, and reads everything else from the very text that was sent. Where
/// the text tells the capabilities, all of them come out as they went in.
pub proof fn law_capabilities_round_trip(
    caps: VideoStreamingCapabilities,
    text: Seq<char>,
    legacy: VideoStreamingCapabilitiesLegacy,
    decoded: VideoStreamingCapabilities,
)
    requires
        forall|i: int|
            0 <= i < caps.supported_refresh_rates@.len() ==> !(
            #[trigger] caps.supported_refresh_rates@[i]).below_zero(),
        forall|i: int| 0 <= i < encode_utf8(text).len() ==> #[trigger] encode_utf8(text)[i] != 0,
        legacy.default_view_resolution == caps.default_view_resolution,
        legacy.microphone_sample_rate == caps.microphone_sample_rate,
        is_framing(
            legacy.supported_refresh_rates_plus_extra_data@,
            caps.supported_refresh_rates@,
            encode_utf8(text),
        ),
        are_capabilities_of(
            decoded,
            legacy,
            decode_utf8(hidden_bytes(legacy.supported_refresh_rates_plus_extra_data@)),
        ),
    ensures
        valid_utf8(hidden_bytes(legacy.supported_refresh_rates_plus_extra_data@)),
        decode_utf8(hidden_bytes(legacy.supported_refresh_rates_plus_extra_data@)) == text,
        decoded.default_view_resolution == caps.default_view_resolution,
        decoded.supported_refresh_rates@ == caps.supported_refresh_rates@,
        decoded.microphone_sample_rate == caps.microphone_sample_rate,
        are_capabilities_of(decoded, legacy, text),
        tells(text, caps) ==> {
            &&& decoded.supports_foveated_encoding == caps.supports_foveated_encoding
            &&& decoded.encoder_high_profile == caps.encoder_high_profile
            &&& decoded.encoder_10_bits == caps.encoder_10_bits
            &&& decoded.encoder_av1 == caps.encoder_av1
            &&& decoded.multimodal_protocol == caps.multimodal_protocol
            &&& decoded.prefer_10bit == caps.prefer_10bit
            &&& decoded.prefer_full_range == caps.prefer_full_range
            &&& decoded.preferred_encoding_gamma@ == caps.preferred_encoding_gamma@
            &&& decoded.prefer_hdr == caps.prefer_hdr
        },
{
    json::lemma_bool_of_text(true);
    json::lemma_bool_of_text(false);
    law_framing_round_trip(
        legacy.supported_refresh_rates_plus_extra_data@,
        caps.supported_refresh_rates@,
        encode_utf8(text),
    );
    encode_utf8_valid_utf8(text);
    encode_utf8_decode_utf8(text);
}

/// In a packet the rates come first, as they are, and each byte after them is a number with a sign
/// and the byte's own magnitude.
pub proof fn law_packet_layout(data: Seq<Float32>, rates: Seq<Float32>, bytes: Seq<u8>, i: int)
    requires
        is_framing(data, rates, bytes),
        0 <= i < data.len(),
    ensures
        data.len() == rates.len() + bytes.len(),
        i < rates.len() ==> data[i] == rates[i],
        i >= rates.len() ==> data[i].bits >= 0x8000_0000 && data[i].finite()
            && data[i].scaled_magnitude() == bytes[i - rates.len()] * pow2(149),
{
    if i < rates.len() {
        assert(data.take(rates.len() as int)[i] == data[i]);
    } else {
        assert(is_negated_byte(data[rates.len() + (i - rates.len())], bytes[i - rates.len()]));
    }
}

/// A packet is parted number by number, in order: one below zero adds the whole part of its magnitude
/// to the bytes, at most 255, and any other adds itself to the rates. An empty packet has neither.
pub proof fn law_packet_is_parted_by_sign(data: Seq<Float32>, f: Float32)
    ensures
        0x8000_0000 < f.bits <= 0xff80_0000 ==> {
            let byte = hidden_bytes(data.push(f)).last();
            &&& kept_rates(data.push(f)) == kept_rates(data)
            &&& hidden_bytes(data.push(f)) == hidden_bytes(data).push(byte)
            &&& f.finite() ==> byte * pow2(149) <= f.scaled_magnitude()
            &&& f.finite() && byte < 255 ==> f.scaled_magnitude() < (byte + 1) * pow2(149)
            &&& !f.finite() ==> byte == 255
        },
        !(0x8000_0000 < f.bits <= 0xff80_0000) ==> kept_rates(data.push(f)) == kept_rates(
            data,
        ).push(f) && hidden_bytes(data.push(f)) == hidden_bytes(data),
        data.len() == 0 ==> kept_rates(data).len() == 0 && hidden_bytes(data).len() == 0,
{
    lemma_split_push(data, f);
    law_bit_pattern(f);
    law_whole_part(f);
    reveal(Seq::filter);
}

/// Capabilities are read by name from the hidden text: a flag is the one that stands under its own
/// name, and where none does the stream is taken to support foveation, high profile, 10 bits, AV1 and
/// full range, and no multimodal input, and to prefer neither 10 bits nor HDR; the gamma is one where
/// the text has none. The rest is that of the packet.
pub proof fn law_capabilities_are_read_by_name(
    caps: VideoStreamingCapabilities,
    legacy: VideoStreamingCapabilitiesLegacy,
    text: Seq<char>,
)
    requires
        are_capabilities_of(caps, legacy, text),
    ensures
        ({
            let known = json::json_document(text) is Some;
            let members = json::json_document(text)->0;
            let on = |key: Seq<char>| known && members.contains_key(key) && members[key] == "true"@;
            let off = |key: Seq<char>|
                known && members.contains_key(key) && members[key] == "false"@;
            &&& caps.default_view_resolution == legacy.default_view_resolution
            &&& caps.microphone_sample_rate == legacy.microphone_sample_rate
            &&& caps.supported_refresh_rates@ == kept_rates(
                legacy.supported_refresh_rates_plus_extra_data@,
            )
            &&& caps.supports_foveated_encoding <==> !off("supports_foveated_encoding"@)
            &&& caps.encoder_high_profile <==> !off("encoder_high_profile"@)
            &&& caps.encoder_10_bits <==> !off("encoder_10_bits"@)
            &&& caps.encoder_av1 <==> !off("encoder_av1"@)
            &&& caps.multimodal_protocol <==> on("multimodal_protocol"@)
            &&& caps.prefer_10bit <==> on("prefer_10bit"@)
            &&& caps.prefer_full_range <==> !off("prefer_full_range"@)
            &&& caps.prefer_hdr <==> on("prefer_hdr"@)
            &&& caps.preferred_encoding_gamma@ == if known && members.contains_key(
                "preferred_encoding_gamma"@,
            ) && members["preferred_encoding_gamma"@].len() > 0 && (
            members["preferred_encoding_gamma"@][0] == '-' || '0'
                <= members["preferred_encoding_gamma"@][0] <= '9') {
                members["preferred_encoding_gamma"@]
            } else {
                "1.0"@
            }
        }),
{
    let document = json::json_document(text);
    reveal_strlit("true");
    reveal_strlit("false");
    assert("true"@.len() != "false"@.len());
    json::law_flags_have_defaults(document, "supports_foveated_encoding"@, true);
    json::law_flags_have_defaults(document, "encoder_high_profile"@, true);
    json::law_flags_have_defaults(document, "encoder_10_bits"@, true);
    json::law_flags_have_defaults(document, "encoder_av1"@, true);
    json::law_flags_have_defaults(document, "multimodal_protocol"@, false);
    json::law_flags_have_defaults(document, "prefer_10bit"@, false);
    json::law_flags_have_defaults(document, "prefer_full_range"@, true);
    json::law_flags_have_defaults(document, "prefer_hdr"@, false);
    json::law_numbers_have_defaults(document, "preferred_encoding_gamma"@, "1.0"@);
}

} // verus!
