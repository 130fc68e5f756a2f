//! The bit field in which a headset reports which parts of an eye sample are valid.

use crate::text::{bool_text, decimal, padded_binary, push_bool, push_decimal, push_padded_binary};
use vstd::prelude::*;
use vstd::string::StringExecFns;

verus! {

// Primary gaze data flags.
pub const GAZE_POINT_VALID: u32 = 0x001;

pub const GAZE_VECTOR_VALID: u32 = 0x002;

pub const EYE_OPENNESS_VALID: u32 = 0x004;

pub const EYE_PUPIL_DILATION_VALID: u32 = 0x008;

pub const EYE_POSITION_GUIDE_VALID: u32 = 0x010;

pub const EYE_PUPIL_POSITION_VALID: u32 = 0x020;

pub const EYE_CONVERGENCE_DISTANCE_VALID: u32 = 0x040;

// Extended flags. Some headset firmware sets these in place of the primary ones.
pub const EYE_GAZE_POINT_VALID_EXT: u32 = 0x080;

pub const EYE_GAZE_VECTOR_VALID_EXT: u32 = 0x100;

pub const PUPIL_DISTANCE_VALID: u32 = 0x200;

pub const CONVERGENCE_DISTANCE_VALID_EXT: u32 = 0x400;

pub const PUPIL_DIAMETER_VALID: u32 = 0x800;

/// Some bit of `flag` is set in `status`.
pub open spec fn flag_set(status: u32, flag: u32) -> bool {
    (status & flag) != 0
}

/// The gaze point is valid, by the primary or the extended flag.
pub open spec fn gaze_point_set(status: u32) -> bool {
    flag_set(status, GAZE_POINT_VALID) || flag_set(status, EYE_GAZE_POINT_VALID_EXT)
}

/// The gaze vector is valid, by the primary or the extended flag.
pub open spec fn gaze_vector_set(status: u32) -> bool {
    flag_set(status, GAZE_VECTOR_VALID) || flag_set(status, EYE_GAZE_VECTOR_VALID_EXT)
}

/// The openness of the eye is valid.
pub open spec fn eye_openness_set(status: u32) -> bool {
    flag_set(status, EYE_OPENNESS_VALID)
}

/// The pupil's size is valid, by its dilation or its diameter flag.
pub open spec fn pupil_dilation_set(status: u32) -> bool {
    flag_set(status, EYE_PUPIL_DILATION_VALID) || flag_set(status, PUPIL_DIAMETER_VALID)
}

/// The diagnostic line for a status.
pub open spec fn flag_debug_text(status: u32) -> Seq<char> {
    "Status: "@ + decimal(status as nat) + " | GP0:"@ + bool_text(
        flag_set(status, GAZE_POINT_VALID),
    ) + " GP7:"@ + bool_text(flag_set(status, EYE_GAZE_POINT_VALID_EXT)) + " | GV1:"@ + bool_text(
        flag_set(status, GAZE_VECTOR_VALID),
    ) + " GV8:"@ + bool_text(flag_set(status, EYE_GAZE_VECTOR_VALID_EXT)) + " | EO2:"@ + bool_text(
        flag_set(status, EYE_OPENNESS_VALID),
    ) + " | PD3:"@ + bool_text(flag_set(status, EYE_PUPIL_DILATION_VALID)) + " PD11:"@ + bool_text(
        flag_set(status, PUPIL_DIAMETER_VALID),
    ) + " | Raw: "@ + padded_binary(status as nat, 12)
}

/// Whether some bit of `flag` is set in `status`.
pub fn has_flag(status: u32, flag: u32) -> (r: bool)
    ensures
        r == flag_set(status, flag),
{
    (status & flag) != 0
}

/// Whether the gaze point is valid, by either of its flags.
pub fn is_gaze_point_valid(status: u32) -> (r: bool)
    ensures
        r == gaze_point_set(status),
{
    has_flag(status, GAZE_POINT_VALID) || has_flag(status, EYE_GAZE_POINT_VALID_EXT)
}

/// Whether the gaze vector is valid, by either of its flags.
pub fn is_gaze_vector_valid(status: u32) -> (r: bool)
    ensures
        r == gaze_vector_set(status),
{
    has_flag(status, GAZE_VECTOR_VALID) || has_flag(status, EYE_GAZE_VECTOR_VALID_EXT)
}

/// Whether the openness of the eye is valid.
pub fn is_eye_openness_valid(status: u32) -> (r: bool)
    ensures
        r == eye_openness_set(status),
{
    has_flag(status, EYE_OPENNESS_VALID)
}

/// Whether the pupil's size is valid, by its dilation or its diameter flag.
pub fn is_pupil_dilation_valid(status: u32) -> (r: bool)
    ensures
        r == pupil_dilation_set(status),
{
    has_flag(status, EYE_PUPIL_DILATION_VALID) || has_flag(status, PUPIL_DIAMETER_VALID)
}

/// A diagnostic line that shows the state of the flags in use.
pub fn get_flag_debug_info(status: u32) -> (r: String)
    ensures
        r@ == flag_debug_text(status),
{
    let mut s = String::new();
    s.append("Status: ");
    push_decimal(&mut s, status as u64);
    s.append(" | GP0:");
    push_bool(&mut s, has_flag(status, GAZE_POINT_VALID));
    s.append(" GP7:");
    push_bool(&mut s, has_flag(status, EYE_GAZE_POINT_VALID_EXT));
    s.append(" | GV1:");
    push_bool(&mut s, has_flag(status, GAZE_VECTOR_VALID));
    s.append(" GV8:");
    push_bool(&mut s, has_flag(status, EYE_GAZE_VECTOR_VALID_EXT));
    s.append(" | EO2:");
    push_bool(&mut s, has_flag(status, EYE_OPENNESS_VALID));
    s.append(" | PD3:");
    push_bool(&mut s, has_flag(status, EYE_PUPIL_DILATION_VALID));
    s.append(" PD11:");
    push_bool(&mut s, has_flag(status, PUPIL_DIAMETER_VALID));
    s.append(" | Raw: ");
    push_padded_binary(&mut s, status, 12);
    assert(s@ =~= flag_debug_text(status));
    s
}

/// A flag group is set in the union of two statuses exactly where it is set in one of them.
pub proof fn law_flags_of_union(a: u32, b: u32, flag: u32)
    ensures
        flag_set(a | b, flag) == (flag_set(a, flag) || flag_set(b, flag)),
        gaze_point_set(a | b) == (gaze_point_set(a) || gaze_point_set(b)),
        gaze_vector_set(a | b) == (gaze_vector_set(a) || gaze_vector_set(b)),
        eye_openness_set(a | b) == (eye_openness_set(a) || eye_openness_set(b)),
        pupil_dilation_set(a | b) == (pupil_dilation_set(a) || pupil_dilation_set(b)),
{
    assert(forall|f: u32|
        #![trigger (a | b) & f]
        (((a | b) & f) != 0) == ((a & f) != 0 || (b & f) != 0)) by (bit_vector);
}

/// A single flag is set exactly where its digit in the binary notation of the status is one, and a
/// group of flags exactly where one of them is.
pub proof fn law_flags_are_digits(status: u32, k: u32, flag: u32, other: u32)
    requires
        k < 32,
    ensures
        flag_set(status, 1u32 << k) <==> (status >> k) % 2 == 1,
        flag_set(status, flag | other) <==> flag_set(status, flag) || flag_set(status, other),
        !flag_set(status, 0),
{
    assert((status & (1u32 << k) != 0) == ((status >> k) % 2 == 1)) by (bit_vector)
        requires
            k < 32,
    ;
    assert((status & (flag | other) != 0) == (status & flag != 0 || status & other != 0))
        by (bit_vector);
    assert(status & 0 == 0) by (bit_vector);
}

/// Which digits of the status the parts of a sample go by: the gaze point by digits 0 and 7, the gaze
/// vector by 1 and 8, the openness by 2, the pupil's size by 3 and 11. No other digit matters.
pub proof fn law_valid_parts(status: u32)
    ensures
        gaze_point_set(status) <==> status % 2 == 1 || (status / 0x80) % 2 == 1,
        gaze_vector_set(status) <==> (status / 2) % 2 == 1 || (status / 0x100) % 2 == 1,
        eye_openness_set(status) <==> (status / 4) % 2 == 1,
        pupil_dilation_set(status) <==> (status / 8) % 2 == 1 || (status / 0x800) % 2 == 1,
{
    assert((status & 0x001 != 0) == (status % 2 == 1)) by (bit_vector);
    assert((status & 0x002 != 0) == ((status / 2) % 2 == 1)) by (bit_vector);
    assert((status & 0x004 != 0) == ((status / 4) % 2 == 1)) by (bit_vector);
    assert((status & 0x008 != 0) == ((status / 8) % 2 == 1)) by (bit_vector);
    assert((status & 0x080 != 0) == ((status / 0x80) % 2 == 1)) by (bit_vector);
    assert((status & 0x100 != 0) == ((status / 0x100) % 2 == 1)) by (bit_vector);
    assert((status & 0x800 != 0) == ((status / 0x800) % 2 == 1)) by (bit_vector);
}

/// The diagnostic line gives each flag under its own mark.
pub proof fn law_debug_line(status: u32)
    ensures
        flag_debug_text(status) == "Status: "@ + decimal(status as nat) + " | GP0:"@ + bool_text(
            status % 2 == 1,
        ) + " GP7:"@ + bool_text((status / 0x80) % 2 == 1) + " | GV1:"@ + bool_text(
            (status / 2) % 2 == 1,
        ) + " GV8:"@ + bool_text((status / 0x100) % 2 == 1) + " | EO2:"@ + bool_text(
            (status / 4) % 2 == 1,
        ) + " | PD3:"@ + bool_text((status / 8) % 2 == 1) + " PD11:"@ + bool_text(
            (status / 0x800) % 2 == 1,
        ) + " | Raw: "@ + padded_binary(status as nat, 12),
{
    assert((status & 0x001 != 0) == (status % 2 == 1)) by (bit_vector);
    assert((status & 0x002 != 0) == ((status / 2) % 2 == 1)) by (bit_vector);
    assert((status & 0x004 != 0) == ((status / 4) % 2 == 1)) by (bit_vector);
    assert((status & 0x008 != 0) == ((status / 8) % 2 == 1)) by (bit_vector);
    assert((status & 0x080 != 0) == ((status / 0x80) % 2 == 1)) by (bit_vector);
    assert((status & 0x100 != 0) == ((status / 0x100) % 2 == 1)) by (bit_vector);
    assert((status & 0x800 != 0) == ((status / 0x800) % 2 == 1)) by (bit_vector);
}

} // verus!
