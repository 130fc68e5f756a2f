use alvr_dfr::eye_pose_status_pico::{
    get_flag_debug_info, has_flag, is_eye_openness_valid, is_gaze_point_valid, is_gaze_vector_valid,
    is_pupil_dilation_valid, EYE_GAZE_POINT_VALID_EXT, EYE_GAZE_VECTOR_VALID_EXT,
    EYE_OPENNESS_VALID, EYE_PUPIL_DILATION_VALID, GAZE_POINT_VALID, GAZE_VECTOR_VALID,
    PUPIL_DIAMETER_VALID,
};
use alvr_dfr::path::{parse_path, PathSegment};
use alvr_dfr::text::{decimal_string, join_strings, signed_decimal_string, trim_string};

#[test]
fn flags_are_tested_by_bits() {
    assert!(has_flag(0b110, 0b010));
    assert!(!has_flag(0b101, 0b010));
    assert!(!has_flag(0, u32::MAX));
}

#[test]
fn primary_and_extended_flags_count_alike() {
    for status in [GAZE_POINT_VALID, EYE_GAZE_POINT_VALID_EXT] {
        assert!(is_gaze_point_valid(status));
        assert!(!is_gaze_vector_valid(status));
    }
    for status in [GAZE_VECTOR_VALID, EYE_GAZE_VECTOR_VALID_EXT] {
        assert!(is_gaze_vector_valid(status));
        assert!(!is_gaze_point_valid(status));
    }
    for status in [EYE_PUPIL_DILATION_VALID, PUPIL_DIAMETER_VALID] {
        assert!(is_pupil_dilation_valid(status));
        assert!(!is_eye_openness_valid(status));
    }
    assert!(is_eye_openness_valid(EYE_OPENNESS_VALID));
    assert!(!is_pupil_dilation_valid(EYE_OPENNESS_VALID));
}

#[test]
fn flags_of_a_union_are_those_of_either() {
    let union: u32 = GAZE_POINT_VALID | PUPIL_DIAMETER_VALID;
    assert!(has_flag(union, GAZE_POINT_VALID));
    assert!(has_flag(union, PUPIL_DIAMETER_VALID));
    assert!(!has_flag(union, GAZE_VECTOR_VALID));
}

#[test]
fn debug_info_shows_every_flag() {
    assert_eq!(
        get_flag_debug_info(0x102),
        "Status: 258 | GP0:false GP7:false | GV1:true GV8:true | EO2:false | PD3:false PD11:false | Raw: 000100000010"
    );
    assert_eq!(
        get_flag_debug_info(0),
        "Status: 0 | GP0:false GP7:false | GV1:false GV8:false | EO2:false | PD3:false PD11:false | Raw: 000000000000"
    );
    assert_eq!(
        get_flag_debug_info(0x1fff),
        format!(
            "Status: {} | GP0:true GP7:true | GV1:true GV8:true | EO2:true | PD3:true PD11:true | Raw: {:012b}",
            0x1fff, 0x1fff
        )
    );
}

fn names(path: &str) -> Vec<String> {
    parse_path(path).iter().map(|s| s.display()).collect()
}

#[test]
fn paths_are_split_at_dots() {
    assert_eq!(names("session_settings.video.bitrate"), ["session_settings", "video", "bitrate"]);
    assert_eq!(names(""), [""]);
    assert_eq!(names(".a."), ["", "a", ""]);
    assert_eq!(names("a..b"), ["a", "", "b"]);
}

#[test]
fn split_paths_join_to_the_path() {
    for path in ["", ".", "a.b.c", "..x", "one"] {
        assert_eq!(join_strings(&names(path), "."), path);
    }
}

#[test]
fn an_index_is_shown_in_brackets() {
    assert_eq!(PathSegment::from(12usize).display(), "[12]");
    assert_eq!(PathSegment::from("name").display(), "name");
    assert_eq!(PathSegment::from("owned".to_string()).display(), "owned");
    // A number in a path is a name.
    assert!(matches!(&parse_path("12")[0], PathSegment::Name(n) if n == "12"));
}

#[test]
fn numbers_are_written_in_decimal() {
    assert_eq!(decimal_string(0), "0");
    assert_eq!(decimal_string(u64::MAX), u64::MAX.to_string());
    assert_eq!(signed_decimal_string(-17), "-17");
    assert_eq!(signed_decimal_string(i32::MIN), i32::MIN.to_string());
}

#[test]
fn trimming_drops_unicode_white_space() {
    for s in ["", "  ", " a b ", "\u{a0}x\u{3000}", "\u{200b}y", "\t\r\nz\u{85}", "\u{2028}q\u{1680}"] {
        assert_eq!(trim_string(s), s.trim());
        assert_eq!(trim_string(&trim_string(s)), s.trim());
    }
    for c in ('\0'..=char::MAX).filter(|c| (*c as u32) < 0x4000) {
        let s = format!("{c}");
        assert_eq!(trim_string(&s), s.trim());
    }
}
