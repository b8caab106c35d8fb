use rust_biomart::text::split_at_char;
use rust_biomart::{
    bool_from_int, bracket_trimmed_list, comma_separated_list, decode_bool, decode_flag,
    default_on_error, parse_u8, parse_usize, trim_bracket_items, DecodeError,
};

#[test]
fn bool_from_int_zero_one_only() {
    assert_eq!(bool_from_int(0), Ok(false));
    assert_eq!(bool_from_int(1), Ok(true));
    assert_eq!(bool_from_int(2), Err(DecodeError::InvalidFlag(2)));
    assert_eq!(bool_from_int(255), Err(DecodeError::InvalidFlag(255)));
}

#[test]
fn flag_fields() {
    assert_eq!(decode_flag("0"), Ok(false));
    assert_eq!(decode_flag("1"), Ok(true));
    assert_eq!(decode_flag("7"), Err(DecodeError::InvalidFlag(7)));
    assert_eq!(decode_flag("256"), Err(DecodeError::InvalidNumber));
    assert_eq!(decode_flag("yes"), Err(DecodeError::InvalidNumber));
    assert_eq!(decode_flag(""), Err(DecodeError::InvalidNumber));
}

#[test]
fn numbers() {
    assert_eq!(parse_usize("80"), Some(80));
    assert_eq!(parse_usize("+12"), Some(12));
    assert_eq!(parse_usize("0"), Some(0));
    assert_eq!(parse_usize(""), None);
    assert_eq!(parse_usize("+"), None);
    assert_eq!(parse_usize("-1"), None);
    assert_eq!(parse_usize("1a"), None);
    assert_eq!(parse_usize("18446744073709551615"), Some(usize::MAX));
    assert_eq!(parse_usize("18446744073709551616"), None);
    assert_eq!(parse_u8("255"), Some(255));
    assert_eq!(parse_u8("256"), None);
}

#[test]
fn xml_booleans_and_defaults() {
    assert_eq!(decode_bool("1"), Ok(true));
    assert_eq!(decode_bool("true"), Ok(true));
    assert_eq!(decode_bool("0"), Ok(false));
    assert_eq!(decode_bool("false"), Ok(false));
    assert_eq!(decode_bool("yes"), Err(DecodeError::InvalidBool));
    assert!(default_on_error(Ok(true)));
    assert!(!default_on_error(Err(DecodeError::InvalidBool)));
}

#[test]
fn comma_lists() {
    assert_eq!(comma_separated_list(""), Vec::<String>::new());
    assert_eq!(comma_separated_list("a"), vec!["a"]);
    assert_eq!(comma_separated_list("a,b,,c"), vec!["a", "b", "", "c"]);
    assert_eq!(comma_separated_list(","), vec!["", ""]);
    assert_eq!(split_at_char("x;y", ';'), vec!["x", "y"]);
}

#[test]
fn bracket_trimming() {
    assert_eq!(bracket_trimmed_list("[foo]"), vec!["foo"]);
    assert_eq!(bracket_trimmed_list(""), Vec::<String>::new());
    assert_eq!(bracket_trimmed_list("[]"), Vec::<String>::new());
    assert_eq!(bracket_trimmed_list("[[x]]"), vec!["x"]);
    assert_eq!(bracket_trimmed_list("[a,b,c]"), vec!["a", "b", "c"]);
    assert_eq!(bracket_trimmed_list("[[a,b]]"), vec!["[a", "b]"]);
    assert_eq!(
        trim_bracket_items(vec!["[a".to_string(), "b]".to_string()]),
        vec!["a", "b"]
    );
    assert_eq!(
        trim_bracket_items(vec!["[a".to_string(), "[m]".to_string(), "b]".to_string()]),
        vec!["a", "[m]", "b"]
    );
    assert_eq!(
        trim_bracket_items(vec!["plain".to_string()]),
        vec!["plain"]
    );
}
