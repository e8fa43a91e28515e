use prometheus::line::{Line, LineKind};
use prometheus::output::{header_lines, FieldKind, Output};
use prometheus::pipeline::env_rows;
use prometheus::text::{
    is_whitespace_char, split_once_eq, starts_with, strip_prefix_or_whole, strip_suffix_or_whole,
    trim, trim_leading,
};

fn lines(src: &[&str]) -> Vec<String> {
    src.iter().map(|s| s.to_string()).collect()
}

#[test]
fn annotated_variable_row() {
    let rows = env_rows(&lines(&[
        "# [@responsible=alice]",
        "# [@type=string]",
        "# a note",
        "PORT=8080",
    ]));
    assert_eq!(rows, vec!["|PORT|alice|string|||8080|a note||\n".to_string()]);
}

#[test]
fn variable_without_equals_gives_empty_row() {
    let rows = env_rows(&lines(&["FOO"]));
    assert_eq!(rows, vec!["|||||||||\n".to_string()]);
}

#[test]
fn variable_without_equals_keeps_annotations() {
    let rows = env_rows(&lines(&["# [@secret=yes]", "FOO", "BAR=1"]));
    assert_eq!(
        rows,
        vec!["||||yes|||||\n".to_string(), "|BAR|||||1|||\n".to_string()]
    );
}

#[test]
fn split_on_first_equals_only() {
    let rows = env_rows(&lines(&["KEY=value1=value2"]));
    assert_eq!(rows, vec!["|KEY|||||value1=value2|||\n".to_string()]);
    let (k, v) = split_once_eq("KEY=value1=value2").unwrap();
    assert_eq!(k, "KEY");
    assert_eq!(v, "value1=value2");
    assert!(split_once_eq("KEY").is_none());
    let (k, v) = split_once_eq("=x").unwrap();
    assert_eq!(k, "");
    assert_eq!(v, "x");
}

#[test]
fn type_annotation_takes_priority() {
    let line = Line::new("# [@type=string]".to_string());
    assert_eq!(line.kind, LineKind::Type);
    assert_eq!(line.extract_content(), "string");
    let next = Line::new("# free text".to_string());
    assert_eq!(next.kind, LineKind::Description);
    assert_eq!(next.extract_content(), "free text");
    let rows = env_rows(&lines(&["# [@type=string]", "# free text", "A=b"]));
    assert_eq!(rows, vec!["|A||string|||b|free text||\n".to_string()]);
}

#[test]
fn each_annotation_kind_is_classified() {
    let cases = [
        ("# [@responsible=team]", LineKind::Responsible),
        ("# [@type=int]", LineKind::Type),
        ("# [@secret=true]", LineKind::Secret),
        ("# [@policy=rotate]", LineKind::Policy),
        ("# [@docs=http://x]", LineKind::Docs),
        ("# words", LineKind::Description),
        ("NAME=1", LineKind::EnvVariable),
    ];
    for (text, kind) in cases {
        assert_eq!(Line::new(text.to_string()).kind, kind);
    }
}

#[test]
fn malformed_annotation_keeps_raw_text() {
    let line = Line::new("# [@type=string".to_string());
    assert_eq!(line.kind, LineKind::Type);
    assert_eq!(line.extract_content(), "string");
}

#[test]
fn line_is_trimmed_before_classification() {
    let line = Line::new("   # [@docs=link]  \t".to_string());
    assert_eq!(line.kind, LineKind::Docs);
    assert_eq!(line.data, "# [@docs=link]");
    assert_eq!(line.extract_content(), "link");
    let var = Line::new("  KEY=v  ".to_string());
    assert_eq!(var.kind, LineKind::EnvVariable);
    assert_eq!(var.extract_content(), "KEY=v");
}

#[test]
fn all_slots_fields_join_with_comma() {
    let mut out = Output::new();
    for i in 0u8..8 {
        out.add_at(i, "a".to_string());
        out.add_at(i, "b".to_string());
    }
    assert_eq!(out.as_string(), "|a,b|a,b|a,b|a,b|a,b|a,b|a,b|a,b|\n");
}

#[test]
fn add_then_add_in_one_slot() {
    let mut out = Output::new();
    out.add_at(u8::from(FieldKind::Description), "a".to_string());
    out.add_at(u8::from(FieldKind::Description), "b".to_string());
    assert_eq!(out.as_string(), "|||||||a,b||\n");
    out.add_at(u8::from(FieldKind::Docs), "".to_string());
    out.add_at(u8::from(FieldKind::Docs), "x".to_string());
    assert_eq!(out.as_string(), "|||||||a,b|,x|\n");
}

#[test]
fn repeated_descriptions_concatenate() {
    let rows = env_rows(&lines(&["# first", "# second", "X=1"]));
    assert_eq!(rows, vec!["|X|||||1|first,second||\n".to_string()]);
}

#[test]
fn empty_and_bare_comment_lines_are_skipped() {
    let plain = env_rows(&lines(&["# [@policy=p]", "A=1", "B=2"]));
    let noisy = env_rows(&lines(&["", "# [@policy=p]", "#", "   ", "  #  ", "A=1", "", "B=2", "#"]));
    assert_eq!(plain, noisy);
    assert_eq!(noisy.len(), 2);
    let mut out = Output::new();
    assert!(out.process_line("".to_string()).is_none());
    assert!(out.process_line("#".to_string()).is_none());
    assert_eq!(out.as_string(), "|||||||||\n");
}

#[test]
fn row_count_matches_variable_lines() {
    let rows = env_rows(&lines(&[
        "# [@type=a]", "A=1", "B", "# note", "C=3", "# trailing", "# [@docs=d]",
    ]));
    assert_eq!(rows.len(), 3);
    assert!(env_rows(&lines(&[])).is_empty());
    assert!(env_rows(&lines(&["# only", "# [@type=x]"])).is_empty());
}

#[test]
fn trailing_annotations_are_discarded() {
    let mut out = Output::new();
    assert!(out.process_line("# [@type=x]".to_string()).is_none());
    assert_eq!(out.as_string(), "|||x||||||\n");
    let row = out.process_line("K=v".to_string()).unwrap();
    assert_eq!(row, "|K||x|||v|||\n");
    assert_eq!(out.as_string(), "|||||||||\n");
}

#[test]
fn rerun_after_clear_is_identical() {
    let input = lines(&["# [@responsible=bob]", "A=1", "# d", "B=2", "# left over"]);
    let mut out = Output::new();
    let mut first = Vec::new();
    for l in input.iter() {
        if let Some(r) = out.process_line(l.clone()) {
            first.push(r);
        }
    }
    out.clear();
    let mut second = Vec::new();
    for l in input.iter() {
        if let Some(r) = out.process_line(l.clone()) {
            second.push(r);
        }
    }
    assert_eq!(first, second);
    assert_eq!(first, env_rows(&input));
    assert_eq!(env_rows(&input), env_rows(&input));
}

#[test]
fn header_is_two_fixed_lines() {
    assert_eq!(
        header_lines(),
        "| Key | Responsible | Type | Secret | Policy | Default value | Description | Docs |\n\
         | --------- | --------- | --------- | --------- | --------- | --------- | --------- | --------- |\n"
    );
}

#[test]
fn field_positions() {
    assert_eq!(u8::from(FieldKind::EnvVariable), 0);
    assert_eq!(u8::from(FieldKind::DefaultValue), 5);
    assert_eq!(u8::from(FieldKind::Docs), 7);
}

#[test]
fn prefixes_and_suffixes() {
    assert_eq!(LineKind::Responsible.get_prefix(), "# [@responsible=");
    assert_eq!(LineKind::Description.get_prefix(), "#");
    assert_eq!(LineKind::EnvVariable.get_prefix(), "");
    assert_eq!(LineKind::Policy.get_suffix(), "]");
    assert_eq!(LineKind::Description.get_suffix(), "");
}

#[test]
fn trim_drops_unicode_white_space() {
    assert_eq!(trim("\u{3000}\t x y \u{a0}\n"), "x y");
    assert_eq!(trim("   "), "");
    assert_eq!(trim("a"), "a");
    assert_eq!(trim_leading(" \t a b "), "a b ");
    assert_eq!(trim("\u{2003}é\u{2028}"), "é");
}

#[test]
fn text_helpers() {
    assert!(starts_with("# [@type=x]", "# [@type="));
    assert!(!starts_with("#", "# [@type="));
    assert_eq!(strip_prefix_or_whole("#abc", "#"), "abc");
    assert_eq!(strip_prefix_or_whole("abc", "#"), "abc");
    assert_eq!(strip_suffix_or_whole("abc]", "]"), "abc");
    assert_eq!(strip_suffix_or_whole("abc", "]"), "abc");
    assert_eq!(strip_suffix_or_whole("ñ]", "]"), "ñ");
}

#[test]
fn annotation_payload_keeps_its_white_space() {
    let line = Line::new("# [@type= x]".to_string());
    assert_eq!(line.kind, LineKind::Type);
    assert_eq!(line.extract_content(), " x");
    for kind in [
        LineKind::Responsible,
        LineKind::Type,
        LineKind::Secret,
        LineKind::Policy,
        LineKind::Docs,
    ] {
        let text = format!("{}{}{}", kind.get_prefix(), " a ] b ", kind.get_suffix());
        let line = Line::new(text);
        assert_eq!(line.kind, kind);
        assert_eq!(line.extract_content(), " a ] b ");
    }
}

#[test]
fn description_drops_white_space_after_marker() {
    let line = Line::new("  #   spaced  note  ".to_string());
    assert_eq!(line.kind, LineKind::Description);
    assert_eq!(line.extract_content(), "spaced  note");
    let tight = Line::new("#note]".to_string());
    assert_eq!(tight.extract_content(), "note]");
}

#[test]
fn white_space_characters() {
    for c in ['\t', '\n', '\u{b}', '\u{c}', '\r', ' ', '\u{85}', '\u{a0}', '\u{1680}', '\u{2000}', '\u{200a}', '\u{2028}', '\u{2029}', '\u{202f}', '\u{205f}', '\u{3000}'] {
        assert!(is_whitespace_char(c));
        assert!(c.is_whitespace());
    }
    for c in ['a', '#', '\u{200b}', '\u{8}', '\u{e}', '\u{feff}'] {
        assert!(!is_whitespace_char(c));
        assert!(!c.is_whitespace());
    }
}
