use xcodebind_gen::parser::TreeBuilder;
use xcodebind_gen::scanner::{delimiter, get_item_from_plist, ScanState};
use xcodebind_gen::text::{
    find, from_chars, matches_at, multispace, skip_blank, to_chars, trim_chars, whitespace,
};
use xcodebind_gen::{
    PlistIResultEndReason, PlistItem, PlistItemCustomDeserializeCompatible, PlistKey,
    PlistKeyValueItem, PlistTupleValue, PlistValue, StringItemSlice, VectorHelper,
    XcodeParserDeserializer, XcodeParserStringHelper,
};

fn chars(text: &str) -> Vec<char> {
    text.chars().collect()
}

fn text(chars: &[char]) -> String {
    chars.iter().collect()
}

/// The token at the front of `input`: its text, comment and tag, and what is left.
fn token(input: &str) -> (String, Option<String>, PlistIResultEndReason, String) {
    let input = chars(input);
    let (rest, (value, comment, reason)) = get_item_from_plist(&input);
    (value, comment, reason, text(rest))
}

fn expect(
    input: &str,
    value: &str,
    comment: Option<&str>,
    reason: PlistIResultEndReason,
    rest: &str,
) {
    assert_eq!(
        token(input),
        (value.to_string(), comment.map(|c| c.to_string()), reason, rest.to_string()),
        "{:?}",
        input
    );
}

#[test]
fn tag_of_each_character() {
    assert_eq!(PlistIResultEndReason::new(' '), PlistIResultEndReason::WhiteSpace);
    assert_eq!(PlistIResultEndReason::new('\t'), PlistIResultEndReason::LineFeed);
    assert_eq!(PlistIResultEndReason::new('\r'), PlistIResultEndReason::LineFeed);
    assert_eq!(PlistIResultEndReason::new('\n'), PlistIResultEndReason::LineFeed);
    assert_eq!(PlistIResultEndReason::new('='), PlistIResultEndReason::KeyEnd);
    assert_eq!(PlistIResultEndReason::new(','), PlistIResultEndReason::TupleValueEnd);
    assert_eq!(PlistIResultEndReason::new(';'), PlistIResultEndReason::ValueEnd);
    assert_eq!(PlistIResultEndReason::new('{'), PlistIResultEndReason::ArrayBegin);
    assert_eq!(PlistIResultEndReason::new('}'), PlistIResultEndReason::Eof);
    assert_eq!(PlistIResultEndReason::new('('), PlistIResultEndReason::TupleBegin);
    assert_eq!(PlistIResultEndReason::new(')'), PlistIResultEndReason::TupleEnd);
}

#[test]
fn delimiters_are_ten_characters() {
    for c in ['\t', '\r', '\n', ';', ',', '{', '}', '(', ')', '='] {
        assert!(delimiter(c), "{:?}", c);
    }
    for c in [' ', 'a', '"', '/', '*', '\\', ':', '[', '\u{A0}'] {
        assert!(!delimiter(c), "{:?}", c);
    }
}

#[test]
fn key_and_value_tokens() {
    expect("\tname = value;\n", "name", None, PlistIResultEndReason::KeyEnd, " value;\n");
    expect(" value;\n", "value", None, PlistIResultEndReason::ValueEnd, "\n");
    expect("a=b;", "a", None, PlistIResultEndReason::KeyEnd, "b;");
    expect("b;", "b", None, PlistIResultEndReason::ValueEnd, "");
    expect("=", "", None, PlistIResultEndReason::KeyEnd, "");
    expect("  ;x", "", None, PlistIResultEndReason::ValueEnd, "x");
}

#[test]
fn text_ends_at_the_first_space() {
    expect("one two three;", "one", None, PlistIResultEndReason::ValueEnd, "");
    expect("a/b c;", "a/b", None, PlistIResultEndReason::ValueEnd, "");
}

#[test]
fn containers_and_their_ends() {
    expect("{ a", "", None, PlistIResultEndReason::ArrayBegin, " a");
    expect("( a", "", None, PlistIResultEndReason::TupleBegin, " a");
    expect("};\n\tx", "", None, PlistIResultEndReason::ArrayEnd, "\n\tx");
    expect(");\n\tx", "", None, PlistIResultEndReason::TupleEnd, "\n\tx");
    expect(") x", "", None, PlistIResultEndReason::TupleEnd, " x");
    expect("}\n", "", None, PlistIResultEndReason::Eof, "\n");
    expect("} ;", "", None, PlistIResultEndReason::Eof, " ;");
    expect("last );", "last", None, PlistIResultEndReason::TupleEnd, "");
    expect("a, b,", "a", None, PlistIResultEndReason::TupleValueEnd, " b,");
}

#[test]
fn end_of_text() {
    expect("", "", None, PlistIResultEndReason::Eof, "");
    expect("  \n\t ", "", None, PlistIResultEndReason::Eof, "");
    expect("  word", "", None, PlistIResultEndReason::Eof, "word");
    expect("\"open; quote", "", None, PlistIResultEndReason::Eof, "\"open; quote");
    expect("a /* open; comment", "", None, PlistIResultEndReason::Eof, "a /* open; comment");
}

#[test]
fn tab_and_line_end_inside_a_token() {
    expect("key\t= 1;", "key", None, PlistIResultEndReason::LineFeed, "= 1;");
    expect("key\r\n= 1;", "key", None, PlistIResultEndReason::LineFeed, "\n= 1;");
    expect("a b\n;", "a", None, PlistIResultEndReason::LineFeed, ";");
}

#[test]
fn comments_beside_the_text() {
    expect("A /* a.h */ = {", "A", Some("a.h"), PlistIResultEndReason::KeyEnd, " {");
    expect("v /* c d */;", "v", Some("c d"), PlistIResultEndReason::ValueEnd, "");
    expect("v/*c d */;", "v", Some("c d"), PlistIResultEndReason::ValueEnd, "");
    expect("v /*  spaced   */,", "v", Some("spaced"), PlistIResultEndReason::TupleValueEnd, "");
    expect("v /* a; b = (c) */;", "v", Some("a; b = (c)"), PlistIResultEndReason::ValueEnd, "");
    expect("v /* \"q */;", "v", Some("\"q"), PlistIResultEndReason::ValueEnd, "");
    expect("/* only */;", "", Some("only"), PlistIResultEndReason::ValueEnd, "");
}

#[test]
fn comment_without_text() {
    expect("v /*  */;", "v", Some(""), PlistIResultEndReason::ValueEnd, "");
    expect("v /**/;", "v", Some(""), PlistIResultEndReason::ValueEnd, "");
    expect("v /* */;", "v", Some(""), PlistIResultEndReason::ValueEnd, "");
}

#[test]
fn comment_text_ends_one_position_before_the_star() {
    expect("v /*tight*/;", "v", Some("tigh"), PlistIResultEndReason::ValueEnd, "");
    expect("v /* x*/;", "v", Some(""), PlistIResultEndReason::ValueEnd, "");
}

#[test]
fn two_comments_are_one() {
    expect("v /* a */ /* b */;", "v", Some("a */ /* b"), PlistIResultEndReason::ValueEnd, "");
}

#[test]
fn slash_that_opens_no_comment() {
    expect("a/b/c;", "a/b/c", None, PlistIResultEndReason::ValueEnd, "");
    expect("a//b;", "a//b", None, PlistIResultEndReason::ValueEnd, "");
    expect("a/ *b;", "a/", None, PlistIResultEndReason::ValueEnd, "");
    expect("/ *;", "/", None, PlistIResultEndReason::ValueEnd, "");
}

#[test]
fn comment_behind_a_slash() {
    expect("x//* a;b */ = 1;", "x/", Some("a;b"), PlistIResultEndReason::KeyEnd, " 1;");
    expect("a//*b*/;", "a/", Some(""), PlistIResultEndReason::ValueEnd, "");
    expect("a///* (b) */,", "a//", Some("(b)"), PlistIResultEndReason::TupleValueEnd, "");
    expect("//* {c} */;", "/", Some("{c}"), PlistIResultEndReason::ValueEnd, "");
    expect("a//*b;", "", None, PlistIResultEndReason::Eof, "a//*b;");
}

#[test]
fn quotes_hide_delimiters_and_spaces() {
    expect("\"a b; c\" = 1;", "\"a b; c\"", None, PlistIResultEndReason::KeyEnd, " 1;");
    expect("\"a \\\" ; b\";x", "\"a \\\" ; b\"", None, PlistIResultEndReason::ValueEnd, "x");
    expect("\"/* no comment */\";", "\"/* no comment */\"", None, PlistIResultEndReason::ValueEnd, "");
    expect("\"\";", "\"\"", None, PlistIResultEndReason::ValueEnd, "");
    expect("\\\"a;", "\\\"a", None, PlistIResultEndReason::ValueEnd, "");
}

#[test]
fn banners_are_tokens() {
    expect(
        "\n/* Begin PBXBuildFile section */\n\t\tA = 1;",
        "PBXBuildFile",
        None,
        PlistIResultEndReason::SectionBegin,
        "A = 1;",
    );
    expect(
        "/* End PBXBuildFile section */\n\t};",
        "PBXBuildFile",
        None,
        PlistIResultEndReason::SectionEnd,
        "};",
    );
    expect("/* Begin  two words  section*/x", "two words", None, PlistIResultEndReason::SectionBegin, "x");
    expect("/* Begin section */", "", None, PlistIResultEndReason::SectionBegin, "");
    expect("/* Begin intersection */", "intersection", None, PlistIResultEndReason::SectionBegin, "");
    expect("/* Begin plain */", "plain", None, PlistIResultEndReason::SectionBegin, "");
    expect("/* Beginning */;", "ning", None, PlistIResultEndReason::SectionBegin, ";");
    expect("/* End*/", "", None, PlistIResultEndReason::SectionEnd, "");
}

#[test]
fn banner_that_is_not_closed_is_a_comment() {
    expect("/* Begin X section ;", "", None, PlistIResultEndReason::Eof, "/* Begin X section ;");
    expect("/* begin x */;", "", Some("begin x"), PlistIResultEndReason::ValueEnd, "");
}

#[test]
fn section_name_of_a_slice() {
    let input = chars("  /* Begin PBXGroup section */ \n rest");
    match input.as_slice().get_section_name(false) {
        Some((rest, name)) => {
            assert_eq!(name, "PBXGroup");
            assert_eq!(text(rest), "rest");
        }
        None => panic!("no banner"),
    }
    assert!(input.as_slice().get_section_name(true).is_none());
    let input = chars("/* End PBXGroup section */");
    assert!(input.as_slice().get_section_name(false).is_none());
    match input.as_slice().get_section_name(true) {
        Some((rest, name)) => {
            assert_eq!(name, "PBXGroup");
            assert_eq!(text(rest), "");
        }
        None => panic!("no banner"),
    }
    let input = chars("x /* End PBXGroup section */");
    assert!(input.as_slice().get_section_name(true).is_none());
    let input = chars("/* End PBXGroup section ");
    assert!(input.as_slice().get_section_name(true).is_none());
}

#[test]
fn header_of_a_slice() {
    let input = chars("// !$*UTF8*$!\n{\n\ta = 1;\n}\n");
    assert_eq!(input.as_slice().validate_header().map(text), Some("a = 1;\n}\n".to_string()));
    let input = chars("// !$*UTF8*$!{x");
    assert_eq!(input.as_slice().validate_header().map(text), Some("x".to_string()));
    let input = chars("// !$*UTF8*$!\n");
    assert!(input.as_slice().validate_header().is_none());
    let input = chars("// !$*UTF8*$");
    assert!(input.as_slice().validate_header().is_none());
    let input = chars("// !$*UTF8*$!\n x {");
    assert!(input.as_slice().validate_header().is_none());
}

#[test]
fn slice_of_positions() {
    let mut slice = StringItemSlice::new();
    assert_eq!((slice.begin, slice.end, slice.begin_set, slice.end_set), (0, 0, false, false));
    assert!(!slice.is_set());
    assert!(!slice.is_incomplete());
    slice.set_begin(3);
    assert!(!slice.is_set());
    assert!(slice.is_incomplete());
    assert_eq!((slice.begin, slice.begin_set), (3, true));
    slice.set_end(7);
    assert!(slice.is_set());
    assert!(!slice.is_incomplete());
    assert_eq!((slice.end, slice.end_set), (7, true));
    assert_eq!((slice.first(), slice.behind()), (3, 7));
    let stale = StringItemSlice { begin: 5, end: 9, begin_set: false, end_set: false };
    assert_eq!((stale.first(), stale.behind()), (0, 0));
    let mut other = StringItemSlice::new();
    other.set_end(2);
    assert!(other.is_incomplete());
    assert!(!other.is_set());
}

#[test]
fn scan_state_step_by_step() {
    let input = chars("ab \"c d\" /* e */;");
    let mut state = ScanState::new();
    assert!(state.open_to_delimiters());
    state.step(&input, 0);
    state.step(&input, 1);
    assert_eq!((state.value_begin_end.begin, state.value_begin_end.begin_set), (0, true));
    assert!(!state.value_begin_end.end_set);
    state.step(&input, 2);
    assert_eq!((state.value_begin_end.end, state.value_begin_end.end_set), (2, true));
    state.step(&input, 3);
    assert!(state.is_inside_quote);
    assert!(!state.open_to_delimiters());
    for i in 4..8 {
        state.step(&input, i);
    }
    assert!(!state.is_inside_quote);
    state.step(&input, 8);
    state.step(&input, 9);
    assert_eq!(state.is_parsing_comment, 1);
    state.step(&input, 10);
    assert_eq!(state.is_parsing_comment, 2);
    assert!(!state.open_to_delimiters());
    for i in 11..15 {
        state.step(&input, i);
    }
    assert_eq!(state.is_parsing_comment, 0);
    assert_eq!((state.comment_begin_end.begin, state.comment_begin_end.end), (12, 13));
    state.step(&input, 15);
    assert!(state.open_to_delimiters());
    let (rest, (value, comment, reason)) = state.token_at(&input, 16);
    assert_eq!(value, "ab");
    assert_eq!(comment, Some("e".to_string()));
    assert_eq!(reason, PlistIResultEndReason::ValueEnd);
    assert!(rest.is_empty());
}

#[test]
fn blank_space() {
    for c in [' ', '\t', '\r', '\n'] {
        assert!(multispace(c));
        assert!(whitespace(c));
    }
    for c in ['\u{B}', '\u{C}', '\u{85}', '\u{A0}', '\u{1680}', '\u{2000}', '\u{2005}', '\u{200A}', '\u{2028}', '\u{2029}', '\u{202F}', '\u{205F}', '\u{3000}'] {
        assert!(!multispace(c), "{:?}", c);
        assert!(whitespace(c), "{:?}", c);
        assert!(c.is_whitespace(), "{:?}", c);
    }
    for c in ['a', '\u{8}', '\u{E}', '\u{200B}', '\u{180E}', '\u{FEFF}', '\u{1F}', '_'] {
        assert!(!multispace(c), "{:?}", c);
        assert!(!whitespace(c), "{:?}", c);
        assert!(!c.is_whitespace(), "{:?}", c);
    }
}

#[test]
fn whitespace_is_what_trim_removes() {
    for code in 0..0x3100u32 {
        if let Some(c) = char::from_u32(code) {
            assert_eq!(whitespace(c), c.is_whitespace(), "{:?}", c);
        }
    }
}

#[test]
fn trimming_and_skipping() {
    assert_eq!(text(trim_chars(&chars(" \t a b \u{A0}\n"))), "a b");
    assert_eq!(text(trim_chars(&chars("ab"))), "ab");
    assert_eq!(text(trim_chars(&chars("  \n "))), "");
    assert_eq!(text(trim_chars(&chars(""))), "");
    assert_eq!(text(skip_blank(&chars(" \r\n\t x y "))), "x y ");
    assert_eq!(text(skip_blank(&chars("\u{A0}x"))), "\u{A0}x");
    assert_eq!(text(skip_blank(&chars("   "))), "");
}

#[test]
fn searching() {
    let input = chars("ab*/cd*/");
    assert_eq!(find(&input, 0, "*/"), Some(2));
    assert_eq!(find(&input, 2, "*/"), Some(2));
    assert_eq!(find(&input, 3, "*/"), Some(6));
    assert_eq!(find(&input, 7, "*/"), None);
    assert_eq!(find(&input, 20, "*/"), None);
    assert_eq!(find(&input, 8, ""), Some(8));
    assert!(matches_at(&input, 4, "cd"));
    assert!(!matches_at(&input, 5, "cd"));
    assert!(!matches_at(&input, 7, "/x"));
    assert!(!matches_at(&input, 9, ""));
    assert!(matches_at(&input, 8, ""));
}

#[test]
fn characters_and_back() {
    assert_eq!(to_chars("a日b"), vec!['a', '日', 'b']);
    assert_eq!(to_chars(""), Vec::<char>::new());
    assert_eq!(from_chars(&['x', 'ÿ', '\n']), "xÿ\n");
    assert_eq!(from_chars(&[]), "");
}

#[test]
fn remove_all_takes_the_last_first() {
    let mut v = vec![1, 2, 3];
    assert_eq!(v.remove_all(), vec![3, 2, 1]);
    assert!(v.is_empty());
    assert_eq!(v.remove_all(), Vec::<i32>::new());
}

#[test]
fn nodes_from_a_token() {
    let token = ("name", Some("c".to_string()), PlistIResultEndReason::KeyEnd);
    assert_eq!(
        PlistKey::from_plist_result(&token),
        PlistKey { name: "name".to_string(), comment: Some("c".to_string()) }
    );
    assert_eq!(
        PlistValue::from_plist_result(&token),
        PlistValue { value: "name".to_string(), comment: Some("c".to_string()) }
    );
    let token = ("v", None, PlistIResultEndReason::TupleValueEnd);
    assert_eq!(
        PlistTupleValue::from_plist_result(&token),
        PlistTupleValue { value: "v".to_string(), comment: None }
    );
}

#[test]
fn node_from_a_token_with_what_is_left() {
    let rest = chars(" value;");
    let scanned = (rest.as_slice(), ("key", Some("c".to_string()), PlistIResultEndReason::KeyEnd));
    let (left, key) = scanned.get_plist_item::<PlistKey>();
    assert_eq!(text(left), " value;");
    assert_eq!(*key, PlistKey { name: "key".to_string(), comment: Some("c".to_string()) });
}

#[test]
fn builder_token_by_token() {
    let mut builder = TreeBuilder::new();
    assert_eq!(builder.depth(), 0);
    assert!(!builder.apply(String::new(), None, PlistIResultEndReason::ArrayEnd));
    assert!(!builder.apply("v".to_string(), None, PlistIResultEndReason::ValueEnd));
    assert!(builder.apply("k".to_string(), None, PlistIResultEndReason::KeyEnd));
    assert!(!builder.apply(String::new(), None, PlistIResultEndReason::ArrayEnd));
    assert_eq!(builder.keys.len(), 1);
    assert!(builder.apply(String::new(), None, PlistIResultEndReason::ArrayBegin));
    assert_eq!(builder.depth(), 1);
    assert!(builder.apply("a".to_string(), None, PlistIResultEndReason::KeyEnd));
    assert!(builder.apply("1".to_string(), Some("one".to_string()), PlistIResultEndReason::ValueEnd));
    assert!(builder.apply(String::new(), None, PlistIResultEndReason::ArrayEnd));
    assert_eq!(builder.depth(), 0);
    assert!(builder.keys.is_empty());
    assert_eq!(
        builder.lists,
        vec![vec![PlistKeyValueItem::create_array_type(
            "k",
            None,
            vec![PlistKeyValueItem::create_value_type("a", None, "1", Some("one"))],
        )]]
    );
    assert!(builder.apply("S".to_string(), None, PlistIResultEndReason::SectionBegin));
    assert_eq!(builder.depth(), 1);
    assert!(builder.apply("t".to_string(), None, PlistIResultEndReason::TupleValueEnd));
    assert!(!builder.apply("T".to_string(), None, PlistIResultEndReason::SectionEnd));
    assert_eq!(builder.depth(), 1);
    assert!(builder.apply("S".to_string(), None, PlistIResultEndReason::SectionEnd));
    assert_eq!(builder.lists[0].len(), 2);
    match &builder.lists[0][1] {
        PlistItem::SectionItem(section) => {
            assert_eq!(section.name, "S");
            assert_eq!(
                section.items,
                vec![PlistItem::TupleValue(PlistTupleValue { value: "t".to_string(), comment: None })]
            );
        }
        other => panic!("{:?}", other),
    }
}
