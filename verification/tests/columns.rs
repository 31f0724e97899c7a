use datafusion::arrow::array::{Array, StringArray};
use regexp_extract::{regexp_extract, TextColumn};

fn text_column(values: Vec<Option<&str>>) -> TextColumn {
    TextColumn { array: StringArray::from(values) }
}

fn texts(values: Vec<Option<&str>>) -> StringArray {
    StringArray::from(values)
}

#[test]
fn test_regexp_extract_basic() {
    let input = text_column(vec![Some("hello123"), Some("world456"), None]);
    let pattern = r"([a-z]+)(\d+)";

    // Group 0 is the whole match.
    let result = regexp_extract(&input, pattern, 0).unwrap();
    assert_eq!(result.array.value(0), "hello123");
    assert_eq!(result.array.value(1), "world456");
    assert!(result.array.is_null(2));

    // Group 1 holds the letters.
    let result = regexp_extract(&input, pattern, 1).unwrap();
    assert_eq!(result.array.value(0), "hello");
    assert_eq!(result.array.value(1), "world");
    assert!(result.array.is_null(2));

    // Group 2 holds the digits.
    let result = regexp_extract(&input, pattern, 2).unwrap();
    assert_eq!(result.array.value(0), "123");
    assert_eq!(result.array.value(1), "456");
    assert!(result.array.is_null(2));
}

#[test]
fn test_regexp_extract_no_match() {
    let input = text_column(vec![Some("abc"), Some("def")]);
    let pattern = r"\d+";
    let result = regexp_extract(&input, pattern, 0).unwrap();
    // No match gives the empty text, not null.
    assert_eq!(result.array.value(0), "");
    assert_eq!(result.array.value(1), "");
}

#[test]
fn test_regexp_extract_invalid_group() {
    let input = text_column(vec![Some("test123")]);
    let pattern = r"(\w+)";
    let result = regexp_extract(&input, pattern, 99).unwrap();
    // A group index beyond the pattern's groups gives the empty text.
    assert_eq!(result.array.value(0), "");
}

#[test]
fn test_regexp_extract_optional_groups() {
    let input = text_column(vec![Some("abc123"), Some("def"), Some("456")]);
    let pattern = r"([a-z]+)?(\d+)?";

    let result = regexp_extract(&input, pattern, 1).unwrap();
    assert_eq!(result.array.value(0), "abc");
    assert_eq!(result.array.value(1), "def");
    assert_eq!(result.array.value(2), "");

    let result = regexp_extract(&input, pattern, 2).unwrap();
    assert_eq!(result.array.value(0), "123");
    assert_eq!(result.array.value(1), "");
    assert_eq!(result.array.value(2), "456");
}

#[test]
fn test_regexp_extract_special_chars() {
    let input = text_column(vec![Some("test.123"), Some("test-456"), Some("test_789")]);
    let pattern = r"test(.)(\d+)";

    let result = regexp_extract(&input, pattern, 1).unwrap();
    assert_eq!(result.array.value(0), ".");
    assert_eq!(result.array.value(1), "-");
    assert_eq!(result.array.value(2), "_");
}

#[test]
fn test_regexp_extract_empty_input() {
    let input = text_column(vec![Some("")]);
    let pattern = r".*";
    let result = regexp_extract(&input, pattern, 0).unwrap();
    assert_eq!(result.array.value(0), "");
}

#[test]
fn test_regexp_extract_number_range() {
    let input = text_column(vec![Some("100-200")]);
    let result = regexp_extract(&input, r"(\d+)-(\d+)", 1).unwrap();
    assert_eq!(result.array.value(0), "100");
}

#[test]
fn test_regexp_extract_no_digits() {
    let input = text_column(vec![Some("foo")]);
    let result = regexp_extract(&input, r"(\d+)", 1).unwrap();
    assert_eq!(result.array.value(0), "");
}

#[test]
fn test_regexp_extract_missing_optional_group() {
    let input = text_column(vec![Some("aaaac")]);
    let result = regexp_extract(&input, "(a+)(b)?(c)", 2).unwrap();
    assert_eq!(result.array.value(0), "");
}

#[test]
fn second_group_of_each_row() {
    let input = text_column(vec![Some("hello123"), Some("world456"), None]);
    let result = regexp_extract(&input, r"([a-z]+)(\d+)", 2).unwrap();
    assert_eq!(result.array, texts(vec![Some("123"), Some("456"), None]));
}

#[test]
fn first_group_of_each_row() {
    let input = text_column(vec![Some("hello123"), Some("world456"), None]);
    let result = regexp_extract(&input, r"([a-z]+)(\d+)", 1).unwrap();
    assert_eq!(result.array, texts(vec![Some("hello"), Some("world"), None]));
}

#[test]
fn rows_without_a_match_are_empty_not_null() {
    let input = text_column(vec![Some("abc"), Some("def")]);
    let result = regexp_extract(&input, r"\d+", 0).unwrap();
    assert_eq!(result.array, texts(vec![Some(""), Some("")]));
}

#[test]
fn optional_groups_row_by_row() {
    let input = text_column(vec![Some("abc123"), Some("def"), Some("456")]);
    let first = regexp_extract(&input, r"([a-z]+)?(\d+)?", 1).unwrap();
    assert_eq!(first.array, texts(vec![Some("abc"), Some("def"), Some("")]));
    let second = regexp_extract(&input, r"([a-z]+)?(\d+)?", 2).unwrap();
    assert_eq!(second.array, texts(vec![Some("123"), Some(""), Some("456")]));
}

#[test]
fn group_that_took_no_part_is_empty() {
    let input = text_column(vec![Some("aaaac")]);
    let pattern = "(a+)(b)?(c)";
    assert_eq!(regexp_extract(&input, pattern, 2).unwrap().array, texts(vec![Some("")]));
    // The match as a whole succeeded, and its other groups are there.
    assert_eq!(regexp_extract(&input, pattern, 0).unwrap().array, texts(vec![Some("aaaac")]));
    assert_eq!(regexp_extract(&input, pattern, 1).unwrap().array, texts(vec![Some("aaaa")]));
    assert_eq!(regexp_extract(&input, pattern, 3).unwrap().array, texts(vec![Some("c")]));
}

#[test]
fn group_index_out_of_range_is_empty() {
    let input = text_column(vec![Some("test123")]);
    assert_eq!(regexp_extract(&input, r"(\w+)", 99).unwrap().array, texts(vec![Some("")]));
    assert_eq!(regexp_extract(&input, r"(\w+)", 2).unwrap().array, texts(vec![Some("")]));
    assert_eq!(regexp_extract(&input, r"(\w+)", 1).unwrap().array, texts(vec![Some("test123")]));
    assert_eq!(regexp_extract(&input, r"(\w+)", usize::MAX).unwrap().array, texts(vec![Some("")]));
}

#[test]
fn output_has_the_length_and_nulls_of_the_input() {
    let input = text_column(vec![
        None,
        Some("a1"),
        None,
        None,
        Some("no digits"),
        Some(""),
        Some("b22"),
        None,
    ]);
    for group_index in [0usize, 1, 2, 3, 50] {
        let output = regexp_extract(&input, r"([a-z])(\d+)", group_index).unwrap();
        assert_eq!(output.array.len(), input.array.len());
        assert_eq!(output.array.null_count(), 4);
        for row in 0..input.array.len() {
            assert_eq!(output.array.is_null(row), input.array.is_null(row));
        }
    }
}

#[test]
fn empty_column_gives_empty_column() {
    let input = text_column(vec![]);
    let output = regexp_extract(&input, r"(\d+)", 1).unwrap();
    assert!(output.array.is_empty());
}

#[test]
fn column_of_nulls_stays_null() {
    let input = text_column(vec![None, None, None]);
    let output = regexp_extract(&input, r".*", 0).unwrap();
    assert_eq!(output.array, texts(vec![None, None, None]));
}

#[test]
fn null_and_empty_text_are_kept_apart() {
    let input = text_column(vec![Some(""), None]);
    let output = regexp_extract(&input, r"x", 0).unwrap();
    assert!(output.array.is_valid(0));
    assert_eq!(output.array.value(0), "");
    assert!(output.array.is_null(1));
}

#[test]
fn group_zero_is_the_whole_match() {
    let input = text_column(vec![Some("  abc123-def"), Some("x9"), Some("nothing")]);
    let output = regexp_extract(&input, r"[a-z]+([0-9]+)", 0).unwrap();
    assert_eq!(output.array, texts(vec![Some("abc123"), Some("x9"), Some("")]));
}

#[test]
fn search_is_not_anchored() {
    let input = text_column(vec![Some("order 4711 shipped"), Some("4711"), Some("id=4711;")]);
    let output = regexp_extract(&input, r"\d+", 0).unwrap();
    assert_eq!(output.array, texts(vec![Some("4711"), Some("4711"), Some("4711")]));
}

#[test]
fn anchors_in_the_pattern_are_honoured() {
    let input = text_column(vec![Some("order 4711"), Some("4711 order"), Some("4711")]);
    let output = regexp_extract(&input, r"^\d+$", 0).unwrap();
    assert_eq!(output.array, texts(vec![Some(""), Some(""), Some("4711")]));
    let output = regexp_extract(&input, r"^(\d+)", 1).unwrap();
    assert_eq!(output.array, texts(vec![Some(""), Some("4711"), Some("4711")]));
}

#[test]
fn first_match_in_the_row_is_taken() {
    let input = text_column(vec![Some("a1 b2 c3")]);
    assert_eq!(regexp_extract(&input, r"([a-z])(\d)", 0).unwrap().array, texts(vec![Some("a1")]));
    assert_eq!(regexp_extract(&input, r"([a-z])(\d)", 2).unwrap().array, texts(vec![Some("1")]));
    assert_eq!(regexp_extract(&input, r"([b-z])(\d)", 1).unwrap().array, texts(vec![Some("b")]));
}

#[test]
fn earlier_alternative_wins() {
    let input = text_column(vec![Some("ab")]);
    assert_eq!(regexp_extract(&input, r"a|ab", 0).unwrap().array, texts(vec![Some("a")]));
    assert_eq!(regexp_extract(&input, r"ab|a", 0).unwrap().array, texts(vec![Some("ab")]));
}

#[test]
fn groups_are_numbered_by_opening_parenthesis() {
    let input = text_column(vec![Some("xyz")]);
    let pattern = r"((x)(y))(z)";
    assert_eq!(regexp_extract(&input, pattern, 1).unwrap().array, texts(vec![Some("xy")]));
    assert_eq!(regexp_extract(&input, pattern, 2).unwrap().array, texts(vec![Some("x")]));
    assert_eq!(regexp_extract(&input, pattern, 3).unwrap().array, texts(vec![Some("y")]));
    assert_eq!(regexp_extract(&input, pattern, 4).unwrap().array, texts(vec![Some("z")]));
    assert_eq!(regexp_extract(&input, pattern, 5).unwrap().array, texts(vec![Some("")]));
}

#[test]
fn non_capturing_groups_are_not_counted() {
    let input = text_column(vec![Some("ab12")]);
    let pattern = r"(?:[a-z]+)(\d+)";
    assert_eq!(regexp_extract(&input, pattern, 1).unwrap().array, texts(vec![Some("12")]));
    assert_eq!(regexp_extract(&input, pattern, 2).unwrap().array, texts(vec![Some("")]));
}

#[test]
fn text_beyond_ascii_is_extracted_whole() {
    let input = text_column(vec![Some("größe: 42 µm"), Some("naïve café"), None]);
    let output = regexp_extract(&input, r"(\p{L}+)\W+(\w+)", 1).unwrap();
    assert_eq!(output.array, texts(vec![Some("größe"), Some("naïve"), None]));
    let output = regexp_extract(&input, r"(\p{L}+)\W+(\w+)", 2).unwrap();
    assert_eq!(output.array, texts(vec![Some("42"), Some("café"), None]));
}

#[test]
fn same_call_twice_gives_the_same_column() {
    let input = text_column(vec![Some("k1=v1"), None, Some("k2"), Some("=v3")]);
    let first = regexp_extract(&input, r"(\w+)=(\w+)", 2).unwrap();
    let second = regexp_extract(&input, r"(\w+)=(\w+)", 2).unwrap();
    assert_eq!(first.array, second.array);
    assert_eq!(first.array, texts(vec![Some("v1"), None, Some(""), Some("")]));
}

#[test]
fn input_is_left_as_it_was() {
    let input = text_column(vec![Some("abc123"), None]);
    let before = input.array.clone();
    let _ = regexp_extract(&input, r"(\d+)", 1).unwrap();
    assert_eq!(input.array, before);
}
