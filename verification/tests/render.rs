use textfmt::align::pad_start;
use textfmt::digits::render_i64;
use textfmt::digits::render_u64;
use textfmt::list::List;
use textfmt::records::Complex;
use textfmt::records::Decimal;
use textfmt::records::Deep;
use textfmt::records::MinMax;
use textfmt::records::Person;
use textfmt::records::Point2D;
use textfmt::records::Structure;

#[test]
fn empty_list_renders_as_bare_brackets() {
    let v = List(vec![]);
    assert_eq!(v.display_string(), "[]");
}

#[test]
fn list_of_eight_renders_with_separators() {
    let v = List(vec![1, 2, 3, 4, 5, 6, 7, 8]);
    assert_eq!(v.display_string(), "[1, 2, 3, 4, 5, 6, 7, 8]");
}

#[test]
fn unordered_list_keeps_its_order() {
    let v = List(vec![4, 6, 7, 2, 5, 8]);
    assert_eq!(v.display_string(), "[4, 6, 7, 2, 5, 8]");
}

#[test]
fn single_element_list_has_no_separator() {
    let v = List(vec![5]);
    assert_eq!(v.display_string(), "[5]");
}

#[test]
fn negative_elements_render_with_signs() {
    let v = List(vec![-1, 0, -20]);
    assert_eq!(v.display_string(), "[-1, 0, -20]");
}

#[test]
fn minmax_display_is_a_tuple() {
    let minmax = MinMax(0, 14);
    assert_eq!(minmax.display_string(), "(0, 14)");
}

#[test]
fn minmax_debug_is_structural() {
    let minmax = MinMax(0, 14);
    assert_eq!(minmax.debug_string(), "MinMax(0, 14)");
}

#[test]
fn minmax_ranges_show_signs() {
    let big_range = MinMax(-300, 300);
    let small_range = MinMax(-3, 3);
    assert_eq!(big_range.display_string(), "(-300, 300)");
    assert_eq!(small_range.display_string(), "(-3, 3)");
}

#[test]
fn point_display_names_its_fields() {
    let point = Point2D { x: Decimal { tenths: 33 }, y: Decimal { tenths: 72 } };
    assert_eq!(point.display_string(), "x: 3.3, y: 7.2");
}

#[test]
fn point_debug_is_structural() {
    let point = Point2D { x: Decimal { tenths: 33 }, y: Decimal { tenths: 72 } };
    assert_eq!(point.debug_string(), "Point2D { x: 3.3, y: 7.2 }");
}

#[test]
fn complex_display_is_symbolic() {
    let cmpl = Complex { re: Decimal { tenths: 13 }, im: Decimal { tenths: 27 } };
    assert_eq!(cmpl.display_string(), "1.3 + 2.7i");
}

#[test]
fn complex_debug_single_line() {
    let cmpl = Complex { re: Decimal { tenths: 13 }, im: Decimal { tenths: 27 } };
    assert_eq!(cmpl.debug_string(), "Complex { re: 1.3, im: 2.7 }");
}

#[test]
fn complex_debug_pretty_is_indented() {
    let cmpl = Complex { re: Decimal { tenths: 13 }, im: Decimal { tenths: 27 } };
    assert_eq!(cmpl.debug_string_pretty(), "Complex {\n    re: 1.3,\n    im: 2.7,\n}");
}

#[test]
fn structure_debug_exposes_the_field() {
    assert_eq!(Structure(3).debug_string(), "Structure(3)");
}

#[test]
fn deep_debug_nests_the_inner_rendering() {
    assert_eq!(Deep(Structure(7)).debug_string(), "Deep(Structure(7))");
}

#[test]
fn person_pretty_debug_is_multi_line() {
    let peter = Person {
        name: String::from("Peter"),
        fam: String::from("Petrov"),
        job: String::from("programmer"),
        age: 27,
    };
    assert_eq!(
        peter.debug_string_pretty(),
        "Person {\n    name: \"Peter\",\n    fam: \"Petrov\",\n    job: \"programmer\",\n    age: 27,\n}"
    );
}

#[test]
fn decimal_renders_small_and_negative_values() {
    assert_eq!(Decimal { tenths: 0 }.display_string(), "0.0");
    assert_eq!(Decimal { tenths: 5 }.display_string(), "0.5");
    assert_eq!(Decimal { tenths: -5 }.display_string(), "-0.5");
    assert_eq!(Decimal { tenths: -33 }.display_string(), "-3.3");
    assert_eq!(Decimal { tenths: 100 }.display_string(), "10.0");
}

#[test]
fn seventeen_in_three_bases() {
    assert_eq!(render_u64(17, 8), "21");
    assert_eq!(render_u64(17, 2), "10001");
    assert_eq!(render_u64(17, 16), "11");
}

#[test]
fn each_base_renders_its_own_base_as_one_zero() {
    assert_eq!(render_u64(8, 8), "10");
    assert_eq!(render_u64(2, 2), "10");
    assert_eq!(render_u64(16, 16), "10");
}

#[test]
fn hex_uses_letter_digits() {
    assert_eq!(render_u64(255, 16), "ff");
    assert_eq!(render_u64(0xdead, 16), "dead");
}

#[test]
fn zero_is_a_single_digit_in_any_base() {
    assert_eq!(render_u64(0, 2), "0");
    assert_eq!(render_u64(0, 10), "0");
    assert_eq!(render_u64(0, 16), "0");
}

#[test]
fn signed_rendering_covers_the_extremes() {
    assert_eq!(render_i64(31), "31");
    assert_eq!(render_i64(-300), "-300");
    assert_eq!(render_i64(i64::MIN), "-9223372036854775808");
    assert_eq!(render_i64(i64::MAX), "9223372036854775807");
}

#[test]
fn padding_right_aligns_with_spaces() {
    assert_eq!(pad_start("1", 6, " "), "     1");
}

#[test]
fn padding_right_aligns_with_zeros() {
    assert_eq!(pad_start("1", 6, "0"), "000001");
}

#[test]
fn wide_text_is_not_truncated_by_padding() {
    assert_eq!(pad_start("123", 2, "0"), "123");
    assert_eq!(pad_start("123", 3, "0"), "123");
}

#[test]
fn padding_an_empty_text_is_all_fill() {
    assert_eq!(pad_start("", 3, "x"), "xxx");
}
