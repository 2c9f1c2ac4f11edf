use fitness_core::list::ListQuery;
use fitness_core::param::{
    extract_page, extract_param, extract_size, get_slug, list_query, lookup, parse_positive,
    Params, DEFAULT_PAGE, DEFAULT_SIZE, MAX_SIZE,
};

fn params(pairs: &[(&str, &str)]) -> Params {
    pairs.iter().map(|(name, text)| (name.to_string(), text.to_string())).collect()
}

#[test]
fn parse_positive_reads_decimal_digits() {
    assert_eq!(parse_positive("1"), Some(1));
    assert_eq!(parse_positive("20"), Some(20));
    assert_eq!(parse_positive("007"), Some(7));
    assert_eq!(parse_positive("9223372036854775807"), Some(i64::MAX));
}

#[test]
fn parse_positive_rejects_what_is_no_positive_number() {
    assert_eq!(parse_positive(""), None);
    assert_eq!(parse_positive("0"), None);
    assert_eq!(parse_positive("000"), None);
    assert_eq!(parse_positive("-3"), None);
    assert_eq!(parse_positive("+3"), None);
    assert_eq!(parse_positive("3 "), None);
    assert_eq!(parse_positive("1e3"), None);
    assert_eq!(parse_positive("12a"), None);
    assert_eq!(parse_positive("٣"), None);
    assert_eq!(parse_positive("9223372036854775808"), None);
    assert_eq!(parse_positive("99999999999999999999999999"), None);
}

#[test]
fn page_defaults_to_the_first() {
    assert_eq!(DEFAULT_PAGE, 1);
    assert_eq!(extract_page(&params(&[])), 1);
    assert_eq!(extract_page(&params(&[("page", "")])), 1);
    assert_eq!(extract_page(&params(&[("page", "0")])), 1);
    assert_eq!(extract_page(&params(&[("page", "-2")])), 1);
    assert_eq!(extract_page(&params(&[("page", "two")])), 1);
    assert_eq!(extract_page(&params(&[("size", "4")])), 1);
}

#[test]
fn page_is_read_when_it_is_a_positive_number() {
    assert_eq!(extract_page(&params(&[("page", "1")])), 1);
    assert_eq!(extract_page(&params(&[("search", "x"), ("page", "37")])), 37);
    assert_eq!(extract_page(&params(&[("page", "1000000")])), 1_000_000);
}

#[test]
fn size_defaults_and_is_capped() {
    assert_eq!(DEFAULT_SIZE, 20);
    assert_eq!(MAX_SIZE, 100);
    assert_eq!(extract_size(&params(&[])), 20);
    assert_eq!(extract_size(&params(&[("size", "abc")])), 20);
    assert_eq!(extract_size(&params(&[("size", "0")])), 20);
    assert_eq!(extract_size(&params(&[("size", "1")])), 1);
    assert_eq!(extract_size(&params(&[("size", "50")])), 50);
    assert_eq!(extract_size(&params(&[("size", "100")])), 100);
    assert_eq!(extract_size(&params(&[("size", "101")])), 100);
    assert_eq!(extract_size(&params(&[("size", "9223372036854775807")])), 100);
    assert_eq!(extract_size(&params(&[("size", "9223372036854775808")])), 20);
}

#[test]
fn text_parameters_default_to_empty() {
    let given = params(&[("search", "leg day"), ("order", "-created_at")]);
    assert_eq!(extract_param(&given, "search"), "leg day");
    assert_eq!(extract_param(&given, "order"), "-created_at");
    assert_eq!(extract_param(&given, "page"), "");
    assert_eq!(extract_param(&params(&[]), "search"), "");
}

#[test]
fn lookup_takes_the_first_pair_of_a_name() {
    let given = params(&[("a", "1"), ("b", "2"), ("a", "3")]);
    assert_eq!(lookup(&given, "a"), Some(&"1".to_string()));
    assert_eq!(lookup(&given, "b"), Some(&"2".to_string()));
    assert_eq!(lookup(&given, "c"), None);
    assert_eq!(lookup(&given, ""), None);
}

#[test]
fn slug_is_read_from_the_address() {
    assert_eq!(get_slug(&params(&[("slug", "rolled-oats")])), "rolled-oats");
    assert_eq!(get_slug(&params(&[])), "");
}

#[test]
fn list_query_reads_all_four() {
    let given =
        params(&[("search", "leg day"), ("page", "3"), ("size", "500"), ("order", "name")]);
    assert_eq!(
        list_query(&given),
        ListQuery { search: "leg day".to_string(), order: "name".to_string(), size: 100, page: 3 }
    );
    assert_eq!(
        list_query(&params(&[])),
        ListQuery { search: String::new(), order: String::new(), size: 20, page: 1 }
    );
}
