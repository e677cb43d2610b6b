use reso_query::text::{
    blank, decimal_text, distinct_names, equals_ignoring_case, join_with, same_text, to_strings,
};
use reso_query::{
    build_query, build_query_by_key, build_query_with_order, build_query_with_pagination,
    build_query_with_select, build_replication_query, QueryBuilder,
};

fn owned(items: &[&str]) -> Vec<String> {
    items.iter().map(|s| s.to_string()).collect()
}

#[test]
fn filter_select_and_top_render_in_the_documented_order() {
    let query = build_query_with_select(
        "Property",
        Some("City eq 'Austin'"),
        &["ListingKey", "City", "ListPrice"],
        Some(5),
    )
    .unwrap();
    assert_eq!(
        query.render_params(),
        "$filter=City eq 'Austin'&$select=ListingKey,City,ListPrice&$top=5"
    );
    assert_eq!(
        query.render_request(),
        "Property?$filter=City eq 'Austin'&$select=ListingKey,City,ListPrice&$top=5"
    );
}

#[test]
fn clauses_render_in_the_same_order_however_they_were_set() {
    let expected = "$filter=ListPrice gt 300000&$select=ListingKey,City&$orderby=ListPrice desc\
&$expand=ListOffice,ListAgent&$skip=10&$top=5";
    let forward = QueryBuilder::new("Property")
        .filter("ListPrice gt 300000")
        .select(&["ListingKey", "City"])
        .order_by("ListPrice", "DESC")
        .expand(&["ListOffice", "ListAgent"])
        .skip(10)
        .top(5)
        .build()
        .unwrap();
    let backward = QueryBuilder::new("Property")
        .top(5)
        .skip(10)
        .expand(&["ListOffice", "ListAgent"])
        .order_by("ListPrice", "desc")
        .select(&["ListingKey", "City"])
        .filter("ListPrice gt 300000")
        .build()
        .unwrap();
    assert_eq!(forward.render_params(), expected);
    assert_eq!(backward.render_params(), expected);
    assert_eq!(forward.render_params().into_bytes(), backward.render_params().into_bytes());
}

#[test]
fn rendering_twice_gives_the_same_bytes() {
    let query = build_query("Property", Some("City eq 'Austin'"), Some(10)).unwrap();
    let once = query.render_request();
    let again = query.render_request();
    assert_eq!(once.as_bytes(), again.as_bytes());
    let rebuilt = build_query("Property", Some("City eq 'Austin'"), Some(10)).unwrap();
    assert_eq!(once.as_bytes(), rebuilt.render_request().as_bytes());
}

#[test]
fn each_clause_renders_to_its_parameter() {
    let query = QueryBuilder::new("Property")
        .filter("City eq 'Austin' and ListPrice gt 300000")
        .select(&["ListingKey", "City", "ListPrice"])
        .order_by("ListPrice", "desc")
        .expand(&["ListOffice", "ListAgent"])
        .skip(10)
        .top(5)
        .build()
        .unwrap();
    assert_eq!(
        query.filter_clause(),
        Some("$filter=City eq 'Austin' and ListPrice gt 300000".to_string())
    );
    assert_eq!(query.select_clause(), Some("$select=ListingKey,City,ListPrice".to_string()));
    assert_eq!(query.order_clause(), Some("$orderby=ListPrice desc".to_string()));
    assert_eq!(query.expand_clause(), Some("$expand=ListOffice,ListAgent".to_string()));
    assert_eq!(query.skip_clause(), Some("$skip=10".to_string()));
    assert_eq!(query.top_clause(), Some("$top=5".to_string()));
    assert_eq!(query.count_clause(), None);
    assert_eq!(query.render_clauses().len(), 6);
    let count = QueryBuilder::new("Property").count().build().unwrap();
    assert_eq!(count.count_clause(), Some("$count=true".to_string()));
    assert_eq!(count.filter_clause(), None);
    assert_eq!(count.select_clause(), None);
    assert_eq!(count.order_clause(), None);
    assert_eq!(count.expand_clause(), None);
    assert_eq!(count.skip_clause(), None);
    assert_eq!(count.top_clause(), None);
}

#[test]
fn a_query_without_clauses_renders_to_its_resource() {
    let query = build_query("Property", None, None).unwrap();
    assert_eq!(query.render_params(), "");
    assert!(query.render_clauses().is_empty());
    assert_eq!(query.render_path(), "Property");
    assert_eq!(query.render_request(), "Property");
    assert_eq!(query.render_url("https://api.example.com/odata"), "https://api.example.com/odata/Property");
}

#[test]
fn repeated_fields_are_selected_once() {
    let query = build_query_with_select(
        "Property",
        None,
        &["City", "ListPrice", "City", "ListingKey", "ListPrice", "City"],
        None,
    )
    .unwrap();
    assert_eq!(query.render_params(), "$select=City,ListPrice,ListingKey");
    assert_eq!(query.select().len(), 6);
}

#[test]
fn keyed_lookup_renders_to_a_path() {
    let query = build_query_by_key("Property", "12345", None).unwrap();
    assert_eq!(query.render_path(), "Property('12345')");
    assert_eq!(query.render_request(), "Property('12345')");
    assert_eq!(query.render_params(), "");
    assert_eq!(
        query.render_url("https://api.example.com/odata"),
        "https://api.example.com/odata/Property('12345')"
    );
    let selected = build_query_by_key("Property", "12345", Some(&["ListingKey", "City"])).unwrap();
    assert_eq!(selected.render_request(), "Property('12345')?$select=ListingKey,City");
}

#[test]
fn ordering_and_paging_render_numbers_in_decimal() {
    let query = build_query_with_order("Property", None, "ListPrice", "Desc", Some(4294967295)).unwrap();
    assert_eq!(query.render_params(), "$orderby=ListPrice desc&$top=4294967295");
    let paged = build_query_with_pagination("Property", None, &["City"], 0, 1).unwrap();
    assert_eq!(paged.render_params(), "$select=City&$skip=0&$top=1");
    let far = build_query_with_pagination("Property", None, &[], 1000000, 200).unwrap();
    assert_eq!(far.render_params(), "$skip=1000000&$top=200");
}

#[test]
fn replication_renders_to_its_endpoint() {
    let query = build_replication_query("Property", Some("StandardStatus eq 'Active'")).unwrap();
    assert_eq!(query.render_params(), "$filter=StandardStatus eq 'Active'");
    assert_eq!(
        query.render_request(),
        "Property/replication?$filter=StandardStatus eq 'Active'"
    );
    let all = build_replication_query("Property", None).unwrap();
    assert_eq!(all.render_params(), "");
    assert_eq!(all.render_request(), "Property/replication");
    assert_eq!(
        all.render_url("https://api.example.com/odata"),
        "https://api.example.com/odata/Property/replication"
    );
}

#[test]
fn numerals_are_decimal() {
    assert_eq!(decimal_text(0), "0");
    assert_eq!(decimal_text(5), "5");
    assert_eq!(decimal_text(9), "9");
    assert_eq!(decimal_text(10), "10");
    assert_eq!(decimal_text(300000), "300000");
    assert_eq!(decimal_text(1234567890), "1234567890");
    assert_eq!(decimal_text(u64::MAX), "18446744073709551615");
}

#[test]
fn joining_puts_the_separator_between_parts() {
    assert_eq!(join_with(&owned(&[]), ","), "");
    assert_eq!(join_with(&owned(&["a"]), ","), "a");
    assert_eq!(join_with(&owned(&["a", "b", "c"]), ","), "a,b,c");
    assert_eq!(join_with(&owned(&["a", "", "c"]), "&"), "a&&c");
    assert_eq!(join_with(&owned(&["x", "y"]), " and "), "x and y");
}

#[test]
fn distinct_names_keep_first_occurrences() {
    assert_eq!(distinct_names(&owned(&[])), owned(&[]));
    assert_eq!(distinct_names(&owned(&["a", "b", "a", "c", "b"])), owned(&["a", "b", "c"]));
    assert_eq!(distinct_names(&owned(&["a", "A", "a"])), owned(&["a", "A"]));
    let once = distinct_names(&owned(&["x", "x", "y"]));
    assert_eq!(distinct_names(&once), once);
}

#[test]
fn text_helpers_compare_and_copy() {
    assert!(same_text("abc", "abc"));
    assert!(!same_text("abc", "abd"));
    assert!(!same_text("abc", "ab"));
    assert!(equals_ignoring_case("DESC", "desc"));
    assert!(equals_ignoring_case("", ""));
    assert!(!equals_ignoring_case("desc", "des"));
    assert!(!equals_ignoring_case("[", "{"));
    assert!(!equals_ignoring_case("@", "`"));
    assert!(!equals_ignoring_case("É", "é"));
    assert!(blank(""));
    assert!(blank(" \t"));
    assert!(!blank(" x "));
    assert_eq!(to_strings(&["a", "b"]), owned(&["a", "b"]));
}
