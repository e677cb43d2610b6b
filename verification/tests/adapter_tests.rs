use reso_query::adapter::{
    count_in_envelope, error_for_status, expected, next_link_of, page_from, status_is_success,
    successful_body,
};
use reso_query::json::take_field;
use reso_query::report::{report_entries, report_entry, report_heading};
use reso_query::{
    build_count_query, build_query, build_query_by_key, build_query_with_select,
    build_replication_query, next_page_request, query_request, read_count, read_replication,
    read_response, records_of, records_report, replication_request, Document, Field, Method,
    Reply, ReplicationResponse, Request, ResoError,
};

fn answer(status: u16, body: &str) -> Reply {
    Reply::Response { status, body: body.to_string() }
}

#[test]
fn a_mock_response_yields_its_one_record() {
    let query = build_query_with_select(
        "Property",
        Some("City eq 'Austin'"),
        &["ListingKey", "City", "ListPrice"],
        Some(5),
    )
    .unwrap();
    assert_eq!(
        query.render_params(),
        "$filter=City eq 'Austin'&$select=ListingKey,City,ListPrice&$top=5"
    );
    let body = "{\"value\":[{\"ListingKey\":\"A1\",\"City\":\"Austin\",\"ListPrice\":300000}]}";
    let envelope = read_response(&query, &answer(200, body)).unwrap();
    assert_eq!(envelope.text(), body);
    let records = records_of(&envelope).unwrap();
    assert_eq!(records.len(), 1);
    let record = &records[0];
    let members = record.members().unwrap();
    assert_eq!(members.len(), 3);
    let mut names: Vec<&str> = members.iter().map(|m| m.name.as_str()).collect();
    names.sort();
    assert_eq!(names, vec!["City", "ListPrice", "ListingKey"]);
    assert_eq!(record.get_field("ListingKey").unwrap().as_text(), Some("A1".to_string()));
    assert_eq!(record.get_field("City").unwrap().as_text(), Some("Austin".to_string()));
    assert_eq!(record.get_field("ListPrice").unwrap().as_u64(), Some(300000));
    assert_eq!(record.get_field("Bedrooms"), None);
}

#[test]
fn a_404_on_a_keyed_lookup_is_not_found() {
    let query = build_query_by_key("Property", "12345", None).unwrap();
    assert_eq!(query.render_request(), "Property('12345')");
    let r = read_response(&query, &answer(404, "{\"error\":{\"message\":\"no such key\"}}"));
    assert_eq!(r.unwrap_err(), ResoError::NotFound);
    let r = read_response(&query, &answer(404, ""));
    assert_eq!(r.unwrap_err(), ResoError::NotFound);
    assert_ne!(
        read_response(&query, &answer(404, "")).unwrap_err(),
        ResoError::TransportError
    );
}

#[test]
fn a_404_on_a_collection_is_an_http_status() {
    let query = build_query("Property", None, None).unwrap();
    let r = read_response(&query, &answer(404, "not here"));
    assert_eq!(r.unwrap_err(), ResoError::HttpStatus(404));
}

#[test]
fn other_statuses_on_a_keyed_lookup_are_http_statuses() {
    let query = build_query_by_key("Property", "12345", None).unwrap();
    for status in [100u16, 199, 300, 301, 400, 401, 403, 429, 500, 503, 65535] {
        let r = read_response(&query, &answer(status, "{}"));
        assert_eq!(r.unwrap_err(), ResoError::HttpStatus(status));
    }
}

#[test]
fn every_status_from_200_to_299_is_success() {
    let query = build_query("Property", None, None).unwrap();
    for status in [200u16, 201, 204, 250, 299] {
        assert!(status_is_success(status));
        assert!(read_response(&query, &answer(status, "{\"value\":[]}")).is_ok());
    }
    for status in [0u16, 199, 300, 404, 500] {
        assert!(!status_is_success(status));
    }
}

#[test]
fn status_errors_depend_on_the_kind_of_request() {
    assert_eq!(error_for_status(404, true), ResoError::NotFound);
    assert_eq!(error_for_status(404, false), ResoError::HttpStatus(404));
    assert_eq!(error_for_status(500, true), ResoError::HttpStatus(500));
    assert_eq!(error_for_status(401, false), ResoError::HttpStatus(401));
}

#[test]
fn transport_failures_are_told_apart() {
    let query = build_query("Property", None, None).unwrap();
    assert_eq!(read_response(&query, &Reply::Failed).unwrap_err(), ResoError::TransportError);
    assert_eq!(read_response(&query, &Reply::TimedOut).unwrap_err(), ResoError::Timeout);
    assert_eq!(read_count(&Reply::Failed).unwrap_err(), ResoError::TransportError);
    assert_eq!(read_count(&Reply::TimedOut).unwrap_err(), ResoError::Timeout);
    assert_eq!(read_replication(&Reply::Failed).unwrap_err(), ResoError::TransportError);
    assert_eq!(read_replication(&Reply::TimedOut).unwrap_err(), ResoError::Timeout);
    assert_eq!(successful_body(&Reply::Failed, false), Err(ResoError::TransportError));
    assert_eq!(successful_body(&answer(200, "text"), true), Ok("text"));
    assert_eq!(successful_body(&answer(404, "text"), true), Err(ResoError::NotFound));
}

#[test]
fn a_body_without_records_is_still_returned() {
    let query = build_query("Property", None, None).unwrap();
    let body = "{\"error\":{\"code\":\"Busy\",\"message\":\"try later\"}}";
    let envelope = read_response(&query, &answer(200, body)).unwrap();
    assert_eq!(envelope.text(), body);
    assert_eq!(records_of(&envelope), None);
    let error = envelope.get_field("error").unwrap();
    assert_eq!(error.get_field("message").unwrap().as_text(), Some("try later".to_string()));
}

#[test]
fn a_body_that_is_no_json_is_malformed() {
    let query = build_query("Property", None, None).unwrap();
    let keyed = build_query_by_key("Property", "12345", None).unwrap();
    for body in ["", "<html>", "{\"value\":", "{} {}", "[1,2", "nul", "'text'", "{\"a\":1,}"] {
        let r = read_response(&query, &answer(200, body));
        assert_eq!(r.unwrap_err(), ResoError::MalformedResponse);
        let r = read_response(&keyed, &answer(200, body));
        assert_eq!(r.unwrap_err(), ResoError::MalformedResponse);
        assert_eq!(read_replication(&answer(200, body)).unwrap_err(), ResoError::MalformedResponse);
        assert_eq!(read_count(&answer(200, body)).unwrap_err(), ResoError::MalformedResponse);
    }
}

#[test]
fn a_json_body_of_any_kind_is_returned_as_it_came() {
    let query = build_query("Property", None, None).unwrap();
    for body in ["[1,2,3]", "42", "\"text\"", "null", "true", " {} ", "{\"value\": 5}", "1.5e3"] {
        let envelope = read_response(&query, &answer(200, body)).unwrap();
        assert_eq!(envelope.text(), body);
        assert_eq!(envelope, Document::new(body));
        assert_eq!(records_of(&envelope), None);
    }
}

#[test]
fn a_json_body_that_is_no_object_holds_the_empty_page() {
    for body in ["[1,2,3]", "42", "\"text\"", "null", "{}"] {
        let page = read_replication(&answer(200, body)).unwrap();
        assert_eq!(page, ReplicationResponse::new(vec![], None));
        assert_eq!(read_count(&answer(200, body)).unwrap_err(), ResoError::MalformedResponse);
    }
}

#[test]
fn records_are_returned_in_order_with_their_values() {
    let query = build_query("Property", Some("City eq 'Austin'"), None).unwrap();
    let body = "{\"value\":[{\"City\":\"Dallas\"}, {\"City\":\"Austin\",\"n\":1.50},{\"City\":null}]}";
    let envelope = read_response(&query, &answer(200, body)).unwrap();
    assert_eq!(envelope.text(), body);
    let records = records_of(&envelope).unwrap();
    let texts: Vec<&str> = records.iter().map(|r| r.text()).collect();
    assert_eq!(
        texts,
        vec!["{\"City\":\"Dallas\"}", "{\"City\":\"Austin\",\"n\":1.5}", "{\"City\":null}"]
    );
}

#[test]
fn records_are_the_elements_of_value() {
    let envelope = Document::new("{\"value\": [ {\"a\": 1}, [2] , \"three\", 4.50, null ]}");
    let records = records_of(&envelope).unwrap();
    let texts: Vec<&str> = records.iter().map(|r| r.text()).collect();
    assert_eq!(texts, vec!["{\"a\":1}", "[2]", "\"three\"", "4.5", "null"]);
    assert_eq!(records_of(&Document::new("{\"value\": []}")), Some(vec![]));
    assert_eq!(records_of(&Document::new("{\"value\": {\"a\": 1}}")), None);
    assert_eq!(records_of(&Document::new("{\"values\": [1]}")), None);
    assert_eq!(records_of(&Document::new("[1]")), None);
}

#[test]
fn count_is_read_from_its_member() {
    let query = build_count_query("Property", Some("City eq 'Austin'")).unwrap();
    assert_eq!(query.render_request(), "Property?$filter=City eq 'Austin'&$count=true");
    assert_eq!(read_count(&answer(200, "{\"@odata.count\": 42, \"value\": []}")), Ok(42));
    assert_eq!(read_count(&answer(200, "{\"@odata.count\":0}")), Ok(0));
    assert_eq!(
        read_count(&answer(200, "{\"@odata.count\":18446744073709551615}")),
        Ok(u64::MAX)
    );
}

#[test]
fn a_missing_or_unreadable_count_is_malformed() {
    let bodies = [
        "{\"value\": []}",
        "{\"@odata.count\": \"42\"}",
        "{\"@odata.count\": -1}",
        "{\"@odata.count\": 1.5}",
        "{\"@odata.count\": 18446744073709551616}",
        "{\"@odata.count\": null}",
        "{\"count\": 42}",
        "42",
    ];
    for body in bodies {
        assert_eq!(read_count(&answer(200, body)).unwrap_err(), ResoError::MalformedResponse);
    }
    assert_eq!(read_count(&answer(500, "{\"@odata.count\": 42}")).unwrap_err(), ResoError::HttpStatus(500));
    assert_eq!(read_count(&answer(404, "{\"@odata.count\": 42}")).unwrap_err(), ResoError::HttpStatus(404));
}

#[test]
fn envelope_members_are_read_one_by_one() {
    let envelope = Document::new(
        "{\"@odata.count\": 7, \"@odata.nextLink\": \"https://x.test/next?a=1\\u0026b=2\", \"value\": []}",
    );
    assert_eq!(count_in_envelope(&envelope), Some(7));
    assert_eq!(next_link_of(&envelope), Some("https://x.test/next?a=1&b=2".to_string()));
    assert_eq!(count_in_envelope(&Document::new("{}")), None);
    assert_eq!(next_link_of(&Document::new("{}")), None);
    assert_eq!(next_link_of(&Document::new("{\"@odata.nextLink\": 5}")), None);
    assert_eq!(expected(Some(3)), Ok(3));
    assert_eq!(expected::<u64>(None), Err(ResoError::MalformedResponse));
}

#[test]
fn a_replication_page_holds_records_and_link() {
    let body = "{\"value\":[{\"ListingKey\":\"A1\"},{\"ListingKey\":\"A2\"}],\
\"@odata.nextLink\":\"https://api.example.com/odata/Property/replication?page=2\"}";
    let page = read_replication(&answer(200, body)).unwrap();
    assert_eq!(page.record_count(), 2);
    assert_eq!(page.records[0].text(), "{\"ListingKey\":\"A1\"}");
    assert_eq!(page.records[1].text(), "{\"ListingKey\":\"A2\"}");
    assert!(page.has_more());
    assert_eq!(
        page.next_link(),
        Some("https://api.example.com/odata/Property/replication?page=2")
    );
}

#[test]
fn the_last_replication_page_has_no_link() {
    let page = read_replication(&answer(200, "{\"value\":[{\"ListingKey\":\"Z9\"}]}")).unwrap();
    assert_eq!(page.record_count(), 1);
    assert!(!page.has_more());
    assert_eq!(page.next_link(), None);
    assert_eq!(page.next_link, None);
}

#[test]
fn a_replication_page_without_records_is_empty() {
    let page = read_replication(&answer(200, "{\"@odata.nextLink\":\"n\"}")).unwrap();
    assert_eq!(page.record_count(), 0);
    assert_eq!(page.next_link(), Some("n"));
    let odd = read_replication(&answer(200, "{\"value\": 5, \"@odata.nextLink\": 6}")).unwrap();
    assert_eq!(odd, ReplicationResponse::new(vec![], None));
    assert_eq!(read_replication(&answer(503, "{}")).unwrap_err(), ResoError::HttpStatus(503));
    assert_eq!(read_replication(&answer(404, "{}")).unwrap_err(), ResoError::HttpStatus(404));
}

#[test]
fn pages_are_made_of_what_an_envelope_carried() {
    let records = vec![Document::new("1"), Document::new("2")];
    let page = page_from(Some(records.clone()), Some("next".to_string()));
    assert_eq!(page.records, records);
    assert_eq!(page.next_link, Some("next".to_string()));
    let empty = page_from(None, None);
    assert!(empty.records.is_empty());
    assert_eq!(empty.next_link, None);
}

#[test]
fn documents_are_read_one_level_at_a_time() {
    let document = Document::new(" { \"b\" : [1, 2] , \"a\" : { \"x\" : 1.50 } } ");
    assert!(document.is_object());
    let members = document.members().unwrap();
    assert_eq!(members.len(), 2);
    assert_eq!(members[0].name, "a");
    assert_eq!(members[0].value.text(), "{\"x\":1.5}");
    assert_eq!(members[1].name, "b");
    assert_eq!(members[1].value.text(), "[1,2]");
    assert_eq!(document.elements(), None);
    assert_eq!(document.as_u64(), None);
    assert_eq!(document.as_text(), None);
    let list = document.get_field("b").unwrap();
    assert!(!list.is_object());
    assert_eq!(list.members(), None);
    assert_eq!(list.elements(), Some(vec![Document::new("1"), Document::new("2")]));
    let nested = document.get_field("a").unwrap().get_field("x").unwrap();
    assert_eq!(nested.text(), "1.5");
    assert_eq!(nested.as_u64(), None);
}

#[test]
fn a_document_keeps_its_text() {
    let text = " {\"a\" :1} ";
    assert_eq!(Document::new(text).text(), text);
    assert_eq!(Document::from_string(text.to_string()).text(), text);
    assert_eq!(Document::new(text), Document::from_string(text.to_string()));
    assert_eq!(Document::new("not json").text(), "not json");
}

#[test]
fn validity_is_told_for_every_kind_of_value() {
    for text in ["{}", "[]", "0", "\"\"", "null", "false", " [1, {\"a\": [2]}] "] {
        assert!(Document::new(text).is_valid());
    }
    for text in ["", "{", "]", "tru", "1 2", "{\"a\"}", "\"open"] {
        assert!(!Document::new(text).is_valid());
    }
    assert!(Document::new("{}").is_object());
    assert!(!Document::new("[]").is_object());
}

#[test]
fn scalars_are_read_as_numbers_and_strings() {
    assert_eq!(Document::new("300000").as_u64(), Some(300000));
    assert_eq!(Document::new(" 7 ").as_u64(), Some(7));
    assert_eq!(Document::new("\"300000\"").as_u64(), None);
    assert_eq!(Document::new("-3").as_u64(), None);
    assert_eq!(Document::new("07").as_u64(), None);
    assert_eq!(Document::new("").as_u64(), None);
    assert_eq!(Document::new("\"A1\"").as_text(), Some("A1".to_string()));
    assert_eq!(Document::new("\"a\\nb \\\"q\\\" \\u00e9\"").as_text(), Some("a\nb \"q\" é".to_string()));
    assert_eq!(Document::new("\"\"").as_text(), Some(String::new()));
    assert_eq!(Document::new("A1").as_text(), None);
    assert_eq!(Document::new("12").as_text(), None);
}

#[test]
fn a_field_is_taken_by_its_name() {
    let members = vec![
        Field { name: "City".to_string(), value: Document::new("\"Austin\"") },
        Field { name: "ListPrice".to_string(), value: Document::new("300000") },
        Field { name: "City".to_string(), value: Document::new("\"Dallas\"") },
    ];
    assert_eq!(take_field(members.clone(), "City"), Some(Document::new("\"Austin\"")));
    assert_eq!(take_field(members.clone(), "ListPrice"), Some(Document::new("300000")));
    assert_eq!(take_field(members.clone(), "city"), None);
    assert_eq!(take_field(vec![], "City"), None);
}

#[test]
fn a_repeated_member_is_read_once() {
    let document = Document::new("{\"a\": 1, \"a\": 2}");
    let members = document.members().unwrap();
    assert_eq!(members.len(), 1);
    assert_eq!(document.get_field("a").unwrap().as_u64(), Some(2));
}

#[test]
fn documents_are_indented_for_reading() {
    let document = Document::new("{\"ListingKey\":\"A1\",\"Rooms\":[1,2]}");
    assert_eq!(
        document.pretty(),
        Some("{\n  \"ListingKey\": \"A1\",\n  \"Rooms\": [\n    1,\n    2\n  ]\n}".to_string())
    );
    assert_eq!(Document::new("5").pretty(), Some("5".to_string()));
    assert_eq!(Document::new("{").pretty(), None);
}

#[test]
fn records_are_listed_under_their_numbers() {
    let response = Document::new("{\"value\":[{\"ListingKey\":\"A1\"},{\"ListingKey\":\"A2\"}]}");
    let expected = "Found 2 records\n\n\
Record 1:\n{\n  \"ListingKey\": \"A1\"\n}\n\n\
Record 2:\n{\n  \"ListingKey\": \"A2\"\n}\n\n";
    assert_eq!(records_report(&response), Ok(expected.to_string()));
}

#[test]
fn a_response_without_records_is_reported_as_such() {
    let line = "No records found or invalid response format\n".to_string();
    assert_eq!(records_report(&Document::new("{\"error\": \"busy\"}")), Ok(line.clone()));
    assert_eq!(records_report(&Document::new("{\"value\": 3}")), Ok(line.clone()));
    assert_eq!(records_report(&Document::new("not json")), Ok(line));
    assert_eq!(
        records_report(&Document::new("{\"value\": []}")),
        Ok("Found 0 records\n\n".to_string())
    );
}

#[test]
fn a_body_nested_deeper_than_is_read_is_malformed() {
    let deep = format!("{}{}", "[".repeat(200), "]".repeat(200));
    let record = Document::new(&deep);
    assert!(!record.is_valid());
    assert_eq!(record.elements(), None);
    assert_eq!(record.pretty(), None);
    let response = Document::new(&format!("{{\"value\":[{{\"a\":1}},{}]}}", deep));
    assert!(!response.is_valid());
    assert_eq!(response.members(), None);
    assert_eq!(records_of(&response), None);
    let query = build_query("Property", None, None).unwrap();
    let r = read_response(&query, &answer(200, response.text()));
    assert_eq!(r.unwrap_err(), ResoError::MalformedResponse);
    let level = format!("{}{}", "[".repeat(100), "]".repeat(100));
    assert!(Document::new(&level).is_valid());
    assert_eq!(Document::new(&level).elements().map(|e| e.len()), Some(1));
}

#[test]
fn a_member_named_like_a_reader_s_marker_is_a_member_like_any_other() {
    let marker = "$serde_json::private::RawValue";
    let query = build_query("Property", None, None).unwrap();
    let number = format!("{{\"{}\":5,\"value\":[{{\"n\":1}}]}}", marker);
    let envelope = read_response(&query, &answer(200, &number)).unwrap();
    assert_eq!(envelope.text(), number);
    assert!(envelope.is_valid());
    assert!(envelope.is_object());
    assert_eq!(envelope.get_field(marker).unwrap().as_u64(), Some(5));
    assert_eq!(records_of(&envelope).map(|r| r.len()), Some(1));
    assert_eq!(
        envelope.pretty(),
        Some(format!("{{\n  \"{}\": 5,\n  \"value\": [\n    {{\n      \"n\": 1\n    }}\n  ]\n}}", marker))
    );
    let string = format!("{{\"{}\":\"[1,2]\"}}", marker);
    let document = Document::new(&string);
    assert!(document.is_valid());
    assert_eq!(document.members().map(|m| m.len()), Some(1));
    assert_eq!(document.get_field(marker).unwrap().as_text(), Some("[1,2]".to_string()));
    assert_eq!(document.pretty(), Some(format!("{{\n  \"{}\": \"[1,2]\"\n}}", marker)));
    assert_eq!(read_response(&query, &answer(200, &string)).unwrap().text(), string);
    let page = read_replication(&answer(200, &number)).unwrap();
    assert_eq!(page.record_count(), 1);
    let escaped = "{\"\\u0024serde_json::private::RawValue\":\"{\\\"a\\\":1}\"}";
    let document = Document::new(escaped);
    assert!(document.is_valid());
    assert_eq!(document.get_field(marker).unwrap().as_text(), Some("{\"a\":1}".to_string()));
    assert_eq!(
        document.pretty(),
        Some(format!("{{\n  \"{}\": \"{{\\\"a\\\":1}}\"\n}}", marker))
    );
}

#[test]
fn markers_nested_in_strings_are_read_without_descending() {
    let marker = "$serde_json::private::RawValue";
    let mut text = String::from("1");
    for _ in 0..12 {
        let inner = text.replace('\\', "\\\\").replace('"', "\\\"");
        text = format!("{{\"{}\":\"{}\"}}", marker, inner);
    }
    let document = Document::new(&text);
    assert!(document.is_valid());
    let members = document.members().unwrap();
    assert_eq!(members.len(), 1);
    assert_eq!(members[0].name, marker);
    let inner = members[0].value.as_text().unwrap();
    assert!(inner.starts_with("{\"$serde_json::private::RawValue\":\""));
    let query = build_query("Property", None, None).unwrap();
    assert_eq!(read_response(&query, &answer(200, &text)).unwrap().text(), text);
    assert!(document.pretty().unwrap().starts_with("{\n  \"$serde_json::private::RawValue\": \"{"));
}

#[test]
fn listings_number_their_entries_from_one() {
    assert_eq!(report_heading(0), "Found 0 records\n\n");
    assert_eq!(report_heading(12), "Found 12 records\n\n");
    assert_eq!(report_entry(0, "{}"), "Record 1:\n{}\n\n");
    assert_eq!(report_entry(9, "[]"), "Record 10:\n[]\n\n");
    assert_eq!(report_entries(&vec![]), Some(String::new()));
    assert_eq!(
        report_entries(&vec![Document::new("1"), Document::new("[]")]),
        Some("Record 1:\n1\n\nRecord 2:\n[]\n\n".to_string())
    );
    assert_eq!(report_entries(&vec![Document::new("1"), Document::new("]")]), None);
}

#[test]
fn every_request_is_a_get_of_the_rendered_address() {
    let query = build_query("Property", Some("City eq 'Austin'"), Some(5)).unwrap();
    assert_eq!(
        query_request(&query, "https://api.example.com/odata"),
        Request {
            method: Method::Get,
            url: "https://api.example.com/odata/Property?$filter=City eq 'Austin'&$top=5".to_string(),
        }
    );
    let keyed = build_query_by_key("Property", "12345", None).unwrap();
    assert_eq!(
        query_request(&keyed, "https://api.example.com/odata").url,
        "https://api.example.com/odata/Property('12345')"
    );
    let replication = build_replication_query("Property", None).unwrap();
    assert_eq!(
        replication_request(&replication, "https://api.example.com/odata"),
        Request {
            method: Method::Get,
            url: "https://api.example.com/odata/Property/replication".to_string(),
        }
    );
    assert_eq!(
        next_page_request("https://api.example.com/odata/Property/replication?page=2"),
        Request {
            method: Method::Get,
            url: "https://api.example.com/odata/Property/replication?page=2".to_string(),
        }
    );
}
