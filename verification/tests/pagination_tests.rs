use reso_query::{
    build_replication_query, collect_pages, read_replication, Document, PaginationDriver, Reply,
    ReplicationResponse, ResoError, Step,
};

fn page(records: &[&str], next_link: Option<&str>) -> ReplicationResponse {
    ReplicationResponse::new(
        records.iter().map(|r| Document::new(r)).collect(),
        next_link.map(|l| l.to_string()),
    )
}

fn texts(records: &[Document]) -> Vec<String> {
    records.iter().map(|r| r.text().to_string()).collect()
}

#[test]
fn two_pages_are_replicated_with_two_requests() {
    let query = build_replication_query("Property", None).unwrap();
    let first_request = query.render_url("https://mock.test/odata");
    assert_eq!(first_request, "https://mock.test/odata/Property/replication");
    let second_request = "https://mock.test/odata/Property/replication?page=2";
    let serve = |request: &str| -> Reply {
        if request == first_request {
            Reply::Response {
                status: 200,
                body: format!(
                    "{{\"value\":[{{\"ListingKey\":\"A1\"}},{{\"ListingKey\":\"A2\"}}],\"@odata.nextLink\":\"{}\"}}",
                    second_request
                ),
            }
        } else if request == second_request {
            Reply::Response { status: 200, body: "{\"value\":[{\"ListingKey\":\"B1\"}]}".to_string() }
        } else {
            Reply::Response { status: 404, body: String::new() }
        }
    };
    let mut driver = PaginationDriver::new();
    let mut requests = 0;
    let mut request = first_request.clone();
    loop {
        requests += 1;
        assert!(requests <= 10);
        let response = read_replication(&serve(&request)).unwrap();
        match driver.accept(response).unwrap() {
            Step::Fetch(link) => request = link,
            Step::Done => break,
        }
    }
    assert_eq!(requests, 2);
    assert_eq!(driver.record_count(), 3);
    assert_eq!(driver.last_link(), Some(second_request));
    assert_eq!(
        texts(&driver.into_records()),
        vec!["{\"ListingKey\":\"A1\"}", "{\"ListingKey\":\"A2\"}", "{\"ListingKey\":\"B1\"}"]
    );
}

#[test]
fn a_finite_stream_is_read_to_its_end() {
    let pages = vec![
        page(&["1", "2"], Some("page-2")),
        page(&["3"], Some("page-3")),
        page(&[], Some("page-4")),
        page(&["4", "5"], None),
    ];
    let collected = collect_pages(pages).unwrap();
    assert_eq!(collected.pages_read, 4);
    assert!(collected.complete);
    assert_eq!(texts(&collected.records), vec!["1", "2", "3", "4", "5"]);
}

#[test]
fn a_single_page_is_a_whole_stream() {
    let collected = collect_pages(vec![page(&["1"], None)]).unwrap();
    assert_eq!(collected.pages_read, 1);
    assert!(collected.complete);
    assert_eq!(texts(&collected.records), vec!["1"]);
}

#[test]
fn nothing_is_read_after_the_last_page() {
    let pages = vec![page(&["1"], Some("page-2")), page(&["2"], None), page(&["3"], Some("page-2"))];
    let collected = collect_pages(pages).unwrap();
    assert_eq!(collected.pages_read, 2);
    assert!(collected.complete);
    assert_eq!(texts(&collected.records), vec!["1", "2"]);
}

#[test]
fn a_repeated_link_stalls_the_run() {
    let pages = vec![page(&["1"], Some("page-2")), page(&["2"], Some("page-2")), page(&["3"], None)];
    assert_eq!(collect_pages(pages).unwrap_err(), ResoError::PaginationStalled);
    let later = vec![
        page(&["1"], Some("page-2")),
        page(&["2"], Some("page-3")),
        page(&["3"], Some("page-3")),
        page(&["4"], None),
    ];
    assert_eq!(collect_pages(later).unwrap_err(), ResoError::PaginationStalled);
}

#[test]
fn a_link_may_return_after_another() {
    let pages = vec![
        page(&["1"], Some("a")),
        page(&["2"], Some("b")),
        page(&["3"], Some("a")),
        page(&["4"], None),
    ];
    let collected = collect_pages(pages).unwrap();
    assert_eq!(collected.pages_read, 4);
    assert!(collected.complete);
}

#[test]
fn pages_that_run_out_leave_the_run_incomplete() {
    let collected = collect_pages(vec![]).unwrap();
    assert_eq!(collected.pages_read, 0);
    assert!(!collected.complete);
    assert!(collected.records.is_empty());
    let pending = collect_pages(vec![page(&["1"], Some("page-2")), page(&["2"], Some("page-3"))]).unwrap();
    assert_eq!(pending.pages_read, 2);
    assert!(!pending.complete);
    assert_eq!(texts(&pending.records), vec!["1", "2"]);
}

#[test]
fn the_driver_decides_page_by_page() {
    let mut driver = PaginationDriver::new();
    assert_eq!(driver.record_count(), 0);
    assert_eq!(driver.last_link(), None);
    assert_eq!(driver.accept(page(&["1"], Some("page-2"))), Ok(Step::Fetch("page-2".to_string())));
    assert_eq!(driver.last_link(), Some("page-2"));
    assert_eq!(driver.accept(page(&["2", "3"], Some("page-3"))), Ok(Step::Fetch("page-3".to_string())));
    assert_eq!(driver.record_count(), 3);
    assert_eq!(driver.accept(page(&["4"], Some("page-3"))), Err(ResoError::PaginationStalled));
    assert_eq!(driver.last_link(), Some("page-3"));
    assert_eq!(driver.record_count(), 4);
    assert_eq!(driver.accept(page(&[], None)), Ok(Step::Done));
    assert_eq!(texts(&driver.into_records()), vec!["1", "2", "3", "4"]);
}

#[test]
fn a_run_can_start_at_a_link() {
    let mut driver = PaginationDriver::from_link("page-5");
    assert_eq!(driver.last_link(), Some("page-5"));
    assert_eq!(driver.record_count(), 0);
    assert_eq!(driver.accept(page(&["9"], Some("page-5"))), Err(ResoError::PaginationStalled));
    let mut driver = PaginationDriver::from_link("page-5");
    assert_eq!(driver.accept(page(&["9"], Some("page-6"))), Ok(Step::Fetch("page-6".to_string())));
    assert_eq!(driver.accept(page(&["10"], None)), Ok(Step::Done));
    assert_eq!(texts(&driver.into_records()), vec!["9", "10"]);
}
