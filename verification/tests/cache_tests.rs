use prusa_link_rs::DecodeError;
use prusa_link_rs::PrinterBuilder;
use prusa_link_rs::RefreshPolicy;

/// The canonical response body of the printer's status endpoint.
fn status_body() -> &'static str {
    r#"{"temperature":{"tool0":{"actual":220.2,"target":220.0},"bed":{"actual":69.7,"target":70.0}},"sd":{"ready":false},"state":{"text":"Printing","flags":{"operational":false,"paused":false,"printing":true,"cancelling":false,"pausing":false,"sdReady":false,"error":false,"ready":false,"closedOrError":false,"finished":false,"prepared":false,"link_state":"PRINTING"}},"telemetry":{"bed_temp":69.7,"nozzle_temp":220.2,"material":" - ","z_height":16.8,"print_speed":100,"axis_x":null,"axis_y":null,"axis_z":16.8},"storage":{"local":{"free_space":56813572096,"total_space":61273088000},"sd_card":null}}"#
}

#[test]
fn autorefresh_and_get_temp() {
    let printer_builder = PrinterBuilder::new("address".to_string(), "1234567890".to_string());
    let mut printer = printer_builder.port(8080).build();

    // The first read always decides to fetch; the fetched body is then
    // handed back in and cached.
    assert!(printer.should_refresh(false, 0));
    printer.refresh_from_body(status_body(), 0).unwrap();

    assert_eq!(printer.get_nozzle_temp().map(f64::from_bits), Some(220.2));
    assert_eq!(printer.get_bed_temp().map(f64::from_bits), Some(69.7));
}

#[test]
fn builder_defaults_and_setters() {
    let printer = PrinterBuilder::new("addr".to_string(), "key".to_string()).build();
    assert_eq!(printer.port, 80);
    assert_eq!(printer.policy, RefreshPolicy::TimeToLive(2000));
    assert_eq!(printer.address(), "addr");
    assert_eq!(printer.api_key(), "key");
    assert!(printer.cached_snapshot().is_none());

    let printer = PrinterBuilder::new("addr".to_string(), "key".to_string())
        .port(8080)
        .auto_refresh(5000)
        .build();
    assert_eq!(printer.port, 8080);
    assert_eq!(printer.policy, RefreshPolicy::TimeToLive(5000));

    let printer = PrinterBuilder::new("addr".to_string(), "key".to_string())
        .disable_auto_refresh()
        .build();
    assert_eq!(printer.policy, RefreshPolicy::Disabled);
}

#[test]
fn change_address_and_key() {
    let mut printer = PrinterBuilder::new("addr".to_string(), "key".to_string()).build();
    printer.change_address("other".to_string());
    printer.change_api_key("secret".to_string());
    assert_eq!(printer.address(), "other");
    assert_eq!(printer.api_key(), "secret");
}

#[test]
fn ttl_boundary() {
    let mut printer = PrinterBuilder::new("addr".to_string(), "key".to_string())
        .auto_refresh(5000)
        .build();
    printer.refresh_from_body(status_body(), 1000).unwrap();

    // Exactly as old as the bound: still fresh (strictly-greater rule).
    assert!(!printer.should_refresh(false, 6000));
    // One millisecond older: stale.
    assert!(printer.should_refresh(false, 6001));
    // A forced read fetches even when fresh.
    assert!(printer.should_refresh(true, 1000));
}

#[test]
fn failed_refresh_preserves_cache() {
    let mut printer = PrinterBuilder::new("addr".to_string(), "key".to_string())
        .auto_refresh(5000)
        .build();
    printer.refresh_from_body(status_body(), 1000).unwrap();

    // A later fetch that yields an empty body fails the call itself...
    let r = printer.refresh_from_body("", 9000);
    assert!(matches!(r, Err(DecodeError::EmptyResponse)));
    // ...and a garbled body likewise...
    let r = printer.refresh_from_body("{oops", 9000);
    assert!(matches!(r, Err(DecodeError::Malformed(_))));

    // ...but the cached snapshot and its capture time are untouched, so a
    // next non-forced read still answers from the old snapshot.
    assert_eq!(printer.last_refresh, Some(1000));
    let snapshot = printer.cached_snapshot().unwrap();
    assert_eq!(f64::from_bits(snapshot.get_nozzle_temp()), 220.2);
    assert!(!printer.should_refresh(false, 2000));
}

#[test]
fn disabled_policy_fetches_once() {
    let mut printer = PrinterBuilder::new("addr".to_string(), "key".to_string())
        .disable_auto_refresh()
        .build();

    // The very first read fetches even with refresh disabled...
    assert!(printer.should_refresh(false, 0));
    printer.refresh_from_body(status_body(), 0).unwrap();

    // ...and afterwards two consecutive non-forced reads decide against
    // fetching, however much time has passed: one network call in total.
    assert!(!printer.should_refresh(false, 1_000_000));
    assert!(!printer.should_refresh(false, u64::MAX));
}

#[test]
fn first_read_always_fetches() {
    let printer = PrinterBuilder::new("addr".to_string(), "key".to_string())
        .auto_refresh(u64::MAX)
        .build();
    // No snapshot is cached yet, so even an unbounded time-to-live policy
    // fetches on the first read, at any clock reading.
    assert!(printer.should_refresh(false, 0));
    assert!(printer.should_refresh(false, u64::MAX));
}
