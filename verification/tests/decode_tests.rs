use prusa_link_rs::DecodeError;
use prusa_link_rs::decode::decode;
use prusa_link_rs::decode::optional_field;
use prusa_link_rs::decode::require_field;
use prusa_link_rs::decode::OptionalField;
use prusa_link_rs::raw_printer::PrinterStorageInfo;

/// The canonical response body of the printer's status endpoint.
fn payload() -> &'static str {
    r#"{"temperature":{"tool0":{"actual":220.2,"target":220.0},"bed":{"actual":69.7,"target":70.0}},"sd":{"ready":false},"state":{"text":"Printing","flags":{"operational":false,"paused":false,"printing":true,"cancelling":false,"pausing":false,"sdReady":false,"error":false,"ready":false,"closedOrError":false,"finished":false,"prepared":false,"link_state":"PRINTING"}},"telemetry":{"bed_temp":69.7,"nozzle_temp":220.2,"material":" - ","z_height":16.8,"print_speed":100,"axis_x":null,"axis_y":null,"axis_z":16.8},"storage":{"local":{"free_space":56813572096,"total_space":61273088000},"sd_card":null}}"#
}

fn as_f64(bits: u64) -> f64 {
    f64::from_bits(bits)
}

#[test]
fn get_printer_and_verify() {
    let raw_printer = decode(payload()).unwrap();

    assert_eq!(as_f64(raw_printer.get_target_nozzle_temp()), 220.0);
    assert_eq!(as_f64(raw_printer.get_target_bed_temp()), 70.0);
    assert_eq!(raw_printer.get_sd_ready(), false);
    assert_eq!(raw_printer.get_state_text(), "Printing");
    assert_eq!(raw_printer.get_operational(), false);
    assert_eq!(raw_printer.get_paused(), false);
    assert_eq!(raw_printer.get_printing(), true);
    assert_eq!(raw_printer.get_cancelling(), false);
    assert_eq!(raw_printer.get_pausing(), false);
    assert_eq!(raw_printer.get_error(), false);
    assert_eq!(raw_printer.get_closed_or_error(), false);
    assert_eq!(raw_printer.get_finished(), false);
    assert_eq!(raw_printer.get_prepared(), false);
    assert_eq!(raw_printer.get_ready(), false);
    assert_eq!(raw_printer.get_link_state(), "PRINTING");
    assert_eq!(as_f64(raw_printer.get_bed_temp()), 69.7);
    assert_eq!(as_f64(raw_printer.get_nozzle_temp()), 220.2);
    assert_eq!(raw_printer.get_material_telemetry(), " - ");
    assert_eq!(as_f64(raw_printer.get_print_speed_telemetry()), 100.0);
    assert_eq!(raw_printer.get_axis_x_telemetry(), None);
    assert_eq!(raw_printer.get_axis_y_telemetry(), None);
    assert_eq!(raw_printer.get_axis_z_telemetry().map(as_f64), Some(16.8));
    assert_eq!(as_f64(raw_printer.get_z_height_telemetry()), 16.8);
    assert_eq!(
        raw_printer.get_local_storage_space(),
        Some(&PrinterStorageInfo { free_space: 56813572096, total_space: 61273088000 })
    );
    assert_eq!(raw_printer.get_sd_storage_space(), None);
    assert_eq!(raw_printer.sd.ready, false);
}

#[test]
fn empty_body_rejected() {
    assert!(matches!(decode(""), Err(DecodeError::EmptyResponse)));
    assert!(matches!(decode("   "), Err(DecodeError::EmptyResponse)));
    assert!(matches!(decode(" \t\r\n "), Err(DecodeError::EmptyResponse)));
    // Whitespace beyond ASCII counts too: a no-break space alone is blank.
    assert!(matches!(decode("\u{00A0}"), Err(DecodeError::EmptyResponse)));
    assert!(decode(payload()).is_ok());
}

#[test]
fn unparsable_body_rejected() {
    assert!(matches!(decode("{not json"), Err(DecodeError::Malformed(_))));
    assert!(matches!(decode("null and more"), Err(DecodeError::Malformed(_))));
}

#[test]
fn missing_required_field_rejected() {
    // A required section gone as a whole.
    let body = payload().replace(r#""sd":{"ready":false},"#, "");
    assert!(matches!(decode(&body), Err(DecodeError::Malformed(_))));

    // A required leaf gone.
    let body = payload().replace(r#""printing":true,"#, "");
    assert!(matches!(decode(&body), Err(DecodeError::Malformed(_))));

    // A required temperature entry gone.
    let body = payload().replace(r#""tool0":{"actual":220.2,"target":220.0},"#, "");
    assert!(matches!(decode(&body), Err(DecodeError::Malformed(_))));
}

#[test]
fn wrong_typed_field_rejected() {
    let body = payload().replace(r#""ready":false"#, r#""ready":"no""#);
    assert!(matches!(decode(&body), Err(DecodeError::Malformed(_))));

    let body = payload().replace(r#""z_height":16.8"#, r#""z_height":"tall""#);
    assert!(matches!(decode(&body), Err(DecodeError::Malformed(_))));

    let body = payload().replace(r#""text":"Printing""#, r#""text":7"#);
    assert!(matches!(decode(&body), Err(DecodeError::Malformed(_))));
}

#[test]
fn optional_fields_absent_or_null() {
    // Explicit null decodes to "absent" (axis_x, axis_y, sd_card in the
    // canonical payload).
    let raw_printer = decode(payload()).unwrap();
    assert_eq!(raw_printer.get_axis_x_telemetry(), None);
    assert_eq!(raw_printer.get_sd_storage_space(), None);

    // A missing optional key decodes to "absent" too.
    let body = payload().replace(r#""axis_x":null,"#, "");
    let raw_printer = decode(&body).unwrap();
    assert_eq!(raw_printer.get_axis_x_telemetry(), None);

    let body = payload().replace(r#","sd_card":null"#, "");
    let raw_printer = decode(&body).unwrap();
    assert_eq!(raw_printer.get_sd_storage_space(), None);
}

#[test]
fn optional_field_of_wrong_kind_rejected() {
    let body = payload().replace(r#""axis_x":null"#, r#""axis_x":"left""#);
    assert!(matches!(decode(&body), Err(DecodeError::Malformed(_))));

    // A storage slot that is present must carry both space figures.
    let body = payload().replace(r#""total_space":61273088000"#, r#""total_space":null"#);
    assert!(matches!(decode(&body), Err(DecodeError::Malformed(_))));
}

#[test]
fn unknown_fields_ignored() {
    let body = payload().replace(
        r#""sd":{"ready":false}"#,
        r#""sd":{"ready":false,"slot":3},"firmware":"5.1.2""#,
    );
    let raw_printer = decode(&body).unwrap();
    assert_eq!(raw_printer.sd.ready, false);
    assert_eq!(raw_printer.get_state_text(), "Printing");
}

#[test]
fn field_rules() {
    assert_eq!(require_field(Some(5u64), "k").unwrap(), 5);
    match require_field(None::<u64>, "ready") {
        Err(DecodeError::Malformed(d)) => assert_eq!(d, "missing or mistyped field: ready"),
        _ => panic!("a missing required field must be reported as malformed"),
    }
    assert_eq!(optional_field(OptionalField::<u64>::Missing, "k").unwrap(), None);
    assert_eq!(optional_field(OptionalField::<u64>::Null, "k").unwrap(), None);
    assert_eq!(optional_field(OptionalField::Present(7u64), "k").unwrap(), Some(7));
    assert!(matches!(
        optional_field(OptionalField::<u64>::Mistyped, "k"),
        Err(DecodeError::Malformed(_))
    ));
}
