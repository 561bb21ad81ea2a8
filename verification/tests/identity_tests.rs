use registration_server::identity::{IdentityError, VehicleInfo, VehicleInfoHolder};

#[test]
fn parses_cn_with_both_tags() {
    let vi = VehicleInfoHolder::parse_from_cn("VIN:1HGCM82633A004352 DEVICE:abc123").unwrap();
    assert_eq!(vi.vin, "1HGCM82633A004352");
    assert_eq!(vi.device_id, "abc123");
}

#[test]
fn parses_cn_tags_in_either_order() {
    let vi = VehicleInfoHolder::parse_from_cn("DEVICE:abc123 VIN:1HGCM82633A004352").unwrap();
    assert_eq!(vi.vin, "1HGCM82633A004352");
    assert_eq!(vi.device_id, "abc123");
}

#[test]
fn parses_cn_ignoring_extra_tokens() {
    let vi = VehicleInfoHolder::parse_from_cn("fleet VIN:v1 spare DEVICE:d1 trailing").unwrap();
    assert_eq!(vi.vin, "v1");
    assert_eq!(vi.device_id, "d1");
}

#[test]
fn later_tagged_token_overrides_earlier() {
    let vi = VehicleInfoHolder::parse_from_cn("VIN:first VIN:second DEVICE:d").unwrap();
    assert_eq!(vi.vin, "second");
    assert_eq!(vi.device_id, "d");
}

#[test]
fn cn_round_trip_for_arbitrary_values() {
    let v = "5YJSA1E26HF000337";
    let d = "telematics-unit-42";
    let cn = format!("VIN:{} DEVICE:{}", v, d);
    let vi = VehicleInfoHolder::parse_from_cn(&cn).unwrap();
    assert_eq!(vi.vin, v);
    assert_eq!(vi.device_id, d);
}

#[test]
fn rejects_cn_missing_vin() {
    let e = VehicleInfoHolder::parse_from_cn("DEVICE:abc123").unwrap_err();
    assert_eq!(e, IdentityError::TagsMissing);
}

#[test]
fn rejects_cn_missing_device() {
    let e = VehicleInfoHolder::parse_from_cn("VIN:1HGCM82633A004352").unwrap_err();
    assert_eq!(e, IdentityError::TagsMissing);
}

#[test]
fn rejects_empty_cn() {
    let e = VehicleInfoHolder::parse_from_cn("").unwrap_err();
    assert_eq!(e, IdentityError::TagsMissing);
}

#[test]
fn tag_must_prefix_token() {
    let e = VehicleInfoHolder::parse_from_cn("xVIN:a DEVICE:b").unwrap_err();
    assert_eq!(e, IdentityError::TagsMissing);
}

#[test]
fn parses_identity_from_distinguished_name() {
    let holder = VehicleInfoHolder::from(String::from(
        "C=DE, O=Factory, CN=VIN:WVWZZZ1JZXW000001 DEVICE:ecu-7",
    ));
    let vi = holder.parse_vehicleinfo().unwrap();
    assert_eq!(vi.vin, "WVWZZZ1JZXW000001");
    assert_eq!(vi.device_id, "ecu-7");
}

#[test]
fn distinguished_name_without_cn_is_rejected() {
    let holder = VehicleInfoHolder::from(String::from("C=DE, O=Factory"));
    let e = holder.parse_vehicleinfo().unwrap_err();
    assert_eq!(e, IdentityError::NoCommonName);
}

#[test]
fn distinguished_name_cn_without_tags_is_rejected() {
    let holder = VehicleInfoHolder::from(String::from("CN=plain name, O=Factory"));
    let e = holder.parse_vehicleinfo().unwrap_err();
    assert_eq!(e, IdentityError::TagsMissing);
}

#[test]
fn vehicle_info_equality_is_structural() {
    let a = VehicleInfo { vin: String::from("v"), device_id: String::from("d") };
    let b = VehicleInfo { vin: String::from("v"), device_id: String::from("d") };
    let c = VehicleInfo { vin: String::from("v"), device_id: String::from("other") };
    let d = VehicleInfo { vin: String::from("other"), device_id: String::from("d") };
    assert!(a == b);
    assert!(!(a == c));
    assert!(!(a == d));
}
