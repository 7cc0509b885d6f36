use fuel_ingestion_service::catalogue::{build_device_catalogue, CatalogueRow, CatalogueSensor};

fn row(model: u128, profile: u128, sensor: Option<(u128, &str)>) -> CatalogueRow {
    CatalogueRow {
        device_model_id: model,
        model_code: format!("M{model}"),
        model_name: format!("Model {model}"),
        manufacturer: Some("ORBI".to_string()),
        model_description: None,
        model_is_active: true,
        hardware_profile_id: profile,
        profile_code: format!("P{profile}"),
        profile_name: format!("Profile {profile}"),
        profile_description: None,
        is_default: profile % 2 == 1,
        sensor: sensor.map(|(id, sensor_type)| CatalogueSensor {
            id,
            sensor_type: sensor_type.to_string(),
            unit: "unit".to_string(),
        }),
    }
}

#[test]
fn catalogue_groups_rows_by_model_profile_and_sensor() {
    let rows = vec![
        row(1, 10, Some((100, "FUEL"))),
        row(1, 10, Some((101, "GPS"))),
        row(1, 11, Some((102, "IMU"))),
        row(2, 10, Some((100, "FUEL"))),
        row(1, 10, Some((100, "FUEL"))),
    ];
    let catalogue = build_device_catalogue(&rows);

    assert_eq!(catalogue.len(), 2);
    assert_eq!(catalogue[0].id, 1);
    assert_eq!(catalogue[0].model_name, "Model 1");
    assert_eq!(catalogue[0].profiles.len(), 2);
    assert_eq!(catalogue[0].profiles[0].id, 10);
    let sensors: Vec<u128> = catalogue[0].profiles[0].sensors.iter().map(|s| s.id).collect();
    assert_eq!(sensors, vec![100, 101]);
    assert_eq!(catalogue[0].profiles[1].id, 11);
    assert!(catalogue[0].profiles[1].is_default);
    assert_eq!(catalogue[1].id, 2);
    assert_eq!(catalogue[1].profiles.len(), 1);
    assert_eq!(catalogue[1].profiles[0].sensors.len(), 1);
}

#[test]
fn profiles_without_sensors_are_listed_empty() {
    let catalogue = build_device_catalogue(&vec![row(3, 30, None)]);
    assert_eq!(catalogue.len(), 1);
    assert_eq!(catalogue[0].profiles.len(), 1);
    assert!(catalogue[0].profiles[0].sensors.is_empty());
    assert!(build_device_catalogue(&Vec::new()).is_empty());
}
