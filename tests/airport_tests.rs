use aircraft_performance::airports::{
    contains_text, heading_from_runway_number, is_grass_surface, load_airports, prepare_runway,
    Airport, Runway,
};

fn runway(airport_ref: u32, surface: &str, le: &str, he: &str, le_elevation: i16, he_elevation: i16) -> Runway {
    Runway {
        airport_ref,
        length: 3000,
        surface: surface.to_string(),
        le_ident: le.to_string(),
        le_elevation,
        le_heading_raw: 87,
        le_heading: 0,
        le_displaced_threshold: 0,
        he_ident: he.to_string(),
        he_elevation,
        he_heading_raw: 267,
        he_heading: 0,
        he_displaced_threshold: 0,
        is_grass: false,
    }
}

fn airport(id: u32, ident: &str, elevation: i16) -> Airport {
    Airport {
        id,
        ident: ident.to_string(),
        name: format!("Airport {ident}"),
        latitude: 45_123_456,
        longitude: -93_654_321,
        elevation,
        runways: Vec::new(),
    }
}

#[test]
fn heading_from_identifier_number() {
    assert_eq!(heading_from_runway_number(&"09".to_string()), 90);
    assert_eq!(heading_from_runway_number(&"27L".to_string()), 270);
    assert_eq!(heading_from_runway_number(&"36".to_string()), 360);
    assert_eq!(heading_from_runway_number(&"+5".to_string()), 50);
    assert_eq!(heading_from_runway_number(&"H1".to_string()), 0);
    assert_eq!(heading_from_runway_number(&"".to_string()), 0);
    assert_eq!(heading_from_runway_number(&"-5".to_string()), 0);
    assert_eq!(heading_from_runway_number(&"7000".to_string()), 0);
    assert_eq!(heading_from_runway_number(&"99999".to_string()), 0);
}

#[test]
fn text_search() {
    assert!(contains_text("TURF-GRVL", "TURF"));
    assert!(contains_text("ASPH", ""));
    assert!(!contains_text("ASP", "ASPH"));
    assert!(!contains_text("grass", "GRASS"));
    assert!(contains_text("ÉGRS", "GRS"));
}

#[test]
fn grass_surfaces() {
    assert!(is_grass_surface("GRASS"));
    assert!(is_grass_surface("TURF-G"));
    assert!(is_grass_surface("SOD"));
    assert!(is_grass_surface("GRS/DIRT"));
    assert!(!is_grass_surface("ASPH"));
    assert!(!is_grass_surface("Grass"));
}

#[test]
fn runway_headings_from_identifiers() {
    let r = prepare_runway(runway(1, "ASPH", "09", "27", 0, 0));
    assert_eq!(r.le_heading, 90);
    assert_eq!(r.he_heading, 270);
    assert!(!r.is_grass);
}

#[test]
fn runway_headings_fall_back_to_recorded() {
    let r = prepare_runway(runway(1, "TURF", "H1", "H2", 0, 0));
    assert_eq!(r.le_heading, 87);
    assert_eq!(r.he_heading, 267);
    assert!(r.is_grass);
    let r = prepare_runway(runway(1, "ASPH", "09", "", 0, 0));
    assert_eq!(r.le_heading, 90);
    assert_eq!(r.he_heading, 267);
    let r = prepare_runway(runway(1, "ASPH", "9", "X", 0, 0));
    assert_eq!(r.le_heading, 90);
    assert_eq!(r.he_heading, 267);
    let r = prepare_runway(runway(1, "ASPH", "H1", "27", 0, 0));
    assert_eq!(r.le_heading, 87);
    assert_eq!(r.he_heading, 270);
}

#[test]
fn join_back_fills_zero_elevations() {
    let runways = vec![
        runway(7, "ASPH", "04", "22", 0, 910),
        runway(8, "GRASS", "18", "36", 0, 0),
        runway(7, "TURF", "13", "31", 905, 0),
    ];
    let airports = vec![airport(7, "KABC", 900), airport(8, "XYZ", 1200), airport(9, "KNON", 15)];
    let index = load_airports(runways, airports);

    let abc = index.load_by_identifier("KABC").unwrap();
    assert_eq!(abc.id, 7);
    assert_eq!(abc.name, "Airport KABC");
    assert_eq!(abc.latitude, 45_123_456);
    assert_eq!(abc.runways.len(), 2);
    assert_eq!(abc.runways[0].le_ident, "04");
    assert_eq!(abc.runways[0].le_elevation, 900);
    assert_eq!(abc.runways[0].he_elevation, 910);
    assert_eq!(abc.runways[0].le_heading, 40);
    assert_eq!(abc.runways[1].le_ident, "13");
    assert_eq!(abc.runways[1].le_elevation, 905);
    assert_eq!(abc.runways[1].he_elevation, 900);
    assert!(abc.runways[1].is_grass);

    let xyz = index.load_by_identifier("XYZ").unwrap();
    assert_eq!(xyz.runways.len(), 1);
    assert_eq!(xyz.runways[0].le_elevation, 1200);
    assert_eq!(xyz.runways[0].he_elevation, 1200);
    assert_eq!(xyz.runways[0].he_heading, 360);

    let none = index.load_by_identifier("KNON").unwrap();
    assert!(none.runways.is_empty());
}

#[test]
fn lookup_falls_back_to_shorter_identifier() {
    let airports = vec![airport(1, "XYZ", 100), airport(2, "KABC", 200), airport(3, "ABC", 300)];
    let index = load_airports(Vec::new(), airports);
    assert_eq!(index.load_by_identifier("KXYZ").unwrap().id, 1);
    assert_eq!(index.load_by_identifier("KABC").unwrap().id, 2);
    assert_eq!(index.load_by_identifier("ABC").unwrap().id, 3);
    assert!(index.load_by_identifier("KQQQ").is_none());
    assert!(index.load_by_identifier("QQQ").is_none());
    assert!(index.load_by_identifier("").is_none());
    assert!(index.load_by_identifier("kxyz").is_none());
}

#[test]
fn later_record_replaces_same_identifier() {
    let airports = vec![airport(1, "KAAA", 100), airport(2, "KAAA", 200)];
    let index = load_airports(vec![runway(1, "ASPH", "01", "19", 0, 0)], airports);
    let a = index.load_by_identifier("KAAA").unwrap();
    assert_eq!(a.id, 2);
    assert!(a.runways.is_empty());
}
