use ode_core::options::{
    Abstol, AdaptiveOptions, AdaptiveOptionsBuilder, ConfigError, Initstep, Maxstep, Minstep, Norm,
    OdeName, OdeOp, OdeOption, OdeOptionMap, OutputPoints, Points, Reltol, Retries,
    fmt_comma_delimited,
};
use ode_core::rational::Rational;

#[test]
fn canonical_names_are_stable() {
    assert_eq!(Norm::option_name(), "Norm");
    assert_eq!(Reltol::option_name(), "Reltol");
    assert_eq!(Abstol::option_name(), "Abstol");
    assert_eq!(Minstep::option_name(), "Minstep");
    assert_eq!(Maxstep::option_name(), "Maxstep");
    assert_eq!(Initstep::option_name(), "Initstep");
    assert_eq!(OutputPoints::option_name(), "Points");
    assert_eq!(Retries::option_name(), "Retries");
}

#[test]
fn name_lookup_round_trip() {
    let names = [
        OdeName::Norm,
        OdeName::Reltol,
        OdeName::Abstol,
        OdeName::Minstep,
        OdeName::Maxstep,
        OdeName::Initstep,
        OdeName::Points,
        OdeName::Retries,
    ];
    for n in names {
        assert_eq!(OdeName::from_name(n.canonical_name()), Some(n));
    }
    assert_eq!(OdeName::from_name("NoSuchOption"), None);
    assert_eq!(OdeName::from_name(""), None);
    // Names are case-sensitive.
    assert_eq!(OdeName::from_name("reltol"), None);
}

#[test]
fn defaults_resolve() {
    assert_eq!(Reltol::default(), Reltol(Rational::new(1, 100000)));
    assert_eq!(Abstol::default(), Abstol(Rational::new(1, 100000000)));
    assert_eq!(Retries::default(), Retries(0));
    assert_eq!(Points::default(), Points::All);

    // An option set built without them resolves to the same values.
    let set = AdaptiveOptionsBuilder::new()
        .norm(Norm(Rational::new(1, 1)))
        .build()
        .unwrap();
    assert_eq!(set.reltol(), Reltol(Rational::new(1, 100000)));
    assert_eq!(set.abstol(), Abstol(Rational::new(1, 100000000)));
    assert_eq!(set.retries(), Retries(0));
    assert_eq!(set.points(), OutputPoints(Points::All));
    assert!(set.minstep.is_none());
    assert!(set.maxstep.is_none());
    assert!(set.initstep.is_none());
}

#[test]
fn map_round_trip_for_every_canonical_name() {
    let mut map = OdeOptionMap::new();
    let values = || {
        vec![
            (OdeName::Norm, OdeOption::Norm(Rational::new(3, 2))),
            (OdeName::Reltol, OdeOption::Reltol(Rational::new(1, 1000))),
            (OdeName::Abstol, OdeOption::Abstol(Rational::new(1, 2000))),
            (OdeName::Minstep, OdeOption::Minstep(1)),
            (OdeName::Maxstep, OdeOption::Maxstep(100)),
            (OdeName::Initstep, OdeOption::Initstep(10)),
            (
                OdeName::Points,
                OdeOption::OutputPoints(Points::Specified(vec![0, 2, 5])),
            ),
            (OdeName::Retries, OdeOption::Retries(3)),
        ]
    };
    for (name, value) in values() {
        assert_eq!(map.insert(name, value), None);
    }
    for (name, value) in values() {
        assert_eq!(map.get(name), Some(&value));
    }
    // Inserting again under the same name replaces and returns the old.
    let prev = map.insert(OdeName::Retries, OdeOption::Retries(9));
    assert_eq!(prev, Some(OdeOption::Retries(3)));
    assert_eq!(map.get(OdeName::Retries), Some(&OdeOption::Retries(9)));
    // Removing empties the slot.
    assert_eq!(map.remove(OdeName::Norm), Some(OdeOption::Norm(Rational::new(3, 2))));
    assert_eq!(map.get(OdeName::Norm), None);
    assert_eq!(map.remove(OdeName::Norm), None);
}

#[test]
fn display_of_points() {
    assert_eq!(
        Points::Specified(vec![0, 2, 5]).display_string(),
        "Points: [0, 2, 5]"
    );
    assert_eq!(Points::All.display_string(), "Points: All");
    assert_eq!(Points::Specified(Vec::new()).display_string(), "Points: []");
    assert_eq!(Points::Specified(vec![17]).display_string(), "Points: [17]");
    assert_eq!(
        OutputPoints(Points::Specified(vec![0, 2, 5])).display_string(),
        "Points: [0, 2, 5]"
    );
}

#[test]
fn display_of_payloads() {
    assert_eq!(fmt_comma_delimited(&vec![0, 2, 5]), "0, 2, 5");
    assert_eq!(fmt_comma_delimited(&Vec::new()), "");
    assert_eq!(Reltol::default().display_string(), "1/100000");
    assert_eq!(Norm(Rational::new(-3, 7)).display_string(), "-3/7");
    assert_eq!(Retries(12).display_string(), "12");
    assert_eq!(Minstep(0).display_string(), "0");
    assert_eq!(Maxstep(250).display_string(), "250");
    assert_eq!(OdeOption::Initstep(40).display_string(), "40");
    assert_eq!(
        OdeOption::Abstol(Rational::new(1, 100000000)).display_string(),
        "1/100000000"
    );
    assert_eq!(OdeOption::Retries(7).canonical_name(), "Retries");
    assert_eq!(
        OdeOption::OutputPoints(Points::All).canonical_name(),
        "Points"
    );
}

#[test]
fn mismatched_kind_fails_conversion() {
    // A Reltol value stored under the canonical name of Abstol must be
    // reported, never silently substituted.
    let mut map = OdeOptionMap::new();
    map.insert(OdeName::Norm, OdeOption::Norm(Rational::new(1, 1)));
    map.insert(OdeName::Abstol, OdeOption::Reltol(Rational::new(1, 1000)));
    assert_eq!(
        AdaptiveOptions::from_map(&map),
        Err(ConfigError::KindMismatch(OdeName::Abstol))
    );
}

#[test]
fn missing_required_field_fails() {
    // Norm declares no default: an empty map cannot convert, and a
    // builder that never supplied it cannot build.
    let map = OdeOptionMap::new();
    assert_eq!(
        AdaptiveOptions::from_map(&map),
        Err(ConfigError::MissingField(OdeName::Norm))
    );
    assert_eq!(
        AdaptiveOptionsBuilder::new().reltol(Reltol::default()).build(),
        Err(ConfigError::MissingField(OdeName::Norm))
    );
}

#[test]
fn set_and_map_convert_both_ways() {
    let set = AdaptiveOptionsBuilder::new()
        .norm(Norm(Rational::new(2, 1)))
        .reltol(Reltol(Rational::new(1, 500)))
        .minstep(Minstep(2))
        .points(OutputPoints(Points::Specified(vec![1, 4])))
        .retries(Retries(5))
        .build()
        .unwrap();
    assert_eq!(set.norm, Norm(Rational::new(2, 1)));
    assert_eq!(set.reltol, Some(Reltol(Rational::new(1, 500))));
    assert_eq!(set.abstol, None);

    let map = set.to_map();
    assert_eq!(map.get(OdeName::Norm), Some(&OdeOption::Norm(Rational::new(2, 1))));
    assert_eq!(
        map.get(OdeName::Reltol),
        Some(&OdeOption::Reltol(Rational::new(1, 500)))
    );
    assert_eq!(map.get(OdeName::Abstol), None);
    assert_eq!(map.get(OdeName::Minstep), Some(&OdeOption::Minstep(2)));
    assert_eq!(map.get(OdeName::Maxstep), None);
    assert_eq!(
        map.get(OdeName::Points),
        Some(&OdeOption::OutputPoints(Points::Specified(vec![1, 4])))
    );
    assert_eq!(map.get(OdeName::Retries), Some(&OdeOption::Retries(5)));

    let back = AdaptiveOptions::from_map(&map).unwrap();
    assert_eq!(back.norm, set.norm);
    assert_eq!(back.reltol, set.reltol);
    assert_eq!(back.abstol, None);
    assert_eq!(back.minstep, set.minstep);
    assert_eq!(back.maxstep, None);
    assert_eq!(back.initstep, None);
    assert_eq!(back.points, set.points);
    assert_eq!(back.retries, set.retries);
}
