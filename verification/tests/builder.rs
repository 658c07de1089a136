use statemachine_rs::machine::builder::StateMachineBuilder;
use statemachine_rs::machine::error::StateMachineError;
use statemachine_rs::machine::StateMachine;

#[allow(dead_code)]
#[derive(Copy, Clone, Debug, PartialEq)]
enum Stations {
    Shibuya,
    IkejiriOhashi,
    Sangendyaya,
    KomazawaDaigaku,
    Sakurashinmachi,
    Yoga,
    FutakoTamagawa,
}

#[allow(dead_code)]
#[derive(Copy, Clone)]
enum Train {
    Local,
    Express,
}

type Rule = fn(Stations, Train) -> Stations;

fn tokyu_line(station: Stations, train: Train) -> Stations {
    match (station, train) {
        (Stations::Shibuya, Train::Local) => Stations::IkejiriOhashi,
        (Stations::Shibuya, Train::Express) => Stations::Sangendyaya,
        (Stations::IkejiriOhashi, Train::Local) => Stations::Sangendyaya,
        (Stations::Sangendyaya, Train::Local) => Stations::KomazawaDaigaku,
        (Stations::Sangendyaya, Train::Express) => Stations::FutakoTamagawa,
        (Stations::KomazawaDaigaku, Train::Local) => Stations::Sakurashinmachi,
        (Stations::Sakurashinmachi, Train::Local) => Stations::Yoga,
        _ => unreachable!(),
    }
}

#[test]
fn test_build() {
    let mut sm = StateMachineBuilder::start()
        .initial_state(Stations::Shibuya)
        .transition(|station, train| match (station, train) {
            (Stations::Shibuya, Train::Local) => Stations::IkejiriOhashi,
            (Stations::Shibuya, Train::Express) => Stations::Sangendyaya,
            (Stations::IkejiriOhashi, Train::Local) => Stations::Sangendyaya,
            (Stations::Sangendyaya, Train::Local) => Stations::KomazawaDaigaku,
            (Stations::Sangendyaya, Train::Express) => Stations::FutakoTamagawa,
            (Stations::KomazawaDaigaku, Train::Local) => Stations::Sakurashinmachi,
            (Stations::Sakurashinmachi, Train::Local) => Stations::Yoga,
            _ => unreachable!(),
        })
        .build()
        .unwrap();

    assert_eq!(Stations::Sangendyaya, sm.consume(Train::Express));
}

#[test]
fn test_build_starts_at_initial_state() {
    let sm = StateMachineBuilder::start()
        .initial_state(Stations::Shibuya)
        .transition(tokyu_line as Rule)
        .build()
        .unwrap();

    assert_eq!(Stations::Shibuya, sm.current_state());
}

#[test]
fn test_build_with_current_state_override() {
    let mut sm = StateMachineBuilder::start()
        .initial_state(Stations::Shibuya)
        .current_state(Stations::Sangendyaya)
        .transition(tokyu_line as Rule)
        .build()
        .unwrap();

    assert_eq!(Stations::Sangendyaya, sm.current_state());
    // `reset` goes back to the initial state, not to the override.
    assert_eq!(Stations::Shibuya, sm.reset());
}

#[test]
fn test_build_missing_initial_state() {
    let result = StateMachineBuilder::<Stations, Train, Rule>::start()
        .transition(tokyu_line as Rule)
        .build();

    assert_eq!(
        Err(StateMachineError::MissingField("initial_state".to_string())),
        result.map(|_| ())
    );
}

#[test]
fn test_build_missing_transition() {
    let result = StateMachineBuilder::<Stations, Train, Rule>::start()
        .initial_state(Stations::Shibuya)
        .build();

    assert_eq!(
        Err(StateMachineError::MissingField("transition".to_string())),
        result.map(|_| ())
    );
}

#[test]
fn test_build_missing_both_reports_initial_state_first() {
    let result = StateMachineBuilder::<Stations, Train, Rule>::start().build();

    assert_eq!(
        Err(StateMachineError::MissingField("initial_state".to_string())),
        result.map(|_| ())
    );
}

#[test]
fn test_initial_state_last_write_wins() {
    let mut sm = StateMachineBuilder::start()
        .initial_state(Stations::Yoga)
        .initial_state(Stations::Shibuya)
        .transition(tokyu_line as Rule)
        .build()
        .unwrap();

    assert_eq!(Stations::Shibuya, sm.current_state());
    assert_eq!(Stations::Shibuya, sm.reset());
}

#[test]
fn test_current_state_last_write_wins() {
    let sm = StateMachineBuilder::start()
        .initial_state(Stations::Shibuya)
        .current_state(Stations::Yoga)
        .current_state(Stations::Sangendyaya)
        .transition(tokyu_line as Rule)
        .build()
        .unwrap();

    assert_eq!(Stations::Sangendyaya, sm.current_state());
}

fn stay(station: Stations, _train: Train) -> Stations {
    station
}

#[test]
fn test_transition_last_write_wins() {
    let mut sm = StateMachineBuilder::start()
        .initial_state(Stations::Shibuya)
        .transition(stay as Rule)
        .transition(tokyu_line as Rule)
        .build()
        .unwrap();

    assert_eq!(Stations::IkejiriOhashi, sm.consume(Train::Local));
}

#[test]
fn test_error_field_name() {
    let error = StateMachineError::MissingField("transition".to_string());
    assert_eq!("transition", error.field_name());
}

#[test]
fn test_scenario_shibuya_express_and_reset() {
    let mut sm = StateMachineBuilder::start()
        .initial_state(Stations::Shibuya)
        .transition(|station, train| match (station, train) {
            (Stations::Shibuya, Train::Local) => Stations::IkejiriOhashi,
            (Stations::Shibuya, Train::Express) => Stations::Sangendyaya,
            _ => unreachable!(),
        })
        .build()
        .unwrap();

    assert_eq!(Stations::Shibuya, sm.current_state());
    assert_eq!(Stations::Sangendyaya, sm.consume(Train::Express));
    assert_eq!(Stations::Shibuya, sm.reset());
}
