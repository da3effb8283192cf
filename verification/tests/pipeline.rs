use dev_console::console::{AddCommand, ConsoleInputEvent, ConsoleOutputEvent, ConsoleState, OutputSink};
use dev_console::commands::{Give, Heal};
use dev_console::errors::ConsoleError;

fn submit(state: &mut ConsoleState, line: &str) {
    state.submit(ConsoleInputEvent(line.to_string()));
}

fn output_lines(state: &ConsoleState) -> Vec<String> {
    state.output().iter().map(|ev| ev.0.clone()).collect()
}

#[test]
fn heal_end_to_end() {
    let mut state = ConsoleState::new();
    assert_eq!(state.register_command::<Heal>(), Ok(()));

    submit(&mut state, "heal 10");
    let dispatched = state.tick::<Heal>();
    assert_eq!(dispatched, Some(Heal { amount: 10 }));
    assert_eq!(output_lines(&state), vec!["$ heal 10".to_string()]);

    submit(&mut state, "heal");
    let dispatched = state.tick::<Heal>();
    assert_eq!(dispatched, None);
    assert_eq!(
        output_lines(&state),
        vec![
            "$ heal 10".to_string(),
            "$ heal".to_string(),
            ">> missing required argument: amount".to_string(),
        ]
    );
}

#[test]
fn parse_failure_appends_one_marked_error_line() {
    let mut state = ConsoleState::new();
    assert_eq!(state.register_command::<Give>(), Ok(()));
    submit(&mut state, "give abc");
    assert_eq!(state.tick::<Give>(), None);
    let lines = output_lines(&state);
    assert_eq!(lines.len(), 2);
    assert_eq!(lines[0], "$ give abc");
    assert!(lines[1].starts_with(">> "));
    assert_eq!(lines[1], ">> invalid value for argument: amount");
}

#[test]
fn resubmitting_the_same_line_repeats_the_outcome() {
    let mut state = ConsoleState::new();
    assert_eq!(state.register_command::<Give>(), Ok(()));

    submit(&mut state, "give 5");
    let first = state.tick::<Give>();
    submit(&mut state, "give 5");
    let second = state.tick::<Give>();

    assert_eq!(first, Some(Give { amount: 5 }));
    assert_eq!(second, first);
    assert_eq!(
        output_lines(&state),
        vec!["$ give 5".to_string(), "$ give 5".to_string()]
    );
}

#[test]
fn no_match_is_silent() {
    let mut state = ConsoleState::new();
    assert_eq!(state.register_command::<Give>(), Ok(()));
    submit(&mut state, "gift 5");
    assert_eq!(state.tick::<Give>(), None);
    assert_eq!(output_lines(&state), vec!["$ gift 5".to_string()]);
}

#[test]
fn blank_line_echoes_and_stops() {
    let mut state = ConsoleState::new();
    submit(&mut state, "");
    assert_eq!(state.tick::<Heal>(), None);
    submit(&mut state, "   ");
    assert_eq!(state.tick::<Heal>(), None);
    assert_eq!(output_lines(&state), vec!["$ ".to_string(), "$    ".to_string()]);
}

#[test]
fn mismatched_quotes_are_reported() {
    let mut state = ConsoleState::new();
    submit(&mut state, "foo \"bar");
    assert_eq!(state.tick::<Heal>(), None);
    assert_eq!(
        output_lines(&state),
        vec!["$ foo \"bar".to_string(), ">> error due to mismatch quotes".to_string()]
    );
}

#[test]
fn tick_without_input_is_a_no_op() {
    let mut state = ConsoleState::new();
    assert_eq!(state.tick::<Heal>(), None);
    assert!(output_lines(&state).is_empty());
}

#[test]
fn last_submission_in_a_tick_wins() {
    let mut state = ConsoleState::new();
    submit(&mut state, "heal 1");
    submit(&mut state, "heal 2");
    assert_eq!(state.tick::<Heal>(), Some(Heal { amount: 2 }));
    assert_eq!(output_lines(&state), vec!["$ heal 2".to_string()]);
}

#[test]
fn duplicate_registration_is_refused() {
    let mut state = ConsoleState::new();
    assert_eq!(state.register_command::<Give>(), Ok(()));
    assert_eq!(state.register_command::<Heal>(), Ok(()));
    assert_eq!(state.register_command::<Give>(), Err(ConsoleError::DuplicateName));
}

#[test]
fn add_command_registers_through_the_trait() {
    let mut state = ConsoleState::new();
    assert_eq!(state.add_command::<Heal>(), Ok(()));
    assert_eq!(state.add_command::<Heal>(), Err(ConsoleError::DuplicateName));
}

#[test]
fn output_sink_appends_in_order() {
    let mut sink = OutputSink::new();
    assert!(sink.snapshot().is_empty());
    sink.append(ConsoleOutputEvent("first".to_string()));
    sink.append(ConsoleOutputEvent("second".to_string()));
    let lines: Vec<&str> = sink.snapshot().iter().map(|ev| ev.0.as_str()).collect();
    assert_eq!(lines, vec!["first", "second"]);
}

#[test]
fn error_messages_render() {
    assert_eq!(ConsoleError::MismatchedQuotes.message(), "error due to mismatch quotes");
    assert_eq!(ConsoleError::NoMatch.message(), "unknown command");
    assert_eq!(ConsoleError::DuplicateName.message(), "duplicate command name or alias");
    assert_eq!(ConsoleError::ParseFailure("boom".to_string()).message(), "boom");
}
