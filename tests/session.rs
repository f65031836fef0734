use lox::eval::run;
use lox::session::{repl_next, respond, ReplEvent, ReplStep};

fn line(text: &str) -> ReplEvent {
    ReplEvent::Line(text.to_string())
}

#[test]
fn quit_words_stop_the_loop() {
    assert!(matches!(respond("exit"), ReplStep::Stop));
    assert!(matches!(respond("quit"), ReplStep::Stop));
}

#[test]
fn other_input_is_evaluated() {
    assert!(matches!(respond("print 1;"), ReplStep::Evaluated(Ok(()))));
    assert!(matches!(respond("exits"), ReplStep::Evaluated(Ok(()))));
    assert!(matches!(respond("Exit"), ReplStep::Evaluated(Ok(()))));
    assert!(matches!(respond(""), ReplStep::Evaluated(Ok(()))));
}

#[test]
fn line_endings_are_trimmed_before_deciding() {
    assert!(matches!(repl_next(&line("exit\n")), ReplStep::Stop));
    assert!(matches!(repl_next(&line("quit \r\n")), ReplStep::Stop));
    assert!(matches!(repl_next(&line(" exit\n")), ReplStep::Evaluated(Ok(()))));
    assert!(matches!(repl_next(&line("var a = 1;\n")), ReplStep::Evaluated(Ok(()))));
}

#[test]
fn read_failure_stops() {
    assert!(matches!(repl_next(&ReplEvent::ReadFailed), ReplStep::Stop));
}

#[test]
fn empty_read_is_evaluated_and_does_not_stop() {
    assert!(matches!(repl_next(&line("")), ReplStep::Evaluated(Ok(()))));
    assert!(matches!(repl_next(&line("\n")), ReplStep::Evaluated(Ok(()))));
}

#[test]
fn evaluation_accepts_source() {
    assert_eq!(run(""), Ok(()));
    assert_eq!(run("print \"hi\";\n"), Ok(()));
}
