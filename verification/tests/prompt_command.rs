use runtimes::prompt_command::{message_for, PromptSlashCommand};

#[test]
fn prompt_command_names_itself() {
    let command = PromptSlashCommand::new();
    assert_eq!(command.name(), "prompt");
    assert_eq!(command.description(), "insert a prompt from the library");
}

#[test]
fn prompt_command_completes_nothing() {
    let command = PromptSlashCommand::new();
    assert_eq!(command.complete_argument("any".to_string()), Vec::<String>::new());
    assert_eq!(command.complete_argument(String::new()), Vec::<String>::new());
}

#[test]
fn prompt_command_runs() {
    let command = PromptSlashCommand::new();
    assert_eq!(command.run(None), "inserting prompt None");
    assert_eq!(command.run(Some("rust")), "inserting prompt Some(\"rust\")");
    assert_eq!(command.run(Some("a \"b\"\n")), "inserting prompt Some(\"a \\\"b\\\"\\n\")");
    for argument in [None, Some(""), Some("tab\there"), Some("é"), Some("back\\slash")] {
        assert_eq!(command.run(argument), format!("inserting prompt {:?}", argument));
    }
}

#[test]
fn prompt_message_wraps_the_print() {
    assert_eq!(message_for(None), "inserting prompt None");
    assert_eq!(message_for(Some("\"x\"")), "inserting prompt Some(\"x\")");
    assert_eq!(message_for(Some("")), "inserting prompt Some()");
}
