use buddy::usage::usage_lines;

#[test]
fn usage_is_the_fixed_text() {
    let expected = vec![
        "Usage: buddy [command] [options]",
        "",
        "Commands:",
        "  new, create       Create a new Stacks project",
        "  cd <project>      Change the current working directory to a different Stacks project",
        "  version           Show the version of the Stacks CLI",
        "  help              Show this help message",
        "",
    ];
    assert_eq!(usage_lines(), expected);
}

#[test]
fn usage_is_the_same_on_every_call() {
    assert_eq!(usage_lines(), usage_lines());
}
