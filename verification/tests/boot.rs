use sovereign_sandbox::boot::animate_boot_text;

#[test]
fn the_boot_screen_grows_by_a_line_every_two_seconds() {
    let lines = [
        "> INITIALIZING KERNEL...",
        "> LOAD_BRAIN... [OK]",
        "> ATTUNING EARS... [OK]",
        "> CONNECTING TO THE NOOSPHERE...",
        "> WELCOME, ARCHITECT.",
    ];
    let shown = [(0, 1), (1, 1), (2, 2), (3, 2), (4, 3), (5, 3), (6, 4), (7, 4), (8, 5), (9, 5), (1000, 5)];
    for (secs, count) in shown {
        assert_eq!(
            animate_boot_text("> INITIALIZING KERNEL...\n> ", secs),
            Some(lines[..count].join("\n")),
            "after {} seconds",
            secs
        );
    }
}

#[test]
fn the_boot_screen_stays_once_it_has_welcomed_the_player() {
    assert_eq!(animate_boot_text("> WELCOME, ARCHITECT.", 0), None);
    assert_eq!(animate_boot_text("x\n> WELCOME, ARCHITECT.", 100), None);
    assert_eq!(animate_boot_text("ARCHITECT", 3), None);
    assert!(animate_boot_text("Architect", 3).is_some());
    assert!(animate_boot_text("", 3).is_some());
}
