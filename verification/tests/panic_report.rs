use dotme::dotme_panic::{handle_dump, PanicStyle};
use dotme::text::push_decimal;

#[test]
fn style_follows_the_backtrace_variable() {
    assert_eq!(PanicStyle::from_backtrace(Some("1")), PanicStyle::Debug);
    assert_eq!(PanicStyle::from_backtrace(Some("")), PanicStyle::Debug);
    assert_eq!(PanicStyle::from_backtrace(Some("0")), PanicStyle::Debug);
    assert_eq!(PanicStyle::from_backtrace(None), PanicStyle::Human);
}

#[test]
fn dump_of_a_panic_with_message_and_place() {
    let dump = handle_dump(Some("boom"), Some(("src/main.rs", 42)));
    assert_eq!(dump.origin, "Panic occurred in file 'src/main.rs' at line 42");
    assert_eq!(dump.cause, "boom");
    assert_eq!(
        dump.report(),
        "\n\norigin: Panic occurred in file 'src/main.rs' at line 42\ncause: boom\n"
    );
}

#[test]
fn dump_of_a_panic_without_either() {
    let dump = handle_dump(None, None);
    assert_eq!(dump.origin, "Panic location unknown.");
    assert_eq!(dump.cause, "Unknown");
    assert_eq!(dump.report(), "\n\norigin: Panic location unknown.\ncause: Unknown\n");
}

#[test]
fn dump_names_every_line() {
    for line in [0u32, 1, 9, 10, 11, 99, 100, 101, 1000, 4096, 65535, 1_000_000, u32::MAX - 1, u32::MAX] {
        let dump = handle_dump(Some(""), Some(("lib.rs", line)));
        assert_eq!(dump.origin, format!("Panic occurred in file 'lib.rs' at line {}", line));
        assert_eq!(dump.cause, "");
    }
}

#[test]
fn decimal_digits_follow_the_text() {
    let mut out = String::from("line ");
    push_decimal(&mut out, 4294967295);
    assert_eq!(out, "line 4294967295");
    push_decimal(&mut out, 0);
    assert_eq!(out, "line 42949672950");
    push_decimal(&mut out, 1070);
    assert_eq!(out, "line 429496729501070");
}
