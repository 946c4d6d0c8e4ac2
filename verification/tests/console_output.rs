use arch_boot::console::LINE_TERMINATOR;
use arch_boot::console::Stdout;
use arch_boot::console::print;
use arch_boot::console::print_line;

#[test]
fn terminated_emission_equals_plain_emission_of_terminated_payload() {
    let mut with_terminator = Stdout::new();
    print_line(&mut with_terminator, b"boot ok");

    let mut plain = Stdout::new();
    print(&mut plain, b"boot ok\n");

    assert_eq!(with_terminator.sent, plain.sent);
}

#[test]
fn print_forwards_the_payload_unchanged() {
    let mut out = Stdout::new();
    print(&mut out, b"boot ok");
    assert_eq!(out.sent, b"boot ok".to_vec());
}

#[test]
fn print_line_appends_exactly_one_terminator() {
    let mut out = Stdout::new();
    print_line(&mut out, b"boot ok");
    let mut expected = b"boot ok".to_vec();
    expected.push(LINE_TERMINATOR);
    assert_eq!(out.sent, expected);
}

#[test]
fn emissions_accumulate_in_order() {
    let mut out = Stdout::new();
    print(&mut out, b"a");
    print_line(&mut out, b"b");
    print(&mut out, b"");
    print(&mut out, b"c");
    assert_eq!(out.sent, b"ab\nc".to_vec());
}

#[test]
fn empty_payloads() {
    let mut out = Stdout::new();
    print(&mut out, b"");
    assert_eq!(out.sent, Vec::<u8>::new());
    print_line(&mut out, b"");
    assert_eq!(out.sent, vec![LINE_TERMINATOR]);
}
