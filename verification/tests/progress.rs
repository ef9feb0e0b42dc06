use httpstat::format::Format::{Blue, GrayScale, Yellow};
use httpstat::progress::Progress;
use httpstat::template::Process::{ContentTransfer, DnsLookup, NameLookup, TcpConnection, Total};

#[test]
fn output_progress_dns_lookup() {
    let p = Progress::new(DnsLookup, 100, Blue);
    let (index, format) = p.output();

    assert_eq!(index, "a0000");
    assert_eq!(format, "\x1b[34m 100ms \x1b[0m");
}

#[test]
fn output_progress_name_lookup() {
    let p = Progress::new(NameLookup, 100, Blue);
    let (index, format) = p.output();

    assert_eq!(index, "b0000");
    assert_eq!(format, "\x1b[34m100ms  \x1b[0m");
}

#[test]
fn output_progress_negative_time() {
    let p = Progress::new(TcpConnection, -86, Yellow);
    let (index, format) = p.output();

    assert_eq!(index, "a0001");
    assert_eq!(format, "\x1b[33m -86ms \x1b[0m");
}

#[test]
fn output_progress_gray_total() {
    let p = Progress::new(Total, 2782, GrayScale(16));
    let (index, format) = p.output();

    assert_eq!(index, "b0004");
    assert_eq!(format, "\x1b[38;5;248m2782ms \x1b[0m");
}

#[test]
fn output_progress_twice_is_the_same() {
    let p = Progress::new(ContentTransfer, 123, Blue);

    assert_eq!(p.output(), p.output());
}
