use httpstat::format::Format::{Blue, Red};
use httpstat::progress::Progress;
use httpstat::template::Process;
use httpstat::template::Process::{
    Connect, ContentTransfer, DnsLookup, NameLookup, PreTransfer, ServerProcessing, SslHandshake,
    StartTransfer, TcpConnection, Total,
};
use httpstat::template::{Template, WIDTH};

#[test]
fn process_index() {
    assert_eq!(DnsLookup.index(), "a0000");
    assert_eq!(TcpConnection.index(), "a0001");
    assert_eq!(SslHandshake.index(), "a0002");
    assert_eq!(ServerProcessing.index(), "a0003");
    assert_eq!(ContentTransfer.index(), "a0004");
    assert_eq!(NameLookup.index(), "b0000");
    assert_eq!(Connect.index(), "b0001");
    assert_eq!(PreTransfer.index(), "b0002");
    assert_eq!(StartTransfer.index(), "b0003");
    assert_eq!(Total.index(), "b0004");
}

#[test]
fn http_format() {
    let mut t = Template::new("http");
    t.progress(Progress::new(DnsLookup, 100, Blue));
    t.progress(Progress::new(TcpConnection, 200, Blue));
    t.progress(Progress::new(ServerProcessing, 300, Blue));
    t.progress(Progress::new(ContentTransfer, 400, Blue));
    t.progress(Progress::new(NameLookup, 500, Blue));
    t.progress(Progress::new(Connect, 600, Blue));
    t.progress(Progress::new(StartTransfer, 700, Blue));
    t.progress(Progress::new(Total, 800, Blue));

    assert_eq!(t.format(),
               "  DNS Lookup   TCP Connection   Server Processing   Content Transfer
[   \
                \x1b[34m 100ms \x1b[0m  |     \x1b[34m 200ms \x1b[0m    |      \
                \x1b[34m 300ms \x1b[0m      |      \x1b[34m 400ms \x1b[0m     ]
             |                \
                |                   |                  |
    namelookup:\x1b[34m500ms  \x1b[0m        |                   \
                |                  |
                        connect:\x1b[34m600ms  \x1b[0m           |                  \
                |
                                      starttransfer:\x1b[34m700ms  \x1b[0m          |
                                                                 \
                total:\x1b[34m800ms  \x1b[0m");
}

#[test]
fn https_format() {
    let mut t = Template::new("https");
    t.progress(Progress::new(DnsLookup, 100, Red));
    t.progress(Progress::new(TcpConnection, 200, Red));
    t.progress(Progress::new(SslHandshake, 300, Red));
    t.progress(Progress::new(ServerProcessing, 400, Red));
    t.progress(Progress::new(ContentTransfer, 500, Red));
    t.progress(Progress::new(NameLookup, 600, Red));
    t.progress(Progress::new(Connect, 700, Red));
    t.progress(Progress::new(PreTransfer, 800, Red));
    t.progress(Progress::new(StartTransfer, 900, Red));
    t.progress(Progress::new(Total, 1000, Red));

    assert_eq!(t.format(),
               "  DNS Lookup   TCP Connection   SSL Handshake   Server Processing   Content \
                Transfer
[   \x1b[31m 100ms \x1b[0m  |     \x1b[31m 200ms \x1b[0m    |    \
                \x1b[31m 300ms \x1b[0m    |      \x1b[31m 400ms \x1b[0m      |      \
                \x1b[31m 500ms \x1b[0m     ]
             |                |               |                   \
                |                  |
    namelookup:\x1b[31m600ms  \x1b[0m        |               |                   \
                |                  |
                        connect:\x1b[31m700ms  \x1b[0m       |                   \
                |                  |
                                    pretransfer:\x1b[31m800ms  \x1b[0m           \
                |                  |
                                                      \
                starttransfer:\x1b[31m900ms  \x1b[0m          |
                                                                                 \
                total:\x1b[31m1000ms \x1b[0m");
}

const HTTP_EMPTY: &str = "\x20 DNS Lookup   TCP Connection   Server Processing   Content Transfer\n\
[     |         |            |           ]\n\
\x20            |                |                   |                  |\n\
\x20   namelookup:        |                   |                  |\n\
\x20                       connect:           |                  |\n\
\x20                                     starttransfer:          |\n\
\x20                                                                total:";

const HTTPS_EMPTY: &str = "\x20 DNS Lookup   TCP Connection   SSL Handshake   Server Processing   Content Transfer\n\
[     |         |        |            |           ]\n\
\x20            |                |               |                   |                  |\n\
\x20   namelookup:        |               |                   |                  |\n\
\x20                       connect:       |                   |                  |\n\
\x20                                   pretransfer:           |                  |\n\
\x20                                                     starttransfer:          |\n\
\x20                                                                                total:";

const HTTP_NAMED: &str = "\x20 DNS Lookup   TCP Connection   Server Processing   Content Transfer\n\
[   a0000  |     a0001    |      a0003      |      a0004     ]\n\
\x20            |                |                   |                  |\n\
\x20   namelookup:b0000        |                   |                  |\n\
\x20                       connect:b0001           |                  |\n\
\x20                                     starttransfer:b0003          |\n\
\x20                                                                total:b0004";

const HTTPS_NAMED: &str = "\x20 DNS Lookup   TCP Connection   SSL Handshake   Server Processing   Content Transfer\n\
[   a0000  |     a0001    |    a0002    |      a0003      |      a0004     ]\n\
\x20            |                |               |                   |                  |\n\
\x20   namelookup:b0000        |               |                   |                  |\n\
\x20                       connect:b0001       |                   |                  |\n\
\x20                                   pretransfer:b0002           |                  |\n\
\x20                                                     starttransfer:b0003          |\n\
\x20                                                                                total:b0004";

#[test]
fn http_format_without_any_text() {
    let t = Template::new("http");

    assert_eq!(t.format(), HTTP_EMPTY);
}

#[test]
fn https_format_without_any_text() {
    let t = Template::new("https");

    assert_eq!(t.format(), HTTPS_EMPTY);
}

#[test]
fn unknown_scheme_uses_the_http_diagram() {
    assert_eq!(Template::new("ftp").format(), HTTP_EMPTY);
    assert_eq!(Template::new("").format(), HTTP_EMPTY);
    assert_eq!(Template::new("HTTPS").format(), HTTP_EMPTY);
    assert_eq!(Template::new("https ").format(), HTTP_EMPTY);
}

#[test]
fn http_format_has_eight_places() {
    let mut t = Template::new("http");
    let all = [
        DnsLookup,
        TcpConnection,
        SslHandshake,
        ServerProcessing,
        ContentTransfer,
        NameLookup,
        Connect,
        PreTransfer,
        StartTransfer,
        Total,
    ];
    for p in all {
        t.insert(p.index(), p.index());
    }

    assert_eq!(t.format(), HTTP_NAMED);
}

#[test]
fn https_format_has_ten_places() {
    let mut t = Template::new("https");
    let all = [
        DnsLookup,
        TcpConnection,
        SslHandshake,
        ServerProcessing,
        ContentTransfer,
        NameLookup,
        Connect,
        PreTransfer,
        StartTransfer,
        Total,
    ];
    for p in all {
        t.insert(p.index(), p.index());
    }

    assert_eq!(t.format(), HTTPS_NAMED);
}

#[test]
fn format_with_one_place_left_out() {
    let mut t = Template::new("https");
    t.progress(Progress::new(DnsLookup, 1, Blue));
    t.progress(Progress::new(TcpConnection, 2, Blue));
    t.progress(Progress::new(ServerProcessing, 4, Blue));
    t.progress(Progress::new(ContentTransfer, 5, Blue));

    let text = t.format();
    let second = text.lines().nth(1).unwrap();

    assert_eq!(second,
               "[   \x1b[34m  1ms  \x1b[0m  |     \x1b[34m  2ms  \x1b[0m    |        |      \
                \x1b[34m  4ms  \x1b[0m      |      \x1b[34m  5ms  \x1b[0m     ]");
    assert_eq!(text.lines().count(), 8);
}

#[test]
fn format_twice_gives_the_same_text() {
    let mut t = Template::new("https");
    t.progress(Progress::new(DnsLookup, 12, Red));
    t.progress(Progress::new(Total, 345, Blue));

    let first = t.format();
    let second = t.format();

    assert_eq!(first, second);
}

#[test]
fn later_text_replaces_the_earlier_one() {
    let mut t = Template::new("http");
    t.insert("a0000".to_owned(), "first".to_owned());
    t.insert("b0004".to_owned(), "end".to_owned());
    t.insert("a0000".to_owned(), "second".to_owned());

    let mut expected = Template::new("http");
    expected.insert("b0004".to_owned(), "end".to_owned());
    expected.insert("a0000".to_owned(), "second".to_owned());

    assert_eq!(t.format(), expected.format());
    assert!(t.format().contains("[   second  |"));
    assert!(!t.format().contains("first"));
}

#[test]
fn text_for_an_unknown_place_is_not_shown() {
    let mut t = Template::new("http");
    t.insert("c0000".to_owned(), "stray".to_owned());
    t.insert("a0002".to_owned(), "handshake".to_owned());
    t.insert("b0002".to_owned(), "prepared".to_owned());

    assert_eq!(t.format(), HTTP_EMPTY);
}

#[test]
fn empty_text_reads_as_no_text() {
    let mut t = Template::new("https");
    t.insert(SslHandshake.index(), String::new());

    assert_eq!(t.format(), HTTPS_EMPTY);
}

#[test]
fn align_upper_row_is_centered() {
    assert_eq!(DnsLookup.align(100), " 100ms ");
    assert_eq!(TcpConnection.align(100), " 100ms ");
    assert_eq!(SslHandshake.align(100), " 100ms ");
    assert_eq!(ServerProcessing.align(100), " 100ms ");
    assert_eq!(ContentTransfer.align(100), " 100ms ");
}

#[test]
fn align_lower_rows_are_left_justified() {
    assert_eq!(NameLookup.align(100), "100ms  ");
    assert_eq!(Connect.align(100), "100ms  ");
    assert_eq!(PreTransfer.align(100), "100ms  ");
    assert_eq!(StartTransfer.align(100), "100ms  ");
    assert_eq!(Total.align(100), "100ms  ");
}

#[test]
fn align_puts_the_odd_space_on_the_right() {
    assert_eq!(DnsLookup.align(0), "  0ms  ");
    assert_eq!(DnsLookup.align(10), " 10ms  ");
    assert_eq!(DnsLookup.align(1000), "1000ms ");
    assert_eq!(Total.align(0), "0ms    ");
    assert_eq!(Total.align(10), "10ms   ");
    assert_eq!(Total.align(1000), "1000ms ");
}

#[test]
fn align_keeps_a_long_number_whole() {
    assert_eq!(DnsLookup.align(10000), "10000ms");
    assert_eq!(DnsLookup.align(123456), "123456ms");
    assert_eq!(Total.align(123456), "123456ms");
    assert_eq!(Total.align(i128::MAX), "170141183460469231731687303715884105727ms");
}

#[test]
fn align_shows_a_negative_time_with_its_sign() {
    assert_eq!(TcpConnection.align(-86), " -86ms ");
    assert_eq!(TcpConnection.align(-5), " -5ms  ");
    assert_eq!(Connect.align(-5), "-5ms   ");
    assert_eq!(Connect.align(-12345), "-12345ms");
    assert_eq!(Total.align(i128::MIN), "-170141183460469231731687303715884105728ms");
}

#[test]
fn align_fills_the_width() {
    let all: [Process; 10] = [
        DnsLookup,
        TcpConnection,
        SslHandshake,
        ServerProcessing,
        ContentTransfer,
        NameLookup,
        Connect,
        PreTransfer,
        StartTransfer,
        Total,
    ];
    for p in all {
        for ms in [-9999, -100, -1, 0, 7, 42, 999, 9999, 99999] {
            assert_eq!(p.align(ms).chars().count(), WIDTH);
        }
    }
}
