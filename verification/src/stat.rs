//! From the times of a request to its diagram.
use crate::connection::Response;
use crate::format::Format;
use crate::progress::Progress;
use crate::template::{diagram, lemma_insert_shows, shown, Process, Template};
use vstd::prelude::*;

verus! {

/// The milliseconds that the diagram shows for `process`: for a phase of
/// the upper row the time between the two events that bound it, for an
/// event of the lower rows its time from the start of the request.
pub open spec fn elapsed(times: Map<Seq<char>, usize>, process: Process) -> int {
    match process {
        Process::DnsLookup => times["time_namelookup"@] as int,
        Process::TcpConnection => times["time_connect"@] - times["time_namelookup"@],
        Process::SslHandshake => times["time_pretransfer"@] - times["time_connect"@],
        Process::ServerProcessing => times["time_starttransfer"@] - times["time_pretransfer"@],
        Process::ContentTransfer => times["time_total"@] - times["time_starttransfer"@],
        Process::NameLookup => times["time_namelookup"@] as int,
        Process::Connect => times["time_connect"@] as int,
        Process::PreTransfer => times["time_pretransfer"@] as int,
        Process::StartTransfer => times["time_starttransfer"@] as int,
        Process::Total => times["time_total"@] as int,
    }
}

/// The text at the place of `process` in the diagram of `times`.
pub open spec fn rendered(
    times: Map<Seq<char>, usize>,
    formatter: Format,
    process: Process,
) -> Seq<char> {
    formatter.styled(process.aligned(elapsed(times, process)))
}

/// `slots` with the text of `process` put at its place.
pub open spec fn with_time(
    slots: Map<Seq<char>, Seq<char>>,
    times: Map<Seq<char>, usize>,
    formatter: Format,
    process: Process,
) -> Map<Seq<char>, Seq<char>> {
    slots.insert(process.slot(), rendered(times, formatter, process))
}

/// The texts of all ten times of a request, each at its place.
pub open spec fn filled(times: Map<Seq<char>, usize>, formatter: Format) -> Map<
    Seq<char>,
    Seq<char>,
> {
    let s0 = Map::<Seq<char>, Seq<char>>::empty();
    let s1 = with_time(s0, times, formatter, Process::DnsLookup);
    let s2 = with_time(s1, times, formatter, Process::TcpConnection);
    let s3 = with_time(s2, times, formatter, Process::SslHandshake);
    let s4 = with_time(s3, times, formatter, Process::ServerProcessing);
    let s5 = with_time(s4, times, formatter, Process::ContentTransfer);
    let s6 = with_time(s5, times, formatter, Process::NameLookup);
    let s7 = with_time(s6, times, formatter, Process::Connect);
    let s8 = with_time(s7, times, formatter, Process::PreTransfer);
    let s9 = with_time(s8, times, formatter, Process::StartTransfer);
    with_time(s9, times, formatter, Process::Total)
}

/// Once all ten times are given, each place shows its own.
pub proof fn lemma_filled_shows(times: Map<Seq<char>, usize>, formatter: Format, process: Process)
    ensures
        shown(filled(times, formatter), process) == rendered(times, formatter, process),
{
    let s0 = Map::<Seq<char>, Seq<char>>::empty();
    let s1 = with_time(s0, times, formatter, Process::DnsLookup);
    let s2 = with_time(s1, times, formatter, Process::TcpConnection);
    let s3 = with_time(s2, times, formatter, Process::SslHandshake);
    let s4 = with_time(s3, times, formatter, Process::ServerProcessing);
    let s5 = with_time(s4, times, formatter, Process::ContentTransfer);
    let s6 = with_time(s5, times, formatter, Process::NameLookup);
    let s7 = with_time(s6, times, formatter, Process::Connect);
    let s8 = with_time(s7, times, formatter, Process::PreTransfer);
    let s9 = with_time(s8, times, formatter, Process::StartTransfer);
    lemma_insert_shows(
        s0,
        Process::DnsLookup,
        rendered(times, formatter, Process::DnsLookup),
        process,
    );
    lemma_insert_shows(
        s1,
        Process::TcpConnection,
        rendered(times, formatter, Process::TcpConnection),
        process,
    );
    lemma_insert_shows(
        s2,
        Process::SslHandshake,
        rendered(times, formatter, Process::SslHandshake),
        process,
    );
    lemma_insert_shows(
        s3,
        Process::ServerProcessing,
        rendered(times, formatter, Process::ServerProcessing),
        process,
    );
    lemma_insert_shows(
        s4,
        Process::ContentTransfer,
        rendered(times, formatter, Process::ContentTransfer),
        process,
    );
    lemma_insert_shows(
        s5,
        Process::NameLookup,
        rendered(times, formatter, Process::NameLookup),
        process,
    );
    lemma_insert_shows(
        s6,
        Process::Connect,
        rendered(times, formatter, Process::Connect),
        process,
    );
    lemma_insert_shows(
        s7,
        Process::PreTransfer,
        rendered(times, formatter, Process::PreTransfer),
        process,
    );
    lemma_insert_shows(
        s8,
        Process::StartTransfer,
        rendered(times, formatter, Process::StartTransfer),
        process,
    );
    lemma_insert_shows(
        s9,
        Process::Total,
        rendered(times, formatter, Process::Total),
        process,
    );
}

/// The times of the five phases add up to the time of the whole request,
/// in whatever order the events were reported.
pub proof fn lemma_phases_add_up(times: Map<Seq<char>, usize>)
    ensures
        elapsed(times, Process::DnsLookup) + elapsed(times, Process::TcpConnection) + elapsed(
            times,
            Process::SslHandshake,
        ) + elapsed(times, Process::ServerProcessing) + elapsed(times, Process::ContentTransfer)
            == elapsed(times, Process::Total),
{
}

/// Events reported in their order give no phase a negative time.
pub proof fn lemma_ordered_times(times: Map<Seq<char>, usize>, process: Process)
    requires
        times["time_namelookup"@] <= times["time_connect"@],
        times["time_connect"@] <= times["time_pretransfer"@],
        times["time_pretransfer"@] <= times["time_starttransfer"@],
        times["time_starttransfer"@] <= times["time_total"@],
    ensures
        elapsed(times, process) >= 0,
{
}

/// Returns the milliseconds that the diagram shows for `process`.
pub fn elapsed_of(response: &Response, process: Process) -> (ms: i128)
    requires
        response.complete(),
    ensures
        ms == elapsed(response@, process),
{
    match process {
        Process::DnsLookup => response.range_dns(),
        Process::TcpConnection => response.range_connection(),
        Process::SslHandshake => response.range_ssl(),
        Process::ServerProcessing => response.range_server(),
        Process::ContentTransfer => response.range_transfer(),
        Process::NameLookup => response.time_namelookup() as i128,
        Process::Connect => response.time_connect() as i128,
        Process::PreTransfer => response.time_pretransfer() as i128,
        Process::StartTransfer => response.time_starttransfer() as i128,
        Process::Total => response.time_total() as i128,
    }
}

/// Puts the time of `process` at its place in `template`.
fn put_time(template: &mut Template, response: &Response, formatter: Format, process: Process)
    requires
        response.complete(),
    ensures
        final(template).scheme() == old(template).scheme(),
        final(template).slots() == with_time(old(template).slots(), response@, formatter, process),
{
    template.progress(Progress::new(process, elapsed_of(response, process), formatter));
}

/// Returns the diagram of the request with the times `response`, for the
/// scheme `scheme`, with every time in the style `formatter`.
pub fn draw(response: &Response, scheme: &str, formatter: Format) -> (r: String)
    requires
        response.complete(),
    ensures
        r@ == diagram(scheme@, filled(response@, formatter)),
{
    let mut template: Template = Template::new(scheme);
    put_time(&mut template, response, formatter, Process::DnsLookup);
    put_time(&mut template, response, formatter, Process::TcpConnection);
    put_time(&mut template, response, formatter, Process::SslHandshake);
    put_time(&mut template, response, formatter, Process::ServerProcessing);
    put_time(&mut template, response, formatter, Process::ContentTransfer);
    put_time(&mut template, response, formatter, Process::NameLookup);
    put_time(&mut template, response, formatter, Process::Connect);
    put_time(&mut template, response, formatter, Process::PreTransfer);
    put_time(&mut template, response, formatter, Process::StartTransfer);
    put_time(&mut template, response, formatter, Process::Total);
    template.format()
}

} // verus!
