//! The request and the times that the transfer tool reports of it.
use crate::table::{find, mapping};
use crate::template::Process;
use crate::text::{
    chars_of, decimal, find_char, lemma_lines_final_line_feed, lemma_position, lines, position,
    split_lines, texts, trim_range, trimmed,
};
use vstd::prelude::*;
use vstd::string::*;

verus! {

/// Why a report of the transfer tool cannot be read.
#[derive(Clone, Copy, Debug, PartialEq, Eq)]
pub enum MetricError {
    /// A line that is not empty has no colon, or nothing but white space
    /// in front of its first colon.
    MalformedMetricLine,
}

impl MetricError {
    /// Returns the error in words.
    pub fn message(&self) -> (r: String)
        ensures
            r@ == "malformed metric line: expected `label:value`"@,
    {
        String::from_str("malformed metric line: expected `label:value`")
    }
}

/// The label and the value of a line `label:value`, both without the white
/// space around them. The first colon ends the label. A line without a
/// colon or without a label has neither.
pub open spec fn metric_of(line: Seq<char>) -> Option<(Seq<char>, Seq<char>)> {
    let colon = position(line, ':') as int;
    if colon >= line.len() || trimmed(line.take(colon)).len() == 0 {
        None
    } else {
        Some((trimmed(line.take(colon)), trimmed(line.skip(colon + 1))))
    }
}

/// The labels and values of `lines`, in their order. Empty lines are passed
/// over. If a line that is not empty has no label and value, there is no
/// result.
pub open spec fn metrics_of(lines: Seq<Seq<char>>) -> Option<Seq<(Seq<char>, Seq<char>)>>
    decreases lines.len(),
{
    if lines.len() == 0 {
        Some(Seq::empty())
    } else {
        match metrics_of(lines.drop_last()) {
            None => None,
            Some(front) => if lines.last().len() == 0 {
                Some(front)
            } else {
                match metric_of(lines.last()) {
                    None => None,
                    Some(metric) => Some(front.push(metric)),
                }
            },
        }
    }
}

/// What each label and value of `metrics` holds.
pub open spec fn pairs(metrics: Seq<(String, String)>) -> Seq<(Seq<char>, Seq<char>)> {
    metrics.map_values(|m: (String, String)| (m.0@, m.1@))
}

/// Lines that cannot be read stay so when more lines follow them.
pub proof fn lemma_metrics_of_front(lines: Seq<Seq<char>>, n: int)
    requires
        0 <= n <= lines.len(),
        metrics_of(lines.take(n)) is None,
    ensures
        metrics_of(lines) is None,
    decreases lines.len(),
{
    if n == lines.len() {
        assert(lines.take(n) =~= lines);
    } else {
        assert(lines.drop_last().take(n) =~= lines.take(n));
        lemma_metrics_of_front(lines.drop_last(), n);
    }
}

/// An empty line at the end of a report changes nothing in what is read.
pub proof fn lemma_trailing_empty_line(lines: Seq<Seq<char>>)
    ensures
        metrics_of(lines.push(Seq::empty())) == metrics_of(lines),
{
    assert(lines.push(Seq::empty()).drop_last() =~= lines);
}

/// A report that ends in a line feed reads as the same report without it.
pub proof fn lemma_final_line_feed(report: Seq<char>)
    ensures
        metrics_of(lines(report.push('\n'))) == metrics_of(lines(report)),
{
    lemma_lines_final_line_feed(report);
    lemma_trailing_empty_line(lines(report));
}

/// A report can be read if and only if each of its lines is empty or has a
/// label and a value.
pub proof fn lemma_metrics_of_some(lines: Seq<Seq<char>>)
    ensures
        metrics_of(lines) is Some <==> forall|i: int|
            0 <= i < lines.len() ==> lines[i].len() == 0 || metric_of(#[trigger] lines[i]) is Some,
    decreases lines.len(),
{
    if lines.len() > 0 {
        let front = lines.drop_last();
        lemma_metrics_of_some(front);
        if metrics_of(lines) is Some {
            assert forall|i: int| 0 <= i < lines.len() implies lines[i].len() == 0 || metric_of(
                #[trigger] lines[i],
            ) is Some by {
                if i < lines.len() - 1 {
                    assert(lines[i] == front[i]);
                }
            }
        } else if metrics_of(front) is Some {
            assert(lines[lines.len() - 1] == lines.last());
        } else {
            let i = choose|i: int|
                0 <= i < front.len() && !(front[i].len() == 0 || metric_of(
                    #[trigger] front[i],
                ) is Some);
            assert(lines[i] == front[i]);
        }
    }
}

/// A report with a line that is not empty and holds no colon cannot be
/// read.
pub proof fn lemma_line_without_colon(lines: Seq<Seq<char>>, i: int)
    requires
        0 <= i < lines.len(),
        lines[i].len() > 0,
        forall|j: int| 0 <= j < lines[i].len() ==> lines[i][j] != ':',
    ensures
        metrics_of(lines) is None,
{
    lemma_position(lines[i], ':', lines[i].len() as int);
    lemma_metrics_of_some(lines);
}

/// Reads one line `label:value`.
pub fn parse_metric(line: &str) -> (r: Result<(String, String), MetricError>)
    ensures
        match r {
            Ok(metric) => metric_of(line@) == Some((metric.0@, metric.1@)),
            Err(e) => e is MalformedMetricLine && metric_of(line@) is None,
        },
{
    let chars: Vec<char> = chars_of(line);
    let colon: usize = find_char(&chars, 0, ':');
    proof {
        assert(chars@.skip(0) =~= line@);
        assert(line@.take(colon as int) =~= chars@.subrange(0, colon as int));
    }
    if colon >= chars.len() {
        return Err(MetricError::MalformedMetricLine);
    }
    let label: (usize, usize) = trim_range(&chars, 0, colon);
    if label.0 == label.1 {
        return Err(MetricError::MalformedMetricLine);
    }
    let value: (usize, usize) = trim_range(&chars, colon + 1, chars.len());
    proof {
        assert(line@.skip(colon + 1) =~= chars@.subrange(colon + 1, chars.len() as int));
    }
    Ok(
        (
            String::from_str(line.substring_char(label.0, label.1)),
            String::from_str(line.substring_char(value.0, value.1)),
        ),
    )
}

/// Reads the lines of a report. Empty lines are passed over.
pub fn parse_lines(lines: &Vec<String>) -> (r: Result<Vec<(String, String)>, MetricError>)
    ensures
        match r {
            Ok(metrics) => metrics_of(texts(lines@)) == Some(pairs(metrics@)),
            Err(e) => e is MalformedMetricLine && metrics_of(texts(lines@)) is None,
        },
{
    let mut metrics: Vec<(String, String)> = Vec::new();
    let mut i: usize = 0;
    proof {
        assert(texts(lines@).take(0) =~= Seq::<Seq<char>>::empty());
        assert(pairs(metrics@) =~= Seq::<(Seq<char>, Seq<char>)>::empty());
    }
    while i < lines.len()
        invariant
            i <= lines.len(),
            metrics_of(texts(lines@).take(i as int)) == Some(pairs(metrics@)),
        decreases lines.len() - i,
    {
        let line: &str = lines[i].as_str();
        proof {
            assert(texts(lines@).take(i + 1).drop_last() =~= texts(lines@).take(i as int));
            assert(texts(lines@).take(i + 1).last() == line@);
        }
        if !line.is_empty() {
            match parse_metric(line) {
                Ok(metric) => {
                    proof {
                        assert(pairs(metrics@.push(metric)) =~= pairs(metrics@).push(
                            (metric.0@, metric.1@),
                        ));
                    }
                    metrics.push(metric);
                },
                Err(e) => {
                    proof {
                        lemma_metrics_of_front(texts(lines@), i + 1);
                    }
                    return Err(e);
                },
            }
        }
        i = i + 1;
    }
    proof {
        assert(texts(lines@).take(i as int) =~= texts(lines@));
    }
    Ok(metrics)
}

/// Reads a report of the transfer tool: lines `label:value`, each ended or
/// parted from the next by a line feed.
pub fn parse_metrics(report: &str) -> (r: Result<Vec<(String, String)>, MetricError>)
    ensures
        match r {
            Ok(metrics) => metrics_of(lines(report@)) == Some(pairs(metrics@)),
            Err(e) => e is MalformedMetricLine && metrics_of(lines(report@)) is None,
        },
{
    let lines: Vec<String> = split_lines(report);
    parse_lines(&lines)
}

/// Whether `arg` is an option of the transfer tool that a request sets
/// itself: where the report, the headers and the body go, and silence.
pub open spec fn reserved(arg: Seq<char>) -> bool {
    arg == "-w"@ || arg == "--write-out"@ || arg == "-D"@ || arg == "--dump-header"@ || arg
        == "-o"@ || arg == "--output"@ || arg == "-s"@ || arg == "--silent"@
}

/// What the transfer tool is asked to report: one line `label:value` for
/// each of six times and two speeds.
pub open spec fn write_out() -> Seq<char> {
    "time_namelookup:%{time_namelookup}\n"@
        + "time_connect:%{time_connect}\n"@
        + "time_appconnect:%{time_appconnect}\n"@
        + "time_pretransfer:%{time_pretransfer}\n"@
        + "time_starttransfer:%{time_starttransfer}\n"@
        + "time_total:%{time_total}\n"@
        + "speed_download:%{speed_download}\n"@
        + "speed_upload:%{speed_upload}"@
}

/// Returns whether `arg` is an option that a request sets itself.
pub fn is_reserved(arg: &str) -> (r: bool)
    ensures
        r == reserved(arg@),
{
    let arg: String = String::from_str(arg);
    arg == String::from_str("-w") || arg == String::from_str("--write-out") || arg
        == String::from_str("-D") || arg == String::from_str("--dump-header") || arg
        == String::from_str("-o") || arg == String::from_str("--output") || arg
        == String::from_str("-s") || arg == String::from_str("--silent")
}

/// A request to be made with the transfer tool `curl`.
pub struct Connection {
    arguments: Vec<String>,
}

impl Connection {
    /// The caller's options for the tool.
    pub closed spec fn arguments(&self) -> Seq<Seq<char>> {
        texts(self.arguments@)
    }

    /// The words of the command that makes the request for `url`: the
    /// tool, the caller's options, then the request's own, which send the
    /// report to the standard output, the headers to `headers` and the body
    /// to `body`, and silence all but errors.
    pub open spec fn command(
        &self,
        url: Seq<char>,
        headers: Seq<char>,
        body: Seq<char>,
    ) -> Seq<Seq<char>> {
        seq!["curl"@] + self.arguments() + seq![
            "-w"@,
            write_out(),
            "-D"@,
            headers,
            "-o"@,
            body,
            "-s"@,
            "-S"@,
            url,
        ]
    }

    /// Returns whether none of `args` is an option that a request sets
    /// itself.
    pub fn accepts(args: &Vec<String>) -> (r: bool)
        ensures
            r == forall|i: int| 0 <= i < args.len() ==> !reserved(#[trigger] args[i]@),
    {
        let mut i: usize = 0;
        while i < args.len()
            invariant
                i <= args.len(),
                forall|j: int| 0 <= j < i ==> !reserved(#[trigger] args[j]@),
            decreases args.len() - i,
        {
            if is_reserved(args[i].as_str()) {
                return false;
            }
            i = i + 1;
        }
        true
    }

    /// Returns a request that hands `args` on to the tool.
    pub fn with_curl(args: Vec<String>) -> (c: Connection)
        requires
            forall|i: int| 0 <= i < args.len() ==> !reserved(#[trigger] args[i]@),
        ensures
            c.arguments() == texts(args@),
    {
        Connection { arguments: args }
    }

    /// Returns the words of the command that makes the request for `url`,
    /// with the headers sent to the file `headers` and the body to the file
    /// `body`.
    pub fn command_line(&self, url: &str, headers: &str, body: &str) -> (r: Vec<String>)
        ensures
            texts(r@) == self.command(url@, headers@, body@),
    {
        let mut r: Vec<String> = Vec::new();
        r.push(String::from_str("curl"));
        let mut i: usize = 0;
        while i < self.arguments.len()
            invariant
                i <= self.arguments.len(),
                texts(r@) == seq!["curl"@] + texts(self.arguments@).take(i as int),
            decreases self.arguments.len() - i,
        {
            let ghost front = r@;
            let arg: String = self.arguments[i].clone();
            r.push(arg);
            i = i + 1;
            assert(texts(r@) =~= texts(front).push(arg@));
            assert(texts(self.arguments@).take(i as int) =~= texts(self.arguments@).take(i - 1).push(
                arg@,
            ));
            assert(texts(r@) =~= seq!["curl"@] + texts(self.arguments@).take(i as int));
        }
        assert(texts(self.arguments@).take(i as int) =~= texts(self.arguments@));
        r.push(String::from_str("-w"));
        r.push(write_out_format());
        r.push(String::from_str("-D"));
        r.push(String::from_str(headers));
        r.push(String::from_str("-o"));
        r.push(String::from_str(body));
        r.push(String::from_str("-s"));
        r.push(String::from_str("-S"));
        r.push(String::from_str(url));
        assert(texts(r@) =~= self.command(url@, headers@, body@));
        r
    }
}

/// Returns what the transfer tool is asked to report.
pub fn write_out_format() -> (r: String)
    ensures
        r@ == write_out(),
{
    let mut r: String = String::from_str("time_namelookup:%{time_namelookup}\n");
    r.append("time_connect:%{time_connect}\n");
    r.append("time_appconnect:%{time_appconnect}\n");
    r.append("time_pretransfer:%{time_pretransfer}\n");
    r.append("time_starttransfer:%{time_starttransfer}\n");
    r.append("time_total:%{time_total}\n");
    r.append("speed_download:%{speed_download}\n");
    r.append("speed_upload:%{speed_upload}");
    r
}

/// The times of one request, in whole milliseconds from its start, each
/// under the label that the transfer tool gives it.
pub struct Response {
    processes: Vec<(String, usize)>,
}

impl View for Response {
    type V = Map<Seq<char>, usize>;

    closed spec fn view(&self) -> Map<Seq<char>, usize> {
        mapping(self.processes@)
    }
}

impl Response {
    /// Whether the record holds the five times that the diagram needs.
    pub open spec fn complete(&self) -> bool {
        &&& self@.dom().contains("time_namelookup"@)
        &&& self@.dom().contains("time_connect"@)
        &&& self@.dom().contains("time_pretransfer"@)
        &&& self@.dom().contains("time_starttransfer"@)
        &&& self@.dom().contains("time_total"@)
    }

    /// Returns the record of `times`: labels with their milliseconds. Of
    /// two times under one label the later one counts.
    pub fn new(times: Vec<(String, usize)>) -> (r: Response)
        ensures
            r@ == mapping(times@),
    {
        Response { processes: times }
    }

    /// Returns whether the record holds a time under `label`.
    pub fn contains(&self, label: &str) -> (r: bool)
        ensures
            r == self@.dom().contains(label@),
    {
        find(&self.processes, label).is_some()
    }

    /// Returns whether the record holds the five times that the diagram
    /// needs.
    pub fn is_complete(&self) -> (r: bool)
        ensures
            r == self.complete(),
    {
        self.contains("time_namelookup") && self.contains("time_connect") && self.contains(
            "time_pretransfer",
        ) && self.contains("time_starttransfer") && self.contains("time_total")
    }

    /// The time under `label`.
    fn millis(&self, label: &str) -> (ms: usize)
        requires
            self@.dom().contains(label@),
        ensures
            ms == self@[label@],
    {
        match find(&self.processes, label) {
            Some(i) => self.processes[i].1,
            None => 0,
        }
    }

    /// Returns the milliseconds that the connection took: from the end of
    /// the name lookup to the connection. Negative if the two times are out
    /// of order.
    pub fn range_connection(&self) -> (ms: i128)
        requires
            self@.dom().contains("time_connect"@),
            self@.dom().contains("time_namelookup"@),
        ensures
            ms == self@["time_connect"@] - self@["time_namelookup"@],
    {
        self.time_connect() as i128 - self.time_namelookup() as i128
    }

    /// Returns the milliseconds that the name lookup took.
    pub fn range_dns(&self) -> (ms: i128)
        requires
            self@.dom().contains("time_namelookup"@),
        ensures
            ms == self@["time_namelookup"@],
    {
        self.time_namelookup() as i128
    }

    /// Returns the milliseconds that the server took: from the end of the
    /// preparation to the first byte of the answer. Negative if the two
    /// times are out of order.
    pub fn range_server(&self) -> (ms: i128)
        requires
            self@.dom().contains("time_starttransfer"@),
            self@.dom().contains("time_pretransfer"@),
        ensures
            ms == self@["time_starttransfer"@] - self@["time_pretransfer"@],
    {
        self.time_starttransfer() as i128 - self.time_pretransfer() as i128
    }

    /// Returns the milliseconds that the handshake took: from the connection
    /// to the end of the preparation. Negative if the two times are out of
    /// order.
    pub fn range_ssl(&self) -> (ms: i128)
        requires
            self@.dom().contains("time_pretransfer"@),
            self@.dom().contains("time_connect"@),
        ensures
            ms == self@["time_pretransfer"@] - self@["time_connect"@],
    {
        self.time_pretransfer() as i128 - self.time_connect() as i128
    }

    /// Returns the milliseconds that the transfer took: from the first byte
    /// of the answer to its end. Negative if the two times are out of order.
    pub fn range_transfer(&self) -> (ms: i128)
        requires
            self@.dom().contains("time_total"@),
            self@.dom().contains("time_starttransfer"@),
        ensures
            ms == self@["time_total"@] - self@["time_starttransfer"@],
    {
        self.time_total() as i128 - self.time_starttransfer() as i128
    }

    /// Returns the milliseconds from the start to the connection.
    pub fn time_connect(&self) -> (ms: usize)
        requires
            self@.dom().contains("time_connect"@),
        ensures
            ms == self@["time_connect"@],
    {
        self.millis("time_connect")
    }

    /// Returns the milliseconds from the start to the end of the name
    /// lookup.
    pub fn time_namelookup(&self) -> (ms: usize)
        requires
            self@.dom().contains("time_namelookup"@),
        ensures
            ms == self@["time_namelookup"@],
    {
        self.millis("time_namelookup")
    }

    /// Returns the milliseconds from the start to the end of the
    /// preparation of the transfer.
    pub fn time_pretransfer(&self) -> (ms: usize)
        requires
            self@.dom().contains("time_pretransfer"@),
        ensures
            ms == self@["time_pretransfer"@],
    {
        self.millis("time_pretransfer")
    }

    /// Returns the milliseconds from the start to the first byte of the
    /// answer.
    pub fn time_starttransfer(&self) -> (ms: usize)
        requires
            self@.dom().contains("time_starttransfer"@),
        ensures
            ms == self@["time_starttransfer"@],
    {
        self.millis("time_starttransfer")
    }

    /// Returns the milliseconds from the start to the end of the request.
    pub fn time_total(&self) -> (ms: usize)
        requires
            self@.dom().contains("time_total"@),
        ensures
            ms == self@["time_total"@],
    {
        self.millis("time_total")
    }
}

/// A connection reported before the end of the name lookup gives a
/// negative time for the connection, and the diagram shows it with its
/// sign: it is neither raised to zero nor refused.
pub proof fn lemma_times_out_of_order(r: &Response, ms: i128)
    requires
        r@.dom().contains("time_connect"@),
        r@.dom().contains("time_namelookup"@),
        r@["time_connect"@] < r@["time_namelookup"@],
        call_ensures(Response::range_connection, (r,), ms),
    ensures
        ms == r@["time_connect"@] - r@["time_namelookup"@],
        ms < 0,
        Process::TcpConnection.aligned(ms as int) == crate::text::centered(
            seq!['-'] + decimal((-ms) as nat) + "ms"@,
            crate::template::WIDTH as nat,
        ),
{
}

} // verus!
