//! The phases of a request and the diagram that shows them.
use crate::progress::Progress;
use crate::table::{find, mapping, put};
use crate::text::{
    centered, decimal, left_aligned, lemma_aligned_len, push_signed_decimal, push_spaces,
    signed_decimal,
};
use vstd::prelude::*;
use vstd::string::*;

verus! {

/// The columns that the time of a phase fills in the diagram.
pub const WIDTH: usize = 7;

/// What the diagram shows of a request: the time that each of five phases
/// took, in its upper row, and the time from the start of the request at
/// which each of five events came, in its lower rows.
#[derive(Clone, Copy, Debug)]
pub enum Process {
    Connect,
    ContentTransfer,
    DnsLookup,
    NameLookup,
    PreTransfer,
    ServerProcessing,
    SslHandshake,
    StartTransfer,
    TcpConnection,
    Total,
}

impl Process {
    /// The name of the place in the diagram where this time stands.
    pub open spec fn slot(&self) -> Seq<char> {
        match *self {
            Process::DnsLookup => "a0000"@,
            Process::TcpConnection => "a0001"@,
            Process::SslHandshake => "a0002"@,
            Process::ServerProcessing => "a0003"@,
            Process::ContentTransfer => "a0004"@,
            Process::NameLookup => "b0000"@,
            Process::Connect => "b0001"@,
            Process::PreTransfer => "b0002"@,
            Process::StartTransfer => "b0003"@,
            Process::Total => "b0004"@,
        }
    }

    /// Whether this is one of the five phases of the upper row.
    pub open spec fn in_upper_row(&self) -> bool {
        match *self {
            Process::DnsLookup
            | Process::TcpConnection
            | Process::SslHandshake
            | Process::ServerProcessing
            | Process::ContentTransfer => true,
            Process::NameLookup
            | Process::Connect
            | Process::PreTransfer
            | Process::StartTransfer
            | Process::Total => false,
        }
    }

    /// `ms` milliseconds as the diagram shows them here: the number and
    /// `ms`, in the middle of the columns in the upper row, at their left
    /// in the lower rows.
    pub open spec fn aligned(&self, ms: int) -> Seq<char> {
        if self.in_upper_row() {
            centered(signed_decimal(ms) + "ms"@, WIDTH as nat)
        } else {
            left_aligned(signed_decimal(ms) + "ms"@, WIDTH as nat)
        }
    }

    /// Returns the name of the place in the diagram where this time stands.
    pub fn index(&self) -> (r: String)
        ensures
            r@ == self.slot(),
    {
        let index: &str = match *self {
            Process::DnsLookup => "a0000",
            Process::TcpConnection => "a0001",
            Process::SslHandshake => "a0002",
            Process::ServerProcessing => "a0003",
            Process::ContentTransfer => "a0004",
            Process::NameLookup => "b0000",
            Process::Connect => "b0001",
            Process::PreTransfer => "b0002",
            Process::StartTransfer => "b0003",
            Process::Total => "b0004",
        };
        String::from_str(index)
    }

    /// Returns `ms` milliseconds as the diagram shows them here.
    pub fn align(&self, ms: i128) -> (r: String)
        ensures
            r@ == self.aligned(ms as int),
    {
        let mut elapsed: String = String::new();
        push_signed_decimal(&mut elapsed, ms);
        elapsed.append("ms");
        assert(elapsed@ =~= signed_decimal(ms as int) + "ms"@);
        let len: usize = elapsed.as_str().unicode_len();
        let pad: usize = if len < WIDTH {
            WIDTH - len
        } else {
            0
        };
        let mut r: String = String::new();
        match *self {
            Process::DnsLookup
            | Process::TcpConnection
            | Process::SslHandshake
            | Process::ServerProcessing
            | Process::ContentTransfer => {
                push_spaces(&mut r, pad / 2);
                r.append(elapsed.as_str());
                push_spaces(&mut r, pad - pad / 2);
                assert(r@ =~= centered(elapsed@, WIDTH as nat));
            },
            Process::NameLookup
            | Process::Connect
            | Process::PreTransfer
            | Process::StartTransfer
            | Process::Total => {
                r.append(elapsed.as_str());
                push_spaces(&mut r, pad);
                assert(r@ =~= left_aligned(elapsed@, WIDTH as nat));
            },
        }
        r
    }
}

/// The text that stands at the place of `process`: what `slots` holds for
/// it, and nothing where it holds nothing.
pub open spec fn shown(slots: Map<Seq<char>, Seq<char>>, process: Process) -> Seq<char> {
    if slots.dom().contains(process.slot()) {
        slots[process.slot()]
    } else {
        Seq::empty()
    }
}

/// The diagram of a request without encryption.
pub open spec fn http_diagram(slots: Map<Seq<char>, Seq<char>>) -> Seq<char> {
    "  DNS Lookup   TCP Connection   Server Processing   Content Transfer\n"@
        + "[   "@
        + shown(slots, Process::DnsLookup)
        + "  |     "@
        + shown(slots, Process::TcpConnection)
        + "    |      "@
        + shown(slots, Process::ServerProcessing)
        + "      |      "@
        + shown(slots, Process::ContentTransfer)
        + "     ]\n"@
        + "             |                |                   |                  |\n"@
        + "    namelookup:"@
        + shown(slots, Process::NameLookup)
        + "        |                   |                  |\n"@
        + "                        connect:"@
        + shown(slots, Process::Connect)
        + "           |                  |\n"@
        + "                                      starttransfer:"@
        + shown(slots, Process::StartTransfer)
        + "          |\n"@
        + "                                                                 total:"@
        + shown(slots, Process::Total)
}

/// The diagram of an encrypted request: with the handshake as one more
/// phase and the end of the preparation as one more event.
pub open spec fn https_diagram(slots: Map<Seq<char>, Seq<char>>) -> Seq<char> {
    "  DNS Lookup   TCP Connection   SSL Handshake   Server Processing   Content Transfer\n"@
        + "[   "@
        + shown(slots, Process::DnsLookup)
        + "  |     "@
        + shown(slots, Process::TcpConnection)
        + "    |    "@
        + shown(slots, Process::SslHandshake)
        + "    |      "@
        + shown(slots, Process::ServerProcessing)
        + "      |      "@
        + shown(slots, Process::ContentTransfer)
        + "     ]\n"@
        + "             |                |               |                   |                  |\n"@
        + "    namelookup:"@
        + shown(slots, Process::NameLookup)
        + "        |               |                   |                  |\n"@
        + "                        connect:"@
        + shown(slots, Process::Connect)
        + "       |                   |                  |\n"@
        + "                                    pretransfer:"@
        + shown(slots, Process::PreTransfer)
        + "           |                  |\n"@
        + "                                                      starttransfer:"@
        + shown(slots, Process::StartTransfer)
        + "          |\n"@
        + "                                                                                 total:"@
        + shown(slots, Process::Total)
}

/// The diagram for `scheme`: the encrypted one for `https`, the other one
/// for every other scheme.
pub open spec fn diagram(scheme: Seq<char>, slots: Map<Seq<char>, Seq<char>>) -> Seq<char> {
    if scheme == "https"@ {
        https_diagram(slots)
    } else {
        http_diagram(slots)
    }
}

/// What each text of `texts` holds.
pub open spec fn views(texts: Map<Seq<char>, String>) -> Map<Seq<char>, Seq<char>> {
    texts.map_values(|t: String| t@)
}

/// A diagram in the making: the scheme of the request and the texts given
/// so far for the places of the diagram.
pub struct Template {
    progresses: Vec<(String, String)>,
    scheme: String,
}

impl Template {
    /// The texts given so far, each under the name of its place.
    pub closed spec fn slots(&self) -> Map<Seq<char>, Seq<char>> {
        views(mapping(self.progresses@))
    }

    /// The scheme of the request.
    pub closed spec fn scheme(&self) -> Seq<char> {
        self.scheme@
    }

    /// Returns a template for `scheme` without any text.
    pub fn new(scheme: &str) -> (t: Template)
        ensures
            t.scheme() == scheme@,
            t.slots() == Map::<Seq<char>, Seq<char>>::empty(),
    {
        let t = Template { progresses: Vec::new(), scheme: String::from_str(scheme) };
        assert(t.slots() =~= Map::<Seq<char>, Seq<char>>::empty());
        t
    }

    /// Returns the diagram with the texts given so far. A place without a
    /// text stays empty.
    pub fn format(&self) -> (r: String)
        ensures
            r@ == diagram(self.scheme(), self.slots()),
    {
        let https: String = String::from_str("https");
        if self.scheme == https {
            self.https_format()
        } else {
            self.http_format()
        }
    }

    /// Puts `text` at the place named `slot`, instead of what stood there.
    pub fn insert(&mut self, slot: String, text: String)
        ensures
            final(self).scheme() == old(self).scheme(),
            final(self).slots() == old(self).slots().insert(slot@, text@),
    {
        put(&mut self.progresses, slot, text);
        assert(final(self).slots() =~= old(self).slots().insert(slot@, text@));
    }

    /// Puts the rendered time of `progress` at its place.
    pub fn progress(&mut self, progress: Progress)
        ensures
            final(self).scheme() == old(self).scheme(),
            final(self).slots() == old(self).slots().insert(
                progress.process().slot(),
                progress.text(),
            ),
    {
        let (index, time) = progress.output();
        self.insert(index, time);
    }

    /// The text at the place of `process`.
    fn text(&self, process: Process) -> (r: &str)
        ensures
            r@ == shown(self.slots(), process),
    {
        let slot: String = process.index();
        match find(&self.progresses, slot.as_str()) {
            Some(i) => self.progresses[i].1.as_str(),
            None => {
                proof {
                    reveal_strlit("");
                }
                assert(""@ =~= Seq::<char>::empty());
                ""
            },
        }
    }

    /// The diagram of a request without encryption.
    fn http_format(&self) -> (r: String)
        ensures
            r@ == http_diagram(self.slots()),
    {
        let mut out: String = String::from_str(
            "  DNS Lookup   TCP Connection   Server Processing   Content Transfer\n",
        );
        out.append("[   ");
        out.append(self.text(Process::DnsLookup));
        out.append("  |     ");
        out.append(self.text(Process::TcpConnection));
        out.append("    |      ");
        out.append(self.text(Process::ServerProcessing));
        out.append("      |      ");
        out.append(self.text(Process::ContentTransfer));
        out.append("     ]\n");
        out.append("             |                |                   |                  |\n");
        out.append("    namelookup:");
        out.append(self.text(Process::NameLookup));
        out.append("        |                   |                  |\n");
        out.append("                        connect:");
        out.append(self.text(Process::Connect));
        out.append("           |                  |\n");
        out.append("                                      starttransfer:");
        out.append(self.text(Process::StartTransfer));
        out.append("          |\n");
        out.append("                                                                 total:");
        out.append(self.text(Process::Total));
        out
    }

    /// The diagram of an encrypted request.
    fn https_format(&self) -> (r: String)
        ensures
            r@ == https_diagram(self.slots()),
    {
        let mut out: String = String::from_str(
            "  DNS Lookup   TCP Connection   SSL Handshake   Server Processing   Content Transfer\n",
        );
        out.append("[   ");
        out.append(self.text(Process::DnsLookup));
        out.append("  |     ");
        out.append(self.text(Process::TcpConnection));
        out.append("    |    ");
        out.append(self.text(Process::SslHandshake));
        out.append("    |      ");
        out.append(self.text(Process::ServerProcessing));
        out.append("      |      ");
        out.append(self.text(Process::ContentTransfer));
        out.append("     ]\n");
        out.append("             |                |               |                   |                  |\n");
        out.append("    namelookup:");
        out.append(self.text(Process::NameLookup));
        out.append("        |               |                   |                  |\n");
        out.append("                        connect:");
        out.append(self.text(Process::Connect));
        out.append("       |                   |                  |\n");
        out.append("                                    pretransfer:");
        out.append(self.text(Process::PreTransfer));
        out.append("           |                  |\n");
        out.append("                                                      starttransfer:");
        out.append(self.text(Process::StartTransfer));
        out.append("          |\n");
        out.append("                                                                                 total:");
        out.append(self.text(Process::Total));
        out
    }
}

/// Different times stand at different places.
pub proof fn lemma_slots_differ(p: Process, q: Process)
    requires
        p != q,
    ensures
        p.slot() != q.slot(),
{
    reveal_strlit("a0000");
    reveal_strlit("a0001");
    reveal_strlit("a0002");
    reveal_strlit("a0003");
    reveal_strlit("a0004");
    reveal_strlit("b0000");
    reveal_strlit("b0001");
    reveal_strlit("b0002");
    reveal_strlit("b0003");
    reveal_strlit("b0004");
    assert(p.slot().len() == 5 && q.slot().len() == 5);
    assert(p.slot()[0] != q.slot()[0] || p.slot()[4] != q.slot()[4]);
}

/// A text put at the place of `p` is what stands there afterwards, and
/// every other place keeps what it showed.
pub proof fn lemma_insert_shows(
    slots: Map<Seq<char>, Seq<char>>,
    p: Process,
    text: Seq<char>,
    q: Process,
)
    ensures
        shown(slots.insert(p.slot(), text), q) == if q == p {
            text
        } else {
            shown(slots, q)
        },
{
    if q != p {
        lemma_slots_differ(p, q);
    }
}

/// A place that was given no text reads as one that was given the empty
/// text: the diagram around it is the same.
pub proof fn lemma_missing_slot_is_empty(
    scheme: Seq<char>,
    slots: Map<Seq<char>, Seq<char>>,
    p: Process,
)
    requires
        !slots.dom().contains(p.slot()),
    ensures
        diagram(scheme, slots.insert(p.slot(), Seq::empty())) == diagram(scheme, slots),
{
    let given = slots.insert(p.slot(), Seq::empty());
    assert forall|q: Process| shown(given, q) == shown(slots, q) by {
        lemma_insert_shows(slots, p, Seq::empty(), q);
    }
}

/// The diagram of a request without encryption shows neither the handshake
/// nor the end of the preparation, whatever was given for them.
pub proof fn lemma_http_diagram_leaves_out(
    slots: Map<Seq<char>, Seq<char>>,
    p: Process,
    text: Seq<char>,
)
    requires
        p == Process::SslHandshake || p == Process::PreTransfer,
    ensures
        http_diagram(slots.insert(p.slot(), text)) == http_diagram(slots),
{
    let given = slots.insert(p.slot(), text);
    assert forall|q: Process| q != p implies shown(given, q) == shown(slots, q) by {
        lemma_insert_shows(slots, p, text, q);
    }
}

/// A negative time is shown with a minus sign in front of its amount.
pub proof fn lemma_negative_time_keeps_sign(p: Process, ms: int)
    requires
        ms < 0,
    ensures
        p.aligned(ms) == if p.in_upper_row() {
            centered(seq!['-'] + decimal((-ms) as nat) + "ms"@, WIDTH as nat)
        } else {
            left_aligned(seq!['-'] + decimal((-ms) as nat) + "ms"@, WIDTH as nat)
        },
{
}

/// The text of a time fills the columns of its place exactly, unless the
/// number alone is longer.
pub proof fn lemma_aligned_fills(p: Process, ms: int)
    ensures
        p.aligned(ms).len() == if signed_decimal(ms).len() + 2 < WIDTH {
            WIDTH as nat
        } else {
            signed_decimal(ms).len() + 2
        },
{
    reveal_strlit("ms");
    lemma_aligned_len(signed_decimal(ms) + "ms"@, WIDTH as nat);
}

/// Two calls of `format` on one template return the same text.
pub proof fn lemma_format_repeats(t: &Template, first: String, second: String)
    requires
        call_ensures(Template::format, (t,), first),
        call_ensures(Template::format, (t,), second),
    ensures
        first@ == second@,
{
}

} // verus!
