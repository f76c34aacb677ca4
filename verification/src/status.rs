//! Status messages, their wire encoding, and the FIFO status channel that
//! carries them from the install worker back to the rendering loop.

use vstd::prelude::*;
use vstd::string::StrSliceExecFns;
use vstd::string::StringExecFns;
use crate::text::{contains_char, find_in, lemma_find_in};

verus! {

/// Mathematical model of a status message.
pub enum StatusView {
    Progress,
    Succeeded(Seq<char>),
    Failed(Seq<char>),
    Unknown,
}

/// A status report sent from the install worker to the rendering loop:
/// an install has started (`Progress`), finished well (`Succeeded`, with the
/// captured standard output), or failed (`Failed`, with the captured standard
/// error); `Unknown` stands for an unrecognized wire tag.
pub enum StatusMessage {
    Progress,
    Succeeded(String),
    Failed(String),
    Unknown,
}

impl View for StatusMessage {
    type V = StatusView;

    open spec fn view(&self) -> StatusView {
        match self {
            StatusMessage::Progress => StatusView::Progress,
            StatusMessage::Succeeded(t) => StatusView::Succeeded(t@),
            StatusMessage::Failed(t) => StatusView::Failed(t@),
            StatusMessage::Unknown => StatusView::Unknown,
        }
    }
}

/// Wire form of a status message: `"<tag>;<text>"` with tag `progress`,
/// `OK`, `ERR` or `unknown`.
pub open spec fn status_wire(m: StatusView) -> Seq<char> {
    match m {
        StatusView::Progress => "progress;."@,
        StatusView::Succeeded(t) => "OK;"@ + t,
        StatusView::Failed(t) => "ERR;"@ + t,
        StatusView::Unknown => "unknown;"@,
    }
}

/// Reading a wire string back: the tag is everything before the first `;`,
/// the text everything after it; an unrecognized tag reads as `Unknown`.
pub open spec fn status_of_wire(s: Seq<char>) -> StatusView {
    let sep = find_in(s, ';');
    let tag = s.take(sep);
    let rest = if sep < s.len() {
        s.skip(sep + 1)
    } else {
        Seq::<char>::empty()
    };
    if tag == "OK"@ {
        StatusView::Succeeded(rest)
    } else if tag == "ERR"@ {
        StatusView::Failed(rest)
    } else if tag == "progress"@ {
        StatusView::Progress
    } else {
        StatusView::Unknown
    }
}

/// Encode a status message for the wire.
pub fn encode_status(m: &StatusMessage) -> (r: String)
    ensures
        r@ == status_wire(m@),
{
    match m {
        StatusMessage::Progress => String::from_str("progress;."),
        StatusMessage::Succeeded(t) => String::from_str("OK;").concat(t.as_str()),
        StatusMessage::Failed(t) => String::from_str("ERR;").concat(t.as_str()),
        StatusMessage::Unknown => String::from_str("unknown;"),
    }
}

/// Decode a wire string into a status message.
pub fn decode_status(s: &str) -> (m: StatusMessage)
    ensures
        m@ == status_of_wire(s@),
{
    let n: usize = s.unicode_len();
    let sep: usize = match crate::text::find_char(s, ';') {
        Some(i) => i,
        None => {
            proof {
                lemma_find_in(s@, ';');
                if find_in(s@, ';') < s@.len() {
                    assert(contains_char(s@, ';'));
                }
            }
            n
        },
    };
    let tag: &str = s.substring_char(0, sep);
    let rest: &str = if sep < n {
        s.substring_char(sep + 1, n)
    } else {
        ""
    };
    proof {
        assert(tag@ =~= s@.take(find_in(s@, ';')));
        if find_in(s@, ';') < s@.len() {
            assert(rest@ =~= s@.skip(find_in(s@, ';') + 1));
        } else {
            reveal_strlit("");
            assert(rest@ =~= Seq::<char>::empty());
        }
    }
    if crate::text::str_eq(tag, "OK") {
        StatusMessage::Succeeded(String::from_str(rest))
    } else if crate::text::str_eq(tag, "ERR") {
        StatusMessage::Failed(String::from_str(rest))
    } else if crate::text::str_eq(tag, "progress") {
        StatusMessage::Progress
    } else {
        StatusMessage::Unknown
    }
}

/// Decoding inverts encoding: every status message survives the wire intact.
pub proof fn lemma_status_wire_round_trip(m: StatusView)
    ensures
        status_of_wire(status_wire(m)) == m,
{
    reveal_strlit("progress;.");
    reveal_strlit("progress");
    reveal_strlit("OK;");
    reveal_strlit("OK");
    reveal_strlit("ERR;");
    reveal_strlit("ERR");
    reveal_strlit("unknown;");
    reveal_strlit("unknown");
    match m {
        StatusView::Progress => {
            let s = "progress;."@;
            lemma_find_in(s, ';');
            assert(s[8] == ';');
            if find_in(s, ';') < 8 {
                assert(s[find_in(s, ';')] == ';');
            }
            assert(find_in(s, ';') == 8);
            assert(s.take(8) =~= "progress"@);
            assert(s.take(8) != "OK"@);
            assert(s.take(8) != "ERR"@);
        },
        StatusView::Succeeded(t) => {
            let s = "OK;"@ + t;
            lemma_find_in(s, ';');
            assert(s[2] == ';');
            if find_in(s, ';') < 2 {
                assert(s[find_in(s, ';')] == ';');
            }
            assert(find_in(s, ';') == 2);
            assert(s.take(2) =~= "OK"@);
            assert(s.skip(3) =~= t);
        },
        StatusView::Failed(t) => {
            let s = "ERR;"@ + t;
            lemma_find_in(s, ';');
            assert(s[3] == ';');
            if find_in(s, ';') < 3 {
                assert(s[find_in(s, ';')] == ';');
            }
            assert(find_in(s, ';') == 3);
            assert(s.take(3) =~= "ERR"@);
            assert(s.take(3) != "OK"@);
            assert(s.skip(4) =~= t);
        },
        StatusView::Unknown => {
            let s = "unknown;"@;
            lemma_find_in(s, ';');
            assert(s[7] == ';');
            if find_in(s, ';') < 7 {
                assert(s[find_in(s, ';')] == ';');
            }
            assert(find_in(s, ';') == 7);
            assert(s.take(7) =~= "unknown"@);
            assert(s.take(7) != "OK"@);
            assert(s.take(7) != "ERR"@);
            assert(s.take(7) != "progress"@);
        },
    }
}

/// One-directional FIFO conduit for status messages. The worker side sends,
/// the rendering loop polls one message per iteration; messages come out in
/// send order and none is dropped.
pub struct StatusChannel {
    queue: Vec<StatusMessage>,
}

impl View for StatusChannel {
    type V = Seq<StatusView>;

    closed spec fn view(&self) -> Seq<StatusView> {
        self.queue@.map_values(|m: StatusMessage| m@)
    }
}

impl StatusChannel {
    /// An empty channel.
    pub fn new() -> (r: StatusChannel)
        ensures
            r@ == Seq::<StatusView>::empty(),
    {
        let r = StatusChannel { queue: Vec::new() };
        proof {
            assert(r@ =~= Seq::<StatusView>::empty());
        }
        r
    }

    /// Enqueue one message at the back.
    pub fn send(&mut self, m: StatusMessage)
        ensures
            final(self)@ == old(self)@.push(m@),
    {
        let ghost pre = self.queue@;
        self.queue.push(m);
        proof {
            assert(final(self)@ =~= old(self)@.push(m@));
        }
    }

    /// Dequeue the oldest message, if any; the channel never reorders.
    pub fn try_recv(&mut self) -> (r: Option<StatusMessage>)
        ensures
            old(self)@.len() == 0 ==> r is None && final(self)@ == old(self)@,
            old(self)@.len() > 0 ==> (match r {
                Some(m) => m@ == old(self)@[0] && final(self)@ == old(self)@.skip(1),
                None => false,
            }),
    {
        if self.queue.len() == 0 {
            None
        } else {
            let m = self.queue.remove(0);
            proof {
                assert(final(self)@ =~= old(self)@.skip(1));
            }
            Some(m)
        }
    }

    /// How many messages are pending.
    pub fn len(&self) -> (n: usize)
        ensures
            n == self@.len(),
    {
        self.queue.len()
    }
}

/// Send order is delivery order: after two sends on a quiet channel, the
/// first poll yields the first message and the second poll the second,
/// never reordered and never collapsed into one observation.
pub proof fn lemma_channel_fifo(pre: Seq<StatusView>, a: StatusView, b: StatusView)
    requires
        pre.len() == 0,
    ensures
        pre.push(a).push(b)[0] == a,
        pre.push(a).push(b).skip(1)[0] == b,
        pre.push(a).push(b).skip(1).skip(1).len() == 0,
{
    let q = pre.push(a).push(b);
    assert(q =~= seq![a, b]);
    assert(q.skip(1) =~= seq![b]);
    assert(q.skip(1).skip(1) =~= Seq::<StatusView>::empty());
}

} // verus!
