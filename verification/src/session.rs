//! The decisions of the connection to the AI bridge: when a worker is started
//! or stopped, when a failed connection is tried again, how the bytes read
//! from the bridge are cut into command lines (one command per line, a line
//! possibly spread over several reads), and what the Lua function
//! `aiSendCommand` answers.
use vstd::prelude::*;
use vstd::string::StringSliceAdditionalSpecFns;
use vstd::utf8::{
    decode_utf8, encode_scalar, encode_utf8, encode_utf8_decode_utf8, has_width_1_encoding, valid_utf8,
};
use crate::protocol::{describes, Command};
use crate::text::{lemma_split_nonempty, split_all, to_chars};

verus! {

broadcast use vstd::string::group_string_axioms;

/// `std::str::from_utf8`: the bytes as text when they are valid UTF-8.
/// Stated here: it succeeds exactly on valid UTF-8, and the text holds the
/// very bytes it was given.
#[verifier::external_body]
fn text_of_bytes(bytes: &[u8]) -> (res: Option<&str>)
    ensures
        res is Some <==> valid_utf8(bytes@),
        res matches Some(s) ==> s.spec_bytes() == bytes@,
{
    match std::str::from_utf8(bytes) {
        Ok(s) => Some(s),
        Err(_) => None,
    }
}

/// What a read from the bridge connection gave.
pub enum ReadOutcome {
    /// Some bytes (at least one).
    Data(Vec<u8>),
    /// The bridge closed the connection (a read of zero bytes).
    Closed,
    /// Nothing arrived before the read timed out (or would have blocked).
    TimedOut,
    /// Any other read error.
    Failed,
}

/// What the worker does after a read.
pub enum SessionAction {
    /// Hand these commands, one per completed line, to the main thread in
    /// this order, then read again.
    Forward(Vec<Command>),
    /// Read again.
    Wait,
    /// Drop the connection and try to connect anew.
    Disconnect,
}

/// Cuts a byte stream into lines: the lines that a `'\n'` ends (without the
/// `'\n'`), in order, and the bytes after the last `'\n'`, which wait for
/// the rest of their line.
pub open spec fn frame_lines(s: Seq<u8>) -> (Seq<Seq<u8>>, Seq<u8>)
    decreases s.len(),
{
    if s.len() == 0 {
        (Seq::empty(), Seq::empty())
    } else {
        let before = frame_lines(s.drop_last());
        if s.last() == 10u8 {
            (before.0.push(before.1), Seq::empty())
        } else {
            (before.0, before.1.push(s.last()))
        }
    }
}

/// The texts of the lines that are valid UTF-8, in order; a line that is
/// not text is left out.
pub open spec fn line_texts(ls: Seq<Seq<u8>>) -> Seq<Seq<char>>
    decreases ls.len(),
{
    if ls.len() == 0 {
        Seq::empty()
    } else {
        let before = line_texts(ls.drop_last());
        if valid_utf8(ls.last()) {
            before.push(decode_utf8(ls.last()))
        } else {
            before
        }
    }
}

/// `cmds` are the commands of the lines `ls`: one for each line that is
/// text, read from it, in order.
pub open spec fn commands_of_lines(cmds: Seq<Command>, ls: Seq<Seq<u8>>) -> bool {
    &&& cmds.len() == line_texts(ls).len()
    &&& forall|i: int| 0 <= i < cmds.len() ==> describes(#[trigger] cmds[i], line_texts(ls)[i])
}

/// The commands of one line, if it is text.
fn line_command(line: &[u8]) -> (res: Option<Command>)
    ensures
        valid_utf8(line@) ==> (res matches Some(c) && describes(c, decode_utf8(line@))),
        !valid_utf8(line@) ==> res is None,
{
    match text_of_bytes(line) {
        Some(text) => {
            proof {
                encode_utf8_decode_utf8(text@);
            }
            let chars = to_chars(text);
            Some(Command::from_chars(chars.as_slice()))
        },
        None => None,
    }
}

/// What a read leads to. `pending` holds the start of a line that an
/// earlier read left unfinished. The bytes read are added to it; each line
/// that a `'\n'` completes becomes a command, in order (a line that is not
/// UTF-8 text is dropped), and what follows the last `'\n'` stays pending.
/// A lost connection drops the pending bytes.
pub fn on_read(pending: &mut Vec<u8>, outcome: ReadOutcome) -> (res: SessionAction)
    ensures
        match outcome {
            ReadOutcome::Data(bytes) => {
                &&& res matches SessionAction::Forward(cmds)
                    && commands_of_lines(cmds@, frame_lines(old(pending)@ + bytes@).0)
                &&& final(pending)@ == frame_lines(old(pending)@ + bytes@).1
            },
            ReadOutcome::Closed => res is Disconnect && final(pending)@ == Seq::<u8>::empty(),
            ReadOutcome::TimedOut => res is Wait && final(pending)@ == old(pending)@,
            ReadOutcome::Failed => res is Disconnect && final(pending)@ == Seq::<u8>::empty(),
        },
{
    match outcome {
        ReadOutcome::Data(bytes) => {
            let mut stream: Vec<u8> = Vec::new();
            std::mem::swap(&mut stream, pending);
            let mut more = bytes;
            stream.append(&mut more);
            let ghost all = stream@;
            let mut cmds: Vec<Command> = Vec::new();
            let mut line: Vec<u8> = Vec::new();
            let ghost mut ls: Seq<Seq<u8>> = Seq::empty();
            let mut i: usize = 0;
            assert(all.take(0) =~= Seq::<u8>::empty());
            while i < stream.len()
                invariant
                    i <= stream.len(),
                    stream@ == all,
                    frame_lines(all.take(i as int)) == (ls, line@),
                    commands_of_lines(cmds@, ls),
                decreases stream.len() - i,
            {
                let b = stream[i];
                assert(all.take(i as int + 1).drop_last() =~= all.take(i as int));
                if b == 10 {
                    let mut done: Vec<u8> = Vec::new();
                    std::mem::swap(&mut done, &mut line);
                    let ghost old_ls = ls;
                    proof {
                        ls = ls.push(done@);
                        assert(ls.drop_last() =~= old_ls);
                    }
                    match line_command(done.as_slice()) {
                        Some(c) => {
                            cmds.push(c);
                        },
                        None => {},
                    }
                } else {
                    line.push(b);
                }
                i = i + 1;
            }
            assert(all.take(all.len() as int) =~= all);
            *pending = line;
            SessionAction::Forward(cmds)
        },
        ReadOutcome::Closed => {
            pending.clear();
            SessionAction::Disconnect
        },
        ReadOutcome::TimedOut => SessionAction::Wait,
        ReadOutcome::Failed => {
            pending.clear();
            SessionAction::Disconnect
        },
    }
}

/// A stream without `'\n'` is one unfinished line.
proof fn lemma_frame_no_newline(r: Seq<u8>)
    requires
        forall|i: int| 0 <= i < r.len() ==> #[trigger] r[i] != 10u8,
    ensures
        frame_lines(r) == (Seq::<Seq<u8>>::empty(), r),
    decreases r.len(),
{
    if r.len() > 0 {
        lemma_frame_no_newline(r.drop_last());
        assert(r.drop_last().push(r.last()) =~= r);
    } else {
        assert(r =~= Seq::<u8>::empty());
    }
}

/// The unfinished line holds no `'\n'`.
proof fn lemma_frame_rest(s: Seq<u8>)
    ensures
        forall|i: int| 0 <= i < frame_lines(s).1.len() ==> #[trigger] frame_lines(s).1[i] != 10u8,
    decreases s.len(),
{
    if s.len() > 0 {
        lemma_frame_rest(s.drop_last());
        let before = frame_lines(s.drop_last());
        if s.last() != 10u8 {
            assert forall|i: int| 0 <= i < frame_lines(s).1.len() implies #[trigger] frame_lines(s).1[i] != 10u8 by {
                if i < before.1.len() {
                    assert(frame_lines(s).1[i] == before.1[i]);
                }
            }
        }
    }
}

/// Framing law: cutting a stream at any point loses and adds nothing. The
/// lines of `a + b` are the lines of `a`, then the lines of what `a` left
/// unfinished followed by `b`; and what stays unfinished is the same.
pub proof fn lemma_frame_concat(a: Seq<u8>, b: Seq<u8>)
    ensures
        frame_lines(a + b) == (
            frame_lines(a).0 + frame_lines(frame_lines(a).1 + b).0,
            frame_lines(frame_lines(a).1 + b).1,
        ),
    decreases b.len(),
{
    let fa = frame_lines(a);
    if b.len() == 0 {
        lemma_frame_rest(a);
        lemma_frame_no_newline(fa.1);
        assert(a + b =~= a);
        assert(fa.1 + b =~= fa.1);
        assert(fa.0 + Seq::<Seq<u8>>::empty() =~= fa.0);
    } else {
        lemma_frame_concat(a, b.drop_last());
        assert((a + b).drop_last() =~= a + b.drop_last());
        assert((fa.1 + b).drop_last() =~= fa.1 + b.drop_last());
        let inner = frame_lines(fa.1 + b.drop_last());
        assert((fa.0 + inner.0).push(inner.1) =~= fa.0 + inner.0.push(inner.1));
    }
}

/// Line texts of two runs of lines, one after the other, are the texts of
/// each run, one after the other.
proof fn lemma_line_texts_concat(x: Seq<Seq<u8>>, y: Seq<Seq<u8>>)
    ensures
        line_texts(x + y) == line_texts(x) + line_texts(y),
    decreases y.len(),
{
    if y.len() == 0 {
        assert(x + y =~= x);
        assert(line_texts(x) + line_texts(y) =~= line_texts(x));
    } else {
        lemma_line_texts_concat(x, y.drop_last());
        assert((x + y).drop_last() =~= x + y.drop_last());
        let tx = line_texts(x);
        let ty = line_texts(y.drop_last());
        assert((tx + ty).push(decode_utf8(y.last())) =~= tx + ty.push(decode_utf8(y.last())));
    }
}

/// Session law: how the bytes are split into reads does not matter. Two
/// reads in a row, starting from `pending`, forward the texts of the same
/// lines, in the same order, and leave the same bytes pending, as one read
/// of both chunks together.
pub proof fn lemma_reads_compose(pending: Seq<u8>, b1: Seq<u8>, b2: Seq<u8>)
    ensures
        ({
            let first = frame_lines(pending + b1);
            let second = frame_lines(first.1 + b2);
            let both = frame_lines(pending + (b1 + b2));
            &&& line_texts(first.0) + line_texts(second.0) == line_texts(both.0)
            &&& second.1 == both.1
        }),
{
    assert(pending + (b1 + b2) =~= (pending + b1) + b2);
    lemma_frame_concat(pending + b1, b2);
    let first = frame_lines(pending + b1);
    let second = frame_lines(first.1 + b2);
    lemma_line_texts_concat(first.0, second.0);
}

proof fn lemma_encode_concat(a: Seq<char>, b: Seq<char>)
    ensures
        encode_utf8(a + b) == encode_utf8(a) + encode_utf8(b),
    decreases a.len(),
{
    if a.len() == 0 {
        assert(a + b =~= b);
        assert(encode_utf8(a) + encode_utf8(b) =~= encode_utf8(b));
    } else {
        lemma_encode_concat(a.drop_first(), b);
        assert((a + b).drop_first() =~= a.drop_first() + b);
        assert((a + b)[0] == a[0]);
        let e = encode_scalar(a[0] as u32);
        assert(e + (encode_utf8(a.drop_first()) + encode_utf8(b)) =~= (e + encode_utf8(a.drop_first()))
            + encode_utf8(b));
    }
}

proof fn lemma_encode_push(t: Seq<char>)
    requires
        t.len() > 0,
    ensures
        encode_utf8(t) == encode_utf8(t.drop_last()) + encode_scalar(t.last() as u32),
{
    let one = seq![t.last()];
    assert(t.drop_last() + one =~= t);
    lemma_encode_concat(t.drop_last(), one);
    assert(one.drop_first() =~= Seq::<char>::empty());
    assert(encode_scalar(t.last() as u32) + encode_utf8(Seq::<char>::empty()) =~= encode_scalar(
        t.last() as u32,
    ));
}

proof fn lemma_high_bytes(y: u8)
    by (bit_vector)
    ensures
        (0x80u8 | y) != 10u8,
        (0xC0u8 | y) != 10u8,
        (0xE0u8 | y) != 10u8,
        (0xF0u8 | y) != 10u8,
{
}

proof fn lemma_low_byte(v: u32)
    by (bit_vector)
    requires
        v <= 0x7f,
    ensures
        (v & 0x7f) == v,
{
}

/// The encoding of a character other than `'\n'` holds no byte 10; that of
/// `'\n'` is that one byte.
proof fn lemma_encode_newline(c: char)
    ensures
        c == '\n' ==> encode_scalar(c as u32) == seq![10u8],
        c != '\n' ==> forall|i: int| 0 <= i < encode_scalar(c as u32).len() ==> #[trigger] encode_scalar(c as u32)[i] != 10u8,
{
    let v = c as u32;
    if has_width_1_encoding(v) {
        lemma_low_byte(v);
        if c == '\n' {
            assert(encode_scalar(v) =~= seq![10u8]);
        } else {
            assert(encode_scalar(v)[0] != 10u8);
        }
    } else {
        lemma_high_bytes(((v >> 6) & 0x1F) as u8);
        lemma_high_bytes(((v >> 12) & 0x0F) as u8);
        lemma_high_bytes(((v >> 18) & 0x7) as u8);
        lemma_high_bytes((v & 0x3F) as u8);
        lemma_high_bytes(((v >> 6) & 0x3F) as u8);
        lemma_high_bytes(((v >> 12) & 0x3F) as u8);
    }
}

/// Protocol law: when the bridge sends the text `t`, the lines that are
/// complete are exactly the pieces of `t` between its `'\n'`s, in order,
/// all but the last; the last piece, not yet ended, stays pending. So
/// text `L1\nL2\n...Ln\n` gives the lines `L1` to `Ln` and leaves nothing.
pub proof fn lemma_text_stream(t: Seq<char>)
    ensures
        line_texts(frame_lines(encode_utf8(t)).0) == split_all(t, '\n').drop_last(),
        frame_lines(encode_utf8(t)).1 == encode_utf8(split_all(t, '\n').last()),
    decreases t.len(),
{
    lemma_split_nonempty(t, '\n', None);
    if t.len() == 0 {
        assert(split_all(t, '\n') =~= seq![Seq::<char>::empty()]);
        assert(split_all(t, '\n').drop_last() =~= Seq::<Seq<char>>::empty());
    } else {
        let u = t.drop_last();
        let c = t.last();
        lemma_text_stream(u);
        lemma_split_nonempty(u, '\n', None);
        lemma_encode_push(t);
        lemma_encode_newline(c);
        let x = encode_utf8(u);
        let e = encode_scalar(c as u32);
        let fx = frame_lines(x);
        let ps = split_all(u, '\n');
        lemma_frame_concat(x, e);
        if c == '\n' {
            assert(frame_lines(fx.1 + e) == (seq![fx.1], Seq::<u8>::empty())) by {
                assert((fx.1 + e).drop_last() =~= fx.1);
                lemma_frame_rest(x);
                lemma_frame_no_newline(fx.1);
                assert(Seq::<Seq<u8>>::empty().push(fx.1) =~= seq![fx.1]);
            }
            assert(fx.0 + seq![fx.1] =~= fx.0.push(fx.1));
            assert(fx.0.push(fx.1).drop_last() =~= fx.0);
            encode_utf8_decode_utf8(ps.last());
            vstd::utf8::encode_utf8_valid_utf8(ps.last());
            assert(split_all(t, '\n') == ps.push(Seq::<char>::empty()));
            assert(ps.push(Seq::<char>::empty()).drop_last() =~= ps);
            assert(ps.drop_last().push(ps.last()) =~= ps);
            assert(encode_utf8(Seq::<char>::empty()) =~= Seq::<u8>::empty());
        } else {
            lemma_frame_rest(x);
            assert forall|i: int| 0 <= i < (fx.1 + e).len() implies #[trigger] (fx.1 + e)[i] != 10u8 by {
                if i < fx.1.len() {
                    assert((fx.1 + e)[i] == fx.1[i]);
                } else {
                    assert((fx.1 + e)[i] == e[i - fx.1.len()]);
                }
            }
            lemma_frame_no_newline(fx.1 + e);
            assert(fx.0 + Seq::<Seq<u8>>::empty() =~= fx.0);
            let last = ps.last();
            assert(split_all(t, '\n') == ps.update(ps.len() - 1, last.push(c)));
            assert(ps.update(ps.len() - 1, last.push(c)).drop_last() =~= ps.drop_last());
            lemma_encode_push(last.push(c));
            assert(last.push(c).drop_last() =~= last);
        }
    }
}

/// How long a read from the bridge waits before the worker looks at its run
/// flag again, in milliseconds.
pub const READ_TIMEOUT_MS: u64 = 100;

/// How long the worker waits after a failed connection attempt before it
/// tries again, in milliseconds.
pub const RETRY_DELAY_MS: u64 = 1000;

/// What an attempt to connect to the bridge gave.
pub enum ConnectOutcome {
    /// The connection stands.
    Connected,
    /// The bridge could not be reached.
    Failed,
}

/// What the worker does after an attempt to connect.
#[derive(Debug, PartialEq, Eq)]
pub enum ConnectAction {
    /// Read commands from the connection, each read waiting at most
    /// `read_timeout_ms` milliseconds.
    Serve { read_timeout_ms: u64 },
    /// Wait `delay_ms` milliseconds, then try to connect again.
    RetryAfter { delay_ms: u64 },
}

/// What a connection attempt leads to: a connection is served with reads
/// that time out after `READ_TIMEOUT_MS`; a failure is retried after
/// `RETRY_DELAY_MS`.
pub fn on_connect(outcome: ConnectOutcome) -> (res: ConnectAction)
    ensures
        match outcome {
            ConnectOutcome::Connected => res == (ConnectAction::Serve { read_timeout_ms: READ_TIMEOUT_MS }),
            ConnectOutcome::Failed => res == (ConnectAction::RetryAfter { delay_ms: RETRY_DELAY_MS }),
        },
{
    match outcome {
        ConnectOutcome::Connected => ConnectAction::Serve { read_timeout_ms: READ_TIMEOUT_MS },
        ConnectOutcome::Failed => ConnectAction::RetryAfter { delay_ms: RETRY_DELAY_MS },
    }
}

/// Whether the connection worker runs, and whether one was started and not
/// yet joined.
pub struct ServerControl {
    running: bool,
    has_worker: bool,
}

impl ServerControl {
    /// Whether the worker is asked to run.
    pub closed spec fn running_spec(self) -> bool {
        self.running
    }

    /// Whether a worker was started and not yet joined.
    pub closed spec fn has_worker_spec(self) -> bool {
        self.has_worker
    }

    /// A running server has a worker: every `ServerControl` keeps this.
    #[verifier::type_invariant]
    pub closed spec fn wf(self) -> bool {
        self.running ==> self.has_worker
    }

    /// The state after a start, and whether a new worker is to be spawned:
    /// only when the server was not running.
    pub closed spec fn start_spec(self) -> (ServerControl, bool) {
        if self.running {
            (self, false)
        } else {
            (ServerControl { running: true, has_worker: true }, true)
        }
    }

    /// The state after a stop, and whether there is a worker to join.
    pub closed spec fn stop_spec(self) -> (ServerControl, bool) {
        (ServerControl { running: false, has_worker: false }, self.has_worker)
    }

    /// A server that does not run and has no worker.
    pub fn new() -> (res: ServerControl)
        ensures
            !res.running_spec(),
            !res.has_worker_spec(),
    {
        ServerControl { running: false, has_worker: false }
    }

    /// Whether the worker is asked to run.
    pub fn is_running(&self) -> (res: bool)
        ensures
            res == self.running_spec(),
    {
        self.running
    }

    /// Asks the server to run. Returns whether a new worker is to be
    /// started: only when it was not running already.
    pub fn start(&mut self) -> (spawn: bool)
        ensures
            (*final(self), spawn) == old(self).start_spec(),
            spawn == !old(self).running_spec(),
            final(self).running_spec(),
            final(self).has_worker_spec() == (old(self).has_worker_spec() || spawn),
    {
        proof {
            use_type_invariant(&*self);
        }
        if self.running {
            return false;
        }
        self.has_worker = true;
        self.running = true;
        true
    }

    /// Asks the server to stop. Returns whether there is a worker to wait
    /// for.
    pub fn stop(&mut self) -> (join: bool)
        ensures
            (*final(self), join) == old(self).stop_spec(),
            join == old(self).has_worker_spec(),
            !final(self).running_spec(),
            !final(self).has_worker_spec(),
    {
        let join = self.has_worker;
        self.running = false;
        self.has_worker = false;
        join
    }
}

/// Server law: starting a server that already runs starts no second worker
/// and changes nothing; a stop followed by a start starts a worker again,
/// and a stop after a start has that worker to join.
pub proof fn lemma_start_stop(c: ServerControl)
    requires
        c.wf(),
    ensures
        c.start_spec().0.start_spec() == (c.start_spec().0, false),
        c.stop_spec().0.start_spec().1,
        c.start_spec().0.stop_spec().1,
        !c.stop_spec().0.stop_spec().1,
{
}

/// The answer of the Lua function `aiSendCommand` to a call with
/// `arg_count` arguments, whose first argument reads as text when
/// `has_text`, and whose command the bridge took when `sent`.
pub open spec fn ai_send_reply_spec(arg_count: i32, has_text: bool, sent: bool) -> Seq<char> {
    if arg_count < 1 {
        "Error: Missing command parameter"@
    } else if !has_text {
        "Error: Invalid command"@
    } else if sent {
        "Command sent successfully"@
    } else {
        "Error: Failed to send command"@
    }
}

/// The answer of the Lua function `aiSendCommand` (see `ai_send_reply_spec`).
pub fn ai_send_reply(arg_count: i32, has_text: bool, sent: bool) -> (res: &'static str)
    ensures
        res@ == ai_send_reply_spec(arg_count, has_text, sent),
{
    if arg_count < 1 {
        "Error: Missing command parameter"
    } else if !has_text {
        "Error: Invalid command"
    } else if sent {
        "Command sent successfully"
    } else {
        "Error: Failed to send command"
    }
}

} // verus!
