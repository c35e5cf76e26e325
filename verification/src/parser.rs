//! The KOMSI command parser: a restartable byte-at-a-time state machine.
//!
//! The parser is either idle or accumulating a command: a letter opens a
//! command, up to sixteen digit bytes accumulate into its payload, and a
//! separator (carriage return, line feed, semicolon, space) or the next
//! letter finalizes the pending command.  Any other byte is ignored.  The
//! machine has no dependency on how the byte stream is chunked, so commands
//! may be split across unrelated reads.

use vstd::prelude::*;

use crate::komsi::all_digits;
use crate::komsi::is_digit_byte;
use crate::komsi::spec_from_parts;
use crate::komsi::Command;
use crate::komsi::KomsiError;

verus! {

/// Capacity of the digit buffer.  Digits beyond this bound are ignored, so
/// only the first sixteen digits of a payload influence the decoded value.
pub const MAX_DIGITS: usize = 16;

/// The byte is an ASCII letter (either case).
pub open spec fn is_letter_byte(b: u8) -> bool {
    (0x41 <= b <= 0x5a) || (0x61 <= b <= 0x7a)
}

/// The byte separates commands: line feed, carriage return, semicolon, space.
pub open spec fn is_separator_byte(b: u8) -> bool {
    b == 0x0a || b == 0x0d || b == 0x3b || b == 0x20
}

/// The abstract parser state: the pending command letter, if any, and the
/// digit payload collected for it so far.
pub struct ParserView {
    pub cmd: Option<u8>,
    pub digits: Seq<u8>,
}

/// The idle state: no command letter pending, no digits collected.
pub open spec fn idle_state() -> ParserView {
    ParserView { cmd: None, digits: Seq::empty() }
}

/// One transition of the parser on one input byte: the successor state and
/// the command (or decoding failure) emitted by the byte, if any.
pub open spec fn spec_step(st: ParserView, b: u8) -> (ParserView, Option<
    Result<Command, KomsiError>,
>) {
    if is_letter_byte(b) {
        let emitted = match st.cmd {
            Some(c) => Some(spec_from_parts(c as char, st.digits)),
            None => None,
        };
        (ParserView { cmd: Some(b), digits: Seq::empty() }, emitted)
    } else if is_digit_byte(b) {
        if st.cmd is Some && st.digits.len() < MAX_DIGITS {
            (ParserView { cmd: st.cmd, digits: st.digits.push(b) }, None)
        } else {
            (st, None)
        }
    } else if is_separator_byte(b) {
        match st.cmd {
            Some(c) => (idle_state(), Some(spec_from_parts(c as char, st.digits))),
            None => (st, None),
        }
    } else {
        (st, None)
    }
}

/// The parser run over a whole byte sequence: the final state and the
/// emitted commands, in input order.
pub open spec fn spec_feed(st: ParserView, s: Seq<u8>) -> (ParserView, Seq<
    Result<Command, KomsiError>,
>)
    decreases s.len(),
{
    if s.len() == 0 {
        (st, Seq::empty())
    } else {
        let first = spec_step(st, s[0]);
        let rest = spec_feed(first.0, s.skip(1));
        (
            rest.0,
            match first.1 {
                Some(e) => seq![e] + rest.1,
                None => rest.1,
            },
        )
    }
}

/// The KOMSI command parser.
pub struct Parser {
    cmd: Option<u8>,
    digits: Vec<u8>,
}

impl View for Parser {
    type V = ParserView;

    closed spec fn view(&self) -> ParserView {
        ParserView { cmd: self.cmd, digits: self.digits@ }
    }
}

impl Parser {
    /// A fresh parser in the idle state.
    pub fn new() -> (p: Parser)
        ensures
            p@ == idle_state(),
    {
        let p = Parser { cmd: None, digits: Vec::new() };
        proof {
            assert(p@ =~= idle_state());
        }
        p
    }

    /// Consume one input byte; return the command finalized by it, if any.
    pub fn step(&mut self, byte: u8) -> (emitted: Option<Result<Command, KomsiError>>)
        ensures
            final(self)@ == spec_step(old(self)@, byte).0,
            emitted == spec_step(old(self)@, byte).1,
    {
        if (0x41 <= byte && byte <= 0x5a) || (0x61 <= byte && byte <= 0x7a) {
            let emitted = match self.cmd {
                Some(c) => Some(Command::from_parts(c as char, self.digits.as_slice())),
                None => None,
            };
            self.cmd = Some(byte);
            self.digits.clear();
            proof {
                assert(self@.digits =~= spec_step(old(self)@, byte).0.digits);
            }
            emitted
        } else if 0x30 <= byte && byte <= 0x39 {
            if self.cmd.is_some() && self.digits.len() < MAX_DIGITS {
                self.digits.push(byte);
            }
            None
        } else if byte == 0x0a || byte == 0x0d || byte == 0x3b || byte == 0x20 {
            match self.cmd {
                Some(c) => {
                    let emitted = Command::from_parts(c as char, self.digits.as_slice());
                    self.cmd = None;
                    self.digits.clear();
                    proof {
                        assert(self@.digits =~= idle_state().digits);
                    }
                    Some(emitted)
                },
                None => None,
            }
        } else {
            None
        }
    }

    /// Consume a chunk of input bytes; return the commands they finalize,
    /// in input order.
    pub fn feed(&mut self, bytes: &[u8]) -> (out: Vec<Result<Command, KomsiError>>)
        ensures
            final(self)@ == spec_feed(old(self)@, bytes@).0,
            out@ == spec_feed(old(self)@, bytes@).1,
    {
        let mut out: Vec<Result<Command, KomsiError>> = Vec::new();
        let mut i: usize = 0;
        while i < bytes.len()
            invariant
                0 <= i <= bytes@.len(),
                self@ == spec_feed(old(self)@, bytes@.take(i as int)).0,
                out@ == spec_feed(old(self)@, bytes@.take(i as int)).1,
            decreases bytes@.len() - i,
        {
            proof {
                lemma_spec_feed_snoc(old(self)@, bytes@.take(i as int), bytes@[i as int]);
                assert(bytes@.take(i as int).push(bytes@[i as int]) =~= bytes@.take(i + 1));
            }
            let emitted = self.step(bytes[i]);
            match emitted {
                Some(e) => out.push(e),
                None => (),
            }
            i = i + 1;
        }
        proof {
            assert(bytes@.take(bytes@.len() as int) =~= bytes@);
        }
        out
    }
}

/// Running the parser over a sequence extended by one byte equals running
/// it over the sequence and then stepping on that byte.
pub proof fn lemma_spec_feed_snoc(st: ParserView, s: Seq<u8>, b: u8)
    ensures
        spec_feed(st, s.push(b)).0 == spec_step(spec_feed(st, s).0, b).0,
        spec_feed(st, s.push(b)).1 == match spec_step(spec_feed(st, s).0, b).1 {
            Some(e) => spec_feed(st, s).1.push(e),
            None => spec_feed(st, s).1,
        },
    decreases s.len(),
{
    reveal_with_fuel(spec_feed, 3);
    if s.len() == 0 {
        assert(s.push(b)[0] == b);
        assert(s.push(b).skip(1) =~= Seq::<u8>::empty());
        match spec_step(st, b).1 {
            Some(e) => {
                assert(seq![e] + Seq::<Result<Command, KomsiError>>::empty() =~= Seq::<
                    Result<Command, KomsiError>,
                >::empty().push(e));
            },
            None => {},
        }
    } else {
        assert(s.push(b)[0] == s[0]);
        assert(s.push(b).skip(1) =~= s.skip(1).push(b));
        lemma_spec_feed_snoc(spec_step(st, s[0]).0, s.skip(1), b);
        let st1 = spec_step(st, s[0]);
        let restpush = spec_feed(st1.0, s.skip(1).push(b));
        let rest = spec_feed(st1.0, s.skip(1));
        match st1.1 {
            Some(e0) => {
                match spec_step(rest.0, b).1 {
                    Some(e) => {
                        assert(seq![e0] + rest.1.push(e) =~= (seq![e0] + rest.1).push(e));
                    },
                    None => {},
                }
            },
            None => {},
        }
    }
}

/// The digit payload that a run of digit bytes leaves in a buffer already
/// holding `d0`: the run is appended until the buffer holds `MAX_DIGITS`
/// bytes, and the rest of the run is ignored.
pub open spec fn kept_digits(d0: Seq<u8>, ds: Seq<u8>) -> Seq<u8> {
    if d0.len() + ds.len() <= MAX_DIGITS {
        d0 + ds
    } else if d0.len() <= MAX_DIGITS {
        d0 + ds.take(MAX_DIGITS - d0.len())
    } else {
        d0
    }
}

/// Feeding a run of digit bytes while a command is pending emits nothing and
/// only extends the digit buffer, up to its bound.
pub proof fn lemma_feed_digits(c: u8, d0: Seq<u8>, ds: Seq<u8>)
    requires
        all_digits(ds),
        d0.len() <= MAX_DIGITS,
    ensures
        spec_feed(ParserView { cmd: Some(c), digits: d0 }, ds).0 == (ParserView {
            cmd: Some(c),
            digits: kept_digits(d0, ds),
        }),
        spec_feed(ParserView { cmd: Some(c), digits: d0 }, ds).1 =~= Seq::<
            Result<Command, KomsiError>,
        >::empty(),
    decreases ds.len(),
{
    let st = ParserView { cmd: Some(c), digits: d0 };
    if ds.len() == 0 {
        assert(kept_digits(d0, ds) =~= d0);
    } else {
        let b = ds[0];
        assert(is_digit_byte(b));
        assert(!is_letter_byte(b) && !is_separator_byte(b));
        assert(all_digits(ds.skip(1)));
        if d0.len() < MAX_DIGITS {
            lemma_feed_digits(c, d0.push(b), ds.skip(1));
            assert(kept_digits(d0.push(b), ds.skip(1)) =~= kept_digits(d0, ds));
        } else {
            lemma_feed_digits(c, d0, ds.skip(1));
            assert(kept_digits(d0, ds.skip(1)) =~= kept_digits(d0, ds));
        }
    }
}

/// Running the parser over concatenated input equals running it over the
/// first part and continuing over the second from the state left behind,
/// with the emissions concatenated in order.  In particular, once a command
/// is finalized the bytes that follow parse exactly as they would from a
/// fresh parser in the same state: there is no cross-command leakage.
pub proof fn lemma_spec_feed_concat(st: ParserView, s1: Seq<u8>, s2: Seq<u8>)
    ensures
        spec_feed(st, s1 + s2).0 == spec_feed(spec_feed(st, s1).0, s2).0,
        spec_feed(st, s1 + s2).1 == spec_feed(st, s1).1 + spec_feed(spec_feed(st, s1).0, s2).1,
    decreases s1.len(),
{
    reveal_with_fuel(spec_feed, 2);
    if s1.len() == 0 {
        assert(s1 + s2 =~= s2);
        assert(spec_feed(st, s1).1 + spec_feed(spec_feed(st, s1).0, s2).1 =~= spec_feed(
            st,
            s2,
        ).1);
    } else {
        assert((s1 + s2)[0] == s1[0]);
        assert((s1 + s2).skip(1) =~= s1.skip(1) + s2);
        let st1 = spec_step(st, s1[0]);
        lemma_spec_feed_concat(st1.0, s1.skip(1), s2);
        match st1.1 {
            Some(e) => {
                assert(seq![e] + (spec_feed(st1.0, s1.skip(1)).1 + spec_feed(
                    spec_feed(st1.0, s1.skip(1)).0,
                    s2,
                ).1) =~= (seq![e] + spec_feed(st1.0, s1.skip(1)).1) + spec_feed(
                    spec_feed(st1.0, s1.skip(1)).0,
                    s2,
                ).1);
            },
            None => {},
        }
    }
}

/// A whole command fed to an idle parser: the letter, a run of digits, and a
/// separator.  Exactly one command is emitted; its payload is the run of
/// digits capped at the buffer bound; and the parser is idle again, so the
/// bytes that follow parse independently.
pub proof fn lemma_parser_whole_command(c: u8, ds: Seq<u8>, sep: u8)
    requires
        is_letter_byte(c),
        all_digits(ds),
        is_separator_byte(sep),
    ensures
        spec_feed(idle_state(), seq![c] + ds + seq![sep]).0 == idle_state(),
        spec_feed(idle_state(), seq![c] + ds + seq![sep]).1 =~= seq![
            spec_from_parts(c as char, kept_digits(Seq::empty(), ds)),
        ],
{
    reveal_with_fuel(spec_feed, 3);
    let input = seq![c] + ds + seq![sep];
    let sc = seq![c];
    let tail = ds + seq![sep];
    assert(input =~= sc + tail);
    lemma_spec_feed_concat(idle_state(), sc, tail);
    assert(sc[0] == c);
    assert(sc.skip(1) =~= Seq::<u8>::empty());
    let st1 = ParserView { cmd: Some(c), digits: Seq::empty() };
    assert(spec_feed(idle_state(), sc).0 == st1);
    assert(spec_feed(idle_state(), sc).1 =~= Seq::<Result<Command, KomsiError>>::empty());
    lemma_spec_feed_concat(st1, ds, seq![sep]);
    lemma_feed_digits(c, Seq::empty(), ds);
    let st2 = ParserView { cmd: Some(c), digits: kept_digits(Seq::empty(), ds) };
    assert(seq![sep][0] == sep);
    assert(seq![sep].skip(1) =~= Seq::<u8>::empty());
    assert(!is_letter_byte(sep) && !is_digit_byte(sep));
    assert(spec_feed(st2, seq![sep]).0 == idle_state());
    assert(spec_feed(st2, seq![sep]).1 =~= seq![
        spec_from_parts(c as char, kept_digits(Seq::empty(), ds)),
    ]);
    assert(spec_feed(idle_state(), input).1 =~= seq![
        spec_from_parts(c as char, kept_digits(Seq::empty(), ds)),
    ]);
}

/// A valid command string of at most sixteen digits emits exactly one
/// command, decoded from its letter and its full digit payload, and returns
/// the parser to the idle state.
pub proof fn lemma_parser_single_command(c: u8, ds: Seq<u8>, sep: u8)
    requires
        is_letter_byte(c),
        all_digits(ds),
        ds.len() <= MAX_DIGITS,
        is_separator_byte(sep),
    ensures
        spec_feed(idle_state(), seq![c] + ds + seq![sep]).0 == idle_state(),
        spec_feed(idle_state(), seq![c] + ds + seq![sep]).1 =~= seq![
            spec_from_parts(c as char, ds),
        ],
{
    lemma_parser_whole_command(c, ds, sep);
    assert(kept_digits(Seq::empty(), ds) =~= ds);
}

/// A digit payload longer than the buffer bound decodes as its first
/// sixteen digits: the bytes beyond the bound do not influence the value.
pub proof fn lemma_parser_digit_bound(c: u8, ds: Seq<u8>, sep: u8)
    requires
        is_letter_byte(c),
        all_digits(ds),
        ds.len() > MAX_DIGITS,
        is_separator_byte(sep),
    ensures
        spec_feed(idle_state(), seq![c] + ds + seq![sep]).0 == idle_state(),
        spec_feed(idle_state(), seq![c] + ds + seq![sep]).1 =~= seq![
            spec_from_parts(c as char, ds.take(MAX_DIGITS as int)),
        ],
{
    lemma_parser_whole_command(c, ds, sep);
    assert(kept_digits(Seq::empty(), ds) =~= ds.take(MAX_DIGITS as int));
}

} // verus!
