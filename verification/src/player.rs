//! Replaying a recorded program: a restartable, forward-only producer that
//! yields one instruction per control tick, automatically crossing run
//! boundaries, and ends with nothing once the program is exhausted.

use vstd::prelude::*;

verus! {

use crate::codec::{decode, decode_of, lemma_codec_round_trip, DecodeError, Instruction};
use crate::recorder::{duration_bytes_of, entry_bytes_of, program_bytes_of, RunLengthEntry};

/// The recorded program a byte stream holds: a whole number of nine-byte
/// records, each a well-formed packed instruction followed by a positive
/// big-endian duration; anything else parses to nothing.
pub open spec fn parse_program_of(b: Seq<u8>) -> Option<Seq<RunLengthEntry>>
    decreases b.len(),
{
    if b.len() == 0 {
        Some(Seq::empty())
    } else if b.len() < 9 {
        None
    } else {
        match decode_of(b.take(5)) {
            Option::None => None,
            Option::Some(inst) => {
                let d = ((b[5] * 256 + b[6]) * 256 + b[7]) * 256 + b[8];
                if d == 0 {
                    None
                } else {
                    match parse_program_of(b.skip(9)) {
                        Option::None => None,
                        Option::Some(rest) => Some(
                            seq![RunLengthEntry { instruction: inst, duration_ticks: d as u32 }]
                                + rest,
                        ),
                    }
                }
            },
        }
    }
}

/// The player: a decoded program and a forward-only cursor into it, as the
/// run index and the ticks already spent inside that run.
pub struct AutonomousPlayer {
    program: Vec<RunLengthEntry>,
    entry_index: usize,
    ticks_into_entry: u32,
}

impl AutonomousPlayer {
    /// Every run is well formed and the cursor sits inside the program:
    /// on a run with ticks still left, or just past the end with zero
    /// ticks spent.
    pub closed spec fn wf(self) -> bool {
        &&& forall|i: int| 0 <= i < self.program@.len() ==> #[trigger] self.program@[i].wf()
        &&& self.entry_index <= self.program@.len()
        &&& if self.entry_index < self.program@.len() {
            self.ticks_into_entry < self.program@[self.entry_index as int].duration_ticks
        } else {
            self.ticks_into_entry == 0
        }
    }

    /// The program being replayed.
    pub closed spec fn entries(self) -> Seq<RunLengthEntry> {
        self.program@
    }

    /// The run the cursor stands on.
    pub closed spec fn entry_index(self) -> int {
        self.entry_index as int
    }

    /// How many ticks of the current run have already been replayed.
    pub closed spec fn ticks_into_entry(self) -> int {
        self.ticks_into_entry as int
    }

    /// Starts replaying a program from its beginning.
    pub fn new(program: Vec<RunLengthEntry>) -> (r: AutonomousPlayer)
        requires
            forall|i: int| 0 <= i < program@.len() ==> #[trigger] program@[i].wf(),
        ensures
            r.wf(),
            r.entries() == program@,
            r.entry_index() == 0,
            r.ticks_into_entry() == 0,
    {
        proof {
            if 0 < program@.len() {
                assert(program@[0].wf());
            }
        }
        AutonomousPlayer { program, entry_index: 0, ticks_into_entry: 0 }
    }

    /// Rewinds the cursor to the start of the program, so the same
    /// recording can be replayed again.
    pub fn restart(&mut self)
        requires
            old(self).wf(),
        ensures
            final(self).wf(),
            final(self).entries() == old(self).entries(),
            final(self).entry_index() == 0,
            final(self).ticks_into_entry() == 0,
    {
        proof {
            if 0 < self.program@.len() {
                assert(self.program@[0].wf());
            }
        }
        self.entry_index = 0;
        self.ticks_into_entry = 0;
    }

    /// Yields the instruction for one control tick. Past the end of the
    /// program it returns nothing and stays terminal; the caller must then
    /// stop all actuators. Otherwise it returns the current run's
    /// instruction and moves the cursor one tick forward, stepping to the
    /// next run once this run's duration is spent. Call exactly once per
    /// control tick.
    pub fn advance(&mut self) -> (r: Option<Instruction>)
        requires
            old(self).wf(),
        ensures
            final(self).wf(),
            final(self).entries() == old(self).entries(),
            match r {
                Option::None => {
                    &&& old(self).entry_index() == old(self).entries().len()
                    &&& final(self).entry_index() == old(self).entry_index()
                    &&& final(self).ticks_into_entry() == old(self).ticks_into_entry()
                },
                Option::Some(inst) => {
                    &&& old(self).entry_index() < old(self).entries().len()
                    &&& inst == old(self).entries()[old(self).entry_index()].instruction
                    &&& if old(self).ticks_into_entry() + 1
                        == old(self).entries()[old(self).entry_index()].duration_ticks {
                        final(self).entry_index() == old(self).entry_index() + 1
                            && final(self).ticks_into_entry() == 0
                    } else {
                        final(self).entry_index() == old(self).entry_index()
                            && final(self).ticks_into_entry() == old(self).ticks_into_entry() + 1
                    }
                },
            },
    {
        if self.entry_index >= self.program.len() {
            return None;
        }
        let entry = self.program[self.entry_index];
        proof {
            assert(self.program@[self.entry_index as int].wf());
        }
        self.ticks_into_entry = self.ticks_into_entry + 1;
        if self.ticks_into_entry >= entry.duration_ticks {
            self.ticks_into_entry = 0;
            self.entry_index = self.entry_index + 1;
        }
        proof {
            if (self.entry_index as int) < self.program@.len() {
                assert(self.program@[self.entry_index as int].wf());
            }
        }
        Some(entry.instruction)
    }
}

/// Decodes a serialised recorded program and readies it for replay from
/// the start. The bytes must be a whole number of nine-byte records, each
/// a well-formed packed instruction and a positive duration; anything else
/// is malformed, and a malformed recording yields no player at all rather
/// than garbage actuator states.
pub fn load(bytes: &[u8]) -> (r: Result<AutonomousPlayer, DecodeError>)
    ensures
        match r {
            Ok(player) => {
                &&& player.wf()
                &&& parse_program_of(bytes@) == Some(player.entries())
                &&& player.entry_index() == 0
                &&& player.ticks_into_entry() == 0
            },
            Err(e) => parse_program_of(bytes@) is None && e == DecodeError::Malformed,
        },
{
    let mut program: Vec<RunLengthEntry> = Vec::new();
    let mut i: usize = 0;
    proof {
        assert(bytes@.skip(0) =~= bytes@);
    }
    while i < bytes.len()
        invariant
            i <= bytes@.len(),
            forall|j: int| 0 <= j < program@.len() ==> #[trigger] program@[j].wf(),
            match parse_program_of(bytes@.skip(i as int)) {
                Option::Some(rest) => parse_program_of(bytes@) == Some(program@ + rest),
                Option::None => parse_program_of(bytes@) is None,
            },
        decreases bytes@.len() - i,
    {
        let ghost tail = bytes@.skip(i as int);
        if bytes.len() - i < 9 {
            return Err(DecodeError::Malformed);
        }
        let mut chunk: Vec<u8> = Vec::new();
        chunk.push(bytes[i]);
        chunk.push(bytes[i + 1]);
        chunk.push(bytes[i + 2]);
        chunk.push(bytes[i + 3]);
        chunk.push(bytes[i + 4]);
        proof {
            assert(chunk@ =~= tail.take(5));
        }
        let inst = match decode(chunk.as_slice()) {
            Ok(inst) => inst,
            Err(_) => {
                return Err(DecodeError::Malformed);
            },
        };
        let d: u64 = (((bytes[i + 5] as u64 * 256 + bytes[i + 6] as u64) * 256
            + bytes[i + 7] as u64) * 256) + bytes[i + 8] as u64;
        proof {
            assert(tail[5] == bytes@[i as int + 5]);
            assert(tail[6] == bytes@[i as int + 6]);
            assert(tail[7] == bytes@[i as int + 7]);
            assert(tail[8] == bytes@[i as int + 8]);
        }
        if d == 0 {
            return Err(DecodeError::Malformed);
        }
        let entry = RunLengthEntry { instruction: inst, duration_ticks: d as u32 };
        program.push(entry);
        i = i + 9;
        proof {
            assert(tail.skip(9) =~= bytes@.skip(i as int));
            assert(program@ + match parse_program_of(bytes@.skip(i as int)) {
                Option::Some(rest) => rest,
                Option::None => Seq::empty(),
            } =~= program@.drop_last() + (seq![entry] + match parse_program_of(
                bytes@.skip(i as int),
            ) {
                Option::Some(rest) => rest,
                Option::None => Seq::empty(),
            }));
        }
    }
    proof {
        assert(bytes@.skip(i as int) =~= Seq::<u8>::empty());
        assert(program@ + Seq::<RunLengthEntry>::empty() =~= program@);
    }
    Ok(AutonomousPlayer { program, entry_index: 0, ticks_into_entry: 0 })
}

/// A non-empty program's bytes are its first run's bytes followed by the
/// rest's.
proof fn lemma_program_bytes_cons(s: Seq<RunLengthEntry>)
    requires
        s.len() > 0,
    ensures
        program_bytes_of(s) == entry_bytes_of(s[0]) + program_bytes_of(s.skip(1)),
    decreases s.len(),
{
    if s.len() == 1 {
        assert(s.drop_last() =~= Seq::<RunLengthEntry>::empty());
        assert(s.skip(1) =~= Seq::<RunLengthEntry>::empty());
        assert(s.last() == s[0]);
        assert(program_bytes_of(s.drop_last()) + entry_bytes_of(s.last()) =~= entry_bytes_of(s[0])
            + program_bytes_of(s.skip(1)));
    } else {
        lemma_program_bytes_cons(s.drop_last());
        assert(s.drop_last()[0] == s[0]);
        assert(s.drop_last().skip(1) =~= s.skip(1).drop_last());
        assert(s.skip(1).last() == s.last());
        assert(program_bytes_of(s.skip(1)) == program_bytes_of(s.skip(1).drop_last())
            + entry_bytes_of(s.skip(1).last()));
        assert((entry_bytes_of(s[0]) + program_bytes_of(s.skip(1).drop_last())) + entry_bytes_of(
            s.last(),
        ) =~= entry_bytes_of(s[0]) + (program_bytes_of(s.skip(1).drop_last()) + entry_bytes_of(
            s.last(),
        )));
    }
}

/// Reading the four big-endian duration bytes back gives the duration.
proof fn lemma_duration_bytes_value(d: int)
    requires
        0 <= d < 0x100000000,
    ensures
        ({
            let b = duration_bytes_of(d);
            ((b[0] * 256 + b[1]) * 256 + b[2]) * 256 + b[3] == d
        }),
{
    vstd::arithmetic::div_mod::lemma_fundamental_div_mod(d, 256);
    vstd::arithmetic::div_mod::lemma_div_denominator(d, 256, 256);
    vstd::arithmetic::div_mod::lemma_fundamental_div_mod(d / 256, 256);
    vstd::arithmetic::div_mod::lemma_div_denominator(d, 0x10000, 256);
    vstd::arithmetic::div_mod::lemma_fundamental_div_mod(d / 0x10000, 256);
    vstd::arithmetic::div_mod::lemma_div_is_ordered(d, 0xffffffff, 0x1000000);
}

/// A serialised recording parses back into exactly the program that was
/// recorded: flushing the recorder and loading what it wrote replays the
/// very same runs.
pub proof fn lemma_program_round_trip(s: Seq<RunLengthEntry>)
    requires
        forall|i: int| 0 <= i < s.len() ==> #[trigger] s[i].wf(),
    ensures
        parse_program_of(program_bytes_of(s)) == Some(s),
    decreases s.len(),
{
    if s.len() == 0 {
        assert(parse_program_of(program_bytes_of(s)) == Some(Seq::<RunLengthEntry>::empty()));
        assert(Seq::<RunLengthEntry>::empty() =~= s);
    } else {
        let e = s[0];
        assert(e.wf());
        let d = e.duration_ticks as int;
        let b = program_bytes_of(s);
        lemma_program_bytes_cons(s);
        assert(entry_bytes_of(e).len() == 9);
        assert(b.take(5) =~= crate::codec::bytes_of(e.instruction));
        lemma_codec_round_trip(e.instruction);
        lemma_duration_bytes_value(d);
        assert(b[5] == duration_bytes_of(d)[0]);
        assert(b[6] == duration_bytes_of(d)[1]);
        assert(b[7] == duration_bytes_of(d)[2]);
        assert(b[8] == duration_bytes_of(d)[3]);
        assert(((b[5] * 256 + b[6]) * 256 + b[7]) * 256 + b[8] == d);
        assert(b.skip(9) =~= program_bytes_of(s.skip(1)));
        assert(forall|i: int| 0 <= i < s.skip(1).len() ==> #[trigger] s.skip(1)[i].wf());
        lemma_program_round_trip(s.skip(1));
        assert(seq![RunLengthEntry { instruction: e.instruction, duration_ticks: d as u32 }]
            + s.skip(1) =~= s);
    }
}

} // verus!
