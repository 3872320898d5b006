//! Run-length recording of the live instruction stream.
//!
//! The recorder consumes one instruction per control tick and compresses
//! consecutive value-equal instructions into `(instruction, duration)`
//! pairs. Merging by value equality is the sole compression rule. Flushing
//! emits the pending run and serialises the whole recorded program through
//! the codec; writing the bytes to storage is the caller's business.

use vstd::prelude::*;

verus! {

use crate::codec::{bytes_of, encode, Instruction};

/// One run of a recorded program: an instruction held for a number of
/// consecutive ticks, at least one.
#[derive(Clone, Copy, Debug, PartialEq, Eq, Structural)]
pub struct RunLengthEntry {
    /// The instruction the driver held.
    pub instruction: Instruction,
    /// For how many consecutive ticks it was held; always at least one.
    pub duration_ticks: u32,
}

impl RunLengthEntry {
    /// The duration is at least one tick and the instruction is inside its
    /// field ranges.
    pub open spec fn wf(self) -> bool {
        &&& self.duration_ticks >= 1
        &&& self.instruction.wf()
    }
}

/// The four big-endian bytes of a run duration.
pub open spec fn duration_bytes_of(d: int) -> Seq<u8> {
    seq![
        ((d / 0x1000000) % 256) as u8,
        ((d / 0x10000) % 256) as u8,
        ((d / 0x100) % 256) as u8,
        (d % 256) as u8,
    ]
}

/// The nine serialised bytes of one run: the packed instruction followed
/// by the big-endian duration.
pub open spec fn entry_bytes_of(e: RunLengthEntry) -> Seq<u8> {
    bytes_of(e.instruction) + duration_bytes_of(e.duration_ticks as int)
}

/// The serialised bytes of a recorded program: each run's bytes in order.
pub open spec fn program_bytes_of(s: Seq<RunLengthEntry>) -> Seq<u8>
    decreases s.len(),
{
    if s.len() == 0 {
        Seq::empty()
    } else {
        program_bytes_of(s.drop_last()) + entry_bytes_of(s.last())
    }
}

/// One observation step of the recorder's state machine, over its model: a
/// new instruction either opens a run, extends the current equal run by a
/// tick, or closes the current run into the program and opens a new one.
pub open spec fn observe_step(
    state: (Seq<RunLengthEntry>, Option<(Instruction, u32)>),
    inst: Instruction,
) -> (Seq<RunLengthEntry>, Option<(Instruction, u32)>) {
    match state.1 {
        None => (state.0, Some((inst, 1u32))),
        Some((current, held)) => {
            if current == inst {
                (state.0, Some((current, (held + 1) as u32)))
            } else {
                (
                    state.0.push(RunLengthEntry { instruction: current, duration_ticks: held }),
                    Some((inst, 1u32)),
                )
            }
        },
    }
}

/// The recorder state after observing a whole stream of instructions,
/// starting idle with an empty program.
pub open spec fn record_of(s: Seq<Instruction>) -> (Seq<RunLengthEntry>, Option<(Instruction, u32)>)
    decreases s.len(),
{
    if s.len() == 0 {
        (Seq::empty(), None)
    } else {
        observe_step(record_of(s.drop_last()), s.last())
    }
}

/// The run-length recorder: the program recorded so far, plus the run
/// currently being accumulated (idle when none is).
pub struct Recorder {
    program: Vec<RunLengthEntry>,
    current: Option<Instruction>,
    held_ticks: u32,
}

impl Recorder {
    /// The recorded runs are well formed and the pending run, when one is
    /// open, has a well-formed instruction held at least one tick; while
    /// idle the held count is zero.
    pub closed spec fn wf(self) -> bool {
        &&& forall|i: int| 0 <= i < self.program@.len() ==> #[trigger] self.program@[i].wf()
        &&& match self.current {
            Some(inst) => inst.wf() && self.held_ticks >= 1,
            None => self.held_ticks == 0,
        }
    }

    /// The runs already closed into the program.
    pub closed spec fn entries(self) -> Seq<RunLengthEntry> {
        self.program@
    }

    /// The run still being accumulated, if one is.
    pub closed spec fn pending(self) -> Option<(Instruction, u32)> {
        match self.current {
            Some(inst) => Some((inst, self.held_ticks)),
            None => None,
        }
    }

    /// A fresh, idle recorder with an empty program.
    pub fn new() -> (r: Recorder)
        ensures
            r.wf(),
            r.entries() == Seq::<RunLengthEntry>::empty(),
            r.pending() is None,
    {
        let r = Recorder { program: Vec::new(), current: None, held_ticks: 0 };
        proof {
            assert(r.entries() =~= Seq::<RunLengthEntry>::empty());
        }
        r
    }

    /// Consumes one tick's instruction. A run of value-equal instructions
    /// accumulates into a single pending entry; a differing instruction
    /// closes the pending run into the program and starts a new run of one
    /// tick.
    pub fn observe(&mut self, inst: Instruction)
        requires
            old(self).wf(),
            inst.wf(),
            match old(self).pending() {
                Some((_, held)) => held < u32::MAX,
                None => true,
            },
        ensures
            final(self).wf(),
            (final(self).entries(), final(self).pending()) == observe_step(
                (old(self).entries(), old(self).pending()),
                inst,
            ),
    {
        match self.current {
            None => {
                self.current = Some(inst);
                self.held_ticks = 1;
            },
            Some(current) => {
                if current == inst {
                    self.held_ticks = self.held_ticks + 1;
                } else {
                    self.program.push(
                        RunLengthEntry { instruction: current, duration_ticks: self.held_ticks },
                    );
                    self.current = Some(inst);
                    self.held_ticks = 1;
                }
            },
        }
    }

    /// Closes any pending run into the program, resets the recorder to
    /// idle, and returns the whole program serialised through the codec,
    /// ready to be written to storage.
    pub fn flush(&mut self) -> (bytes: Vec<u8>)
        requires
            old(self).wf(),
        ensures
            final(self).wf(),
            final(self).pending() is None,
            final(self).entries() == match old(self).pending() {
                Some((inst, held)) => old(self).entries().push(
                    RunLengthEntry { instruction: inst, duration_ticks: held },
                ),
                None => old(self).entries(),
            },
            bytes@ == program_bytes_of(final(self).entries()),
    {
        match self.current {
            Some(current) => {
                self.program.push(
                    RunLengthEntry { instruction: current, duration_ticks: self.held_ticks },
                );
                self.current = None;
                self.held_ticks = 0;
            },
            None => {},
        }
        serialize_program(&self.program)
    }

    /// Hands the recorded program over, consuming the recorder. Any still
    /// pending run is closed into the program first.
    pub fn into_program(self) -> (r: Vec<RunLengthEntry>)
        requires
            self.wf(),
        ensures
            forall|i: int| 0 <= i < r@.len() ==> #[trigger] r@[i].wf(),
            r@ == match self.pending() {
                Some((inst, held)) => self.entries().push(
                    RunLengthEntry { instruction: inst, duration_ticks: held },
                ),
                None => self.entries(),
            },
    {
        let Recorder { mut program, current, held_ticks } = self;
        match current {
            Some(inst) => {
                program.push(RunLengthEntry { instruction: inst, duration_ticks: held_ticks });
            },
            None => {},
        }
        program
    }
}

/// Serialises one run: its packed instruction followed by the four
/// big-endian duration bytes.
pub fn serialize_entry(entry: &RunLengthEntry) -> (bytes: Vec<u8>)
    requires
        entry.wf(),
    ensures
        bytes@ == entry_bytes_of(*entry),
{
    let packed = encode(&entry.instruction);
    let d = entry.duration_ticks as u64;
    let mut bytes: Vec<u8> = Vec::new();
    bytes.push(packed[0]);
    bytes.push(packed[1]);
    bytes.push(packed[2]);
    bytes.push(packed[3]);
    bytes.push(packed[4]);
    bytes.push((d / 0x1000000 % 256) as u8);
    bytes.push((d / 0x10000 % 256) as u8);
    bytes.push((d / 0x100 % 256) as u8);
    bytes.push((d % 256) as u8);
    proof {
        assert(bytes@ =~= entry_bytes_of(*entry));
    }
    bytes
}

/// Serialises a recorded program: each run's bytes in order.
pub fn serialize_program(entries: &Vec<RunLengthEntry>) -> (bytes: Vec<u8>)
    requires
        forall|i: int| 0 <= i < entries@.len() ==> #[trigger] entries@[i].wf(),
    ensures
        bytes@ == program_bytes_of(entries@),
{
    let mut bytes: Vec<u8> = Vec::new();
    let mut i: usize = 0;
    proof {
        assert(bytes@ =~= program_bytes_of(entries@.take(0)));
    }
    while i < entries.len()
        invariant
            i <= entries@.len(),
            forall|j: int| 0 <= j < entries@.len() ==> #[trigger] entries@[j].wf(),
            bytes@ == program_bytes_of(entries@.take(i as int)),
        decreases entries@.len() - i,
    {
        let mut chunk = serialize_entry(&entries[i]);
        bytes.append(&mut chunk);
        i = i + 1;
        proof {
            assert(entries@.take(i as int).drop_last() =~= entries@.take(i as int - 1));
            assert(entries@.take(i as int).last() == entries@[i as int - 1]);
        }
    }
    proof {
        assert(entries@.take(entries@.len() as int) =~= entries@);
    }
    bytes
}

/// Observing the same instruction for any number of consecutive ticks from
/// idle accumulates exactly one pending run of that duration, and closes
/// nothing into the program.
pub proof fn lemma_recorder_merges_identical(inst: Instruction, n: nat)
    requires
        1 <= n <= u32::MAX,
    ensures
        record_of(Seq::new(n, |i| inst)).0 == Seq::<RunLengthEntry>::empty(),
        record_of(Seq::new(n, |i| inst)).1 == Some((inst, n as u32)),
    decreases n,
{
    let s = Seq::new(n, |i: int| inst);
    assert(s.last() == inst);
    if n == 1 {
        assert(s.drop_last() =~= Seq::<Instruction>::empty());
        assert(record_of(s.drop_last()).0 == Seq::<RunLengthEntry>::empty()
            && record_of(s.drop_last()).1 is None);
    } else {
        lemma_recorder_merges_identical(inst, (n - 1) as nat);
        assert(s.drop_last() =~= Seq::new((n - 1) as nat, |i: int| inst));
        assert(record_of(s.drop_last()).0 == Seq::<RunLengthEntry>::empty()
            && record_of(s.drop_last()).1 == Some((inst, (n - 1) as u32)));
    }
    assert(record_of(s) == observe_step(record_of(s.drop_last()), inst));
}

/// A differing instruction on the tick after a run of identical ones
/// closes that run into the program as a single entry of exactly the run's
/// duration, and starts a new one-tick run.
pub proof fn lemma_recorder_splits_on_change(inst: Instruction, other: Instruction, n: nat)
    requires
        1 <= n <= u32::MAX,
        inst != other,
    ensures
        record_of(Seq::new(n, |i| inst).push(other)).0 == seq![
            RunLengthEntry { instruction: inst, duration_ticks: n as u32 },
        ],
        record_of(Seq::new(n, |i| inst).push(other)).1 == Some((other, 1u32)),
{
    let s = Seq::new(n, |i: int| inst);
    lemma_recorder_merges_identical(inst, n);
    assert(s.push(other).drop_last() =~= s);
    assert(record_of(s.push(other)).0 =~= seq![
        RunLengthEntry { instruction: inst, duration_ticks: n as u32 },
    ]);
}

/// Run-length compression is minimal: however the stream went, no two
/// adjacent recorded runs hold the same instruction, the run still being
/// accumulated differs from the last recorded one, and only an untouched
/// recorder has nothing accumulating.
pub proof fn lemma_recorder_minimal(s: Seq<Instruction>)
    ensures
        forall|i: int|
            1 <= i < record_of(s).0.len() ==> #[trigger] record_of(s).0[i].instruction
                != record_of(s).0[i - 1].instruction,
        match record_of(s).1 {
            Some((inst, _)) => record_of(s).0.len() == 0 || record_of(s).0.last().instruction
                != inst,
            None => record_of(s).0.len() == 0 && s.len() == 0,
        },
    decreases s.len(),
{
    if s.len() > 0 {
        lemma_recorder_minimal(s.drop_last());
        let prev = record_of(s.drop_last());
        assert(record_of(s) == observe_step(prev, s.last()));
        match prev.1 {
            Some((current, held)) => {
                if current != s.last() {
                    let grown = prev.0.push(RunLengthEntry {
                        instruction: current,
                        duration_ticks: held,
                    });
                    assert(forall|i: int|
                        1 <= i < grown.len() - 1 ==> #[trigger] grown[i].instruction
                            != grown[i - 1].instruction);
                    assert(grown.last().instruction == current);
                }
            },
            None => {},
        }
    }
}

} // verus!
