//! The human-editable authoring format for autonomous routines.
//!
//! A routine is a list of statements, each `<op> <+|-><value>;`, separated
//! by whitespace, for example `a +90; t +6000; c +5;`. Each statement
//! either sets one field of the instruction being authored or emits it:
//!
//! | op  | meaning                                                      |
//! |-----|--------------------------------------------------------------|
//! | `a` | target angle in degrees, `-180..=180`                        |
//! | `p` | target position in millimetres, `-256..=255`                 |
//! | `t` | thrust in millivolts, `-12000..=12000`                       |
//! | `b` | belt: zero off, positive runs upward, negative downward      |
//! | `s` | solenoid: zero releases, anything else engages               |
//! | `c` | emit the authored instruction for this many ticks (at least 1) |
//!
//! Fields persist between emissions, so a routine only states what
//! changes. Unknown mnemonics, malformed statements and out-of-range
//! values are load-time errors; parsing never panics.

use vstd::prelude::*;

verus! {

use crate::codec::Instruction;
use crate::recorder::RunLengthEntry;

/// Why a routine failed to load.
#[derive(Clone, Copy, Debug, PartialEq, Eq, Structural)]
pub enum AuthorError {
    /// A statement names an op that does not exist.
    UnknownMnemonic,
    /// A statement is malformed: a missing sign, digits or terminator, or
    /// a stray character.
    Syntax,
    /// A value lies outside its op's range.
    OutOfRange,
}

/// Whitespace between statements and between an op and its value.
pub open spec fn is_ws(c: u8) -> bool {
    c == 32 || c == 9 || c == 10 || c == 13
}

/// A lowercase mnemonic letter.
pub open spec fn is_letter(c: u8) -> bool {
    97 <= c <= 122
}

/// A decimal digit.
pub open spec fn is_digit(c: u8) -> bool {
    48 <= c <= 57
}

/// Where the parser stands inside the text.
pub enum AuthorMode {
    /// Between statements, expecting whitespace or an op.
    Between,
    /// Inside an op mnemonic.
    Op(Seq<u8>),
    /// After an op, expecting its value's sign.
    SignWait(Seq<u8>),
    /// Inside a value: the op, the sign, the magnitude so far, and whether
    /// any digit was read yet.
    Num(Seq<u8>, bool, int, bool),
}

/// The parser's whole state: where it stands, the instruction being
/// authored, and the runs emitted so far.
pub struct AuthorSt {
    /// Where the parser stands.
    pub mode: AuthorMode,
    /// The instruction being authored.
    pub pending: Instruction,
    /// The runs emitted so far.
    pub done: Seq<RunLengthEntry>,
}

/// A fresh parser: between statements, authoring the idle instruction.
pub open spec fn author_init() -> AuthorSt {
    AuthorSt {
        mode: AuthorMode::Between,
        pending: Instruction {
            target_angle: 0,
            target_position: 0,
            belt_active: false,
            belt_direction: false,
            solenoid_active: false,
            thrust: 0,
        },
        done: Seq::empty(),
    }
}

/// One statement applied to the state: the op either sets a field of the
/// pending instruction, checking its range, or emits the pending
/// instruction for a positive number of ticks.
pub open spec fn apply_op_of(st: AuthorSt, op: Seq<u8>, v: int) -> Result<AuthorSt, AuthorError> {
    if op =~= seq![97u8] {  // a
        if -180 <= v <= 180 {
            Ok(AuthorSt { pending: Instruction { target_angle: v as i16, ..st.pending }, mode: AuthorMode::Between, ..st })
        } else {
            Err(AuthorError::OutOfRange)
        }
    } else if op =~= seq![112u8] {  // p
        if -256 <= v <= 255 {
            Ok(AuthorSt { pending: Instruction { target_position: v as i16, ..st.pending }, mode: AuthorMode::Between, ..st })
        } else {
            Err(AuthorError::OutOfRange)
        }
    } else if op =~= seq![116u8] {  // t
        if -12000 <= v <= 12000 {
            Ok(AuthorSt { pending: Instruction { thrust: v as i16, ..st.pending }, mode: AuthorMode::Between, ..st })
        } else {
            Err(AuthorError::OutOfRange)
        }
    } else if op =~= seq![98u8] {  // b
        Ok(AuthorSt {
            pending: Instruction { belt_active: v != 0, belt_direction: v > 0, ..st.pending },
            mode: AuthorMode::Between,
            ..st
        })
    } else if op =~= seq![115u8] {  // s
        Ok(AuthorSt { pending: Instruction { solenoid_active: v != 0, ..st.pending }, mode: AuthorMode::Between, ..st })
    } else if op =~= seq![99u8] {  // c
        if v >= 1 {
            Ok(AuthorSt {
                done: st.done.push(RunLengthEntry { instruction: st.pending, duration_ticks: v as u32 }),
                mode: AuthorMode::Between,
                ..st
            })
        } else {
            Err(AuthorError::OutOfRange)
        }
    } else {
        Err(AuthorError::UnknownMnemonic)
    }
}

/// One character of input advanced through the parser.
pub open spec fn author_step(r: Result<AuthorSt, AuthorError>, c: u8) -> Result<
    AuthorSt,
    AuthorError,
> {
    match r {
        Err(e) => Err(e),
        Ok(st) => match st.mode {
            AuthorMode::Between => {
                if is_ws(c) {
                    Ok(st)
                } else if is_letter(c) {
                    Ok(AuthorSt { mode: AuthorMode::Op(seq![c]), ..st })
                } else {
                    Err(AuthorError::Syntax)
                }
            },
            AuthorMode::Op(op) => {
                if is_letter(c) {
                    Ok(AuthorSt { mode: AuthorMode::Op(op.push(c)), ..st })
                } else if is_ws(c) {
                    Ok(AuthorSt { mode: AuthorMode::SignWait(op), ..st })
                } else if c == 43 || c == 45 {
                    Ok(AuthorSt { mode: AuthorMode::Num(op, c == 45, 0, false), ..st })
                } else {
                    Err(AuthorError::Syntax)
                }
            },
            AuthorMode::SignWait(op) => {
                if is_ws(c) {
                    Ok(AuthorSt { mode: AuthorMode::SignWait(op), ..st })
                } else if c == 43 || c == 45 {
                    Ok(AuthorSt { mode: AuthorMode::Num(op, c == 45, 0, false), ..st })
                } else {
                    Err(AuthorError::Syntax)
                }
            },
            AuthorMode::Num(op, neg, mag, seen) => {
                if is_digit(c) {
                    if mag * 10 + (c - 48) > 4294967295 {
                        Err(AuthorError::OutOfRange)
                    } else {
                        Ok(AuthorSt { mode: AuthorMode::Num(op, neg, mag * 10 + (c - 48), true), ..st })
                    }
                } else if c == 59 && seen {  // ;
                    apply_op_of(st, op, if neg { -mag } else { mag })
                } else {
                    Err(AuthorError::Syntax)
                }
            },
        },
    }
}

/// The parser run over a whole text, character by character.
pub open spec fn author_run(b: Seq<u8>) -> Result<AuthorSt, AuthorError>
    decreases b.len(),
{
    if b.len() == 0 {
        Ok(author_init())
    } else {
        author_step(author_run(b.drop_last()), b.last())
    }
}

/// The routine a text holds: the runs emitted by a full run of the parser
/// that ends between statements. A text that ends inside a statement is
/// malformed.
pub open spec fn parse_author_of(b: Seq<u8>) -> Result<Seq<RunLengthEntry>, AuthorError> {
    match author_run(b) {
        Err(e) => Err(e),
        Ok(st) => match st.mode {
            AuthorMode::Between => Ok(st.done),
            _ => Err(AuthorError::Syntax),
        },
    }
}

/// Where the executable parser stands, mirroring `AuthorMode` without its
/// accumulated data.
enum Mode {
    Between,
    Op,
    SignWait,
    Num,
}

/// The parser state the executable locals stand for.
spec fn st_of(
    mode: Mode,
    op: Seq<u8>,
    neg: bool,
    mag: int,
    seen: bool,
    pending: Instruction,
    done: Seq<RunLengthEntry>,
) -> AuthorSt {
    AuthorSt {
        mode: match mode {
            Mode::Between => AuthorMode::Between,
            Mode::Op => AuthorMode::Op(op),
            Mode::SignWait => AuthorMode::SignWait(op),
            Mode::Num => AuthorMode::Num(op, neg, mag, seen),
        },
        pending,
        done,
    }
}

/// Once the parser has failed, the rest of the text changes nothing.
proof fn lemma_author_run_err(b: Seq<u8>, i: int)
    requires
        0 <= i <= b.len(),
        author_run(b.take(i)) is Err,
    ensures
        author_run(b) == author_run(b.take(i)),
    decreases b.len() - i,
{
    if i < b.len() {
        assert(b.take(i + 1).drop_last() =~= b.take(i));
        assert(b.take(i + 1).last() == b[i]);
        lemma_author_run_err(b, i + 1);
    } else {
        assert(b.take(i) =~= b);
    }
}

/// Parses an authored routine into a recorded program, one character at a
/// time. The result is ready for the player; a malformed text gives the
/// load-time error instead.
pub fn parse_author(bytes: &[u8]) -> (r: Result<Vec<RunLengthEntry>, AuthorError>)
    ensures
        match r {
            Ok(entries) => {
                &&& parse_author_of(bytes@) == Ok::<Seq<RunLengthEntry>, AuthorError>(entries@)
                &&& forall|j: int| 0 <= j < entries@.len() ==> #[trigger] entries@[j].wf()
            },
            Err(e) => parse_author_of(bytes@) == Err::<Seq<RunLengthEntry>, AuthorError>(e),
        },
{
    let mut mode = Mode::Between;
    let mut op: Vec<u8> = Vec::new();
    let mut neg: bool = false;
    let mut mag: u64 = 0;
    let mut seen: bool = false;
    let mut pending = Instruction::idle();
    let mut done: Vec<RunLengthEntry> = Vec::new();
    let mut i: usize = 0;
    proof {
        assert(bytes@.take(0) =~= Seq::<u8>::empty());
        assert(st_of(mode, op@, neg, mag as int, seen, pending, done@) == author_init());
    }
    while i < bytes.len()
        invariant
            i <= bytes@.len(),
            author_run(bytes@.take(i as int)) == Ok::<AuthorSt, AuthorError>(
                st_of(mode, op@, neg, mag as int, seen, pending, done@),
            ),
            mag <= 4294967295,
            pending.wf(),
            forall|j: int| 0 <= j < done@.len() ==> #[trigger] done@[j].wf(),
        decreases bytes@.len() - i,
    {
        let c = bytes[i];
        let ghost before = st_of(mode, op@, neg, mag as int, seen, pending, done@);
        proof {
            assert(bytes@.take(i as int + 1).drop_last() =~= bytes@.take(i as int));
            assert(bytes@.take(i as int + 1).last() == bytes@[i as int]);
        }
        match mode {
            Mode::Between => {
                if c == 32 || c == 9 || c == 10 || c == 13 {
                    // stay between statements
                } else if 97 <= c && c <= 122 {
                    op = Vec::new();
                    op.push(c);
                    mode = Mode::Op;
                    proof {
                        assert(op@ =~= seq![c]);
                    }
                } else {
                    proof {
                        lemma_author_run_err(bytes@, i as int + 1);
                    }
                    return Err(AuthorError::Syntax);
                }
            },
            Mode::Op => {
                if 97 <= c && c <= 122 {
                    op.push(c);
                } else if c == 32 || c == 9 || c == 10 || c == 13 {
                    mode = Mode::SignWait;
                } else if c == 43 || c == 45 {
                    mode = Mode::Num;
                    neg = c == 45;
                    mag = 0;
                    seen = false;
                } else {
                    proof {
                        lemma_author_run_err(bytes@, i as int + 1);
                    }
                    return Err(AuthorError::Syntax);
                }
            },
            Mode::SignWait => {
                if c == 32 || c == 9 || c == 10 || c == 13 {
                    // keep waiting for the sign
                } else if c == 43 || c == 45 {
                    mode = Mode::Num;
                    neg = c == 45;
                    mag = 0;
                    seen = false;
                } else {
                    proof {
                        lemma_author_run_err(bytes@, i as int + 1);
                    }
                    return Err(AuthorError::Syntax);
                }
            },
            Mode::Num => {
                if 48 <= c && c <= 57 {
                    let grown = mag * 10 + (c - 48) as u64;
                    if grown > 4294967295 {
                        proof {
                            lemma_author_run_err(bytes@, i as int + 1);
                        }
                        return Err(AuthorError::OutOfRange);
                    }
                    mag = grown;
                    seen = true;
                } else if c == 59 && seen {
                    let v: i64 = if neg {
                        -(mag as i64)
                    } else {
                        mag as i64
                    };
                    if op.len() == 1 && op[0] == 97 {
                        if -180 <= v && v <= 180 {
                            pending.target_angle = v as i16;
                            mode = Mode::Between;
                        } else {
                            proof {
                                lemma_author_run_err(bytes@, i as int + 1);
                            }
                            return Err(AuthorError::OutOfRange);
                        }
                    } else if op.len() == 1 && op[0] == 112 {
                        if -256 <= v && v <= 255 {
                            pending.target_position = v as i16;
                            mode = Mode::Between;
                        } else {
                            proof {
                                lemma_author_run_err(bytes@, i as int + 1);
                            }
                            return Err(AuthorError::OutOfRange);
                        }
                    } else if op.len() == 1 && op[0] == 116 {
                        if -12000 <= v && v <= 12000 {
                            pending.thrust = v as i16;
                            mode = Mode::Between;
                        } else {
                            proof {
                                lemma_author_run_err(bytes@, i as int + 1);
                            }
                            return Err(AuthorError::OutOfRange);
                        }
                    } else if op.len() == 1 && op[0] == 98 {
                        pending.belt_active = v != 0;
                        pending.belt_direction = v > 0;
                        mode = Mode::Between;
                    } else if op.len() == 1 && op[0] == 115 {
                        pending.solenoid_active = v != 0;
                        mode = Mode::Between;
                    } else if op.len() == 1 && op[0] == 99 {
                        if v >= 1 {
                            done.push(
                                RunLengthEntry { instruction: pending, duration_ticks: v as u32 },
                            );
                            mode = Mode::Between;
                        } else {
                            proof {
                                lemma_author_run_err(bytes@, i as int + 1);
                            }
                            return Err(AuthorError::OutOfRange);
                        }
                    } else {
                        proof {
                            assert(!(op@ =~= seq![97u8]));
                            assert(!(op@ =~= seq![112u8]));
                            assert(!(op@ =~= seq![116u8]));
                            assert(!(op@ =~= seq![98u8]));
                            assert(!(op@ =~= seq![115u8]));
                            assert(!(op@ =~= seq![99u8]));
                            lemma_author_run_err(bytes@, i as int + 1);
                        }
                        return Err(AuthorError::UnknownMnemonic);
                    }
                } else {
                    proof {
                        lemma_author_run_err(bytes@, i as int + 1);
                    }
                    return Err(AuthorError::Syntax);
                }
            },
        }
        i = i + 1;
        proof {
            assert(author_run(bytes@.take(i as int)) == author_step(Ok(before), c));
        }
    }
    proof {
        assert(bytes@.take(i as int) =~= bytes@);
    }
    match mode {
        Mode::Between => Ok(done),
        _ => Err(AuthorError::Syntax),
    }
}

} // verus!
