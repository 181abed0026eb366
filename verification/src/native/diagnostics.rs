//! Test instrumentation of the native binding: one-shot failure modes aimed
//! at a single handle, and a tally of the bytes whole-object reads pulled
//! per operator.
use vstd::prelude::*;

verus! {

/// A one-shot mode aimed at the handle at `target` (`0` when none is armed).
#[derive(Clone, Copy, PartialEq, Eq, Structural, Debug)]
pub struct TestModeSlot {
    pub target: usize,
    pub mode: u8,
}

/// The armed modes of lister `next`, reader `read` and writer calls.
#[derive(Clone, Copy, PartialEq, Eq, Structural, Debug)]
pub struct TestModes {
    pub lister_next: TestModeSlot,
    pub reader_read: TestModeSlot,
    pub writer_call: TestModeSlot,
}

impl TestModes {
    /// No mode armed.
    pub fn new() -> (modes: TestModes)
        ensures
            modes.lister_next == (TestModeSlot { target: 0, mode: 0 }),
            modes.reader_read == (TestModeSlot { target: 0, mode: 0 }),
            modes.writer_call == (TestModeSlot { target: 0, mode: 0 }),
    {
        TestModes {
            lister_next: TestModeSlot { target: 0, mode: 0 },
            reader_read: TestModeSlot { target: 0, mode: 0 },
            writer_call: TestModeSlot { target: 0, mode: 0 },
        }
    }
}

/// Arms `mode` for the handle at `address`, replacing any armed mode.
pub fn install_test_mode(slot: &mut TestModeSlot, address: usize, mode: u8)
    ensures
        *final(slot) == (TestModeSlot { target: address, mode }),
{
    slot.mode = mode;
    slot.target = address;
}

/// Takes the armed mode if it is aimed at the handle at `address`, disarming
/// the slot; any other handle gets `0` and leaves the slot as it is.
pub fn take_test_mode(slot: &mut TestModeSlot, address: usize) -> (mode: u8)
    ensures
        old(slot).target == address ==> mode == old(slot).mode && *final(slot) == (TestModeSlot {
            target: 0,
            mode: 0,
        }),
        old(slot).target != address ==> mode == 0 && *final(slot) == *old(slot),
{
    if slot.target == address {
        slot.target = 0;
        let mode = slot.mode;
        slot.mode = 0;
        mode
    } else {
        0
    }
}

/// Arms a lister `next` mode for the lister at `lister`.
pub fn install_lister_next_test_mode(modes: &mut TestModes, lister: usize, mode: u8)
    ensures
        final(modes).lister_next == (TestModeSlot { target: lister, mode }),
        final(modes).reader_read == old(modes).reader_read,
        final(modes).writer_call == old(modes).writer_call,
{
    install_test_mode(&mut modes.lister_next, lister, mode);
}

/// Takes the lister `next` mode aimed at the lister at `lister`.
pub fn take_lister_next_test_mode(modes: &mut TestModes, lister: usize) -> (mode: u8)
    ensures
        old(modes).lister_next.target == lister ==> mode == old(modes).lister_next.mode
            && final(modes).lister_next == (TestModeSlot { target: 0, mode: 0 }),
        old(modes).lister_next.target != lister ==> mode == 0 && final(modes).lister_next == old(
            modes,
        ).lister_next,
        final(modes).reader_read == old(modes).reader_read,
        final(modes).writer_call == old(modes).writer_call,
{
    take_test_mode(&mut modes.lister_next, lister)
}

/// Arms a reader `read` mode for the reader at `reader`.
pub fn install_reader_read_test_mode(modes: &mut TestModes, reader: usize, mode: u8)
    ensures
        final(modes).reader_read == (TestModeSlot { target: reader, mode }),
        final(modes).lister_next == old(modes).lister_next,
        final(modes).writer_call == old(modes).writer_call,
{
    install_test_mode(&mut modes.reader_read, reader, mode);
}

/// Takes the reader `read` mode aimed at the reader at `reader`.
pub fn take_reader_read_test_mode(modes: &mut TestModes, reader: usize) -> (mode: u8)
    ensures
        old(modes).reader_read.target == reader ==> mode == old(modes).reader_read.mode
            && final(modes).reader_read == (TestModeSlot { target: 0, mode: 0 }),
        old(modes).reader_read.target != reader ==> mode == 0 && final(modes).reader_read == old(
            modes,
        ).reader_read,
        final(modes).lister_next == old(modes).lister_next,
        final(modes).writer_call == old(modes).writer_call,
{
    take_test_mode(&mut modes.reader_read, reader)
}

/// Arms a writer-call mode for the writer at `writer`.
pub fn install_writer_call_test_mode(modes: &mut TestModes, writer: usize, mode: u8)
    ensures
        final(modes).writer_call == (TestModeSlot { target: writer, mode }),
        final(modes).lister_next == old(modes).lister_next,
        final(modes).reader_read == old(modes).reader_read,
{
    install_test_mode(&mut modes.writer_call, writer, mode);
}

/// Takes the writer-call mode aimed at the writer at `writer`.
pub fn take_writer_call_test_mode(modes: &mut TestModes, writer: usize) -> (mode: u8)
    ensures
        old(modes).writer_call.target == writer ==> mode == old(modes).writer_call.mode
            && final(modes).writer_call == (TestModeSlot { target: 0, mode: 0 }),
        old(modes).writer_call.target != writer ==> mode == 0 && final(modes).writer_call == old(
            modes,
        ).writer_call,
        final(modes).lister_next == old(modes).lister_next,
        final(modes).reader_read == old(modes).reader_read,
{
    take_test_mode(&mut modes.writer_call, writer)
}

/// The bytes whole-object reads pulled, per observed operator address.
#[derive(Debug)]
pub struct WholeReadObservations {
    pub entries: Vec<(usize, u64)>,
}

/// The entries not about the operator at `address`, in order.
pub open spec fn without(entries: Seq<(usize, u64)>, address: usize) -> Seq<(usize, u64)>
    decreases entries.len(),
{
    if entries.len() == 0 {
        entries
    } else if entries.last().0 == address {
        without(entries.drop_last(), address)
    } else {
        without(entries.drop_last(), address).push(entries.last())
    }
}

/// The first position of an entry about the operator at `address`.
pub open spec fn first_index(entries: Seq<(usize, u64)>, address: usize) -> Option<int> {
    if exists|i: int| 0 <= i < entries.len() && #[trigger] entries[i].0 == address {
        Some(
            choose|i: int|
                0 <= i < entries.len() && #[trigger] entries[i].0 == address && forall|j: int|
                    0 <= j < i ==> entries[j].0 != address,
        )
    } else {
        None
    }
}

/// `a + b`, or `u64::MAX` when that overflows.
pub open spec fn saturating(a: u64, b: u64) -> u64 {
    if a + b > u64::MAX {
        u64::MAX
    } else {
        (a + b) as u64
    }
}

/// The position of the first entry about `address`, if any.
fn position(entries: &Vec<(usize, u64)>, address: usize) -> (found: Option<usize>)
    ensures
        match found {
            Some(i) => i < entries@.len() && entries@[i as int].0 == address && forall|j: int|
                0 <= j < i ==> entries@[j].0 != address,
            None => forall|j: int| 0 <= j < entries@.len() ==> entries@[j].0 != address,
        },
        found matches Some(i) ==> first_index(entries@, address) == Some(i as int),
        found is None ==> first_index(entries@, address) is None,
{
    let mut i: usize = 0;
    while i < entries.len()
        invariant
            i <= entries@.len(),
            forall|j: int| 0 <= j < i ==> entries@[j].0 != address,
        decreases entries@.len() - i,
    {
        if entries[i].0 == address {
            proof {
                let k = choose|k: int|
                    0 <= k < entries@.len() && #[trigger] entries@[k].0 == address && forall|j: int|
                        0 <= j < k ==> entries@[j].0 != address;
                assert(entries@[i as int].0 == address);
                if k < i {
                } else if k > i {
                    assert(entries@[i as int].0 != address);
                }
            }
            return Some(i);
        }
        i = i + 1;
    }
    None
}

/// Starts observing the operator at `operator`: any earlier tally of it is
/// dropped and a new one starts at zero.
pub fn install_whole_read_observer(observations: &mut WholeReadObservations, operator: usize)
    ensures
        final(observations).entries@ == without(old(observations).entries@, operator).push((operator, 0)),
{
    let mut kept: Vec<(usize, u64)> = Vec::new();
    let mut i: usize = 0;
    while i < observations.entries.len()
        invariant
            i <= observations.entries@.len(),
            observations.entries@ == old(observations).entries@,
            kept@ == without(observations.entries@.subrange(0, i as int), operator),
        decreases observations.entries@.len() - i,
    {
        let ghost prefix = observations.entries@.subrange(0, i as int + 1);
        assert(prefix.drop_last() == observations.entries@.subrange(0, i as int));
        let entry = observations.entries[i];
        if entry.0 != operator {
            kept.push(entry);
        }
        i = i + 1;
    }
    assert(observations.entries@.subrange(0, observations.entries@.len() as int) == observations.entries@);
    kept.push((operator, 0));
    observations.entries = kept;
}

/// Adds `length` bytes (saturating) to the first tally of the operator at
/// `operator`, if it is observed.
pub fn observe_whole_read_chunk(observations: &mut WholeReadObservations, operator: usize, length: u64)
    ensures
        match first_index(old(observations).entries@, operator) {
            Some(i) => final(observations).entries@ == old(observations).entries@.update(
                i,
                (operator, saturating(old(observations).entries@[i].1, length)),
            ),
            None => final(observations).entries@ == old(observations).entries@,
        },
{
    match position(&observations.entries, operator) {
        Some(i) => {
            let observed = observations.entries[i].1;
            let next = if observed > u64::MAX - length {
                u64::MAX
            } else {
                observed + length
            };
            observations.entries.set(i, (operator, next));
        },
        None => {},
    }
}

/// Takes the tally of the operator at `operator` (its first one), removing it;
/// `0` when it is not observed.
pub fn take_whole_read_observation(observations: &mut WholeReadObservations, operator: usize) -> (observed: u64)
    ensures
        match first_index(old(observations).entries@, operator) {
            Some(i) => observed == old(observations).entries@[i].1 && final(observations).entries@
                == old(observations).entries@.update(i, old(observations).entries@.last()).drop_last(),
            None => observed == 0 && final(observations).entries@ == old(observations).entries@,
        },
{
    match position(&observations.entries, operator) {
        Some(i) => observations.entries.swap_remove(i).1,
        None => 0,
    }
}

} // verus!
