//! How a file is cut into parts.
//!
//! A file below [`CHUNK_SIZE`] goes to the store in one request. A larger
//! one is cut into parts of [`CHUNK_SIZE`] bytes, the last one possibly
//! shorter, numbered from 1 in file order.

use vstd::prelude::*;

verus! {

/// Size of every part but the last, and the smallest file that is uploaded
/// in parts: 5 MiB.
pub const CHUNK_SIZE: u64 = 5242880;

/// How many parts of one file may be in flight at the same time.
pub const MAX_CONCURRENT_TASKS: u64 = 16;

/// Largest number of parts of one upload. Part numbers are `i32`, and the
/// number after the last part must still be one.
pub const MAX_PARTS: u64 = 2147483646;

/// Largest file that can be cut into at most [`MAX_PARTS`] parts.
pub const MAX_FILE_SIZE: u64 = 11258999057940480;

/// How the bytes of one upload travel to the store.
#[derive(Debug, Clone, Copy, PartialEq, Eq, Structural)]
pub enum Strategy {
    /// One request carrying the whole object.
    SinglePut,
    /// A multipart session with one request per part.
    Multipart,
}

/// One part of a file: its number and its byte range.
#[derive(Debug, Clone, Copy, PartialEq, Eq, Structural)]
pub struct Chunk {
    pub part_number: i32,
    pub offset: u64,
    pub len: u64,
}

/// The strategy for a file of `size` bytes.
pub open spec fn spec_strategy(size: nat) -> Strategy {
    if size < CHUNK_SIZE {
        Strategy::SinglePut
    } else {
        Strategy::Multipart
    }
}

/// Number of parts of a file of `size` bytes: `size / CHUNK_SIZE`, rounded up.
pub open spec fn spec_part_count(size: nat) -> nat {
    ((size + CHUNK_SIZE - 1) / (CHUNK_SIZE as int)) as nat
}

/// Bytes covered by the first `k` parts of a file of `size` bytes.
pub open spec fn spec_prefix_bytes(size: nat, k: nat) -> nat {
    if k * CHUNK_SIZE <= size {
        k * (CHUNK_SIZE as nat)
    } else {
        size
    }
}

/// Length of part `number` of a file of `size` bytes; 0 where the file has
/// no such part.
pub open spec fn spec_part_len(size: nat, number: int) -> nat {
    if 1 <= number <= spec_part_count(size) {
        (spec_prefix_bytes(size, number as nat) - spec_prefix_bytes(size, (number - 1) as nat)) as nat
    } else {
        0
    }
}

/// Part `number` of a file of `size` bytes.
pub open spec fn spec_chunk(size: nat, number: int) -> Chunk {
    Chunk {
        part_number: number as i32,
        offset: ((number - 1) * CHUNK_SIZE) as u64,
        len: spec_part_len(size, number) as u64,
    }
}

/// All parts of a file of `size` bytes, in file order.
pub open spec fn spec_plan(size: nat) -> Seq<Chunk> {
    Seq::new(spec_part_count(size), |i: int| spec_chunk(size, i + 1))
}

/// Sum of the lengths of `chunks`.
pub open spec fn spec_total_len(chunks: Seq<Chunk>) -> nat
    decreases chunks.len(),
{
    if chunks.len() == 0 {
        0
    } else {
        spec_total_len(chunks.drop_last()) + chunks.last().len as nat
    }
}

/// Every part of a file is between 1 and [`CHUNK_SIZE`] bytes long, starts
/// where the part before it ends, and only the last part may be short.
pub proof fn lemma_part_len_bounds(size: nat, number: int)
    requires
        1 <= number <= spec_part_count(size),
    ensures
        1 <= spec_part_len(size, number) <= CHUNK_SIZE,
        number < spec_part_count(size) ==> spec_part_len(size, number) == CHUNK_SIZE,
        spec_prefix_bytes(size, (number - 1) as nat) == (number - 1) * CHUNK_SIZE,
        spec_prefix_bytes(size, number as nat) == spec_prefix_bytes(size, (number - 1) as nat)
            + spec_part_len(size, number),
        spec_prefix_bytes(size, number as nat) <= size,
{
}

/// The parts of a file cover it exactly: all of them together have the
/// file's size.
pub proof fn lemma_prefix_of_all_parts(size: nat)
    ensures
        spec_prefix_bytes(size, spec_part_count(size)) == size,
{
}

/// A file of at most [`MAX_FILE_SIZE`] bytes has at most [`MAX_PARTS`] parts.
pub proof fn lemma_part_count_bounded(size: nat)
    requires
        size <= MAX_FILE_SIZE,
    ensures
        spec_part_count(size) <= MAX_PARTS,
        size >= CHUNK_SIZE ==> spec_part_count(size) >= 1,
        size < CHUNK_SIZE ==> spec_part_count(size) <= 1,
{
}

proof fn lemma_total_len_prefix(size: nat, k: nat)
    requires
        size <= MAX_FILE_SIZE,
        k <= spec_part_count(size),
    ensures
        spec_total_len(spec_plan(size).take(k as int)) == spec_prefix_bytes(size, k),
    decreases k,
{
    let plan = spec_plan(size);
    if k > 0 {
        lemma_total_len_prefix(size, (k - 1) as nat);
        lemma_part_len_bounds(size, k as int);
        assert(plan.take(k as int).drop_last() =~= plan.take(k - 1));
        assert(plan.take(k as int).last() == spec_chunk(size, k as int));
    }
}

/// The plan of a file has `ceil(size / CHUNK_SIZE)` parts, numbered from 1
/// without gaps, each starting where the one before it ends, and their
/// lengths add up to the file's size.
pub proof fn lemma_plan_covers_file(size: nat)
    requires
        size <= MAX_FILE_SIZE,
    ensures
        spec_plan(size).len() == spec_part_count(size),
        forall|i: int|
            0 <= i < spec_plan(size).len() ==> (#[trigger] spec_plan(size)[i]).part_number == i
                + 1,
        forall|i: int|
            0 <= i < spec_plan(size).len() ==> (#[trigger] spec_plan(size)[i]).offset == i
                * CHUNK_SIZE,
        forall|i: int|
            0 <= i < spec_plan(size).len() ==> 1 <= (#[trigger] spec_plan(size)[i]).len
                <= CHUNK_SIZE,
        forall|i: int|
            0 <= i < spec_plan(size).len() - 1 ==> (#[trigger] spec_plan(size)[i]).len
                == CHUNK_SIZE,
        spec_total_len(spec_plan(size)) == size,
{
    let plan = spec_plan(size);
    lemma_part_count_bounded(size);
    assert forall|i: int| 0 <= i < plan.len() implies (#[trigger] plan[i]).part_number == i + 1
        && plan[i].offset == i * CHUNK_SIZE && 1 <= plan[i].len <= CHUNK_SIZE && (i < plan.len()
        - 1 ==> plan[i].len == CHUNK_SIZE) by {
        lemma_part_len_bounds(size, i + 1);
    }
    lemma_total_len_prefix(size, spec_part_count(size));
    lemma_prefix_of_all_parts(size);
    assert(plan.take(plan.len() as int) =~= plan);
}

/// Decides between one request and a multipart session.
pub fn choose_strategy(size: u64) -> (strategy: Strategy)
    ensures
        strategy == spec_strategy(size as nat),
        (strategy == Strategy::SinglePut) <==> size < CHUNK_SIZE,
{
    if size < CHUNK_SIZE {
        Strategy::SinglePut
    } else {
        Strategy::Multipart
    }
}

/// Number of parts of a file of `size` bytes.
pub fn part_count(size: u64) -> (count: u64)
    ensures
        count == spec_part_count(size as nat),
{
    let full: u64 = size / CHUNK_SIZE;
    if size % CHUNK_SIZE == 0 {
        full
    } else {
        full + 1
    }
}

/// Part `number` of a file of `size` bytes, or `None` where the file has no
/// such part.
pub fn chunk_at(size: u64, number: i32) -> (chunk: Option<Chunk>)
    requires
        size <= MAX_FILE_SIZE,
    ensures
        chunk is Some <==> 1 <= number <= spec_part_count(size as nat),
        chunk is Some ==> chunk->0 == spec_chunk(size as nat, number as int),
{
    let count: u64 = part_count(size);
    proof {
        lemma_part_count_bounded(size as nat);
    }
    if number < 1 || number as u64 > count {
        return None;
    }
    proof {
        lemma_part_len_bounds(size as nat, number as int);
    }
    let offset: u64 = (number as u64 - 1) * CHUNK_SIZE;
    let rest: u64 = size - offset;
    let len: u64 = if rest > CHUNK_SIZE {
        CHUNK_SIZE
    } else {
        rest
    };
    Some(Chunk { part_number: number, offset, len })
}

/// All parts of a file of `size` bytes, in file order.
pub fn chunk_plan(size: u64) -> (plan: Vec<Chunk>)
    requires
        size <= MAX_FILE_SIZE,
    ensures
        plan@ == spec_plan(size as nat),
{
    let count: u64 = part_count(size);
    let mut plan: Vec<Chunk> = Vec::new();
    let mut offset: u64 = 0;
    let mut number: u64 = 0;
    proof {
        lemma_part_count_bounded(size as nat);
    }
    while number < count
        invariant
            size <= MAX_FILE_SIZE,
            count == spec_part_count(size as nat),
            count <= MAX_PARTS,
            number <= count,
            offset == spec_prefix_bytes(size as nat, number as nat),
            plan@.len() == number,
            forall|i: int| 0 <= i < number ==> plan@[i] == spec_chunk(size as nat, i + 1),
        decreases count - number,
    {
        proof {
            lemma_part_len_bounds(size as nat, number + 1);
        }
        let rest: u64 = size - offset;
        let len: u64 = if rest > CHUNK_SIZE {
            CHUNK_SIZE
        } else {
            rest
        };
        number = number + 1;
        plan.push(Chunk { part_number: number as i32, offset, len });
        offset = offset + len;
    }
    assert(plan@ =~= spec_plan(size as nat));
    plan
}

} // verus!
