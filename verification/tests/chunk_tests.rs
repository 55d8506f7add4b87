use r2_uploader::chunk::{
    choose_strategy, chunk_at, chunk_plan, part_count, Chunk, Strategy, CHUNK_SIZE,
    MAX_CONCURRENT_TASKS, MAX_FILE_SIZE, MAX_PARTS,
};

const MIB: u64 = 1024 * 1024;

#[test]
fn constants_have_their_values() {
    assert_eq!(CHUNK_SIZE, 5 * MIB);
    assert_eq!(MAX_CONCURRENT_TASKS, 16);
    assert_eq!(MAX_PARTS, i32::MAX as u64 - 1);
    assert_eq!(MAX_FILE_SIZE, MAX_PARTS * CHUNK_SIZE);
}

#[test]
fn strategy_switches_at_the_chunk_size() {
    assert_eq!(choose_strategy(0), Strategy::SinglePut);
    assert_eq!(choose_strategy(1), Strategy::SinglePut);
    assert_eq!(choose_strategy(CHUNK_SIZE - 1), Strategy::SinglePut);
    assert_eq!(choose_strategy(CHUNK_SIZE), Strategy::Multipart);
    assert_eq!(choose_strategy(CHUNK_SIZE + 1), Strategy::Multipart);
    assert_eq!(choose_strategy(u64::MAX), Strategy::Multipart);
}

#[test]
fn part_count_rounds_up() {
    assert_eq!(part_count(0), 0);
    assert_eq!(part_count(1), 1);
    assert_eq!(part_count(CHUNK_SIZE), 1);
    assert_eq!(part_count(CHUNK_SIZE + 1), 2);
    assert_eq!(part_count(12 * MIB), 3);
    assert_eq!(part_count(15 * MIB), 3);
    assert_eq!(part_count(MAX_FILE_SIZE), MAX_PARTS);
    assert_eq!(part_count(u64::MAX), u64::MAX / CHUNK_SIZE + 1);
}

#[test]
fn twelve_mebibytes_make_three_parts() {
    let plan = chunk_plan(12 * MIB);
    assert_eq!(
        plan,
        vec![
            Chunk { part_number: 1, offset: 0, len: 5 * MIB },
            Chunk { part_number: 2, offset: 5 * MIB, len: 5 * MIB },
            Chunk { part_number: 3, offset: 10 * MIB, len: 2 * MIB },
        ]
    );
}

#[test]
fn plan_of_an_exact_multiple_has_no_short_part() {
    let plan = chunk_plan(10 * MIB);
    assert_eq!(
        plan,
        vec![
            Chunk { part_number: 1, offset: 0, len: 5 * MIB },
            Chunk { part_number: 2, offset: 5 * MIB, len: 5 * MIB },
        ]
    );
}

#[test]
fn plan_of_an_empty_file_is_empty() {
    assert_eq!(chunk_plan(0), vec![]);
}

#[test]
fn plan_of_one_byte_more_than_a_chunk() {
    let plan = chunk_plan(CHUNK_SIZE + 1);
    assert_eq!(plan.len(), 2);
    assert_eq!(plan[1], Chunk { part_number: 2, offset: CHUNK_SIZE, len: 1 });
}

#[test]
fn plan_covers_the_file_without_gaps() {
    for size in [1u64, CHUNK_SIZE - 1, CHUNK_SIZE, 7 * MIB, 33 * MIB + 17, 100 * MIB] {
        let plan = chunk_plan(size);
        assert_eq!(plan.len() as u64, part_count(size));
        let mut next: u64 = 0;
        for (i, chunk) in plan.iter().enumerate() {
            assert_eq!(chunk.part_number, i as i32 + 1);
            assert_eq!(chunk.offset, next);
            assert!(chunk.len >= 1 && chunk.len <= CHUNK_SIZE);
            if i + 1 < plan.len() {
                assert_eq!(chunk.len, CHUNK_SIZE);
            }
            next += chunk.len;
        }
        assert_eq!(next, size);
    }
}

#[test]
fn chunk_at_agrees_with_the_plan() {
    let size = 12 * MIB;
    let plan = chunk_plan(size);
    assert_eq!(chunk_at(size, 0), None);
    assert_eq!(chunk_at(size, -1), None);
    assert_eq!(chunk_at(size, 1), Some(plan[0]));
    assert_eq!(chunk_at(size, 2), Some(plan[1]));
    assert_eq!(chunk_at(size, 3), Some(plan[2]));
    assert_eq!(chunk_at(size, 4), None);
    assert_eq!(chunk_at(0, 1), None);
}

#[test]
fn chunk_at_the_largest_file() {
    let last = chunk_at(MAX_FILE_SIZE, MAX_PARTS as i32).unwrap();
    assert_eq!(last.part_number, 2147483646);
    assert_eq!(last.offset, MAX_FILE_SIZE - CHUNK_SIZE);
    assert_eq!(last.len, CHUNK_SIZE);
    assert_eq!(chunk_at(MAX_FILE_SIZE, i32::MAX), None);
}
