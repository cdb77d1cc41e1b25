use blockmine::block::Block;
use blockmine::channel::{RecvTimeoutError, TryRecvError};
use blockmine::hashing::starts_with_zero_bits;
use blockmine::mining::{MiningTask, DEFAULT_CHUNK};
use blockmine::queue::{Task, WorkQueue, WorkerStep};
use blockmine::text::{digit, push_decimal, push_hex};
use std::sync::Arc;
use std::time::Duration;

fn hex(bytes: &[u8]) -> String {
    let mut s = String::new();
    push_hex(&mut s, bytes);
    s
}

fn leading_zero_bits(hash: &[u8; 32]) -> u32 {
    let mut n: u32 = 0;
    for i in 0..256usize {
        let bit = (hash[i / 8] >> (7 - (i % 8))) & 1;
        if bit != 0 {
            break;
        }
        n += 1;
    }
    n
}

// Runs the queue's workers in turn on the calling thread until one of them
// reports, where a pool of threads would run them side by side.
fn search(block: &Block, workers: usize, start: u64, end: u64, chunks: u64) -> Option<u64> {
    let (mut queue, pool) = WorkQueue::<MiningTask>::new(workers);
    block.enqueue_range(&mut queue, start, end, chunks);
    let n_chunks = if start < end { (end - start - 1) / chunks + 1 } else { 0 };
    let mut found: Option<u64> = None;
    for turn in 0..n_chunks {
        match pool[(turn % workers as u64) as usize].step() {
            WorkerStep::Reported => {
                found = queue.recv();
                break;
            }
            WorkerStep::Idle => {}
            WorkerStep::Exit => panic!("the queue is still open"),
            WorkerStep::OutputLost => panic!("the collector is still there"),
        }
    }
    assert!(queue.shutdown());
    for worker in pool.iter() {
        assert_eq!(worker.step(), WorkerStep::Exit);
    }
    found
}

fn mine(block: &mut Block, workers: usize) {
    assert!(block.difficulty <= 60);
    let end = block.default_range_end();
    let proof = search(block, workers, 0, end, DEFAULT_CHUNK).unwrap();
    block.set_proof(proof);
}

#[test]
fn hex_text_has_two_lower_case_digits_per_byte() {
    assert_eq!(hex(&[]), "");
    assert_eq!(hex(&[0x00, 0x0f, 0xa0, 0xff, 0x5c]), "000fa0ff5c");
    assert_eq!(digit(0), '0');
    assert_eq!(digit(9), '9');
    assert_eq!(digit(10), 'a');
    assert_eq!(digit(15), 'f');
}

#[test]
fn decimal_text_has_no_leading_zeros() {
    for (n, want) in [
        (0u64, "0"),
        (7, "7"),
        (10, "10"),
        (2345, "2345"),
        (1000000, "1000000"),
        (u64::MAX, "18446744073709551615"),
    ] {
        let mut s = String::from(">");
        push_decimal(&mut s, n);
        assert_eq!(s, format!(">{}", want));
    }
}

#[test]
fn initial_block_is_empty_and_unmined() {
    let b = Block::initial(8);
    assert_eq!(b.prev_hash, [0u8; 32]);
    assert_eq!(b.generation, 0);
    assert_eq!(b.difficulty, 8);
    assert_eq!(b.data, "");
    assert_eq!(b.proof, None);
    assert!(!b.is_valid());
}

#[test]
fn hash_string_joins_the_fields_with_colons() {
    let b = Block::initial(8);
    assert_eq!(
        b.hash_string_for_proof(0),
        "0000000000000000000000000000000000000000000000000000000000000000:0:8::0"
    );
    let mut b0 = Block::initial(8);
    b0.set_proof(21);
    assert_eq!(b0.hash_string(), b0.hash_string_for_proof(21));
    let mut b1 = Block::next(&b0, String::from("hello"));
    b1.set_proof(7);
    assert_eq!(
        b1.hash_string(),
        "00df9bdde591b8f0d72aeafd5adb7e1d382795d79a17cde0deba4b42ce6ea6fa:1:8:hello:7"
    );
}

#[test]
fn hash_is_the_sha256_of_the_hash_string() {
    let b = Block::initial(8);
    assert_eq!(
        hex(&b.hash_for_proof(0)),
        "3fee56d6536bc14c3ba43d11348f91d29e47b2e6a93460332cdba1262e09450a"
    );
    assert_eq!(
        hex(&b.hash_for_proof(21)),
        "00df9bdde591b8f0d72aeafd5adb7e1d382795d79a17cde0deba4b42ce6ea6fa"
    );
    let other = Block {
        prev_hash: [0u8; 32],
        generation: 3,
        difficulty: 20,
        data: String::from("h\u{e9}llo \u{2713}"),
        proof: Some(12345),
    };
    assert_eq!(
        other.hash_string(),
        "0000000000000000000000000000000000000000000000000000000000000000:3:20:h\u{e9}llo \u{2713}:12345"
    );
    assert_eq!(
        hex(&other.hash()),
        "e2c50f254086d272d14e16d884025662cfaf2ee4e53f69332323ef91cfc81d9c"
    );
}

#[test]
fn zero_bit_test_counts_from_the_first_byte() {
    let mut hash = [0u8; 32];
    assert!(starts_with_zero_bits(&hash, 0));
    assert!(starts_with_zero_bits(&hash, 255));
    hash[31] = 1;
    assert!(starts_with_zero_bits(&hash, 255));
    hash[1] = 0x10;
    assert!(starts_with_zero_bits(&hash, 8));
    assert!(starts_with_zero_bits(&hash, 11));
    assert!(!starts_with_zero_bits(&hash, 12));
    assert!(!starts_with_zero_bits(&hash, 16));
    hash[0] = 0x80;
    assert!(starts_with_zero_bits(&hash, 0));
    assert!(!starts_with_zero_bits(&hash, 1));
    hash[0] = 0x01;
    assert!(starts_with_zero_bits(&hash, 7));
    assert!(!starts_with_zero_bits(&hash, 8));
}

#[test]
fn validity_agrees_with_a_bit_by_bit_count() {
    for difficulty in [0u8, 1, 3, 7, 8, 9, 12, 255] {
        let b = Block::initial(difficulty);
        for p in 0..600u64 {
            let zeros = leading_zero_bits(&b.hash_for_proof(p));
            assert_eq!(b.is_valid_for_proof(p), zeros >= difficulty as u32);
        }
    }
}

#[test]
fn is_valid_needs_a_valid_proof() {
    let mut b = Block::initial(8);
    assert!(!b.is_valid());
    b.set_proof(20);
    assert!(!b.is_valid());
    b.set_proof(21);
    assert!(b.is_valid());
    assert!(b.is_valid_for_proof(21));
    assert!(!b.is_valid_for_proof(0));
}

#[test]
fn mine_serial_finds_the_least_valid_proof() {
    let mut b0 = Block::initial(8);
    b0.mine_serial();
    assert_eq!(b0.proof, Some(21));
    let mut b1 = Block::next(&b0, String::from("hello"));
    b1.mine_serial();
    assert_eq!(b1.proof, Some(7));
    assert_eq!(b1.generation, 1);
    assert_eq!(b1.data, "hello");
    let mut hard = Block::initial(12);
    hard.data = String::from("x");
    hard.mine_serial();
    assert_eq!(hard.proof, Some(4189));
}

#[test]
fn first_valid_proof_scans_a_range_in_order() {
    let mut b = Block::initial(8);
    b.data = String::from("hello");
    assert_eq!(b.first_valid_proof(0, 2048), Some(55));
    assert_eq!(b.first_valid_proof(0, 55), None);
    assert_eq!(b.first_valid_proof(55, 56), Some(55));
    assert_eq!(b.first_valid_proof(56, 1008), Some(741));
    assert_eq!(b.first_valid_proof(742, 1008), None);
    assert_eq!(b.first_valid_proof(100, 100), None);
    assert_eq!(b.first_valid_proof(100, 50), None);
}

#[test]
fn mining_task_reports_the_first_valid_proof_of_its_chunk() {
    let mut b = Block::initial(8);
    b.data = String::from("hello");
    let shared = Arc::new(b);
    assert_eq!(MiningTask::new(shared.clone(), 0, 2048).run(), Some(55));
    assert_eq!(MiningTask::new(shared.clone(), 56, 741).run(), None);
    assert_eq!(MiningTask::new(shared.clone(), 56, 742).run(), Some(741));
    assert_eq!(MiningTask::new(shared, 1000, 2048).run(), Some(1008));
}

#[test]
fn default_range_is_eight_times_two_to_the_difficulty() {
    assert_eq!(Block::initial(0).default_range_end(), 8);
    assert_eq!(Block::initial(8).default_range_end(), 2048);
    assert_eq!(Block::initial(20).default_range_end(), 8 << 20);
    assert_eq!(Block::initial(60).default_range_end(), 1 << 63);
    assert_eq!(DEFAULT_CHUNK, 2345);
}

#[test]
fn enqueue_range_cuts_the_range_into_chunks() {
    let mut b = Block::initial(8);
    b.data = String::from("hello");
    let (mut queue, pool) = WorkQueue::<MiningTask>::new(1);
    // [0, 300), [300, 600), [600, 900), [900, 1009): proofs 55, -, 741, 1008
    b.enqueue_range(&mut queue, 0, 1009, 300);
    assert_eq!(pool[0].step(), WorkerStep::Reported);
    assert_eq!(queue.try_recv(), Ok(55));
    assert_eq!(pool[0].step(), WorkerStep::Idle);
    assert_eq!(pool[0].step(), WorkerStep::Reported);
    assert_eq!(queue.try_recv(), Ok(741));
    assert_eq!(pool[0].step(), WorkerStep::Reported);
    assert_eq!(queue.try_recv(), Ok(1008));
    assert!(queue.shutdown());
    assert_eq!(pool[0].step(), WorkerStep::Exit);
}

#[test]
fn enqueue_range_handles_the_ends_of_the_number_range() {
    let b = Block::initial(255);
    let (mut queue, pool) = WorkQueue::<MiningTask>::new(1);
    b.enqueue_range(&mut queue, u64::MAX - 10, u64::MAX, 4);
    b.enqueue_range(&mut queue, 7, 7, 1);
    b.enqueue_range(&mut queue, 9, 3, 1);
    for _ in 0..3 {
        assert_eq!(pool[0].step(), WorkerStep::Idle);
    }
    assert!(queue.shutdown());
    assert_eq!(pool[0].step(), WorkerStep::Exit);
    b.enqueue_range(&mut queue, 0, 100, 10);
    assert_eq!(pool[0].step(), WorkerStep::Exit);
}

#[test]
fn chained_correctly() {
    let n_threads: usize = 2;

    let mut b0 = Block::initial(8);
    assert_eq!(b0.proof, None);
    mine(&mut b0, n_threads);
    assert_ne!(b0.proof, None);
    let mut b1 = Block::next(&b0, String::from("Assignment is so hard."));
    assert_eq!(b1.proof, None);
    assert_eq!(b1.prev_hash, b0.hash());
    mine(&mut b1, n_threads);
    assert_ne!(b1.proof, None);
    let mut b2 = Block::next(&b1, String::from("I don't know what I am doing"));
    assert_eq!(b2.proof, None);
    assert_eq!(b2.prev_hash, b1.hash());
    mine(&mut b2, n_threads);
    assert_ne!(b2.proof, None);
}

#[test]
fn chaining_holds_for_small_difficulties() {
    for difficulty in 0..=12u8 {
        let mut b0 = Block::initial(difficulty);
        b0.mine_serial();
        assert!(b0.is_valid());
        for data in ["", "hello", "a longer message: 1234"] {
            let b1 = Block::next(&b0, String::from(data));
            assert_eq!(b1.prev_hash, b0.hash());
            assert_eq!(b1.prev_hash, b0.hash_for_proof(b0.proof.unwrap()));
            assert_eq!(b1.generation, 1);
            assert_eq!(b1.difficulty, difficulty);
            assert_eq!(b1.data, data);
            assert_eq!(b1.proof, None);
        }
    }
}

#[test]
fn correct_proof() {
    let n_threads: usize = 2;
    let mut b0 = Block::initial(8);
    b0.mine_serial();
    let mut b1 = Block::next(&b0, String::from("My code doesn't work"));
    b1.mine_serial();
    let mut b2 = Block::next(&b1, String::from("I am super sad!"));
    b2.mine_serial();

    let correct_proof = b2.proof.unwrap();

    let mut b3 = Block::initial(8);
    mine(&mut b3, n_threads);
    let mut b4 = Block::next(&b3, String::from("My code doesn't work"));
    mine(&mut b4, n_threads);
    let mut b5 = Block::next(&b4, String::from("I am super sad!"));
    mine(&mut b5, n_threads);

    let my_proof = b5.proof.unwrap();

    assert_eq!(correct_proof, my_proof);
}

#[test]
fn concurrent_correctly() {
    let mut n_threads: usize = 2;
    let mut b0 = Block::initial(8);
    mine(&mut b0, n_threads);
    let mut b1 = Block::next(&b0, String::from("I tried to fix it."));
    mine(&mut b1, n_threads);
    let mut b2 = Block::next(&b1, String::from("But I failed."));
    mine(&mut b2, n_threads);

    let proof_with_2_worker = b2.proof.unwrap();

    n_threads = 4;

    let mut b3 = Block::initial(8);
    mine(&mut b3, n_threads);
    let mut b4 = Block::next(&b3, String::from("I tried to fix it."));
    mine(&mut b4, n_threads);
    let mut b5 = Block::next(&b4, String::from("But I failed."));
    mine(&mut b5, n_threads);

    let proof_with_4_worker = b5.proof.unwrap();

    assert_eq!(proof_with_2_worker, proof_with_4_worker);
}

#[test]
fn range_inbound() {
    let n_threads: usize = 2;

    let mut b0 = Block::initial(7);
    b0.mine_serial();
    let mut b1 = Block::next(&b0, String::from("why my code doesn't work?"));
    b1.mine_serial();
    let mut b2 = Block::next(&b1, String::from("why??"));
    b2.mine_serial();
    assert_eq!((b0.proof, b1.proof, b2.proof), (Some(53), Some(33), Some(42)));

    let start = 0;
    let end = b2.proof.unwrap() + 1;
    let chunk = (end - start) / 4;

    let proof = search(&b2, n_threads, start, end, chunk).unwrap();
    assert_eq!(proof, b2.proof.unwrap());
}

#[test]
fn a_range_below_the_least_proof_times_out() {
    let mut b2 = Block::initial(7);
    b2.data = String::from("why??");
    b2.mine_serial();
    let end = b2.proof.unwrap();
    assert!(end >= 4);
    let chunk = end / 4;

    let (mut queue, pool) = WorkQueue::<MiningTask>::new(2);
    b2.enqueue_range(&mut queue, 0, end, chunk);
    let mut rounds = 0;
    while rounds < 10 {
        assert_eq!(pool[rounds % 2].step(), WorkerStep::Idle);
        rounds += 1;
        if rounds as u64 * chunk >= end {
            break;
        }
    }
    assert_eq!(queue.try_recv(), Err(TryRecvError::Empty));
    assert_eq!(
        queue.recv_timeout(Duration::from_millis(50)),
        Err(RecvTimeoutError::Timeout)
    );
    assert!(queue.shutdown());
    assert_eq!(pool[0].step(), WorkerStep::Exit);
    assert_eq!(pool[1].step(), WorkerStep::Exit);
}

#[test]
fn chunked_search_agrees_with_serial_search() {
    let mut b = Block::initial(8);
    b.data = String::from("hello");
    b.mine_serial();
    let only = b.proof.unwrap();
    assert_eq!(only, 55);
    // [0, 56) holds exactly one valid proof
    for workers in [1usize, 2, 4, 8] {
        for chunk in [1u64, 5, 14, 56, 1000] {
            assert_eq!(search(&b, workers, 0, only + 1, chunk), Some(only));
        }
    }
}

#[test]
fn mining_hello_finds_the_least_proof_with_one_worker_and_with_four() {
    let mut serial = Block::initial(8);
    serial.data = String::from("hello");
    let end = serial.default_range_end();
    let least = serial.first_valid_proof(0, end).unwrap();
    assert_eq!(least, 55);
    for workers in [1usize, 4] {
        let mut b = Block::initial(8);
        b.data = String::from("hello");
        mine(&mut b, workers);
        let p = b.proof.unwrap();
        assert!(b.is_valid_for_proof(p));
        assert!(b.is_valid());
        for q in 0..p {
            assert!(!b.is_valid_for_proof(q));
        }
        assert_eq!(p, least);
    }
}

#[test]
fn block_clone_keeps_every_field() {
    let mut b = Block::initial(9);
    b.data = String::from("copy me");
    b.generation = 4;
    b.set_proof(77);
    let c = b.clone();
    assert_eq!(c.prev_hash, b.prev_hash);
    assert_eq!(c.generation, 4);
    assert_eq!(c.difficulty, 9);
    assert_eq!(c.data, "copy me");
    assert_eq!(c.proof, Some(77));
    assert_eq!(c.hash(), b.hash());
}
