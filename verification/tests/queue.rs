use redengine::queue::{queue_python_instruction, InstructionQueue};

#[test]
fn new_queue_is_empty() {
    let mut queue: InstructionQueue<u32> = InstructionQueue::new();
    assert!(queue.is_empty());
    assert_eq!(queue.len(), 0);
    assert_eq!(queue.drain_one(), None);
    assert!(queue.is_empty());
}

#[test]
fn drains_return_instructions_in_enqueue_order() {
    let mut queue: InstructionQueue<u32> = InstructionQueue::new();
    for i in 0u32..5 {
        queue.enqueue(i);
    }
    assert_eq!(queue.len(), 5);
    for i in 0u32..5 {
        assert_eq!(queue.drain_one(), Some(i));
    }
    assert_eq!(queue.drain_one(), None);
}

#[test]
fn interleaved_producers_keep_one_order_and_their_own() {
    // (producer, sequence number), in the order in which the lock was taken
    let calls: Vec<(u8, u32)> = vec![(1, 0), (2, 0), (2, 1), (1, 1), (3, 0), (1, 2), (2, 2), (3, 1)];
    let mut queue: InstructionQueue<(u8, u32)> = InstructionQueue::new();
    let mut drained: Vec<(u8, u32)> = Vec::new();
    for (at, call) in calls.iter().enumerate() {
        queue.enqueue(*call);
        if at % 3 == 2 {
            drained.push(queue.drain_one().unwrap());
        }
    }
    while let Some(instruction) = queue.drain_one() {
        drained.push(instruction);
    }
    assert_eq!(drained, calls);
    for producer in 1u8..4 {
        let own: Vec<u32> =
            drained.iter().filter(|(from, _)| *from == producer).map(|(_, n)| *n).collect();
        let mut sorted = own.clone();
        sorted.sort();
        assert_eq!(own, sorted);
    }
}

#[test]
fn each_instruction_is_drained_once() {
    let mut queue: InstructionQueue<&str> = InstructionQueue::new();
    queue.enqueue("a");
    assert_eq!(queue.drain_one(), Some("a"));
    assert_eq!(queue.drain_one(), None);
    queue.enqueue("b");
    queue.enqueue("c");
    assert_eq!(queue.drain_one(), Some("b"));
    queue.enqueue("d");
    assert_eq!(queue.drain_one(), Some("c"));
    assert_eq!(queue.drain_one(), Some("d"));
    assert_eq!(queue.drain_one(), None);
}

#[test]
fn discard_all_drops_what_is_pending() {
    let mut queue: InstructionQueue<u32> = InstructionQueue::new();
    assert_eq!(queue.discard_all(), 0);
    queue.enqueue(1);
    queue.enqueue(2);
    queue.enqueue(3);
    assert_eq!(queue.discard_all(), 3);
    assert!(queue.is_empty());
    assert_eq!(queue.drain_one(), None);
}

#[test]
fn queue_python_instruction_appends_to_the_tail() {
    let mut queue: InstructionQueue<u32> = InstructionQueue::new();
    queue.enqueue(1);
    queue_python_instruction(&mut queue, 2);
    assert_eq!(queue.len(), 2);
    assert_eq!(queue.drain_one(), Some(1));
    assert_eq!(queue.drain_one(), Some(2));
}

#[test]
fn queue_holds_closures() {
    let mut queue: InstructionQueue<Box<dyn Fn(u32) -> u32>> = InstructionQueue::new();
    queue_python_instruction(&mut queue, Box::new(|x| x + 1));
    queue_python_instruction(&mut queue, Box::new(|x| x * 10));
    let first = queue.drain_one().unwrap();
    let second = queue.drain_one().unwrap();
    assert_eq!(first(4), 5);
    assert_eq!(second(4), 40);
    assert!(queue.drain_one().is_none());
}

#[test]
fn discard_first_drops_from_the_head() {
    let mut queue: InstructionQueue<u32> = InstructionQueue::new();
    for i in 1u32..=5 {
        queue.enqueue(i);
    }
    queue.discard_first(0);
    assert_eq!(queue.len(), 5);
    queue.discard_first(2);
    assert_eq!(queue.len(), 3);
    assert_eq!(queue.drain_one(), Some(3));
    queue.discard_first(2);
    assert!(queue.is_empty());
    queue.enqueue(6);
    queue.discard_first(10);
    assert!(queue.is_empty());
    queue.discard_first(1);
    assert!(queue.is_empty());
}
