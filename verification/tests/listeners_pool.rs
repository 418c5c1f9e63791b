use std::cell::Cell;
use std::rc::Rc;

use mmo::listeners::{Listener, Listeners};

struct Counter {
    started: Rc<Cell<u32>>,
}

impl Listener for Counter {
    fn listen(&mut self) -> Option<bool> {
        self.started.set(self.started.get() + 1);
        Some(true)
    }
}

fn counters(n: usize) -> (Listeners<Counter>, Vec<Rc<Cell<u32>>>) {
    let mut pool = Listeners::new();
    let mut cells = Vec::new();
    for _ in 0..n {
        let c = Rc::new(Cell::new(0));
        pool.add(Counter { started: Rc::clone(&c) });
        cells.push(c);
    }
    (pool, cells)
}

#[test]
fn new_pool_is_empty() {
    let pool: Listeners<Counter> = Listeners::new();
    assert_eq!(pool.len(), 0);
    let pool: Listeners<Counter> = Listeners::with_capacity(16);
    assert_eq!(pool.len(), 0);
}

#[test]
fn add_assigns_positions() {
    let mut pool = Listeners::new();
    assert_eq!(pool.add(Counter { started: Rc::new(Cell::new(0)) }), 0);
    assert_eq!(pool.add(Counter { started: Rc::new(Cell::new(0)) }), 1);
    assert_eq!(pool.len(), 2);
}

#[test]
fn start_listens_once_on_that_listener() {
    let (mut pool, cells) = counters(3);
    assert_eq!(pool.start(1), None);
    let counts: Vec<u32> = cells.iter().map(|c| c.get()).collect();
    assert_eq!(counts, vec![0, 1, 0]);
    assert_eq!(pool.len(), 3);
}

#[test]
fn start_out_of_range_does_nothing() {
    let (mut pool, cells) = counters(2);
    assert_eq!(pool.start(5), None);
    assert!(cells.iter().all(|c| c.get() == 0));
    assert_eq!(pool.len(), 2);
}

#[test]
fn start_all_listens_once_on_each() {
    let (mut pool, cells) = counters(4);
    pool.start_all();
    assert!(cells.iter().all(|c| c.get() == 1));
    assert_eq!(pool.len(), 4);
}

#[test]
fn start_all_matches_starting_each_index_in_turn() {
    let (mut a, cells_a) = counters(3);
    let (mut b, cells_b) = counters(3);
    a.start_all();
    for i in 0..b.len() {
        b.start(i);
    }
    let ca: Vec<u32> = cells_a.iter().map(|c| c.get()).collect();
    let cb: Vec<u32> = cells_b.iter().map(|c| c.get()).collect();
    assert_eq!(ca, cb);
    assert_eq!(ca, vec![1, 1, 1]);
}

#[test]
fn len_counts_additions() {
    let (pool, _) = counters(5);
    assert_eq!(pool.len(), 5);
    assert_eq!(pool.len(), 5);
}
