//! Tests of the seven-bag randomizer.

use tetris_core::bag::Bag;
use tetris_core::piece::{Tetramino, template};
use tetris_core::rgb::Rgb;

/// Which catalog entry a piece came from, identified by its color.
fn template_index(p: &Tetramino) -> usize {
    for t in 0..7 {
        if p.color == template(t).color {
            return t;
        }
    }
    panic!("piece color matches no catalog entry");
}

#[test]
fn every_run_of_seven_pops_holds_each_template_once() {
    let mut bag = Bag::new();
    for _run in 0..6 {
        let mut counts = [0usize; 7];
        for _ in 0..7 {
            let p = bag.pop();
            counts[template_index(&p)] += 1;
        }
        assert_eq!(counts, [1, 1, 1, 1, 1, 1, 1]);
    }
}

#[test]
fn pop_always_returns_a_catalog_piece() {
    let mut bag = Bag::new();
    for _ in 0..30 {
        let p = bag.pop();
        let t = template_index(&p);
        assert!(t < 7);
    }
}

#[test]
fn preview_shows_the_next_three_pops_in_order() {
    let mut bag = Bag::new();
    for _ in 0..10 {
        let nexts = bag.next_tetraminos();
        assert_eq!(nexts.len(), 3);
        let previewed: Vec<Rgb> = nexts.iter().map(|p| p.color).collect();
        let popped: Vec<Rgb> = (0..3).map(|_| bag.pop().color).collect();
        assert_eq!(previewed, popped);
    }
}

#[test]
fn earlier_entries_stay_ahead_of_a_refill() {
    // After five pops two pieces of the first batch remain; the refill
    // before the sixth pop must append behind them, not displace them.
    let mut bag = Bag::new();
    let mut seen = Vec::new();
    for _ in 0..5 {
        seen.push(bag.pop().color);
    }
    let upcoming = bag.next_tetraminos();
    let sixth = bag.pop();
    let seventh = bag.pop();
    assert_eq!(upcoming[0].color, sixth.color);
    assert_eq!(upcoming[1].color, seventh.color);
    seen.push(sixth.color);
    seen.push(seventh.color);
    let mut counts = [0usize; 7];
    for c in &seen {
        for t in 0..7 {
            if *c == template(t).color {
                counts[t] += 1;
            }
        }
    }
    assert_eq!(counts, [1, 1, 1, 1, 1, 1, 1]);
}
