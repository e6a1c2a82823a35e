use andean_condor::chunk_order::{encoding_order, order_chunks, random_order};
use andean_condor::settings::ChunkOrdering;

fn frames() -> Vec<usize> {
    vec![30, 120, 45, 120, 10]
}

#[test]
fn longest_chunks_first() {
    let f = frames();
    let order = order_chunks(&f, ChunkOrdering::LongestFirst, &Vec::new());
    let lengths: Vec<usize> = order.iter().map(|&i| f[i]).collect();
    assert_eq!(lengths, vec![120, 120, 45, 30, 10]);
    assert_eq!(order[2..], [2, 0, 4]);
    let mut sorted = order.clone();
    sorted.sort();
    assert_eq!(sorted, vec![0, 1, 2, 3, 4]);
}

#[test]
fn shortest_chunks_first() {
    let f = frames();
    let order = order_chunks(&f, ChunkOrdering::ShortestFirst, &Vec::new());
    let lengths: Vec<usize> = order.iter().map(|&i| f[i]).collect();
    assert_eq!(lengths, vec![10, 30, 45, 120, 120]);
    assert_eq!(order[..3], [4, 0, 2]);
}

#[test]
fn sequential_chunks_keep_video_order() {
    let f = frames();
    assert_eq!(order_chunks(&f, ChunkOrdering::Sequential, &Vec::new()), vec![0, 1, 2, 3, 4]);
    assert_eq!(order_chunks(&Vec::new(), ChunkOrdering::Sequential, &Vec::new()), Vec::<usize>::new());
}

#[test]
fn random_order_is_the_drawn_one() {
    let f = frames();
    let drawn = vec![3, 0, 4, 1, 2];
    assert_eq!(order_chunks(&f, ChunkOrdering::Random, &drawn), drawn);
}

#[test]
fn random_order_names_every_chunk_once() {
    let mut r = random_order(50);
    r.sort();
    assert_eq!(r, (0..50).collect::<Vec<usize>>());
    let mut e = encoding_order(&frames(), ChunkOrdering::Random);
    e.sort();
    assert_eq!(e, vec![0, 1, 2, 3, 4]);
}

#[test]
fn encoding_order_sorts_without_drawing() {
    let f = frames();
    let order = encoding_order(&f, ChunkOrdering::LongestFirst);
    let lengths: Vec<usize> = order.iter().map(|&i| f[i]).collect();
    assert_eq!(lengths, vec![120, 120, 45, 30, 10]);
    assert_eq!(encoding_order(&f, ChunkOrdering::Sequential), vec![0, 1, 2, 3, 4]);
}
