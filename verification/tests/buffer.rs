use live_subtitles::buffer::SampleBuffer;

fn ramp(from: i32, to: i32) -> Vec<i32> {
    (from..to).collect()
}

#[test]
fn feed_releases_nothing_below_one_block() {
    let mut buffer: SampleBuffer<i32> = SampleBuffer::new(4);
    assert!(buffer.feed(ramp(0, 3)).is_empty());
    assert_eq!(buffer.len(), 3);
    assert_eq!(buffer.block(), 4);
}

#[test]
fn feed_releases_whole_blocks_and_keeps_the_rest() {
    let mut buffer: SampleBuffer<i32> = SampleBuffer::new(4);
    let blocks = buffer.feed(ramp(0, 10));
    assert_eq!(blocks, vec![vec![0, 1, 2, 3], vec![4, 5, 6, 7]]);
    assert_eq!(buffer.len(), 2);
    let blocks = buffer.feed(ramp(10, 12));
    assert_eq!(blocks, vec![vec![8, 9, 10, 11]]);
    assert_eq!(buffer.len(), 0);
}

#[test]
fn feed_of_exactly_one_block_leaves_nothing() {
    let mut buffer: SampleBuffer<i32> = SampleBuffer::new(1024);
    let blocks = buffer.feed(ramp(0, 1024));
    assert_eq!(blocks.len(), 1);
    assert_eq!(blocks[0], ramp(0, 1024));
    assert_eq!(buffer.len(), 0);
}

#[test]
fn feed_of_nothing_changes_nothing() {
    let mut buffer: SampleBuffer<i32> = SampleBuffer::new(4);
    buffer.feed(ramp(0, 3));
    assert!(buffer.feed(Vec::new()).is_empty());
    assert_eq!(buffer.len(), 3);
}

#[test]
fn block_size_zero_releases_nothing() {
    let mut buffer: SampleBuffer<i32> = SampleBuffer::new(0);
    assert!(buffer.feed(ramp(0, 100)).is_empty());
    assert_eq!(buffer.len(), 100);
}

#[test]
fn chunk_boundaries_do_not_show_in_the_blocks() {
    let stream = ramp(0, 5000);
    let mut whole: SampleBuffer<i32> = SampleBuffer::new(2048);
    let at_once = whole.feed(stream.clone());

    let mut pieces: SampleBuffer<i32> = SampleBuffer::new(2048);
    let mut piecewise: Vec<Vec<i32>> = Vec::new();
    let cuts = [0usize, 1, 480, 481, 2047, 2048, 2049, 4095, 4097, 5000];
    for w in cuts.windows(2) {
        piecewise.extend(pieces.feed(stream[w[0]..w[1]].to_vec()));
    }
    assert_eq!(piecewise, at_once);
    assert_eq!(piecewise.len(), 2);
    assert_eq!(pieces.len(), whole.len());
    assert_eq!(pieces.len(), 5000 - 2 * 2048);
}

#[test]
fn blocks_and_remainder_make_up_the_stream() {
    let stream = ramp(0, 23);
    let mut buffer: SampleBuffer<i32> = SampleBuffer::new(5);
    let mut seen: Vec<i32> = buffer.feed(stream.clone()).into_iter().flatten().collect();
    assert_eq!(seen, ramp(0, 20));
    // the remainder comes out once the block is filled up
    seen.extend(buffer.feed(vec![23, 24]).into_iter().flatten());
    assert_eq!(seen, ramp(0, 25));
}
