use live_subtitles::capture::{CaptureSetup, DeviceFormat};
use live_subtitles::pipeline::FramePipeline;
use rubato::{FftFixedIn, Resampler};
use std::cell::RefCell;

fn setup(source: u32, target: u32) -> CaptureSetup {
    let device = DeviceFormat { sample_rate: source, channels: 2, bits_per_sample: 32 };
    CaptureSetup::new(device, target)
}

fn ramp(from: i32, to: i32) -> Vec<i32> {
    (from..to).collect()
}

#[test]
fn equal_rates_send_chunks_of_1024() {
    let never = |_: Vec<i32>| -> Option<Vec<i32>> { panic!("nothing is to be converted") };
    let mut pipeline: FramePipeline<i32> = FramePipeline::new(&setup(16000, 16000), 0);
    assert!(pipeline.ingest(ramp(0, 1000), &never).is_empty());
    assert_eq!(pipeline.buffered_len(), 1000);
    let out = pipeline.ingest(ramp(1000, 2100), &never);
    assert_eq!(out, vec![ramp(0, 1024), ramp(1024, 2048)]);
    assert_eq!(pipeline.buffered_len(), 52);
}

#[test]
fn differing_rates_convert_chunks_of_2048() {
    let seen: RefCell<Vec<usize>> = RefCell::new(Vec::new());
    let third = |block: Vec<i32>| -> Option<Vec<i32>> {
        seen.borrow_mut().push(block.len());
        Some(block.into_iter().step_by(3).collect())
    };
    let mut pipeline: FramePipeline<i32> = FramePipeline::new(&setup(48000, 16000), 2048);
    assert!(pipeline.ingest(ramp(0, 2047), &third).is_empty());
    let out = pipeline.ingest(ramp(2047, 4100), &third);
    assert_eq!(*seen.borrow(), vec![2048, 2048]);
    assert_eq!(out.len(), 2);
    assert_eq!(out[0], (0..2048).step_by(3).collect::<Vec<i32>>());
    assert_eq!(out[1], (2048..4096).step_by(3).collect::<Vec<i32>>());
    assert_eq!(pipeline.buffered_len(), 4);
}

#[test]
fn converter_may_want_other_blocks_than_the_chunks() {
    let seen: RefCell<Vec<Vec<i32>>> = RefCell::new(Vec::new());
    let record = |block: Vec<i32>| -> Option<Vec<i32>> {
        seen.borrow_mut().push(block.clone());
        Some(vec![block[0]])
    };
    // chunks of 2048 in front of a converter that takes 3000 frames per call
    let mut pipeline: FramePipeline<i32> = FramePipeline::new(&setup(44100, 16000), 3000);
    let out = pipeline.ingest(ramp(0, 2048 * 3), &record);
    // chunk 1: 2048 pending; chunk 2: one block, 1096 pending; chunk 3: one block, 144 pending
    assert_eq!(out, vec![vec![0], vec![3000]]);
    assert_eq!(*seen.borrow(), vec![ramp(0, 3000), ramp(3000, 6000)]);
    assert_eq!(pipeline.buffered_len(), 0);
}

#[test]
fn rejected_chunk_is_not_sent_and_capture_goes_on() {
    let calls = RefCell::new(0);
    let every_other = |block: Vec<i32>| -> Option<Vec<i32>> {
        *calls.borrow_mut() += 1;
        if *calls.borrow() % 2 == 1 {
            None
        } else {
            Some(vec![block[0]])
        }
    };
    let mut pipeline: FramePipeline<i32> = FramePipeline::new(&setup(48000, 16000), 2048);
    let out = pipeline.ingest(ramp(0, 2048 * 4), &every_other);
    assert_eq!(out, vec![vec![2048], vec![3 * 2048]]);
}

#[test]
fn polls_of_any_size_give_the_same_chunks() {
    let double =
        |block: Vec<i32>| -> Option<Vec<i32>> { Some(block.iter().map(|s| s * 2).collect()) };
    let stream = ramp(0, 9000);
    let mut whole: FramePipeline<i32> = FramePipeline::new(&setup(48000, 16000), 2048);
    let at_once = whole.ingest(stream.clone(), &double);

    let mut pieces: FramePipeline<i32> = FramePipeline::new(&setup(48000, 16000), 2048);
    let mut piecewise: Vec<Vec<i32>> = Vec::new();
    let mut from = 0;
    for step in [480usize, 480, 441, 1, 2048, 4000, 1550] {
        piecewise.extend(pieces.ingest(stream[from..from + step].to_vec(), &double));
        from += step;
    }
    assert_eq!(from, 9000);
    assert_eq!(piecewise, at_once);
    assert_eq!(at_once.len(), 4);
    assert_eq!(pieces.buffered_len(), whole.buffered_len());
}

#[test]
fn real_resampler_behind_the_pipeline() {
    let resampler = RefCell::new(FftFixedIn::<f32>::new(48000, 16000, 2048, 2, 1).unwrap());
    let frames = resampler.borrow().input_frames_next();
    assert_eq!(frames, 2048);
    let convert = |block: Vec<f32>| -> Option<Vec<f32>> {
        resampler
            .borrow_mut()
            .process(&[block], None)
            .ok()
            .map(|converted| converted.into_iter().next().unwrap_or_default())
    };
    let mut pipeline: FramePipeline<f32> = FramePipeline::new(&setup(48000, 16000), frames);
    let mut sent: Vec<Vec<f32>> = Vec::new();
    for _ in 0..10 {
        sent.extend(pipeline.ingest(vec![0.5f32; 480], &convert));
    }
    // 4800 frames: two chunks of 2048, 704 frames buffered
    assert_eq!(sent.len(), 2);
    assert_eq!(pipeline.buffered_len(), 4800 - 2 * 2048);
    assert_eq!(sent[0].len(), 342);
    assert_eq!(sent[1].len(), 684);
}
