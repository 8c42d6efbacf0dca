use recbox::capture::collect_frames;

#[test]
fn blocks_are_paired_sample_by_sample() {
    let mut frames = Vec::new();
    collect_frames(&[1, 2, 3], &[-1, -2, -3], &mut frames);
    assert_eq!(frames, vec![(1, -1), (2, -2), (3, -3)]);
}

#[test]
fn buffer_is_replaced_not_extended() {
    let mut frames = vec![(9, 9); 5];
    collect_frames(&[1], &[2], &mut frames);
    assert_eq!(frames, vec![(1, 2)]);
    collect_frames(&[], &[], &mut frames);
    assert!(frames.is_empty());
}

#[test]
fn longer_block_is_cut_to_the_shorter() {
    let mut frames = Vec::new();
    collect_frames(&[1, 2, 3], &[7], &mut frames);
    assert_eq!(frames, vec![(1, 7)]);
    collect_frames(&[1], &[7, 8, 9], &mut frames);
    assert_eq!(frames, vec![(1, 7)]);
    collect_frames(&[], &[7, 8, 9], &mut frames);
    assert!(frames.is_empty());
}

#[test]
fn samples_are_narrowed_not_clamped() {
    let mut frames = Vec::new();
    collect_frames(&[32767, 32768, -32768, -32769], &[40000, 65536, 0, -65537], &mut frames);
    assert_eq!(frames, vec![(32767, -25536), (-32768, 0), (-32768, 0), (32767, -1)]);
}

#[test]
fn a_cycle_of_scaled_floats() {
    let left: [f32; 4] = [0.0, 0.5, 1.0, -1.0];
    let right: [f32; 4] = [-0.5, 0.25, -0.25, 1.5];
    let scale = |block: &[f32]| -> Vec<i64> {
        block.iter().map(|s| (s * 32767.0).trunc() as i64).collect()
    };
    let mut frames = Vec::new();
    collect_frames(&scale(&left), &scale(&right), &mut frames);
    assert_eq!(frames, vec![(0, -16383), (16383, 8191), (32767, -8191), (-32767, -16386)]);
}
