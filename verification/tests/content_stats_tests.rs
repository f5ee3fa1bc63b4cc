use quest_makepad_camera_shell::content_stats::{
    compute_u8_plane_content_stats, texture_updated_label, TexturePlaneContentStats,
    TextureUpdateExtent,
};

#[test]
fn small_plane_is_read_in_full() {
    let data = vec![0u8, 10, 20, 30];
    let stats = compute_u8_plane_content_stats("VecRu8", 2, 2, Some(&data), 1, TextureUpdateExtent::Full);
    assert!(stats.readable && stats.data_present);
    assert_eq!(stats.sample_count, 4);
    assert_eq!((stats.min, stats.max), (0, 30));
    assert_eq!(stats.mean_x1000, 15_000);
    assert_eq!(stats.nonzero_samples, 3);
    assert_eq!(stats.len, 4);
    assert_eq!(stats.updated, "full");
}

#[test]
fn two_byte_samples_read_their_first_byte() {
    let data = vec![5u8, 200, 7, 200, 9];
    let stats = compute_u8_plane_content_stats("VecRGu8", 1, 2, Some(&data), 2, TextureUpdateExtent::Partial);
    assert_eq!(stats.sample_count, 2);
    assert_eq!((stats.min, stats.max), (5, 7));
    assert_eq!(stats.mean_x1000, 6_000);
    assert_eq!(stats.updated, "partial");
}

#[test]
fn large_plane_is_sampled_at_a_fixed_step() {
    let data: Vec<u8> = (0..10_000u32).map(|i| (i % 256) as u8).collect();
    let stats = compute_u8_plane_content_stats("VecRu8", 100, 100, Some(&data), 1, TextureUpdateExtent::Full);
    // 10000 samples give a step of 2: indices 0, 2, ..., 9998.
    assert_eq!(stats.sample_count, 5_000);
    assert_eq!(stats.min, 0);
    assert_eq!(stats.max, 254);
    let expected: u64 = (0..10_000u32).step_by(2).map(|i| (i % 256) as u64).sum();
    assert_eq!(stats.mean_x1000 as u64, expected * 1000 / 5_000);
}

#[test]
fn absent_or_short_data_gives_no_samples() {
    let none = compute_u8_plane_content_stats("VecRu8", 4, 4, None, 1, TextureUpdateExtent::Empty);
    assert!(!none.data_present);
    assert_eq!(none.sample_count, 0);
    assert_eq!(none.updated, "empty");
    let short = vec![1u8];
    let stats = compute_u8_plane_content_stats("VecRGu8", 4, 4, Some(&short), 2, TextureUpdateExtent::Full);
    assert!(stats.data_present);
    assert_eq!(stats.len, 1);
    assert_eq!(stats.sample_count, 0);
    let zero_width = compute_u8_plane_content_stats("VecRu8", 1, 1, Some(&short), 0, TextureUpdateExtent::Full);
    assert_eq!(zero_width.sample_count, 1);
}

#[test]
fn unreadable_plane_and_marker_fields() {
    let stats = TexturePlaneContentStats::unreadable("VideoExternal");
    assert_eq!(
        stats.marker_fields("left"),
        "leftFormat=VideoExternal leftReadable=false leftDataPresent=false leftWidth=0 leftHeight=0 leftLen=0 leftUpdated=n/a leftSampleCount=0 leftMin=0 leftMax=0 leftMeanX1000=0 leftNonZeroSamples=0"
    );
    assert_eq!(texture_updated_label(TextureUpdateExtent::Partial), "partial");
}
