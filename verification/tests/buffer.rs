use stellar_engine::rendering::buffer::{
    grown_capacity, nearest_4, BufferUsage, GpuBuffer, BUFFER_GROW, INITIAL_INDEX_BUFFER_SIZE,
    INITIAL_VERTEX_BUFFER_SIZE,
};
use stellar_engine::rendering::RenderError;

#[test]
fn nearest_4_rounds_up_to_a_multiple_of_four() {
    assert_eq!(nearest_4(0), 0);
    assert_eq!(nearest_4(1), 4);
    assert_eq!(nearest_4(2), 4);
    assert_eq!(nearest_4(3), 4);
    assert_eq!(nearest_4(4), 4);
    assert_eq!(nearest_4(5), 8);
    assert_eq!(nearest_4(6), 8);
    assert_eq!(nearest_4(60), 60);
    assert_eq!(nearest_4(usize::MAX - 3), usize::MAX - 3);
    assert_eq!(nearest_4(usize::MAX - 4), usize::MAX - 3);
}

#[test]
fn grown_capacity_doubles_until_it_suffices() {
    assert_eq!(BUFFER_GROW, 2);
    assert_eq!(grown_capacity(640, 0), Some(640));
    assert_eq!(grown_capacity(640, 640), Some(640));
    assert_eq!(grown_capacity(640, 641), Some(1280));
    assert_eq!(grown_capacity(640, 1280), Some(1280));
    assert_eq!(grown_capacity(640, 1281), Some(2560));
    assert_eq!(grown_capacity(64, 1_000_000), Some(1_048_576));
    assert_eq!(grown_capacity(1, 3), Some(4));
}

#[test]
fn grown_capacity_of_nothing_stays_nothing() {
    assert_eq!(grown_capacity(0, 0), Some(0));
    assert_eq!(grown_capacity(0, 10), Some(0));
}

#[test]
fn grown_capacity_that_cannot_be_written_down_is_none() {
    assert_eq!(grown_capacity(3, usize::MAX), None);
    assert_eq!(grown_capacity(usize::MAX / 2 + 1, usize::MAX), None);
    assert_eq!(grown_capacity(1, usize::MAX / 2 + 1), Some(usize::MAX / 2 + 1));
    assert_eq!(grown_capacity(1, usize::MAX / 2 + 2), None);
}

#[test]
fn new_buffers_are_zeroed_and_of_their_initial_capacity() {
    let vertex = GpuBuffer::new(BufferUsage::Vertex).unwrap();
    assert_eq!(INITIAL_VERTEX_BUFFER_SIZE, 20 * 32);
    assert_eq!(vertex.capacity(), 640);
    assert_eq!(vertex.usage(), BufferUsage::Vertex);
    assert_eq!(vertex.contents(), &vec![0u8; 640]);
    let index = GpuBuffer::new(BufferUsage::Index).unwrap();
    assert_eq!(INITIAL_INDEX_BUFFER_SIZE, 2 * 32);
    assert_eq!(index.capacity(), 64);
    assert_eq!(index.usage(), BufferUsage::Index);
    assert_eq!(index.contents(), &vec![0u8; 64]);
}

#[test]
fn with_storage_takes_the_bytes_it_is_given() {
    let buffer = GpuBuffer::with_storage(BufferUsage::Index, Some(vec![9, 8, 7, 6])).unwrap();
    assert_eq!(buffer.capacity(), 4);
    assert_eq!(buffer.usage(), BufferUsage::Index);
    assert_eq!(buffer.contents(), &vec![9, 8, 7, 6]);
}

#[test]
fn with_storage_refuses_what_cannot_hold_a_buffer() {
    assert_eq!(
        GpuBuffer::with_storage(BufferUsage::Vertex, None).err(),
        Some(RenderError::BufferGrowthFailure)
    );
    assert_eq!(
        GpuBuffer::with_storage(BufferUsage::Vertex, Some(vec![])).err(),
        Some(RenderError::BufferGrowthFailure)
    );
    assert_eq!(
        GpuBuffer::with_storage(BufferUsage::Vertex, Some(vec![1, 2, 3])).err(),
        Some(RenderError::BufferGrowthFailure)
    );
    assert_eq!(
        GpuBuffer::with_storage(BufferUsage::Vertex, Some(vec![0; 6])).err(),
        Some(RenderError::BufferGrowthFailure)
    );
}

#[test]
fn ensure_capacity_leaves_a_large_enough_buffer_alone() {
    let mut buffer = GpuBuffer::new(BufferUsage::Vertex).unwrap();
    assert_eq!(buffer.upload(&vec![5u8; 10]), Some(12));
    let before = buffer.contents().clone();
    assert_eq!(buffer.ensure_capacity(0), Ok(false));
    assert_eq!(buffer.ensure_capacity(639), Ok(false));
    assert_eq!(buffer.ensure_capacity(640), Ok(false));
    assert_eq!(buffer.capacity(), 640);
    assert_eq!(buffer.contents(), &before);
}

#[test]
fn ensure_capacity_doubles_a_buffer_that_is_too_small() {
    let mut buffer = GpuBuffer::new(BufferUsage::Vertex).unwrap();
    assert_eq!(buffer.upload(&vec![5u8; 10]), Some(12));
    assert_eq!(buffer.ensure_capacity(641), Ok(true));
    assert_eq!(buffer.capacity(), 1280);
    assert_eq!(buffer.usage(), BufferUsage::Vertex);
    assert_eq!(buffer.contents(), &vec![0u8; 1280]);
}

#[test]
fn ensure_capacity_doubles_more_than_once_where_once_is_not_enough() {
    let mut buffer = GpuBuffer::new(BufferUsage::Index).unwrap();
    assert_eq!(buffer.ensure_capacity(1000), Ok(true));
    assert_eq!(buffer.capacity(), 1024);
    assert_eq!(buffer.ensure_capacity(1024), Ok(false));
    assert_eq!(buffer.ensure_capacity(1025), Ok(true));
    assert_eq!(buffer.capacity(), 2048);
}

#[test]
fn ensure_capacity_never_shrinks() {
    let mut buffer = GpuBuffer::new(BufferUsage::Index).unwrap();
    let mut last = buffer.capacity();
    for required in [100usize, 10, 5000, 64, 0, 5001, 20000, 1] {
        buffer.ensure_capacity(required).unwrap();
        assert!(buffer.capacity() >= last);
        assert!(buffer.capacity() >= required);
        last = buffer.capacity();
    }
    assert_eq!(last, 32768);
}

#[test]
fn ensure_capacity_reports_growth_that_cannot_be() {
    let mut buffer = GpuBuffer::with_storage(BufferUsage::Vertex, Some(vec![1, 2, 3, 4])).unwrap();
    assert_eq!(buffer.ensure_capacity(usize::MAX), Err(RenderError::BufferGrowthFailure));
    assert_eq!(buffer.capacity(), 4);
    assert_eq!(buffer.contents(), &vec![1, 2, 3, 4]);
}

#[test]
fn grown_makes_the_larger_buffer_and_keeps_this_one() {
    let mut buffer = GpuBuffer::new(BufferUsage::Index).unwrap();
    buffer.upload(&vec![7u8; 8]);
    assert!(buffer.grown(64).unwrap().is_none());
    let larger = buffer.grown(65).unwrap().unwrap();
    assert_eq!(larger.capacity(), 128);
    assert_eq!(larger.usage(), BufferUsage::Index);
    assert_eq!(larger.contents(), &vec![0u8; 128]);
    assert_eq!(buffer.capacity(), 64);
    assert_eq!(buffer.read(8), Some(vec![7u8; 8]));
    assert_eq!(buffer.grown(usize::MAX).err(), Some(RenderError::BufferGrowthFailure));
}

#[test]
fn upload_then_read_gives_the_bytes_back() {
    let mut buffer = GpuBuffer::new(BufferUsage::Vertex).unwrap();
    let bytes: Vec<u8> = (0..60u8).map(|i| i.wrapping_mul(37).wrapping_add(1)).collect();
    assert_eq!(buffer.upload(&bytes), Some(60));
    assert_eq!(buffer.read(60), Some(bytes.clone()));
    assert_eq!(&buffer.contents()[..60], &bytes[..]);
    assert_eq!(buffer.capacity(), 640);
}

#[test]
fn upload_pads_with_zeros_to_a_multiple_of_four() {
    let mut buffer = GpuBuffer::with_storage(BufferUsage::Index, Some(vec![0xAA; 12])).unwrap();
    assert_eq!(buffer.upload(&vec![1, 2, 3, 4, 5, 6]), Some(8));
    assert_eq!(buffer.contents(), &vec![1, 2, 3, 4, 5, 6, 0, 0, 0xAA, 0xAA, 0xAA, 0xAA]);
    assert_eq!(buffer.read(6), Some(vec![1, 2, 3, 4, 5, 6]));
}

#[test]
fn upload_overwrites_from_the_start() {
    let mut buffer = GpuBuffer::with_storage(BufferUsage::Vertex, Some(vec![0; 8])).unwrap();
    assert_eq!(buffer.upload(&vec![1, 2, 3, 4, 5, 6, 7, 8]), Some(8));
    assert_eq!(buffer.upload(&vec![9, 9, 9]), Some(4));
    assert_eq!(buffer.contents(), &vec![9, 9, 9, 0, 5, 6, 7, 8]);
}

#[test]
fn upload_of_nothing_writes_nothing() {
    let mut buffer = GpuBuffer::with_storage(BufferUsage::Vertex, Some(vec![3; 8])).unwrap();
    assert_eq!(buffer.upload(&vec![]), Some(0));
    assert_eq!(buffer.contents(), &vec![3; 8]);
    assert_eq!(buffer.read(0), Some(vec![]));
}

#[test]
fn upload_fills_a_buffer_to_the_brim() {
    let mut buffer = GpuBuffer::with_storage(BufferUsage::Vertex, Some(vec![0; 8])).unwrap();
    assert_eq!(buffer.upload(&vec![1, 2, 3, 4, 5, 6, 7]), Some(8));
    assert_eq!(buffer.contents(), &vec![1, 2, 3, 4, 5, 6, 7, 0]);
}

#[test]
fn upload_of_too_many_bytes_changes_nothing() {
    let mut buffer = GpuBuffer::with_storage(BufferUsage::Vertex, Some(vec![3; 8])).unwrap();
    assert_eq!(buffer.upload(&vec![1; 9]), None);
    assert_eq!(buffer.contents(), &vec![3; 8]);
}

#[test]
fn read_beyond_the_buffer_gives_nothing() {
    let buffer = GpuBuffer::with_storage(BufferUsage::Vertex, Some(vec![3; 8])).unwrap();
    assert_eq!(buffer.read(8), Some(vec![3; 8]));
    assert_eq!(buffer.read(9), None);
}
