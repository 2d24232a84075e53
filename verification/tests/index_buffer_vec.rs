use gpu_buffer_vec::IndexBufferVec;
use gpu_buffer_vec::ModelBackend;
use gpu_buffer_vec::UsageHint;

#[test]
fn test_index_new_has_zero_capacity() {
    let indices: IndexBufferVec<ModelBackend<u16>, u16> =
        IndexBufferVec::new(ModelBackend::new(), UsageHint::StaticDraw);
    assert_eq!(indices.capacity(), 0);
}

#[test]
fn test_index_with_capacity_reports_capacity() {
    let indices: IndexBufferVec<ModelBackend<u32>, u32> =
        IndexBufferVec::with_capacity(ModelBackend::new(), UsageHint::StaticDraw, 10);
    assert_eq!(indices.capacity(), 10);
}

#[test]
fn test_index_update_grows_and_sets_view_length() {
    let mut indices: IndexBufferVec<ModelBackend<u16>, u16> =
        IndexBufferVec::new(ModelBackend::new(), UsageHint::StaticDraw);
    indices.update(&vec![1, 2, 3]);
    assert_eq!(indices.capacity(), 4);
    assert_eq!(indices.as_buffer_view().len(), 3);
}

#[test]
fn test_index_growth_trace_for_increasing_sizes() {
    let mut indices: IndexBufferVec<ModelBackend<u32>, u32> =
        IndexBufferVec::new(ModelBackend::new(), UsageHint::DynamicDraw);
    let mut capacities = Vec::new();
    for size in 1..=5u32 {
        let data: Vec<u32> = (0..size).collect();
        indices.update(&data);
        capacities.push(indices.capacity());
    }
    assert_eq!(capacities, vec![2, 2, 4, 4, 8]);
}

#[test]
fn test_index_update_overwrites_backend_contents() {
    let mut indices: IndexBufferVec<ModelBackend<u16>, u16> =
        IndexBufferVec::new(ModelBackend::new(), UsageHint::StreamDraw);
    indices.update(&vec![0, 1, 2, 0, 2, 3]);
    assert_eq!(indices.backend().data(), &vec![0, 1, 2, 0, 2, 3]);
    indices.update(&vec![5, 6]);
    assert_eq!(indices.backend().data(), &vec![5, 6]);
    assert_eq!(indices.capacity(), 8);
}
