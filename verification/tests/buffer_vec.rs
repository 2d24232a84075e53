use gpu_buffer_vec::BufferVec;
use gpu_buffer_vec::ModelBackend;
use gpu_buffer_vec::UsageHint;
use gpu_buffer_vec::capacity::new_capacity_amortized;

#[test]
fn test_new_has_zero_capacity() {
    let vec: BufferVec<ModelBackend<u32>, u32> =
        BufferVec::new(ModelBackend::new(), UsageHint::StaticDraw);
    assert_eq!(vec.capacity(), 0);
}

#[test]
fn test_with_capacity_reports_capacity() {
    let vec: BufferVec<ModelBackend<u32>, u32> =
        BufferVec::with_capacity(ModelBackend::new(), UsageHint::StaticDraw, 10);
    assert_eq!(vec.capacity(), 10);
}

#[test]
fn test_update_within_capacity_does_not_reallocate() {
    let mut vec: BufferVec<ModelBackend<u32>, u32> =
        BufferVec::with_capacity(ModelBackend::new(), UsageHint::StaticDraw, 10);
    let reallocated = vec.update(&vec![1, 2, 3]);
    assert!(!reallocated);
    assert_eq!(vec.capacity(), 10);
    assert_eq!(vec.as_buffer_view().len(), 3);
}

#[test]
fn test_update_twice_with_identical_data_is_idempotent() {
    let mut vec: BufferVec<ModelBackend<u32>, u32> =
        BufferVec::new(ModelBackend::new(), UsageHint::DynamicDraw);
    let data = vec![4, 5, 6, 7, 8];
    vec.update(&data);
    let len_before = vec.as_buffer_view().len();
    let capacity_before = vec.capacity();
    let reallocated = vec.update(&data);
    assert!(!reallocated);
    assert_eq!(vec.as_buffer_view().len(), len_before);
    assert_eq!(vec.capacity(), capacity_before);
}

#[test]
fn test_growth_trace_for_increasing_sizes() {
    let mut vec: BufferVec<ModelBackend<u32>, u32> =
        BufferVec::new(ModelBackend::new(), UsageHint::StreamDraw);
    let mut capacities = Vec::new();
    let mut flags = Vec::new();
    for size in 1..=5usize {
        let data: Vec<u32> = (0..size as u32).collect();
        flags.push(vec.update(&data));
        capacities.push(vec.capacity());
    }
    assert_eq!(capacities, vec![2, 2, 4, 4, 8]);
    assert_eq!(flags, vec![true, false, true, false, true]);
}

#[test]
fn test_view_length_matches_updated_length() {
    let mut vec: BufferVec<ModelBackend<u16>, u16> =
        BufferVec::new(ModelBackend::new(), UsageHint::StaticDraw);
    vec.update(&vec![10, 20, 30, 40]);
    assert_eq!(vec.as_buffer_view().len(), 4);
    vec.update(&vec![7]);
    assert_eq!(vec.as_buffer_view().len(), 1);
    vec.update(&Vec::new());
    assert_eq!(vec.as_buffer_view().len(), 0);
}

#[test]
fn test_reallocation_flag_matches_planner() {
    let mut vec: BufferVec<ModelBackend<u32>, u32> =
        BufferVec::new(ModelBackend::new(), UsageHint::StaticDraw);
    for size in [3usize, 2, 9, 9, 17] {
        let capacity_before = vec.capacity();
        let data: Vec<u32> = (0..size as u32).collect();
        let reallocated = vec.update(&data);
        assert_eq!(
            reallocated,
            new_capacity_amortized(capacity_before, size).is_some()
        );
    }
}

#[test]
fn test_update_overwrites_backend_contents() {
    let mut vec: BufferVec<ModelBackend<u32>, u32> =
        BufferVec::new(ModelBackend::new(), UsageHint::DynamicDraw);
    vec.update(&vec![1, 2, 3]);
    assert_eq!(vec.backend().data(), &vec![1, 2, 3]);
    vec.update(&vec![9]);
    assert_eq!(vec.backend().data(), &vec![9]);
    assert_eq!(vec.capacity(), 4);
}

#[test]
fn test_usage_hint_passed_through_on_reallocation() {
    let mut vec: BufferVec<ModelBackend<u32>, u32> =
        BufferVec::new(ModelBackend::new(), UsageHint::StreamDraw);
    assert_eq!(vec.backend().usage_hint(), UsageHint::StreamDraw);
    vec.update(&vec![1, 2, 3, 4, 5, 6]);
    assert_eq!(vec.backend().usage_hint(), UsageHint::StreamDraw);
    assert_eq!(vec.backend().capacity(), 8);
}
