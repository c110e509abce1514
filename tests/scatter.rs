use terrain_generation::scatter::{instance_capacity, instance_slot, ScatterError};

#[test]
fn capacity_counts_whole_matrices() {
    assert_eq!(instance_capacity(0), 0);
    assert_eq!(instance_capacity(15), 0);
    assert_eq!(instance_capacity(16), 1);
    assert_eq!(instance_capacity(50), 3);
}

#[test]
fn slots_stay_inside_the_buffer() {
    assert_eq!(instance_slot(0, 16), Ok(0));
    assert_eq!(instance_slot(2, 48), Ok(32));
    assert_eq!(instance_slot(3, 48), Err(ScatterError::CapacityExceeded));
    assert_eq!(instance_slot(3, 63), Err(ScatterError::CapacityExceeded));
    assert_eq!(instance_slot(0, 0), Err(ScatterError::CapacityExceeded));
}
