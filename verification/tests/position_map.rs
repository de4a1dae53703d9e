use swmon::display::{MonitorInfo, TableDisplayInfo};
use swmon::position_map::position_map;

fn batch(numbers: &[u8]) -> Vec<TableDisplayInfo> {
    numbers
        .iter()
        .map(|n| TableDisplayInfo::new(*n, MonitorInfo::new("b".to_string(), format!("m{}", n))))
        .collect()
}

#[test]
fn dense_batch_maps_each_number_to_itself() {
    assert_eq!(position_map(&batch(&[0, 1, 2])), vec![0, 1, 2]);
}

#[test]
fn sparse_batch_leaves_zero_where_no_monitor_is() {
    assert_eq!(position_map(&batch(&[1, 4])), vec![0, 0, 0, 0, 1]);
}

#[test]
fn reordered_batch_maps_back_to_positions() {
    assert_eq!(position_map(&batch(&[3, 0, 2])), vec![1, 0, 2, 0]);
}

#[test]
fn empty_batch_has_an_empty_map() {
    assert_eq!(position_map(&batch(&[])), Vec::<usize>::new());
}

#[test]
fn largest_number_is_covered() {
    let map = position_map(&batch(&[255]));
    assert_eq!(map.len(), 256);
    assert_eq!(map[255], 0);
    let map = position_map(&batch(&[7, 255, 9]));
    assert_eq!(map.len(), 256);
    assert_eq!(map[7], 0);
    assert_eq!(map[255], 1);
    assert_eq!(map[9], 2);
}

#[test]
fn repeated_number_maps_to_its_last_position() {
    assert_eq!(position_map(&batch(&[2, 0, 2, 1])), vec![1, 3, 2]);
}

#[test]
fn every_number_leads_to_a_monitor_with_that_number() {
    let batches: Vec<Vec<u8>> = vec![
        vec![0],
        vec![5],
        vec![0, 1, 2, 3],
        vec![9, 3, 7],
        vec![255, 0, 128],
        vec![4, 4, 4],
        (0..=255).collect(),
        (0..=255).rev().collect(),
    ];
    for numbers in batches {
        let displays = batch(&numbers);
        let map = position_map(&displays);
        let max = *numbers.iter().max().unwrap() as usize;
        assert_eq!(map.len(), max + 1);
        for display in &displays {
            let position = map[display.number as usize];
            assert_eq!(displays[position].number, display.number);
        }
    }
}

#[test]
fn batch_longer_than_the_numbers_reach_is_mapped_too() {
    let numbers: Vec<u8> = (0..300).map(|i| (i % 256) as u8).collect();
    let displays = batch(&numbers);
    let map = position_map(&displays);
    assert_eq!(map.len(), 256);
    assert_eq!(map[0], 256);
    assert_eq!(map[43], 299);
    assert_eq!(map[44], 44);
    assert_eq!(map[255], 255);
}
