use thermostat_config::influxdb::first_series_values;

#[test]
fn first_series_is_taken() {
    assert_eq!(first_series_values(vec![vec![1, 2], vec![3]]), Some(vec![1, 2]));
}

#[test]
fn no_series_gives_none() {
    assert_eq!(first_series_values::<u8>(vec![]), None);
}

#[test]
fn empty_first_series_gives_empty_rows() {
    assert_eq!(first_series_values(vec![Vec::<u8>::new(), vec![4]]), Some(vec![]));
}
