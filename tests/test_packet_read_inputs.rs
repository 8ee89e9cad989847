use eg4_bridge::inputs::{ReadInputAll, ReadInputs};

fn read_input_1() -> Vec<u16> {
    (0..40).collect()
}

fn read_input_2() -> Vec<u16> {
    (40..80).collect()
}

fn read_input_3() -> Vec<u16> {
    (80..120).collect()
}

fn read_input_all() -> ReadInputAll {
    ReadInputAll {
        read_input_1: read_input_1(),
        read_input_2: read_input_2(),
        read_input_3: read_input_3(),
        read_input_4: None,
        read_input_5: None,
        read_input_6: None,
    }
}

#[test]
fn read_inputs_default() {
    let read_inputs = ReadInputs::default();
    assert_eq!(read_inputs.to_input_all(), None);
}

#[test]
fn read_inputs_set() {
    let mut read_inputs = ReadInputs::default();
    read_inputs.set_read_input_1(read_input_1());
    assert_eq!(read_inputs.to_input_all(), None);
}

#[test]
fn handles_missing_read_input() {
    let mut read_inputs = ReadInputs::default();
    read_inputs.set_read_input_1(read_input_1());
    assert_eq!(read_inputs.to_input_all(), None);

    read_inputs.set_read_input_2(read_input_2());
    assert_eq!(read_inputs.to_input_all(), None);

    read_inputs.set_read_input_3(read_input_3());
    assert_eq!(read_inputs.to_input_all(), Some(read_input_all()));

    let mut read_inputs = ReadInputs::default();
    read_inputs.set_read_input_3(read_input_3());
    assert_eq!(read_inputs.to_input_all(), None);
}

#[test]
fn optional_pages_ride_along_in_snapshot() {
    let mut read_inputs = ReadInputs::default();
    read_inputs.set_read_input_5(vec![7; 40]);
    read_inputs.set_read_input_1(read_input_1());
    read_inputs.set_read_input_2(read_input_2());
    read_inputs.set_read_input_3(read_input_3());
    let all = read_inputs.to_input_all().unwrap();
    assert_eq!(all.read_input_4, None);
    assert_eq!(all.read_input_5, Some(vec![7; 40]));
}
