use tomoon::primitive::{bool_reply, empty_reply, read_bool, read_index, read_text, text_reply, Primitive};

#[test]
fn reads_the_first_position_by_kind() {
    let params = vec![Primitive::Bool(false), Primitive::Text("x".to_string())];
    assert_eq!(read_bool(&params), Some(false));
    assert_eq!(read_text(&params), None);
    assert_eq!(read_index(&params), None);

    let params = vec![Primitive::Text("x".to_string()), Primitive::Bool(true)];
    assert_eq!(read_bool(&params), None);
    assert_eq!(read_text(&params), Some("x".to_string()));
    assert_eq!(read_index(&params), None);

    let params = vec![Primitive::Index(7)];
    assert_eq!(read_bool(&params), None);
    assert_eq!(read_text(&params), None);
    assert_eq!(read_index(&params), Some(7));
}

#[test]
fn reads_nothing_from_an_empty_call() {
    let params: Vec<Primitive> = vec![];
    assert_eq!(read_bool(&params), None);
    assert_eq!(read_text(&params), None);
    assert_eq!(read_index(&params), None);
    let params = vec![Primitive::Empty];
    assert_eq!(read_bool(&params), None);
    assert_eq!(read_text(&params), None);
    assert_eq!(read_index(&params), None);
}

#[test]
fn replies_hold_at_most_one_value() {
    assert_eq!(empty_reply(), vec![]);
    assert_eq!(bool_reply(true), vec![Primitive::Bool(true)]);
    assert_eq!(text_reply("Idle".to_string()), vec![Primitive::Text("Idle".to_string())]);
}
