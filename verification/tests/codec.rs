use yabusame::frame::{frame, payload_length, unframe, MAX_PAYLOAD};
use yabusame::{
    Delta, Message, Priority, Response, Task, TaskDelta, TaskId, Timestamp, YabuError,
    YabuRpcError,
};

fn milk() -> Task {
    Task::new(None, false, "buy milk".to_string(), Priority::Medium, None)
}

fn id(n: u32) -> TaskId {
    TaskId::try_from(n).unwrap()
}

fn text_of(bytes: &[u8]) -> String {
    String::from_utf8(bytes[2..].to_vec()).unwrap()
}

fn framed(text: &str) -> Vec<u8> {
    frame(text.as_bytes()).unwrap()
}

fn messages() -> Vec<Message> {
    let due = Timestamp::new(2022, 45, 17, 5, 59, 123, -7, -30, 0).unwrap();
    vec![
        Message::List,
        Message::Add(milk()),
        Message::Add(Task::new(
            Some(id(4_000_000_000)),
            true,
            "quote \" backslash \\ newline \n snowman \u{2603}".to_string(),
            Priority::Critical,
            Some(due),
        )),
        Message::Update(id(1), TaskDelta::default()),
        Message::Update(
            id(2),
            TaskDelta {
                complete: Delta::Changed(true),
                description: Delta::Changed(String::new()),
                priority: Delta::Changed(Priority::Lowest),
                due_date: Delta::Changed(None),
            },
        ),
        Message::Update(
            id(3),
            TaskDelta {
                complete: Delta::Changed(false),
                description: Delta::Unchanged,
                priority: Delta::Changed(Priority::High),
                due_date: Delta::Changed(Some(due)),
            },
        ),
        Message::Remove(id(u32::MAX)),
    ]
}

fn responses() -> Vec<Response> {
    let mut stored = milk();
    stored.id = Some(id(1));
    vec![
        Response::Nothing,
        Response::Tasks(Vec::new()),
        Response::Tasks(vec![stored.clone(), stored]),
        Response::Error(YabuRpcError::TaskDoesntExist(id(5))),
        Response::Error(YabuRpcError::UnknownPriority("urgent".to_string())),
    ]
}

#[test]
fn every_message_round_trips() {
    for message in messages() {
        let bytes = message.write_to_socket().unwrap();
        assert_eq!(Message::read_from_socket(&bytes), Ok(message.clone()));
        assert_eq!(Message::from_payload(&bytes[2..]), Ok(message));
    }
}

#[test]
fn every_response_round_trips() {
    for response in responses() {
        let bytes = response.write_to_socket().unwrap();
        assert_eq!(Response::read_from_socket(&bytes), Ok(response.clone()));
        assert_eq!(Response::from_payload(&bytes[2..]), Ok(response));
    }
}

#[test]
fn a_message_is_read_whatever_follows_it() {
    let mut bytes = Message::Remove(id(9)).write_to_socket().unwrap();
    bytes.extend(Message::List.write_to_socket().unwrap());
    assert_eq!(Message::read_from_socket(&bytes), Ok(Message::Remove(id(9))));
}

#[test]
fn the_length_comes_first_low_byte_first() {
    for message in messages() {
        let bytes = message.write_to_socket().unwrap();
        let length = bytes.len() - 2;
        assert_eq!(bytes[0], (length % 256) as u8);
        assert_eq!(bytes[1], (length / 256) as u8);
        assert_eq!(payload_length(bytes[0], bytes[1]), length);
    }
    let bytes = frame(&[7u8; 300]).unwrap();
    assert_eq!(&bytes[..2], &[44, 1]);
    assert_eq!(&bytes[2..], &[7u8; 300][..]);
    assert_eq!(payload_length(44, 1), 300);
    assert_eq!(payload_length(0xff, 0xff), 65535);
    assert_eq!(frame(&[]).unwrap(), vec![0, 0]);
}

#[test]
fn a_frame_gives_its_payload_back() {
    let payload: Vec<u8> = (0..1000u32).map(|n| (n % 251) as u8).collect();
    let mut bytes = frame(&payload).unwrap();
    assert_eq!(unframe(&bytes), Ok(payload.clone()));
    bytes.extend([1, 2, 3]);
    assert_eq!(unframe(&bytes), Ok(payload));
    assert_eq!(unframe(&[0, 0]), Ok(Vec::new()));
}

#[test]
fn the_largest_payload_fits_and_one_byte_more_does_not() {
    let largest = vec![b'x'; MAX_PAYLOAD];
    let bytes = frame(&largest).unwrap();
    assert_eq!(bytes.len(), 65537);
    assert_eq!(&bytes[..2], &[0xff, 0xff]);
    assert_eq!(unframe(&bytes), Ok(largest));
    assert_eq!(frame(&vec![b'x'; 65536]), Err(YabuError::PayloadTooLarge(65536)));
}

#[test]
fn a_description_that_is_too_long_cannot_be_sent() {
    let task = Task::new(None, false, "x".repeat(70_000), Priority::Low, None);
    let result = Message::Add(task).write_to_socket();
    assert!(matches!(result, Err(YabuError::PayloadTooLarge(n)) if n > 70_000));
}

#[test]
fn no_byte_at_all_is_a_closed_connection() {
    assert_eq!(unframe(&[]), Err(YabuError::ConnectionClosed));
    assert_eq!(Message::read_from_socket(&[]), Err(YabuError::ConnectionClosed));
    assert_eq!(Response::read_from_socket(&[]), Err(YabuError::ConnectionClosed));
}

#[test]
fn a_frame_cut_short_is_truncated() {
    let bytes = Message::Add(milk()).write_to_socket().unwrap();
    for arrived in 1..bytes.len() {
        assert_eq!(Message::read_from_socket(&bytes[..arrived]), Err(YabuError::Truncated));
        assert_eq!(unframe(&bytes[..arrived]), Err(YabuError::Truncated));
    }
    assert_eq!(unframe(&[5]), Err(YabuError::Truncated));
    assert_eq!(unframe(&[1, 0]), Err(YabuError::Truncated));
}

#[test]
fn a_payload_that_is_no_json_is_malformed() {
    assert_eq!(Message::read_from_socket(&framed("")), Err(YabuError::MalformedMessage));
    assert_eq!(Message::read_from_socket(&framed("{")), Err(YabuError::MalformedMessage));
    assert_eq!(Message::read_from_socket(&framed("\"List")), Err(YabuError::MalformedMessage));
    assert_eq!(
        Message::read_from_socket(&framed("\"List\" \"List\"")),
        Err(YabuError::MalformedMessage)
    );
    assert_eq!(Message::from_payload(&[0xff, 0xfe]), Err(YabuError::MalformedMessage));
    assert_eq!(Response::read_from_socket(&framed("nothing")), Err(YabuError::MalformedMessage));
}

#[test]
fn an_unknown_tag_is_malformed() {
    for text in [
        "\"Lisp\"",
        "\"list\"",
        "{\"Drop\":1}",
        "{\"Remove\":1,\"List\":null}",
        "{}",
        "[]",
        "null",
        "7",
        "\"Nothing\"",
        "\"Add\"",
        "\"Remove\"",
    ] {
        assert_eq!(
            Message::read_from_socket(&framed(text)),
            Err(YabuError::MalformedMessage),
            "{text}"
        );
    }
    for text in ["\"List\"", "{\"Tasks\":{}}", "{\"Error\":\"TaskDoesntExist\"}", "{\"Ok\":1}"] {
        assert_eq!(
            Response::read_from_socket(&framed(text)),
            Err(YabuError::MalformedMessage),
            "{text}"
        );
    }
}

#[test]
fn values_of_the_wrong_kind_are_malformed() {
    for text in [
        "{\"Remove\":0}",
        "{\"Remove\":-1}",
        "{\"Remove\":4294967296}",
        "{\"Remove\":1.0}",
        "{\"Remove\":\"1\"}",
        "{\"Remove\":null}",
        "{\"Update\":[1]}",
        "{\"Update\":[1,{\"complete\":\"Unchanged\",\"description\":\"Unchanged\",\"priority\":\"Unchanged\",\"due_date\":\"Unchanged\"},3]}",
        "{\"Update\":[1,{\"complete\":\"Unchanged\",\"description\":\"Unchanged\",\"priority\":\"Unchanged\"}]}",
        "{\"Update\":[1,{\"complete\":\"Changed\",\"description\":\"Unchanged\",\"priority\":\"Unchanged\",\"due_date\":\"Unchanged\"}]}",
        "{\"Update\":[1,{\"complete\":{\"Changed\":1},\"description\":\"Unchanged\",\"priority\":\"Unchanged\",\"due_date\":\"Unchanged\"}]}",
        "{\"Add\":{\"id\":null,\"complete\":false,\"priority\":\"Medium\",\"due_date\":null}}",
        "{\"Add\":{\"id\":null,\"complete\":0,\"description\":\"x\",\"priority\":\"Medium\",\"due_date\":null}}",
        "{\"Add\":{\"id\":null,\"complete\":false,\"description\":\"x\",\"priority\":\"medium\",\"due_date\":null}}",
        "{\"Add\":{\"id\":null,\"complete\":false,\"description\":\"x\",\"priority\":2,\"due_date\":null}}",
        "{\"Add\":{\"id\":null,\"complete\":false,\"description\":\"x\",\"priority\":\"Medium\",\"due_date\":0}}",
        "{\"Add\":{\"id\":null,\"complete\":false,\"description\":\"x\",\"priority\":\"Medium\",\"due_date\":[2022,1,0,0,0,0,0,0]}}",
        "{\"Add\":{\"id\":null,\"complete\":false,\"description\":\"x\",\"priority\":\"Medium\",\"due_date\":[2022,366,0,0,0,0,0,0,0]}}",
        "{\"Add\":{\"id\":null,\"complete\":false,\"description\":\"x\",\"priority\":\"Medium\",\"due_date\":[2022,1,0,0,0,0,0,0,0,0]}}",
        "{\"Add\":{\"id\":null,\"complete\":false,\"description\":\"x\",\"priority\":\"Medium\",\"due_date\":[2022,1,256,0,0,0,0,0,0]}}",
    ] {
        assert_eq!(
            Message::read_from_socket(&framed(text)),
            Err(YabuError::MalformedMessage),
            "{text}"
        );
    }
}

#[test]
fn list_is_a_bare_string() {
    let bytes = Message::List.write_to_socket().unwrap();
    assert_eq!(bytes, vec![6, 0, b'"', b'L', b'i', b's', b't', b'"']);
    assert_eq!(text_of(&Response::Nothing.write_to_socket().unwrap()), "\"Nothing\"");
}

#[test]
fn add_is_written_as_a_single_key_object() {
    let bytes = Message::Add(milk()).write_to_socket().unwrap();
    assert_eq!(
        text_of(&bytes),
        "{\"Add\":{\"id\":null,\"complete\":false,\"description\":\"buy milk\",\"priority\":\"Medium\",\"due_date\":null}}"
    );
}

#[test]
fn update_is_an_array_of_id_and_delta() {
    let delta = TaskDelta {
        complete: Delta::Changed(true),
        description: Delta::Unchanged,
        priority: Delta::Changed(Priority::High),
        due_date: Delta::Changed(None),
    };
    let bytes = Message::Update(id(12), delta).write_to_socket().unwrap();
    assert_eq!(
        text_of(&bytes),
        "{\"Update\":[12,{\"complete\":{\"Changed\":true},\"description\":\"Unchanged\",\"priority\":{\"Changed\":\"High\"},\"due_date\":{\"Changed\":null}}]}"
    );
}

#[test]
fn remove_and_errors_carry_a_plain_number() {
    assert_eq!(text_of(&Message::Remove(id(3)).write_to_socket().unwrap()), "{\"Remove\":3}");
    assert_eq!(
        text_of(
            &Response::Error(YabuRpcError::TaskDoesntExist(id(3))).write_to_socket().unwrap()
        ),
        "{\"Error\":{\"TaskDoesntExist\":3}}"
    );
    assert_eq!(
        text_of(
            &Response::Error(YabuRpcError::UnknownPriority("x".to_string()))
                .write_to_socket()
                .unwrap()
        ),
        "{\"Error\":{\"UnknownPriority\":\"x\"}}"
    );
}

#[test]
fn a_due_date_is_the_array_of_its_nine_numbers() {
    let due = Timestamp::new(2022, 45, 17, 5, 59, 123, -7, -30, 0).unwrap();
    let task = Task::new(Some(id(1)), false, String::new(), Priority::Low, Some(due));
    let bytes = Response::Tasks(vec![task]).write_to_socket().unwrap();
    assert_eq!(
        text_of(&bytes),
        "{\"Tasks\":[{\"id\":1,\"complete\":false,\"description\":\"\",\"priority\":\"Low\",\"due_date\":[2022,45,17,5,59,123,-7,-30,0]}]}"
    );
}

#[test]
fn a_due_date_is_written_as_the_calendar_writes_it() {
    let date = time::Date::from_ordinal_date(2022, 45).unwrap();
    let theirs = date
        .with_hms_nano(17, 5, 59, 123)
        .unwrap()
        .assume_offset(time::UtcOffset::from_hms(-7, -30, 0).unwrap());
    let expected = serde_json::to_string(&theirs).unwrap();
    let ours = Timestamp::new(2022, 45, 17, 5, 59, 123, -7, -30, 0).unwrap();
    let value = Task::new(None, false, String::new(), Priority::Low, Some(ours)).to_json();
    assert_eq!(value["due_date"].to_string(), expected);
    let back: time::OffsetDateTime = serde_json::from_value(value["due_date"].clone()).unwrap();
    assert_eq!(back, theirs);
}

#[test]
fn fields_may_come_in_any_order_and_unknown_ones_do_not_count() {
    let text = "{\"Add\":{\"priority\":\"High\",\"extra\":[1.5,{}],\"description\":\"x\",\"complete\":true,\"id\":8,\"due_date\":null}}";
    assert_eq!(
        Message::read_from_socket(&framed(text)),
        Ok(Message::Add(Task::new(Some(id(8)), true, "x".to_string(), Priority::High, None)))
    );
}

#[test]
fn optional_fields_may_be_left_out() {
    let text = "{\"Add\":{\"complete\":false,\"description\":\"buy milk\",\"priority\":\"Medium\"}}";
    assert_eq!(Message::read_from_socket(&framed(text)), Ok(Message::Add(milk())));
}

#[test]
fn a_variant_without_content_may_carry_null() {
    assert_eq!(Message::read_from_socket(&framed("{\"List\":null}")), Ok(Message::List));
    assert_eq!(Response::read_from_socket(&framed("{\"Nothing\":null}")), Ok(Response::Nothing));
    let text = "{\"Update\":[1,{\"complete\":{\"Unchanged\":null},\"description\":\"Unchanged\",\"priority\":{\"Changed\":{\"Low\":null}},\"due_date\":\"Unchanged\"}]}";
    let delta = TaskDelta {
        complete: Delta::Unchanged,
        description: Delta::Unchanged,
        priority: Delta::Changed(Priority::Low),
        due_date: Delta::Unchanged,
    };
    assert_eq!(Message::read_from_socket(&framed(text)), Ok(Message::Update(id(1), delta)));
}

#[test]
fn the_parts_of_an_offset_are_made_to_agree_when_read() {
    let text = "{\"Add\":{\"id\":null,\"complete\":false,\"description\":\"x\",\"priority\":\"Low\",\"due_date\":[2022,1,0,0,0,0,1,-30,0]}}";
    let due = Timestamp::new(2022, 1, 0, 0, 0, 0, 1, 30, 0).unwrap();
    assert_eq!(
        Message::read_from_socket(&framed(text)),
        Ok(Message::Add(Task::new(None, false, "x".to_string(), Priority::Low, Some(due))))
    );
}

#[test]
fn trees_are_read_as_they_are_written() {
    for message in messages() {
        let tree = message.to_json();
        assert_eq!(Message::from_json(&tree), Some(message.clone()));
        let text = serde_json::to_vec(&tree).unwrap();
        assert_eq!(message.write_to_socket().unwrap()[2..], text[..]);
    }
    for response in responses() {
        assert_eq!(Response::from_json(&response.to_json()), Some(response));
    }
    assert_eq!(Task::from_json(&milk().to_json()), Some(milk()));
    let delta = TaskDelta::default();
    assert_eq!(TaskDelta::from_json(&delta.to_json()), Some(delta));
    let error = YabuRpcError::TaskDoesntExist(id(2));
    assert_eq!(YabuRpcError::from_json(&error.to_json()), Some(error));
}

#[test]
fn a_tree_of_another_shape_is_no_message() {
    let tree: serde_json::Value = serde_json::from_str("{\"Add\":[]}").unwrap();
    assert_eq!(Message::from_json(&tree), None);
    assert_eq!(Response::from_json(&serde_json::Value::Null), None);
    assert_eq!(Task::from_json(&serde_json::Value::Bool(true)), None);
}

#[test]
fn an_update_that_only_completes_is_written_in_the_order_of_the_fields() {
    let delta = TaskDelta {
        complete: Delta::Changed(true),
        description: Delta::Unchanged,
        priority: Delta::Unchanged,
        due_date: Delta::Unchanged,
    };
    let bytes = Message::Update(id(1), delta).write_to_socket().unwrap();
    assert_eq!(&bytes[..2], &[0x74, 0x00]);
    assert_eq!(bytes.len() - 2, 116);
    assert_eq!(
        text_of(&bytes),
        "{\"Update\":[1,{\"complete\":{\"Changed\":true},\"description\":\"Unchanged\",\"priority\":\"Unchanged\",\"due_date\":\"Unchanged\"}]}"
    );
}

#[test]
fn a_request_is_written_in_the_order_of_its_fields_however_it_was_read() {
    let text = "{\"Add\":{\"priority\":\"High\",\"description\":\"x\",\"complete\":true,\"id\":8}}";
    let message = Message::read_from_socket(&framed(text)).unwrap();
    assert_eq!(
        text_of(&message.write_to_socket().unwrap()),
        "{\"Add\":{\"id\":8,\"complete\":true,\"description\":\"x\",\"priority\":\"High\",\"due_date\":null}}"
    );
    let tree: serde_json::Value = serde_json::from_str("{\"b\":1,\"a\":2,\"b\":3}").unwrap();
    assert_eq!(serde_json::to_string(&tree).unwrap(), "{\"b\":3,\"a\":2}");
}

#[test]
fn text_with_the_fields_in_their_declared_order_is_read() {
    let text = "{\"Add\":{\"id\":null,\"complete\":false,\"description\":\"buy milk\",\"priority\":\"Medium\",\"due_date\":null}}";
    assert_eq!(Message::read_from_socket(&framed(text)), Ok(Message::Add(milk())));

    let text = "{\"Update\":[1,{\"complete\":{\"Changed\":true},\"description\":\"Unchanged\",\"priority\":\"Unchanged\",\"due_date\":{\"Changed\":[2022,45,17,5,59,123,-7,-30,0]}}]}";
    let delta = TaskDelta {
        complete: Delta::Changed(true),
        description: Delta::Unchanged,
        priority: Delta::Unchanged,
        due_date: Delta::Changed(Some(
            Timestamp::new(2022, 45, 17, 5, 59, 123, -7, -30, 0).unwrap(),
        )),
    };
    assert_eq!(Message::read_from_socket(&framed(text)), Ok(Message::Update(id(1), delta)));

    let text = "{\"Tasks\":[{\"id\":1,\"complete\":true,\"description\":\"buy milk\",\"priority\":\"Medium\",\"due_date\":null}]}";
    let mut stored = milk();
    stored.id = Some(id(1));
    stored.complete = true;
    assert_eq!(Response::read_from_socket(&framed(text)), Ok(Response::Tasks(vec![stored])));

    let text = " { \"Remove\" : 3 }\n";
    assert_eq!(Message::read_from_socket(&framed(text)), Ok(Message::Remove(id(3))));
}

#[test]
fn a_record_may_come_as_the_array_of_its_fields() {
    let text = "{\"Add\":[null,false,\"buy milk\",\"Medium\",null]}";
    assert_eq!(Message::read_from_socket(&framed(text)), Ok(Message::Add(milk())));

    let text = "{\"Update\":[3,[{\"Changed\":true},\"Unchanged\",\"Unchanged\",{\"Changed\":null}]]}";
    let delta = TaskDelta {
        complete: Delta::Changed(true),
        description: Delta::Unchanged,
        priority: Delta::Unchanged,
        due_date: Delta::Changed(None),
    };
    assert_eq!(Message::read_from_socket(&framed(text)), Ok(Message::Update(id(3), delta)));

    let text = "{\"Tasks\":[[7,true,\"x\",\"High\",[2022,1,0,0,0,0,0,0,0]]]}";
    let due = Timestamp::new(2022, 1, 0, 0, 0, 0, 0, 0, 0).unwrap();
    let task = Task::new(Some(id(7)), true, "x".to_string(), Priority::High, Some(due));
    assert_eq!(Response::read_from_socket(&framed(text)), Ok(Response::Tasks(vec![task])));

    for text in [
        "{\"Add\":[null,false,\"buy milk\",\"Medium\"]}",
        "{\"Add\":[null,false,\"buy milk\",\"Medium\",null,null]}",
        "{\"Add\":[false,\"buy milk\",\"Medium\",null,null]}",
        "{\"Update\":[3,[\"Unchanged\",\"Unchanged\",\"Unchanged\"]]}",
        "{\"Update\":[3,[\"Unchanged\",\"Unchanged\",\"Unchanged\",\"Unchanged\",\"Unchanged\"]]}",
    ] {
        assert_eq!(
            Message::read_from_socket(&framed(text)),
            Err(YabuError::MalformedMessage),
            "{text}"
        );
    }
}
