use miniredis_server::command::Command;
use miniredis_server::db::Db;
use miniredis_server::frame::RespFrame;
use miniredis_server::server::{
    answer, placeholder_answer, placeholder_process_frame, placeholder_step, process_frame,
    respond, serve_reads, serve_step, ReadOutcome, Step,
};

fn bulk(s: &str) -> RespFrame {
    RespFrame::Bulk(s.as_bytes().to_vec())
}

fn request(parts: &[&str]) -> RespFrame {
    RespFrame::Array(parts.iter().map(|p| bulk(p)).collect())
}

fn refused() -> Result<RespFrame, String> {
    Err("could not disasemble into command".to_string())
}

#[test]
fn set_is_answered_ok_and_stored() {
    let mut db = Db::new();
    let r = process_frame(&mut db, request(&["set", "aa", "bb"]));
    assert_eq!(r, Ok(RespFrame::Simple("OK".to_string())));
    assert_eq!(db.get(&"aa".to_string()), Some(b"bb".to_vec()));
}

#[test]
fn get_after_set_returns_value() {
    let mut db = Db::new();
    process_frame(&mut db, request(&["set", "aa", "bb"])).unwrap();
    let r = process_frame(&mut db, request(&["get", "aa"]));
    assert_eq!(r, Ok(bulk("bb")));
}

#[test]
fn get_of_missing_key_is_null() {
    let mut db = Db::new();
    let r = process_frame(&mut db, request(&["get", "aa"]));
    assert_eq!(r, Ok(RespFrame::Null));
}

#[test]
fn command_names_are_case_insensitive() {
    let mut db = Db::new();
    assert_eq!(
        process_frame(&mut db, request(&["SET", "aa", "bb"])),
        Ok(RespFrame::Simple("OK".to_string()))
    );
    assert_eq!(process_frame(&mut db, request(&["GeT", "aa"])), Ok(bulk("bb")));
}

#[test]
fn simple_string_parts_are_accepted() {
    let mut db = Db::new();
    let set = RespFrame::Array(vec![
        RespFrame::Simple("set".to_string()),
        RespFrame::Simple("k".to_string()),
        RespFrame::Simple("v".to_string()),
    ]);
    assert_eq!(process_frame(&mut db, set), Ok(RespFrame::Simple("OK".to_string())));
    assert_eq!(db.get(&"k".to_string()), Some(b"v".to_vec()));
}

#[test]
fn set_with_expiry_is_stored() {
    let mut db = Db::new();
    let set = RespFrame::Array(vec![
        bulk("set"),
        bulk("aa"),
        bulk("bb"),
        bulk("px"),
        RespFrame::Integer(100),
    ]);
    assert_eq!(process_frame(&mut db, set), Ok(RespFrame::Simple("OK".to_string())));
    assert_eq!(db.get(&"aa".to_string()), Some(b"bb".to_vec()));
}

#[test]
fn binary_values_are_kept() {
    let mut db = Db::new();
    let set = RespFrame::Array(vec![bulk("set"), bulk("aa"), RespFrame::Bulk(vec![0, 255, 13, 10])]);
    process_frame(&mut db, set).unwrap();
    assert_eq!(
        process_frame(&mut db, request(&["get", "aa"])),
        Ok(RespFrame::Bulk(vec![0, 255, 13, 10]))
    );
}

#[test]
fn unknown_command_is_null_and_leaves_store() {
    let mut db = Db::new();
    process_frame(&mut db, request(&["set", "aa", "bb"])).unwrap();
    assert_eq!(process_frame(&mut db, request(&["ping"])), Ok(RespFrame::Null));
    assert_eq!(process_frame(&mut db, request(&["publish", "ch", "msg"])), Ok(RespFrame::Null));
    assert_eq!(db.get(&"aa".to_string()), Some(b"bb".to_vec()));
}

#[test]
fn non_array_frame_is_refused() {
    let mut db = Db::new();
    assert_eq!(process_frame(&mut db, bulk("get")), refused());
    assert_eq!(process_frame(&mut db, RespFrame::Null), refused());
}

#[test]
fn malformed_requests_are_refused() {
    let mut db = Db::new();
    assert_eq!(process_frame(&mut db, RespFrame::Array(vec![])), refused());
    assert_eq!(process_frame(&mut db, request(&["get"])), refused());
    assert_eq!(process_frame(&mut db, request(&["get", "aa", "bb"])), refused());
    assert_eq!(process_frame(&mut db, request(&["set", "aa"])), refused());
    assert_eq!(process_frame(&mut db, request(&["set", "aa", "bb", "cc"])), refused());
    let bad_key = RespFrame::Array(vec![bulk("get"), RespFrame::Bulk(vec![0xff, 0xfe])]);
    assert_eq!(process_frame(&mut db, bad_key), refused());
    assert_eq!(db.get(&"aa".to_string()), None);
}

#[test]
fn respond_applies_commands() {
    let mut db = Db::new();
    let set = Command::SetValue { key: "aa".to_string(), value: b"bb".to_vec(), expire_ms: None };
    assert_eq!(respond(&mut db, set), RespFrame::Simple("OK".to_string()));
    assert_eq!(respond(&mut db, Command::Get { key: "aa".to_string() }), bulk("bb"));
    assert_eq!(respond(&mut db, Command::Get { key: "zz".to_string() }), RespFrame::Null);
    let other = Command::Other { description: "Unknown".to_string() };
    assert_eq!(respond(&mut db, other), RespFrame::Null);
}

#[test]
fn answer_refuses_decoding_errors() {
    let mut db = Db::new();
    assert_eq!(answer(&mut db, Err("protocol error".to_string())), refused());
    assert_eq!(
        answer(&mut db, Ok(Command::Get { key: "aa".to_string() })),
        Ok(RespFrame::Null)
    );
}

#[test]
fn serve_step_follows_reads() {
    let mut db = Db::new();
    assert_eq!(serve_step(&mut db, ReadOutcome::Failed), Step::Close);
    assert_eq!(serve_step(&mut db, ReadOutcome::Ended), Step::ReadAgain);
    assert_eq!(
        serve_step(&mut db, ReadOutcome::Received(request(&["set", "aa", "bb"]))),
        Step::Reply(RespFrame::Simple("OK".to_string()))
    );
    assert_eq!(
        serve_step(&mut db, ReadOutcome::Received(request(&["get", "aa"]))),
        Step::Reply(bulk("bb"))
    );
    assert_eq!(
        serve_step(&mut db, ReadOutcome::Received(RespFrame::Integer(3))),
        Step::Abort("could not disasemble into command".to_string())
    );
}

#[test]
fn placeholder_answers_ignore_store() {
    assert_eq!(
        placeholder_process_frame(request(&["set", "aa", "bb"])),
        Ok(RespFrame::Simple("OK".to_string()))
    );
    assert_eq!(placeholder_process_frame(request(&["get", "aa"])), Ok(bulk("value")));
    assert_eq!(placeholder_process_frame(request(&["get", "other"])), Ok(bulk("value")));
    assert_eq!(placeholder_process_frame(request(&["ping"])), Ok(RespFrame::Null));
    assert_eq!(placeholder_process_frame(RespFrame::Null), refused());
    assert_eq!(placeholder_answer(Err("x".to_string())), refused());
}

#[test]
fn placeholder_step_follows_reads() {
    assert_eq!(placeholder_step(ReadOutcome::Failed), Step::Close);
    assert_eq!(placeholder_step(ReadOutcome::Ended), Step::ReadAgain);
    assert_eq!(
        placeholder_step(ReadOutcome::Received(request(&["get", "aa"]))),
        Step::Reply(bulk("value"))
    );
    assert_eq!(
        placeholder_step(ReadOutcome::Received(bulk("get"))),
        Step::Abort("could not disasemble into command".to_string())
    );
}

#[test]
fn serve_reads_answers_each_read_in_order() {
    let mut db = Db::new();
    let reads = vec![
        ReadOutcome::Received(request(&["set", "aa", "1"])),
        ReadOutcome::Ended,
        ReadOutcome::Received(request(&["get", "aa"])),
        ReadOutcome::Received(request(&["set", "aa", "2"])),
        ReadOutcome::Received(request(&["get", "aa"])),
        ReadOutcome::Received(request(&["get", "bb"])),
    ];
    let steps = serve_reads(&mut db, reads);
    assert_eq!(
        steps,
        vec![
            Step::Reply(RespFrame::Simple("OK".to_string())),
            Step::ReadAgain,
            Step::Reply(bulk("1")),
            Step::Reply(RespFrame::Simple("OK".to_string())),
            Step::Reply(bulk("2")),
            Step::Reply(RespFrame::Null),
        ]
    );
    assert_eq!(db.get(&"aa".to_string()), Some(b"2".to_vec()));
}

#[test]
fn serve_reads_stops_at_the_first_ending_step() {
    let mut db = Db::new();
    let reads = vec![
        ReadOutcome::Received(request(&["set", "aa", "1"])),
        ReadOutcome::Received(RespFrame::Integer(7)),
        ReadOutcome::Received(request(&["set", "aa", "2"])),
    ];
    let steps = serve_reads(&mut db, reads);
    assert_eq!(
        steps,
        vec![
            Step::Reply(RespFrame::Simple("OK".to_string())),
            Step::Abort("could not disasemble into command".to_string()),
        ]
    );
    assert_eq!(db.get(&"aa".to_string()), Some(b"1".to_vec()));
    let mut db = Db::new();
    assert_eq!(serve_reads(&mut db, vec![ReadOutcome::Failed, ReadOutcome::Ended]), vec![Step::Close]);
    assert_eq!(serve_reads(&mut db, vec![]), vec![]);
}
