use vstd::prelude::*;

use crate::command::{
    command_of_frame, decode_command, decoded_view, frame_bytes, frame_text, is_get_request,
    is_set_request, Command, CommandView,
};
use crate::db::Db;
use crate::frame::{RespFrame, RespFrameView};

verus! {

/// What one read of a connection gave.
#[derive(Debug, PartialEq, Eq)]
pub enum ReadOutcome {
    /// The read failed: the bytes do not follow the frame protocol, or the socket failed.
    Failed,
    /// The peer closed the stream; there is no frame.
    Ended,
    /// A whole frame arrived.
    Received(RespFrame),
}

/// What a connection does after a read.
#[derive(Debug, PartialEq, Eq)]
pub enum Step {
    /// Stop serving this connection.
    Close,
    /// Read the next frame.
    ReadAgain,
    /// Write this frame back to the client, then read the next one.
    Reply(RespFrame),
    /// Give up on the connection with this message (the frame could not be answered).
    Abort(String),
}

/// The mathematical value of a [`ReadOutcome`].
pub enum ReadOutcomeView {
    Failed,
    Ended,
    Received(RespFrameView),
}

impl View for ReadOutcome {
    type V = ReadOutcomeView;

    open spec fn view(&self) -> ReadOutcomeView {
        match self {
            ReadOutcome::Failed => ReadOutcomeView::Failed,
            ReadOutcome::Ended => ReadOutcomeView::Ended,
            ReadOutcome::Received(f) => ReadOutcomeView::Received(f@),
        }
    }
}

/// The mathematical value of a [`Step`].
pub enum StepView {
    Close,
    ReadAgain,
    Reply(RespFrameView),
    Abort(Seq<char>),
}

impl View for Step {
    type V = StepView;

    open spec fn view(&self) -> StepView {
        match self {
            Step::Close => StepView::Close,
            Step::ReadAgain => StepView::ReadAgain,
            Step::Reply(f) => StepView::Reply(f@),
            Step::Abort(m) => StepView::Abort(m@),
        }
    }
}

/// The message with which a frame that decodes to no command is refused.
pub open spec fn undecodable_message() -> Seq<char> {
    "could not disasemble into command"@
}

/// The answer to a lookup of `key`: its value as a bulk string, or null where it is not
/// bound.
pub open spec fn lookup(db: Map<Seq<char>, Seq<u8>>, key: Seq<char>) -> RespFrameView {
    if db.contains_key(key) {
        RespFrameView::Bulk(db[key])
    } else {
        RespFrameView::Null
    }
}

/// The store's answer to a command.
pub open spec fn response_to(db: Map<Seq<char>, Seq<u8>>, cmd: CommandView) -> RespFrameView {
    match cmd {
        CommandView::Get { key } => lookup(db, key),
        CommandView::SetValue { .. } => RespFrameView::Simple("OK"@),
        CommandView::Other { .. } => RespFrameView::Null,
    }
}

/// The store after a command: a `SetValue` binds its key to its value; nothing else
/// changes the store.
pub open spec fn store_after(db: Map<Seq<char>, Seq<u8>>, cmd: CommandView) -> Map<
    Seq<char>,
    Seq<u8>,
> {
    match cmd {
        CommandView::SetValue { key, value, .. } => db.insert(key, value),
        _ => db,
    }
}

/// The placeholder server's reply to any get: the bytes of the text `value`.
pub open spec fn placeholder_value() -> RespFrameView {
    RespFrameView::Bulk(seq![118u8, 97u8, 108u8, 117u8, 101u8])
}

/// The reply that the placeholder server gives to a command, whatever is stored: `OK` to
/// a set, the bytes of the text `value` to a get, null to anything else.
pub open spec fn placeholder_response(cmd: CommandView) -> RespFrameView {
    match cmd {
        CommandView::Get { .. } => placeholder_value(),
        CommandView::SetValue { .. } => RespFrameView::Simple("OK"@),
        CommandView::Other { .. } => RespFrameView::Null,
    }
}

/// Applies a command to the store and gives the frame to send back.
pub fn respond(db: &mut Db, command: Command) -> (response: RespFrame)
    ensures
        response@ == response_to(old(db)@, command@),
        final(db)@ == store_after(old(db)@, command@),
{
    match command {
        Command::SetValue { key, value, .. } => {
            db.set(key, value);
            RespFrame::Simple("OK".to_string())
        },
        Command::Get { key } => match db.get(&key) {
            Some(value) => RespFrame::Bulk(value),
            None => RespFrame::Null,
        },
        Command::Other { .. } => RespFrame::Null,
    }
}

/// Answers a decoding result: a command is applied to the store and its reply given; a
/// decoding error is refused with a fixed message, and the store is left as it was.
pub fn answer(db: &mut Db, decoded: Result<Command, String>) -> (r: Result<RespFrame, String>)
    ensures
        match decoded_view(decoded) {
            Ok(c) => r is Ok && r->Ok_0@ == response_to(old(db)@, c) && final(db)@
                == store_after(old(db)@, c),
            Err(_) => r is Err && r->Err_0@ == undecodable_message() && final(db)@ == old(db)@,
        },
{
    match decoded {
        Ok(command) => Ok(respond(db, command)),
        Err(_) => Err("could not disasemble into command".to_string()),
    }
}

/// Decodes a frame into a command and answers it against the store.
pub fn process_frame(db: &mut Db, frame: RespFrame) -> (r: Result<RespFrame, String>)
    ensures
        match command_of_frame(frame@) {
            Ok(c) => r is Ok && r->Ok_0@ == response_to(old(db)@, c) && final(db)@
                == store_after(old(db)@, c),
            Err(_) => r is Err && r->Err_0@ == undecodable_message() && final(db)@ == old(db)@,
        },
        is_set_request(frame@) ==> r is Ok && r->Ok_0@ == RespFrameView::Simple("OK"@)
            && final(db)@ == old(db)@.insert(
            frame_text(frame@->Array_0[1]).unwrap(),
            frame_bytes(frame@->Array_0[2]).unwrap(),
        ),
        is_get_request(frame@) ==> r is Ok && final(db)@ == old(db)@ && r->Ok_0@ == lookup(
            old(db)@,
            frame_text(frame@->Array_0[1]).unwrap(),
        ),
{
    let decoded = decode_command(frame);
    answer(db, decoded)
}

/// The next step of a connection served against the store, after a read, and the store
/// after it: a failed read closes, the end of the stream reads again, and a frame is
/// answered with a reply (the store changed as its command says) or, where it decodes to
/// no command, ends the connection with the refusal message.
pub open spec fn serve_step_spec(db: Map<Seq<char>, Seq<u8>>, outcome: ReadOutcomeView) -> (
    Map<Seq<char>, Seq<u8>>,
    StepView,
) {
    match outcome {
        ReadOutcomeView::Failed => (db, StepView::Close),
        ReadOutcomeView::Ended => (db, StepView::ReadAgain),
        ReadOutcomeView::Received(frame) => match command_of_frame(frame) {
            Ok(c) => (store_after(db, c), StepView::Reply(response_to(db, c))),
            Err(_) => (db, StepView::Abort(undecodable_message())),
        },
    }
}

/// A step after which the connection is no longer served.
pub open spec fn ends_connection(step: StepView) -> bool {
    step is Close || step is Abort
}

/// A connection served against the store through a sequence of reads: each read gets
/// exactly one step, in the order of the reads, each against the store that the reads
/// before it left; the first step that ends the connection is the last one, and the
/// reads after it are not looked at. Gives the store at the end and the steps.
pub open spec fn serve_trace(db: Map<Seq<char>, Seq<u8>>, reads: Seq<ReadOutcomeView>) -> (
    Map<Seq<char>, Seq<u8>>,
    Seq<StepView>,
)
    decreases reads.len(),
{
    if reads.len() == 0 {
        (db, Seq::empty())
    } else {
        let (db1, step) = serve_step_spec(db, reads[0]);
        if ends_connection(step) {
            (db1, seq![step])
        } else {
            let (db2, rest) = serve_trace(db1, reads.drop_first());
            (db2, seq![step] + rest)
        }
    }
}

/// The next step of a connection served against the store, after a read.
pub fn serve_step(db: &mut Db, outcome: ReadOutcome) -> (step: Step)
    ensures
        (final(db)@, step@) == serve_step_spec(old(db)@, outcome@),
        outcome@ matches ReadOutcomeView::Received(f) ==> is_set_request(f) ==> step@
            == StepView::Reply(RespFrameView::Simple("OK"@)) && final(db)@ == old(db)@.insert(
            frame_text(f->Array_0[1]).unwrap(),
            frame_bytes(f->Array_0[2]).unwrap(),
        ),
        outcome@ matches ReadOutcomeView::Received(f) ==> is_get_request(f) ==> step@
            == StepView::Reply(lookup(old(db)@, frame_text(f->Array_0[1]).unwrap()))
            && final(db)@ == old(db)@,
{
    match outcome {
        ReadOutcome::Failed => Step::Close,
        ReadOutcome::Ended => Step::ReadAgain,
        ReadOutcome::Received(frame) => match process_frame(db, frame) {
            Ok(response) => Step::Reply(response),
            Err(message) => Step::Abort(message),
        },
    }
}

/// The placeholder server's answer to a decoding result, which keeps no store.
pub fn placeholder_answer(decoded: Result<Command, String>) -> (r: Result<RespFrame, String>)
    ensures
        match decoded_view(decoded) {
            Ok(c) => r is Ok && r->Ok_0@ == placeholder_response(c),
            Err(_) => r is Err && r->Err_0@ == undecodable_message(),
        },
{
    match decoded {
        Ok(Command::SetValue { .. }) => Ok(RespFrame::Simple("OK".to_string())),
        Ok(Command::Get { .. }) => Ok(RespFrame::Bulk(vec![118u8, 97u8, 108u8, 117u8, 101u8])),
        Ok(Command::Other { .. }) => Ok(RespFrame::Null),
        Err(_) => Err("could not disasemble into command".to_string()),
    }
}

/// The placeholder server's answer to a frame.
pub fn placeholder_process_frame(frame: RespFrame) -> (r: Result<RespFrame, String>)
    ensures
        match command_of_frame(frame@) {
            Ok(c) => r is Ok && r->Ok_0@ == placeholder_response(c),
            Err(_) => r is Err && r->Err_0@ == undecodable_message(),
        },
        is_set_request(frame@) ==> r is Ok && r->Ok_0@ == RespFrameView::Simple("OK"@),
        is_get_request(frame@) ==> r is Ok && r->Ok_0@ == placeholder_value(),
{
    let decoded = decode_command(frame);
    placeholder_answer(decoded)
}

/// The next step of a connection of the placeholder server, after a read.
pub fn placeholder_step(outcome: ReadOutcome) -> (step: Step)
    ensures
        match outcome {
            ReadOutcome::Failed => step is Close,
            ReadOutcome::Ended => step is ReadAgain,
            ReadOutcome::Received(frame) => match command_of_frame(frame@) {
                Ok(c) => step is Reply && step->Reply_0@ == placeholder_response(c),
                Err(_) => step is Abort && step->Abort_0@ == undecodable_message(),
            },
        },
        outcome@ matches ReadOutcomeView::Received(f) ==> is_set_request(f) ==> step@
            == StepView::Reply(RespFrameView::Simple("OK"@)),
        outcome@ matches ReadOutcomeView::Received(f) ==> is_get_request(f) ==> step@
            == StepView::Reply(placeholder_value()),
{
    match outcome {
        ReadOutcome::Failed => Step::Close,
        ReadOutcome::Ended => Step::ReadAgain,
        ReadOutcome::Received(frame) => match placeholder_process_frame(frame) {
            Ok(response) => Step::Reply(response),
            Err(message) => Step::Abort(message),
        },
    }
}

} // verus!

verus! {

/// Serves a connection against the store through a sequence of reads, one step per read,
/// until a step ends the connection or the reads run out; gives the steps in order.
pub fn serve_reads(db: &mut Db, reads: Vec<ReadOutcome>) -> (steps: Vec<Step>)
    ensures
        (final(db)@, steps@.map_values(|s: Step| s@)) == serve_trace(
            old(db)@,
            reads@.map_values(|o: ReadOutcome| o@),
        ),
{
    let ghost all = reads@.map_values(|o: ReadOutcome| o@);
    let ghost start = db@;
    let mut reads = reads;
    let mut steps: Vec<Step> = Vec::new();
    while reads.len() > 0
        invariant_except_break
            serve_trace(start, all) == (
                serve_trace(db@, reads@.map_values(|o: ReadOutcome| o@)).0,
                steps@.map_values(|s: Step| s@) + serve_trace(
                    db@,
                    reads@.map_values(|o: ReadOutcome| o@),
                ).1,
            ),
        ensures
            serve_trace(start, all) == (db@, steps@.map_values(|s: Step| s@)),
        decreases reads.len(),
    {
        let ghost rest = reads@.map_values(|o: ReadOutcome| o@);
        let ghost before = db@;
        let ghost done = steps@.map_values(|s: Step| s@);
        let outcome = reads.remove(0);
        assert(reads@.map_values(|o: ReadOutcome| o@) =~= rest.drop_first());
        let step = serve_step(db, outcome);
        let stop = match step {
            Step::Close => true,
            Step::Abort(_) => true,
            _ => false,
        };
        let ghost sv = step@;
        steps.push(step);
        assert(steps@.map_values(|s: Step| s@) =~= done.push(sv));
        if stop {
            assert(serve_trace(before, rest) == (db@, seq![sv]));
            assert(done + seq![sv] =~= done.push(sv));
            break;
        }
        let ghost next = serve_trace(db@, rest.drop_first());
        assert(serve_trace(before, rest) == (next.0, seq![sv] + next.1));
        assert(done + (seq![sv] + next.1) =~= done.push(sv) + next.1);
    }
    proof {
        if reads@.len() == 0 {
            assert(reads@.map_values(|o: ReadOutcome| o@) =~= Seq::<ReadOutcomeView>::empty());
            assert(steps@.map_values(|s: Step| s@) + Seq::<StepView>::empty() =~= steps@.map_values(
                |s: Step| s@,
            ));
        }
    }
    steps
}

} // verus!
