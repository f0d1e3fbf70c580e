use vstd::prelude::*;

use crate::command::{command_of_frame, CommandView};
use crate::frame::RespFrameView;
use crate::server::{
    ends_connection, placeholder_response, response_to, serve_step_spec, serve_trace,
    store_after, ReadOutcomeView, StepView,
};

verus! {

/// A get of a key after a set of that key answers with the value that was set.
pub proof fn law_get_after_set(
    db: Map<Seq<char>, Seq<u8>>,
    key: Seq<char>,
    value: Seq<u8>,
    expire_ms: Option<u128>,
)
    ensures
        response_to(
            store_after(db, CommandView::SetValue { key, value, expire_ms }),
            CommandView::Get { key },
        ) == RespFrameView::Bulk(value),
{
}

/// A set of one key leaves what a get of any other key answers.
pub proof fn law_set_keeps_other_keys(
    db: Map<Seq<char>, Seq<u8>>,
    key: Seq<char>,
    value: Seq<u8>,
    expire_ms: Option<u128>,
    other: Seq<char>,
)
    requires
        other != key,
    ensures
        response_to(
            store_after(db, CommandView::SetValue { key, value, expire_ms }),
            CommandView::Get { key: other },
        ) == response_to(db, CommandView::Get { key: other }),
{
}

/// Of two sets of one key, the later one wins: the store is as if only it had been made.
pub proof fn law_last_set_wins(
    db: Map<Seq<char>, Seq<u8>>,
    key: Seq<char>,
    first: Seq<u8>,
    second: Seq<u8>,
    first_expire_ms: Option<u128>,
    second_expire_ms: Option<u128>,
)
    ensures
        store_after(
            store_after(db, CommandView::SetValue { key, value: first, expire_ms: first_expire_ms }),
            CommandView::SetValue { key, value: second, expire_ms: second_expire_ms },
        ) == store_after(
            db,
            CommandView::SetValue { key, value: second, expire_ms: second_expire_ms },
        ),
{
    assert(db.insert(key, first).insert(key, second) =~= db.insert(key, second));
}

/// A set is answered with `OK`, whatever the store holds.
pub proof fn law_set_answers_ok(
    db: Map<Seq<char>, Seq<u8>>,
    key: Seq<char>,
    value: Seq<u8>,
    expire_ms: Option<u128>,
)
    ensures
        response_to(db, CommandView::SetValue { key, value, expire_ms }) == RespFrameView::Simple(
            "OK"@,
        ),
{
}

/// A get leaves the store as it was, and answers null exactly where the key is unbound.
pub proof fn law_get_reads_only(db: Map<Seq<char>, Seq<u8>>, key: Seq<char>)
    ensures
        store_after(db, CommandView::Get { key }) == db,
        (response_to(db, CommandView::Get { key }) == RespFrameView::Null) <==> !db.contains_key(
            key,
        ),
        db.contains_key(key) ==> response_to(db, CommandView::Get { key }) == RespFrameView::Bulk(
            db[key],
        ),
{
}

/// A set binds its key to its value and changes nothing else, whatever expiry it carries.
pub proof fn law_set_binds_key(
    db: Map<Seq<char>, Seq<u8>>,
    key: Seq<char>,
    value: Seq<u8>,
    expire_ms: Option<u128>,
)
    ensures
        store_after(db, CommandView::SetValue { key, value, expire_ms }) == db.insert(key, value),
{
}

/// Any command other than get and set leaves the store as it was and is answered with null.
pub proof fn law_other_commands_ignored(db: Map<Seq<char>, Seq<u8>>, description: Seq<char>)
    ensures
        store_after(db, CommandView::Other { description }) == db,
        response_to(db, CommandView::Other { description }) == RespFrameView::Null,
{
}

/// Serving a sequence of reads gives at most one step per read, in the order of the reads:
/// the step of the read at position `i` is what that read is answered against the store
/// that the reads before it left, and only the last step may end the connection.
pub proof fn law_steps_follow_reads_in_order(
    db: Map<Seq<char>, Seq<u8>>,
    reads: Seq<ReadOutcomeView>,
    i: int,
)
    ensures
        serve_trace(db, reads).1.len() <= reads.len(),
        0 <= i < serve_trace(db, reads).1.len() ==> serve_trace(db, reads).1[i]
            == serve_step_spec(serve_trace(db, reads.take(i)).0, reads[i]).1,
        0 <= i < serve_trace(db, reads).1.len() - 1 ==> !ends_connection(
            serve_trace(db, reads).1[i],
        ),
    decreases reads.len(),
{
    if reads.len() > 0 {
        let (db1, step) = serve_step_spec(db, reads[0]);
        assert(reads.take(0) =~= Seq::<ReadOutcomeView>::empty());
        if !ends_connection(step) {
            let tail = reads.drop_first();
            law_steps_follow_reads_in_order(db1, tail, i - 1);
            if 0 < i < serve_trace(db, reads).1.len() {
                assert(reads.take(i).drop_first() =~= tail.take(i - 1));
                assert(reads.take(i)[0] == reads[0]);
                assert(tail[i - 1] == reads[i]);
            }
        }
    }
}

/// When every read brings a frame that decodes to a command, each read is answered by
/// exactly one reply, in the order of the reads.
pub proof fn law_every_request_answered(db: Map<Seq<char>, Seq<u8>>, reads: Seq<ReadOutcomeView>)
    requires
        forall|j: int|
            0 <= j < reads.len() ==> (#[trigger] reads[j] matches ReadOutcomeView::Received(f)
                && command_of_frame(f) is Ok),
    ensures
        serve_trace(db, reads).1.len() == reads.len(),
        forall|j: int| 0 <= j < reads.len() ==> #[trigger] serve_trace(db, reads).1[j] is Reply,
    decreases reads.len(),
{
    if reads.len() > 0 {
        assert(reads[0] matches ReadOutcomeView::Received(f) && command_of_frame(f) is Ok);
        let (db1, step) = serve_step_spec(db, reads[0]);
        let tail = reads.drop_first();
        assert forall|j: int| 0 <= j < tail.len() implies (#[trigger] tail[j] matches ReadOutcomeView::Received(f)
            && command_of_frame(f) is Ok) by {
            assert(tail[j] == reads[j + 1]);
        }
        law_every_request_answered(db1, tail);
        assert forall|j: int| 0 <= j < reads.len() implies #[trigger] serve_trace(db, reads).1[j] is Reply by {
            if j > 0 {
                assert(serve_trace(db, reads).1[j] == serve_trace(db1, tail).1[j - 1]);
            }
        }
    }
}

/// A connection's read that brings a frame decoding to a set, with or without an expiry,
/// is answered `OK`, and the store afterwards binds the key to the value.
pub proof fn law_serve_set(
    db: Map<Seq<char>, Seq<u8>>,
    frame: RespFrameView,
    key: Seq<char>,
    value: Seq<u8>,
    expire_ms: Option<u128>,
)
    requires
        command_of_frame(frame) == Ok::<CommandView, Seq<char>>(
            (CommandView::SetValue { key, value, expire_ms }),
        ),
    ensures
        serve_step_spec(db, ReadOutcomeView::Received(frame)) == (
            db.insert(key, value),
            StepView::Reply(RespFrameView::Simple("OK"@)),
        ),
{
}

/// A connection's read that brings a frame decoding to a get is answered with the key's
/// value, or with null where the key is unbound, and leaves the store as it was.
pub proof fn law_serve_get(db: Map<Seq<char>, Seq<u8>>, frame: RespFrameView, key: Seq<char>)
    requires
        command_of_frame(frame) == Ok::<CommandView, Seq<char>>((CommandView::Get { key })),
    ensures
        serve_step_spec(db, ReadOutcomeView::Received(frame)).0 == db,
        db.contains_key(key) ==> serve_step_spec(db, ReadOutcomeView::Received(frame)).1
            == StepView::Reply(RespFrameView::Bulk(db[key])),
        !db.contains_key(key) ==> serve_step_spec(db, ReadOutcomeView::Received(frame)).1
            == StepView::Reply(RespFrameView::Null),
{
}

/// A connection's read that brings a frame decoding to any other command is answered with
/// null and leaves the store as it was.
pub proof fn law_serve_other(
    db: Map<Seq<char>, Seq<u8>>,
    frame: RespFrameView,
    description: Seq<char>,
)
    requires
        command_of_frame(frame) == Ok::<CommandView, Seq<char>>(
            (CommandView::Other { description }),
        ),
    ensures
        serve_step_spec(db, ReadOutcomeView::Received(frame)) == (
            db,
            StepView::Reply(RespFrameView::Null),
        ),
{
}

/// A connection's read that brings a frame that decodes to no command, whatever its
/// shape, gives up on the connection with the refusal message and leaves the store as it
/// was.
pub proof fn law_serve_refuses_undecodable(db: Map<Seq<char>, Seq<u8>>, frame: RespFrameView)
    requires
        command_of_frame(frame) is Err,
    ensures
        serve_step_spec(db, ReadOutcomeView::Received(frame)) == (
            db,
            StepView::Abort("could not disasemble into command"@),
        ),
{
}

/// A failed read closes the connection and the end of the stream reads again; neither
/// changes the store.
pub proof fn law_serve_without_frame(db: Map<Seq<char>, Seq<u8>>)
    ensures
        serve_step_spec(db, ReadOutcomeView::Failed) == (db, StepView::Close),
        serve_step_spec(db, ReadOutcomeView::Ended) == (db, StepView::ReadAgain),
{
}

/// On one connection, a set of a key followed by a get of that key is answered `OK`, then
/// with the value that was set, whatever expiry the set carried; the store ends with the
/// key bound to the value.
pub proof fn law_connection_get_after_set(
    db: Map<Seq<char>, Seq<u8>>,
    set_frame: RespFrameView,
    get_frame: RespFrameView,
    key: Seq<char>,
    value: Seq<u8>,
    expire_ms: Option<u128>,
)
    requires
        command_of_frame(set_frame) == Ok::<CommandView, Seq<char>>(
            (CommandView::SetValue { key, value, expire_ms }),
        ),
        command_of_frame(get_frame) == Ok::<CommandView, Seq<char>>((CommandView::Get { key })),
    ensures
        serve_trace(
            db,
            seq![ReadOutcomeView::Received(set_frame), ReadOutcomeView::Received(get_frame)],
        ) == (
            db.insert(key, value),
            seq![
                StepView::Reply(RespFrameView::Simple("OK"@)),
                StepView::Reply(RespFrameView::Bulk(value)),
            ],
        ),
{
    let reads = seq![ReadOutcomeView::Received(set_frame), ReadOutcomeView::Received(get_frame)];
    let db1 = db.insert(key, value);
    assert(reads.drop_first() =~= seq![ReadOutcomeView::Received(get_frame)]);
    assert(reads.drop_first().drop_first() =~= Seq::<ReadOutcomeView>::empty());
    assert(db1.contains_key(key) && db1[key] == value);
    let r1 = reads.drop_first();
    assert(r1[0] == ReadOutcomeView::Received(get_frame));
    assert(serve_step_spec(db1, r1[0]) == (
        db1,
        StepView::Reply(RespFrameView::Bulk(value)),
    ));
    assert(r1.drop_first() =~= Seq::<ReadOutcomeView>::empty());
    assert(serve_trace(db1, r1.drop_first()) == (db1, Seq::<StepView>::empty()));
    assert(seq![StepView::Reply(RespFrameView::Bulk(value))] + Seq::<StepView>::empty() =~= seq![
        StepView::Reply(RespFrameView::Bulk(value)),
    ]);
    assert(serve_trace(db1, reads.drop_first()) == (
        db1,
        seq![StepView::Reply(RespFrameView::Bulk(value))],
    ));
    assert(seq![StepView::Reply(RespFrameView::Simple("OK"@))] + seq![
        StepView::Reply(RespFrameView::Bulk(value)),
    ] =~= seq![
        StepView::Reply(RespFrameView::Simple("OK"@)),
        StepView::Reply(RespFrameView::Bulk(value)),
    ]);
}

/// A read that brings a frame decoding to a set.
pub open spec fn is_set_read(read: ReadOutcomeView) -> bool {
    read matches ReadOutcomeView::Received(f) && command_of_frame(f) matches Ok(
        CommandView::SetValue { .. },
    )
}

/// Serving a connection whose reads bring no set leaves the store as it was, however the
/// connection ends.
pub proof fn law_store_changes_only_by_sets(
    db: Map<Seq<char>, Seq<u8>>,
    reads: Seq<ReadOutcomeView>,
)
    requires
        forall|j: int| 0 <= j < reads.len() ==> !is_set_read(#[trigger] reads[j]),
    ensures
        serve_trace(db, reads).0 == db,
    decreases reads.len(),
{
    if reads.len() > 0 {
        assert(!is_set_read(reads[0]));
        let (db1, step) = serve_step_spec(db, reads[0]);
        assert(db1 == db);
        if !ends_connection(step) {
            let tail = reads.drop_first();
            assert forall|j: int| 0 <= j < tail.len() implies !is_set_read(#[trigger] tail[j]) by {
                assert(tail[j] == reads[j + 1]);
            }
            law_store_changes_only_by_sets(db, tail);
        }
    }
}

/// When a served connection ends (closed on a failed read, or given up on a frame that
/// decodes to no command), the store at its end is the store that the reads before the
/// ending one left.
pub proof fn law_ending_step_keeps_store(db: Map<Seq<char>, Seq<u8>>, reads: Seq<ReadOutcomeView>)
    requires
        serve_trace(db, reads).1.len() > 0,
        ends_connection(serve_trace(db, reads).1.last()),
    ensures
        serve_trace(db, reads).0 == serve_trace(
            db,
            reads.take(serve_trace(db, reads).1.len() - 1),
        ).0,
    decreases reads.len(),
{
    let (db1, step) = serve_step_spec(db, reads[0]);
    assert(reads.take(0) =~= Seq::<ReadOutcomeView>::empty());
    if ends_connection(step) {
        assert(serve_step_spec(db, reads[0]).0 == db);
    } else {
        let tail = reads.drop_first();
        let n = serve_trace(db, reads).1.len();
        assert(serve_trace(db, reads).1 == seq![step] + serve_trace(db1, tail).1);
        assert(serve_trace(db1, tail).1.len() > 0);
        assert(serve_trace(db1, tail).1.last() == serve_trace(db, reads).1.last());
        law_ending_step_keeps_store(db1, tail);
        law_steps_follow_reads_in_order(db, reads, 0);
        assert(n == 1 + serve_trace(db1, tail).1.len());
        let p = reads.take(n - 1);
        assert(p.len() > 0);
        assert(p[0] == reads[0]);
        assert(p.drop_first() =~= tail.take(n - 2));
    }
}

/// The placeholder server replies `OK` to every set, whatever its expiry, the bytes of
/// the text `value` to every get, and null to every other command.
pub proof fn law_placeholder_replies(
    key: Seq<char>,
    value: Seq<u8>,
    expire_ms: Option<u128>,
    description: Seq<char>,
)
    ensures
        placeholder_response(CommandView::SetValue { key, value, expire_ms })
            == RespFrameView::Simple("OK"@),
        placeholder_response(CommandView::Get { key }) == RespFrameView::Bulk(
            seq![118u8, 97u8, 108u8, 117u8, 101u8],
        ),
        placeholder_response(CommandView::Other { description }) == RespFrameView::Null,
{
}

} // verus!
