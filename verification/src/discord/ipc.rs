//! The wire format of Discord's local socket, and where that socket may be.

use vstd::prelude::*;
use vstd::slice::slice_subrange;

use crate::json::{
    insert_member, int_value, new_members, null_value, object_value, text_value, value_text,
    JsonView,
};
use crate::text::decimal_text;

verus! {

pub const OP_HANDSHAKE: u32 = 0;

pub const OP_FRAME: u32 = 1;

pub const OP_CLOSE: u32 = 2;

pub const OP_PING: u32 = 3;

pub const OP_PONG: u32 = 4;

pub const MAX_FRAME_LEN: u32 = 65536;

#[derive(Clone, Copy, Debug, PartialEq, Eq, Structural)]
pub enum FrameError {
    /// The payload does not fit the frame's length field, or the length field
    /// announces more than a frame may hold.
    TooLarge,
    /// The input ends before the frame does.
    Truncated,
}

/// The four bytes of `v`, least significant first.
pub open spec fn le_bytes(v: u32) -> Seq<u8> {
    seq![
        (v % 256) as u8,
        (v / 256 % 256) as u8,
        (v / 65536 % 256) as u8,
        (v / 16777216 % 256) as u8,
    ]
}

/// The number that four bytes spell, least significant first.
pub open spec fn le_value(b: Seq<u8>) -> int {
    b[0] + 256 * b[1] + 65536 * b[2] + 16777216 * b[3]
}

/// A frame on the wire: opcode, payload length, payload.
pub open spec fn frame(op: u32, payload: Seq<u8>) -> Seq<u8> {
    le_bytes(op) + le_bytes(payload.len() as u32) + payload
}

/// What the first frame of `input` holds.
pub open spec fn parsed_frame(input: Seq<u8>) -> Result<(u32, Seq<u8>), FrameError> {
    if input.len() < 8 {
        Err(FrameError::Truncated)
    } else {
        let len = le_value(input.subrange(4, 8));
        if len > MAX_FRAME_LEN {
            Err(FrameError::TooLarge)
        } else if input.len() < 8 + len {
            Err(FrameError::Truncated)
        } else {
            Ok((le_value(input.subrange(0, 4)) as u32, input.subrange(8, 8 + len)))
        }
    }
}

/// What a frame header announces.
pub open spec fn parsed_header(hdr: Seq<u8>) -> Result<(u32, u32), FrameError> {
    let len = le_value(hdr.subrange(4, 8));
    if len > MAX_FRAME_LEN {
        Err(FrameError::TooLarge)
    } else {
        Ok((le_value(hdr.subrange(0, 4)) as u32, len as u32))
    }
}

/// Reading back four little-endian bytes gives the number they were made of.
pub proof fn le_bytes_round_trip(v: u32)
    ensures
        le_value(le_bytes(v)) == v,
{
    assert(v == v % 256 + 256 * (v / 256 % 256) + 65536 * (v / 65536 % 256) + 16777216 * (v
        / 16777216 % 256)) by (bit_vector);
}

/// A frame that a peer accepts reads back as the opcode and the payload it was
/// made of, whatever follows it.
pub proof fn frame_round_trip(op: u32, payload: Seq<u8>, rest: Seq<u8>)
    requires
        payload.len() <= MAX_FRAME_LEN,
    ensures
        parsed_frame(frame(op, payload) + rest) == Ok::<(u32, Seq<u8>), FrameError>((op, payload)),
{
    let input = frame(op, payload) + rest;
    assert(input.subrange(0, 4) =~= le_bytes(op));
    assert(input.subrange(4, 8) =~= le_bytes(payload.len() as u32));
    le_bytes_round_trip(op);
    le_bytes_round_trip(payload.len() as u32);
    assert(input.subrange(8, 8 + payload.len() as int) =~= payload);
}

/// A frame cut short anywhere is never taken for a whole one.
pub proof fn cut_frame_is_truncated(op: u32, payload: Seq<u8>, cut: int)
    requires
        payload.len() <= MAX_FRAME_LEN,
        0 <= cut < frame(op, payload).len(),
    ensures
        parsed_frame(frame(op, payload).take(cut)) == Err::<(u32, Seq<u8>), FrameError>(
            FrameError::Truncated,
        ),
{
    let input = frame(op, payload).take(cut);
    if cut >= 8 {
        assert(input.subrange(4, 8) =~= le_bytes(payload.len() as u32));
        le_bytes_round_trip(payload.len() as u32);
    }
}

fn push_le(out: &mut Vec<u8>, v: u32)
    ensures
        final(out)@ == old(out)@ + le_bytes(v),
{
    out.push((v % 256) as u8);
    out.push((v / 256 % 256) as u8);
    out.push((v / 65536 % 256) as u8);
    out.push((v / 16777216 % 256) as u8);
    assert(out@ =~= old(out)@ + le_bytes(v));
}

fn read_le(b: &[u8], at: usize) -> (v: u32)
    requires
        at + 4 <= b@.len(),
    ensures
        v == le_value(b@.subrange(at as int, at + 4)),
{
    b[at] as u32 + 256 * (b[at + 1] as u32) + 65536 * (b[at + 2] as u32) + 16777216 * (b[at
        + 3] as u32)
}

/// Appends one frame to `out`.
pub fn write_frame(out: &mut Vec<u8>, op: u32, payload: &[u8]) -> (r: Result<(), FrameError>)
    ensures
        r is Ok <==> payload@.len() <= u32::MAX,
        r is Ok ==> final(out)@ == old(out)@ + frame(op, payload@),
        r matches Err(e) ==> e == FrameError::TooLarge && final(out)@ == old(out)@,
{
    if payload.len() as u64 > 0xFFFF_FFFF {
        return Err(FrameError::TooLarge);
    }
    push_le(out, op);
    push_le(out, payload.len() as u32);
    let ghost head = out@;
    out.extend_from_slice(payload);
    assert(out@ =~= head + payload@);
    assert(out@ =~= old(out)@ + frame(op, payload@));
    Ok(())
}

/// The opcode and the payload length in an eight-byte frame header.
pub fn read_header(hdr: &[u8]) -> (r: Result<(u32, u32), FrameError>)
    requires
        hdr@.len() == 8,
    ensures
        r == parsed_header(hdr@),
{
    let op: u32 = read_le(hdr, 0);
    let len: u32 = read_le(hdr, 4);
    if len > MAX_FRAME_LEN {
        return Err(FrameError::TooLarge);
    }
    Ok((op, len))
}

/// The first frame of `input`.
pub fn read_frame(input: &[u8]) -> (r: Result<(u32, Vec<u8>), FrameError>)
    ensures
        (match r {
            Ok((op, payload)) => Ok((op, payload@)),
            Err(e) => Err(e),
        }) == parsed_frame(input@),
{
    if input.len() < 8 {
        return Err(FrameError::Truncated);
    }
    let hdr = slice_subrange(input, 0, 8);
    assert(hdr@.subrange(0, 4) =~= input@.subrange(0, 4));
    assert(hdr@.subrange(4, 8) =~= input@.subrange(4, 8));
    let (op, len) = match read_header(hdr) {
        Err(e) => return Err(e),
        Ok(h) => h,
    };
    if input.len() - 8 < len as usize {
        return Err(FrameError::Truncated);
    }
    let body = slice_subrange(input, 8, 8 + len as usize);
    let mut payload: Vec<u8> = Vec::new();
    payload.extend_from_slice(body);
    assert(payload@ =~= body@);
    Ok((op, payload))
}

/// What the reader does with a frame from Discord.
#[derive(Debug)]
pub enum ReaderStep {
    /// Send these bytes and read on.
    Reply(Vec<u8>),
    /// The peer closed the connection: stop reading.
    Closed,
    /// Read on.
    Ignore,
}

/// Answers a ping with a pong that carries the same payload, ends on a close,
/// and passes over everything else.
pub fn on_frame(op: u32, payload: &[u8]) -> (r: ReaderStep)
    requires
        payload@.len() <= MAX_FRAME_LEN,
    ensures
        op == OP_PING ==> (r matches ReaderStep::Reply(b) && b@ == frame(OP_PONG, payload@)),
        op == OP_CLOSE ==> r is Closed,
        op != OP_PING && op != OP_CLOSE ==> r is Ignore,
{
    if op == OP_PING {
        let mut out: Vec<u8> = Vec::new();
        let written = write_frame(&mut out, OP_PONG, payload);
        assert(written is Ok);
        assert(out@ =~= frame(OP_PONG, payload@));
        ReaderStep::Reply(out)
    } else if op == OP_CLOSE {
        ReaderStep::Closed
    } else {
        ReaderStep::Ignore
    }
}

/// The handshake's document.
pub open spec fn handshake_object(application_id: Seq<char>) -> JsonView {
    JsonView::Object(
        Map::empty().insert("v"@, JsonView::Int(1)).insert(
            "client_id"@,
            JsonView::Text(application_id),
        ),
    )
}

/// What an optional value holds: null where there is none.
pub open spec fn optional_holds(v: Option<serde_json::Value>) -> JsonView {
    match v {
        Some(v) => crate::json::holds(v),
        None => JsonView::Null,
    }
}

/// The document of a presence update. A null in place of a card clears the
/// presence.
pub open spec fn set_activity_object(activity: JsonView, pid: u32, nonce: u64) -> JsonView {
    let args = Map::empty().insert("pid"@, JsonView::Int(pid as int)).insert(
        "activity"@,
        activity,
    );
    JsonView::Object(
        Map::empty().insert("cmd"@, JsonView::Text("SET_ACTIVITY"@)).insert(
            "nonce"@,
            JsonView::Text(crate::text::decimal(nonce as nat)),
        ).insert("args"@, JsonView::Object(args)),
    )
}

/// The bytes of a document's text.
pub open spec fn doc_bytes(doc: JsonView) -> Seq<u8> {
    vstd::utf8::encode_utf8(crate::json::json_text(doc))
}

/// The frame with a document's text, unless the text is too long for one.
pub open spec fn doc_frame_result(op: u32, doc: JsonView) -> Result<Seq<u8>, FrameError> {
    if doc_bytes(doc).len() <= u32::MAX {
        Ok(frame(op, doc_bytes(doc)))
    } else {
        Err(FrameError::TooLarge)
    }
}

pub open spec fn bytes_view(r: Result<Vec<u8>, FrameError>) -> Result<Seq<u8>, FrameError> {
    match r {
        Ok(bytes) => Ok(bytes@),
        Err(e) => Err(e),
    }
}

fn doc_frame(op: u32, doc: &serde_json::Value) -> (r: Result<Vec<u8>, FrameError>)
    ensures
        bytes_view(r) == doc_frame_result(op, crate::json::holds(*doc)),
{
    let s = value_text(doc);
    let mut out: Vec<u8> = Vec::new();
    match write_frame(&mut out, op, s.as_str().as_bytes()) {
        Err(e) => Err(e),
        Ok(_) => {
            assert(out@ =~= frame(op, vstd::utf8::encode_utf8(s@)));
            Ok(out)
        },
    }
}

fn handshake_doc(application_id: &str) -> (doc: serde_json::Value)
    ensures
        crate::json::holds(doc) == handshake_object(application_id@),
{
    let mut o = new_members();
    insert_member(&mut o, "v", int_value(1));
    insert_member(&mut o, "client_id", text_value(application_id));
    object_value(o)
}

fn set_activity_doc(activity: Option<serde_json::Value>, pid: u32, nonce: u64) -> (doc:
    serde_json::Value)
    ensures
        crate::json::holds(doc) == set_activity_object(optional_holds(activity), pid, nonce),
{
    let card: serde_json::Value = match activity {
        Some(a) => a,
        None => null_value(),
    };
    let mut args = new_members();
    insert_member(&mut args, "pid", int_value(pid as i64));
    insert_member(&mut args, "activity", card);
    let mut o = new_members();
    insert_member(&mut o, "cmd", text_value("SET_ACTIVITY"));
    insert_member(&mut o, "nonce", text_value(decimal_text(nonce).as_str()));
    insert_member(&mut o, "args", object_value(args));
    object_value(o)
}

/// The bytes that open a connection for `application_id`.
pub fn handshake_frame(application_id: &str) -> (r: Result<Vec<u8>, FrameError>)
    ensures
        bytes_view(r) == doc_frame_result(OP_HANDSHAKE, handshake_object(application_id@)),
{
    doc_frame(OP_HANDSHAKE, &handshake_doc(application_id))
}

/// The bytes that publish a presence card, or clear it.
pub fn send_activity(activity: Option<serde_json::Value>, pid: u32, nonce: u64) -> (r: Result<
    Vec<u8>,
    FrameError,
>)
    ensures
        bytes_view(r) == doc_frame_result(
            OP_FRAME,
            set_activity_object(optional_holds(activity), pid, nonce),
        ),
{
    doc_frame(OP_FRAME, &set_activity_doc(activity, pid, nonce))
}

/// An update that Discord accepts reads back as the text of the card that was
/// given.
pub proof fn updates_read_back(activity: JsonView, pid: u32, nonce: u64)
    requires
        doc_bytes(set_activity_object(activity, pid, nonce)).len() <= MAX_FRAME_LEN,
    ensures
        doc_frame_result(OP_FRAME, set_activity_object(activity, pid, nonce)) matches Ok(bytes)
            && parsed_frame(bytes) == Ok::<(u32, Seq<u8>), FrameError>(
            (OP_FRAME, doc_bytes(set_activity_object(activity, pid, nonce))),
        ),
{
    let payload = doc_bytes(set_activity_object(activity, pid, nonce));
    frame_round_trip(OP_FRAME, payload, seq![]);
    assert(frame(OP_FRAME, payload) + seq![] =~= frame(OP_FRAME, payload));
}

/// Bytes come least significant first, whatever they are.
pub proof fn least_significant_bytes_come_first(a: u8, b: u8, c: u8, d: u8)
    ensures
        le_bytes(
            (a as int + 256 * (b as int) + 65536 * (c as int) + 16777216 * (d as int)) as u32,
        ) == seq![a, b, c, d],
        le_value(seq![a, b, c, d]) == a as int + 256 * (b as int) + 65536 * (c as int) + 16777216 * (
        d as int),
{
    let v = (a as int + 256 * (b as int) + 65536 * (c as int) + 16777216 * (d as int)) as u32;
    let (a1, b1, c1, d1) = (a as u32, b as u32, c as u32, d as u32);
    assert(v == a1 + 256 * b1 + 65536 * c1 + 16777216 * d1);
    assert(v % 256 == a1 && v / 256 % 256 == b1 && v / 65536 % 256 == c1 && v / 16777216 % 256
        == d1) by (bit_vector)
        requires
            v == a1 + 256 * b1 + 65536 * c1 + 16777216 * d1,
            a1 < 256,
            b1 < 256,
            c1 < 256,
            d1 < 256,
    ;
    assert(le_bytes(v) =~= seq![a, b, c, d]);
}

/// On the wire a frame is its opcode, the length of its payload, four bytes
/// each, and the payload.
pub proof fn frames_start_with_their_opcode(op: u32, payload: Seq<u8>)
    ensures
        frame(op, payload).len() == 8 + payload.len(),
        le_value(frame(op, payload).subrange(0, 4)) == op,
        payload.len() <= u32::MAX ==> le_value(frame(op, payload).subrange(4, 8)) == payload.len(),
        frame(op, payload).skip(8) == payload,
{
    le_bytes_round_trip(op);
    le_bytes_round_trip(payload.len() as u32);
    assert(frame(op, payload).subrange(0, 4) =~= le_bytes(op));
    assert(frame(op, payload).subrange(4, 8) =~= le_bytes(payload.len() as u32));
    assert(frame(op, payload).skip(8) =~= payload);
}

/// A header announces what its frame holds, and none announces more than a
/// frame may hold.
pub proof fn headers_announce_their_frame(op: u32, len: u32)
    ensures
        len <= 65536 ==> parsed_header(le_bytes(op) + le_bytes(len)) == Ok::<
            (u32, u32),
            FrameError,
        >((op, len)),
        len > 65536 ==> parsed_header(le_bytes(op) + le_bytes(len)) == Err::<
            (u32, u32),
            FrameError,
        >(FrameError::TooLarge),
        OP_HANDSHAKE == 0 && OP_FRAME == 1 && OP_CLOSE == 2 && OP_PING == 3 && OP_PONG == 4,
{
    let h = le_bytes(op) + le_bytes(len);
    assert(h.subrange(0, 4) =~= le_bytes(op));
    assert(h.subrange(4, 8) =~= le_bytes(len));
    le_bytes_round_trip(op);
    le_bytes_round_trip(len);
}

/// A frame that announces too much is refused before its payload is looked at,
/// and one that is not all there is waited for.
pub proof fn oversized_frames_are_refused(op: u32, len: u32, rest: Seq<u8>)
    ensures
        len > 65536 ==> parsed_frame(le_bytes(op) + le_bytes(len) + rest) == Err::<
            (u32, Seq<u8>),
            FrameError,
        >(FrameError::TooLarge),
        len <= 65536 && rest.len() < len ==> parsed_frame(le_bytes(op) + le_bytes(len) + rest)
            == Err::<(u32, Seq<u8>), FrameError>(FrameError::Truncated),
{
    let h = le_bytes(op) + le_bytes(len) + rest;
    assert(h.subrange(4, 8) =~= le_bytes(len));
    le_bytes_round_trip(len);
}

/// A ping is answered by a pong with the same payload; a close ends, and
/// nothing else is answered.
pub proof fn pings_are_answered(op: u32, payload: &[u8], r: ReaderStep)
    requires
        call_ensures(on_frame, (op, payload), r),
        payload@.len() <= MAX_FRAME_LEN,
    ensures
        r is Reply <==> op == 3,
        r is Closed <==> op == 2,
        r matches ReaderStep::Reply(b) ==> parsed_frame(b@) == Ok::<(u32, Seq<u8>), FrameError>(
            (4u32, payload@),
        ),
{
    if let ReaderStep::Reply(b) = r {
        frame_round_trip(4u32, payload@, seq![]);
        assert(frame(4u32, payload@) + seq![] =~= frame(4u32, payload@));
    }
}

/// The handshake names the application, under the first version of the
/// protocol.
pub proof fn handshakes_name_the_application(application_id: Seq<char>)
    ensures
        handshake_object(application_id) matches JsonView::Object(m) && m.contains_key(
            "client_id"@,
        ) && m["client_id"@] == JsonView::Text(application_id) && m.contains_key("v"@) && m["v"@]
            == JsonView::Int(1),
{
    reveal_strlit("v");
    reveal_strlit("client_id");
    assert("v"@.len() == 1 && "client_id"@.len() == 9);
}

/// An update names its command, its number and, for this process, the card:
/// each in its own place, and null for no card.
pub proof fn updates_carry_the_card(activity: JsonView, pid: u32, nonce: u64)
    ensures
        set_activity_object(activity, pid, nonce) matches JsonView::Object(m) && {
            &&& m.contains_key("cmd"@) && m["cmd"@] == JsonView::Text("SET_ACTIVITY"@)
            &&& m.contains_key("nonce"@) && m["nonce"@] == JsonView::Text(
                crate::text::decimal(nonce as nat),
            )
            &&& m.contains_key("args"@)
            &&& m["args"@] matches JsonView::Object(args) && args.contains_key("activity"@)
                && args["activity"@] == activity && args.contains_key("pid"@) && args["pid"@]
                == JsonView::Int(pid as int)
        },
        optional_holds(None) is Null,
        forall|v: serde_json::Value| #[trigger] optional_holds(Some(v)) == crate::json::holds(v),
{
    reveal_strlit("cmd");
    reveal_strlit("nonce");
    reveal_strlit("args");
    reveal_strlit("pid");
    reveal_strlit("activity");
    assert("cmd"@.len() == 3 && "nonce"@.len() == 5 && "args"@.len() == 4);
    assert("pid"@.len() == 3 && "activity"@.len() == 8);
}

/// Two updates under different numbers are told apart.
pub proof fn updates_are_told_apart(activity: JsonView, pid: u32, a: u64, b: u64)
    requires
        a != b,
    ensures
        set_activity_object(activity, pid, a) != set_activity_object(activity, pid, b),
{
    updates_carry_the_card(activity, pid, a);
    updates_carry_the_card(activity, pid, b);
    crate::text::numerals_tell_numbers_apart(a as nat, b as nat);
    if set_activity_object(activity, pid, a) == set_activity_object(activity, pid, b) {
        let m = set_activity_object(activity, pid, a)->Object_0;
        assert(m["nonce"@] == JsonView::Text(crate::text::decimal(a as nat)));
        assert(m["nonce"@] == JsonView::Text(crate::text::decimal(b as nat)));
    }
}

/// A document travels as its text, in one frame of its kind, unless it is too
/// long for any.
pub proof fn documents_travel_in_one_frame(op: u32, doc: JsonView)
    ensures
        doc_frame_result(op, doc) is Ok <==> doc_bytes(doc).len() <= 0xFFFF_FFFF,
        doc_frame_result(op, doc) matches Err(e) ==> e is TooLarge,
        doc_frame_result(op, doc) matches Ok(bytes) ==> bytes.skip(8) == vstd::utf8::encode_utf8(
            crate::json::json_text(doc),
        ) && le_value(bytes.subrange(0, 4)) == op,
{
    if doc_bytes(doc).len() <= 0xFFFF_FFFF {
        frames_start_with_their_opcode(op, doc_bytes(doc));
    }
}

/// Bytes are viewed as they are, and errors too.
pub proof fn bytes_are_viewed_as_they_are(bytes: Vec<u8>, e: FrameError)
    ensures
        bytes_view(Ok(bytes)) == Ok::<Seq<u8>, FrameError>(bytes@),
        bytes_view(Err(e)) == Err::<Seq<u8>, FrameError>(e),
{
}

/// What is written is read back: the frame behind what was there before, with
/// its opcode and its payload.
pub proof fn written_frames_are_read_back(
    out: &mut Vec<u8>,
    op: u32,
    payload: &[u8],
    r: Result<(), FrameError>,
    input: &[u8],
    read: Result<(u32, Vec<u8>), FrameError>,
)
    requires
        call_ensures(write_frame, (out, op, payload), r),
        old(out)@.len() == 0,
        input@ == final(out)@,
        call_ensures(read_frame, (input,), read),
        payload@.len() <= MAX_FRAME_LEN,
    ensures
        r is Ok,
        read matches Ok((o, p)) && o == op && p@ == payload@,
{
    frame_round_trip(op, payload@, seq![]);
    assert(old(out)@ + frame(op, payload@) =~= frame(op, payload@) + Seq::<u8>::empty());
}

} // verus!
