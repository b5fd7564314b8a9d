//! The commands channel: requests and replies as bytes, and the dispatch of
//! a request to the timer.
use vstd::prelude::*;
use crate::clock::Now;
use crate::timer::{
    Notice, Timer, TimerKind, WorldError, increased, skipped, started, toggled,
};

verus! {

/// A request of a control client.
#[derive(Debug)]
pub enum Command {
    Cancel,
    Start(Option<Vec<u8>>),
    /// Moves the end of the timer by this many seconds (earlier when negative).
    Increase(i64),
    Togglepause,
    Skip,
}

/// The eight bytes of `u`, most significant first.
pub open spec fn be_bytes(u: u64) -> Seq<u8> {
    seq![
        (u >> 56u64) as u8,
        (u >> 48u64) as u8,
        (u >> 40u64) as u8,
        (u >> 32u64) as u8,
        (u >> 24u64) as u8,
        (u >> 16u64) as u8,
        (u >> 8u64) as u8,
        u as u8,
    ]
}

/// The number whose eight bytes, most significant first, are `b`.
pub open spec fn from_be(b: Seq<u8>) -> u64 {
    (b[0] as u64) << 56u64 | (b[1] as u64) << 48u64 | (b[2] as u64) << 40u64 | (b[3] as u64)
        << 32u64 | (b[4] as u64) << 24u64 | (b[5] as u64) << 16u64 | (b[6] as u64) << 8u64
        | (b[7] as u64)
}

/// The frame of a request: a tag byte, then the argument.
pub open spec fn request_bytes(c: Command) -> Seq<u8> {
    match c {
        Command::Cancel => seq![0u8],
        Command::Start(None) => seq![1u8],
        Command::Start(Some(line)) => seq![2u8] + line@,
        Command::Increase(n) => seq![3u8] + be_bytes(n as u64),
        Command::Togglepause => seq![4u8],
        Command::Skip => seq![5u8],
    }
}

/// Whether `b` is the frame of some request.
pub open spec fn is_request(b: Seq<u8>) -> bool {
    b.len() >= 1 && (b[0] == 2 || (b[0] == 3 && b.len() == 9) || (b.len() == 1 && (b[0] == 0
        || b[0] == 1 || b[0] == 4 || b[0] == 5)))
}

/// Two requests that ask for the same thing.
pub open spec fn same_command(a: Command, b: Command) -> bool {
    match (a, b) {
        (Command::Cancel, Command::Cancel) => true,
        (Command::Start(None), Command::Start(None)) => true,
        (Command::Start(Some(x)), Command::Start(Some(y))) => x@ == y@,
        (Command::Increase(x), Command::Increase(y)) => x == y,
        (Command::Togglepause, Command::Togglepause) => true,
        (Command::Skip, Command::Skip) => true,
        _ => false,
    }
}

/// The one byte of a reply.
pub open spec fn reply_code(r: Result<(), WorldError>) -> u8 {
    match r {
        Ok(()) => 0,
        Err(WorldError::NoTimerExisting) => 1,
        Err(WorldError::TimerAlreadyExisting) => 2,
    }
}

/// The frame of a reply.
pub open spec fn reply_bytes(r: Result<(), WorldError>) -> Seq<u8> {
    seq![reply_code(r)]
}

proof fn lemma_be_round_trip(u: u64)
    ensures
        from_be(be_bytes(u)) == u,
{
    let b = be_bytes(u);
    assert(((u >> 56u64) as u8 as u64) << 56u64 | ((u >> 48u64) as u8 as u64) << 48u64 | ((u
        >> 40u64) as u8 as u64) << 40u64 | ((u >> 32u64) as u8 as u64) << 32u64 | ((u >> 24u64) as u8
        as u64) << 24u64 | ((u >> 16u64) as u8 as u64) << 16u64 | ((u >> 8u64) as u8 as u64) << 8u64
        | (u as u8 as u64) == u) by (bit_vector);
}

/// A frame holds exactly one request: decoding what a request was encoded
/// as gives that request back.
pub proof fn lemma_request_frames_distinct(a: Command, b: Command)
    requires
        request_bytes(a) == request_bytes(b),
    ensures
        same_command(a, b),
        is_request(request_bytes(a)),
{
    let fa = request_bytes(a);
    let fb = request_bytes(b);
    assert(fa[0] == fb[0]);
    match (a, b) {
        (Command::Start(Some(x)), Command::Start(Some(y))) => {
            assert(x@ =~= fa.skip(1));
            assert(y@ =~= fb.skip(1));
        },
        (Command::Increase(x), Command::Increase(y)) => {
            lemma_be_round_trip(x as u64);
            lemma_be_round_trip(y as u64);
            assert(fa.skip(1) =~= be_bytes(x as u64));
            assert(fb.skip(1) =~= be_bytes(y as u64));
            assert((x as u64) as i64 == x) by (bit_vector);
            assert((y as u64) as i64 == y) by (bit_vector);
        },
        _ => {},
    }
}

/// A frame holds at most one reply.
pub proof fn lemma_reply_frames_distinct(a: Result<(), WorldError>, b: Result<(), WorldError>)
    requires
        reply_bytes(a) == reply_bytes(b),
    ensures
        a == b,
{
    assert(reply_bytes(a)[0] == reply_code(a));
    assert(reply_bytes(b)[0] == reply_code(b));
    if a is Ok && b is Ok {
        let (ua, ub) = (a->Ok_0, b->Ok_0);
        assert(ua == ub);
        assert(a == Ok::<(), WorldError>(ua));
    }
}

fn copy_bytes(out: &mut Vec<u8>, b: &[u8], from: usize)
    requires
        from <= b@.len(),
    ensures
        final(out)@ == old(out)@ + b@.skip(from as int),
{
    let ghost start = out@;
    let mut i = from;
    while i < b.len()
        invariant
            from <= i <= b@.len(),
            out@ == start + b@.subrange(from as int, i as int),
        decreases b@.len() - i,
    {
        out.push(b[i]);
        i = i + 1;
        assert(out@ =~= start + b@.subrange(from as int, i as int));
    }
    assert(b@.subrange(from as int, i as int) =~= b@.skip(from as int));
}

/// The frame of a request.
pub fn encode_request(c: &Command) -> (r: Vec<u8>)
    ensures
        r@ == request_bytes(*c),
{
    match c {
        Command::Cancel => vec![0u8],
        Command::Start(None) => vec![1u8],
        Command::Start(Some(line)) => {
            let mut out = vec![2u8];
            copy_bytes(&mut out, line.as_slice(), 0);
            assert(line@.skip(0) =~= line@);
            out
        },
        Command::Increase(n) => {
            let u = *n as u64;
            vec![
                3u8,
                (u >> 56u64) as u8,
                (u >> 48u64) as u8,
                (u >> 40u64) as u8,
                (u >> 32u64) as u8,
                (u >> 24u64) as u8,
                (u >> 16u64) as u8,
                (u >> 8u64) as u8,
                u as u8,
            ]
        },
        Command::Togglepause => vec![4u8],
        Command::Skip => vec![5u8],
    }
}

/// The request that a frame holds; `None` when it holds none, a framing
/// error on which the connection is closed.
pub fn decode_request(b: &[u8]) -> (r: Option<Command>)
    ensures
        r is Some <==> is_request(b@),
        r matches Some(c) ==> request_bytes(c) == b@,
{
    if b.len() == 0 {
        return None;
    }
    let tag = b[0];
    if tag == 2 {
        let mut line: Vec<u8> = Vec::new();
        copy_bytes(&mut line, b, 1);
        assert(seq![2u8] + b@.skip(1) =~= b@);
        Some(Command::Start(Some(line)))
    } else if tag == 3 && b.len() == 9 {
        let u: u64 = (b[1] as u64) << 56u64 | (b[2] as u64) << 48u64 | (b[3] as u64) << 40u64
            | (b[4] as u64) << 32u64 | (b[5] as u64) << 24u64 | (b[6] as u64) << 16u64
            | (b[7] as u64) << 8u64 | (b[8] as u64);
        let n = u as i64;
        proof {
            let (b1, b2, b3, b4, b5, b6, b7, b8) = (b[1], b[2], b[3], b[4], b[5], b[6], b[7], b[8]);
            assert(((u >> 56u64) as u8) == b1 && ((u >> 48u64) as u8) == b2 && ((u >> 40u64) as u8)
                == b3 && ((u >> 32u64) as u8) == b4 && ((u >> 24u64) as u8) == b5 && ((u
                >> 16u64) as u8) == b6 && ((u >> 8u64) as u8) == b7 && (u as u8) == b8) by (bit_vector)
                requires
                    u == (b1 as u64) << 56u64 | (b2 as u64) << 48u64 | (b3 as u64) << 40u64 | (b4
                        as u64) << 32u64 | (b5 as u64) << 24u64 | (b6 as u64) << 16u64 | (b7
                        as u64) << 8u64 | (b8 as u64),
            ;
            assert((n as u64) == u) by (bit_vector)
                requires
                    n == u as i64,
            ;
            assert(seq![3u8] + be_bytes(n as u64) =~= b@);
        }
        Some(Command::Increase(n))
    } else if b.len() != 1 {
        None
    } else if tag == 0 {
        Some(Command::Cancel)
    } else if tag == 1 {
        Some(Command::Start(None))
    } else if tag == 4 {
        Some(Command::Togglepause)
    } else if tag == 5 {
        Some(Command::Skip)
    } else {
        None
    }
}

/// The frame of a reply.
pub fn encode_reply(r: &Result<(), WorldError>) -> (b: Vec<u8>)
    ensures
        b@ == reply_bytes(*r),
{
    let code: u8 = match r {
        Ok(()) => 0,
        Err(WorldError::NoTimerExisting) => 1,
        Err(WorldError::TimerAlreadyExisting) => 2,
    };
    let b = vec![code];
    assert(b@ =~= reply_bytes(*r));
    b
}

/// The reply that a frame holds, if it holds one.
pub fn decode_reply(b: &[u8]) -> (r: Option<Result<(), WorldError>>)
    ensures
        r is Some <==> (b@.len() == 1 && b@[0] <= 2),
        r matches Some(x) ==> reply_bytes(x) == b@,
{
    if b.len() != 1 {
        return None;
    }
    let r = if b[0] == 0 {
        Ok(())
    } else if b[0] == 1 {
        Err(WorldError::NoTimerExisting)
    } else if b[0] == 2 {
        Err(WorldError::TimerAlreadyExisting)
    } else {
        return None;
    };
    assert(reply_bytes(r) =~= b@);
    Some(r)
}

/// Carries out a request on the timer: each verb is the timer method of
/// the same name. The result says what the reply to the client is.
pub fn dispatch(timer: &mut Timer, c: Command, now: &Now) -> (r: Result<Notice, WorldError>)
    requires
        old(timer).wf(),
        now.wf(),
    ensures
        final(timer).wf(),
        c is Cancel ==> r is Ok && final(timer).kind is Idle && final(timer).cycles == (if old(
            timer,
        ).kind is Idle {
            0
        } else {
            old(timer).cycles
        }),
        c matches Command::Start(line) ==> r is Ok && final(timer).cycles == old(timer).cycles
            && final(timer).kind == (if old(timer).kind is Idle {
            started(old(timer).cycles, line, *now)
        } else {
            toggled(old(timer).kind, now.unix_nanos as int)
        }),
        c matches Command::Increase(n) ==> final(timer).kind == increased(old(timer).kind, n as int)
            && final(timer).cycles == old(timer).cycles,
        c is Togglepause ==> final(timer).kind == toggled(old(timer).kind, now.unix_nanos as int)
            && final(timer).cycles == old(timer).cycles,
        c is Skip ==> final(timer).kind == skipped(old(timer).kind, now.unix_nanos as int)
            && final(timer).cycles == old(timer).cycles,
        !(c is Cancel || c is Start) ==> (r is Err <==> old(timer).kind is Idle),
        r is Err ==> r == Err::<Notice, WorldError>(WorldError::NoTimerExisting) && *final(timer)
            == *old(timer),
{
    match c {
        Command::Cancel => timer.cancel(),
        Command::Start(line) => timer.start(line, now),
        Command::Increase(n) => timer.increase(n, now),
        Command::Togglepause => timer.togglepause(now),
        Command::Skip => timer.skip(now),
    }
}

/// The reply to a client: the outcome without the notice.
pub fn reply_of(r: &Result<Notice, WorldError>) -> (x: Result<(), WorldError>)
    ensures
        x is Ok <==> r is Ok,
        *r matches Err(e) ==> x == Err::<(), WorldError>(e),
{
    match r {
        Ok(_) => Ok(()),
        Err(e) => Err(*e),
    }
}

} // verus!
