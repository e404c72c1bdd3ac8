//! The relay engine's verified core.  Each accepted connection runs two
//! independent copy directions — client into tunnel, tunnel back to client —
//! and the connection ends as soon as either direction sees end-of-file:
//! the other direction is abandoned mid-flight, even with data still in
//! transit.  That explicit truncation is specified behaviour, not a bug.
//!
//! The host program drives real sockets; `run_connection` is the same loop
//! over data already in hand, with the interleaving of the two directions
//! given as a schedule, and proves what any interleaving delivers.  The
//! per-chunk work on the real data path is `classify::process_chunk`.

use crate::classify::Direction;
use vstd::prelude::*;

verus! {

/// The chunk views of a sequence of chunks.
pub open spec fn chunk_views(chunks: Seq<Vec<u8>>) -> Seq<Seq<u8>> {
    chunks.map_values(|c: Vec<u8>| c@)
}

/// The bytes of the first `n` chunks, in order.
pub open spec fn concat_chunks(chunks: Seq<Seq<u8>>, n: int) -> Seq<u8>
    decreases n,
{
    if n <= 0 {
        Seq::empty()
    } else {
        concat_chunks(chunks, n - 1) + chunks[n - 1]
    }
}

/// Appends the bytes of `src` to `dst`.
fn push_bytes(dst: &mut Vec<u8>, src: &Vec<u8>)
    ensures
        final(dst)@ == old(dst)@ + src@,
{
    let mut i: usize = 0;
    while i < src.len()
        invariant
            i <= src@.len(),
            dst@ == old(dst)@ + src@.take(i as int),
        decreases src@.len() - i,
    {
        dst.push(src[i]);
        assert(dst@ =~= old(dst)@ + src@.take(i + 1));
        i = i + 1;
    }
    assert(old(dst)@ + src@.take(src@.len() as int) =~= old(dst)@ + src@);
}

/// What running the schedule comes to, step by step: starting from `ci`
/// client chunks and `ti` tunnel chunks already forwarded, each step
/// forwards the next chunk of its direction, and a step past a direction's
/// last chunk is that direction's end-of-file, which ends the run at once.
pub open spec fn spec_relay_run(
    client: Seq<Seq<u8>>,
    tunnel: Seq<Seq<u8>>,
    schedule: Seq<Direction>,
    ci: int,
    ti: int,
) -> (int, int, Option<Direction>)
    decreases schedule.len(),
{
    if schedule.len() == 0 {
        (ci, ti, None::<Direction>)
    } else {
        match schedule[0] {
            Direction::Request => if ci == client.len() {
                (ci, ti, Some(Direction::Request))
            } else {
                spec_relay_run(client, tunnel, schedule.drop_first(), ci + 1, ti)
            },
            Direction::Response => if ti == tunnel.len() {
                (ci, ti, Some(Direction::Response))
            } else {
                spec_relay_run(client, tunnel, schedule.drop_first(), ci, ti + 1)
            },
        }
    }
}

/// What one connection comes to under a schedule: how many chunks each
/// direction forwarded, and whose end-of-file ended it, if one did.
pub open spec fn spec_relay_outcome(
    client: Seq<Seq<u8>>,
    tunnel: Seq<Seq<u8>>,
    schedule: Seq<Direction>,
) -> (int, int, Option<Direction>) {
    spec_relay_run(client, tunnel, schedule, 0, 0)
}

/// What one connection delivered before it ended.
pub struct RelayOutcome {
    /// Every byte written into the tunnel, in order.
    pub to_tunnel: Vec<u8>,
    /// Every byte written back to the client, in order.
    pub to_client: Vec<u8>,
    /// How many client chunks were forwarded.
    pub requests_forwarded: usize,
    /// How many tunnel chunks were forwarded.
    pub responses_forwarded: usize,
    /// The direction whose end-of-file ended the connection, if one did.
    pub ended_by: Option<Direction>,
}

/// Runs one connection's two copy directions over data already in hand.
/// `schedule` is the order in which the cooperative scheduler happens to
/// run the two directions; a step past a direction's last chunk is that
/// direction's end-of-file and ends the whole connection at once, whatever
/// the other direction still holds.  The outcome is exactly what
/// `spec_relay_outcome` computes from the inputs: chunk order within each
/// direction is preserved, and bytes are forwarded unmodified.
#[verifier::loop_isolation(false)]
pub fn run_connection(
    client_chunks: &Vec<Vec<u8>>,
    tunnel_chunks: &Vec<Vec<u8>>,
    schedule: &Vec<Direction>,
) -> (r: RelayOutcome)
    ensures
        ({
            let outcome = spec_relay_outcome(
                chunk_views(client_chunks@),
                chunk_views(tunnel_chunks@),
                schedule@,
            );
            &&& r.requests_forwarded == outcome.0
            &&& r.responses_forwarded == outcome.1
            &&& r.ended_by == outcome.2
        }),
        r.requests_forwarded <= client_chunks@.len(),
        r.responses_forwarded <= tunnel_chunks@.len(),
        r.to_tunnel@ == concat_chunks(chunk_views(client_chunks@), r.requests_forwarded as int),
        r.to_client@ == concat_chunks(chunk_views(tunnel_chunks@), r.responses_forwarded as int),
        r.ended_by == Some(Direction::Request) ==> r.requests_forwarded == client_chunks@.len(),
        r.ended_by == Some(Direction::Response) ==> r.responses_forwarded == tunnel_chunks@.len(),
{
    let ghost client = chunk_views(client_chunks@);
    let ghost tunnel = chunk_views(tunnel_chunks@);
    let ghost outcome = spec_relay_outcome(client, tunnel, schedule@);
    let mut to_tunnel: Vec<u8> = Vec::new();
    let mut to_client: Vec<u8> = Vec::new();
    let mut ci: usize = 0;
    let mut ti: usize = 0;
    let mut ended_by: Option<Direction> = None;
    let mut s: usize = 0;
    assert(schedule@.skip(0) =~= schedule@);
    while s < schedule.len() && ended_by.is_none()
        invariant
            ci <= client.len(),
            ti <= tunnel.len(),
            s <= schedule@.len(),
            to_tunnel@ == concat_chunks(client, ci as int),
            to_client@ == concat_chunks(tunnel, ti as int),
            ended_by is None ==> outcome == spec_relay_run(
                client,
                tunnel,
                schedule@.skip(s as int),
                ci as int,
                ti as int,
            ),
            ended_by matches Some(d) ==> outcome == (ci as int, ti as int, Some(d)),
            ended_by == Some(Direction::Request) ==> ci == client.len(),
            ended_by == Some(Direction::Response) ==> ti == tunnel.len(),
        decreases schedule@.len() - s,
    {
        proof {
            assert(schedule@.skip(s as int)[0] == schedule@[s as int]);
            assert(schedule@.skip(s as int).drop_first() =~= schedule@.skip(s + 1));
        }
        match schedule[s] {
            Direction::Request => {
                if ci == client_chunks.len() {
                    // client end-of-file: the connection ends now
                    ended_by = Some(Direction::Request);
                } else {
                    push_bytes(&mut to_tunnel, &client_chunks[ci]);
                    ci = ci + 1;
                }
            },
            Direction::Response => {
                if ti == tunnel_chunks.len() {
                    // tunnel end-of-file: the connection ends now
                    ended_by = Some(Direction::Response);
                } else {
                    push_bytes(&mut to_client, &tunnel_chunks[ti]);
                    ti = ti + 1;
                }
            },
        }
        s = s + 1;
    }
    proof {
        if ended_by is None {
            assert(schedule@.skip(s as int) =~= Seq::<Direction>::empty());
        }
    }
    RelayOutcome {
        to_tunnel,
        to_client,
        requests_forwarded: ci,
        responses_forwarded: ti,
        ended_by,
    }
}

/// Splitting a chunk stream: the bytes of the first `n` chunks are the
/// bytes of the first `m` followed by the bytes of chunks `m..n`.
pub proof fn lemma_concat_chunks_split(chunks: Seq<Seq<u8>>, m: int, n: int)
    requires
        0 <= m <= n <= chunks.len(),
    ensures
        concat_chunks(chunks, n) == concat_chunks(chunks, m) + concat_chunks(
            chunks.skip(m),
            n - m,
        ),
    decreases n - m,
{
    if m == n {
        assert(concat_chunks(chunks, m) + concat_chunks(chunks.skip(m), 0) =~= concat_chunks(
            chunks,
            n,
        ));
    } else {
        lemma_concat_chunks_split(chunks, m, n - 1);
        assert(chunks.skip(m)[n - m - 1] == chunks[n - 1]);
        assert(concat_chunks(chunks, m) + concat_chunks(chunks.skip(m), n - m) =~= (concat_chunks(
            chunks,
            m,
        ) + concat_chunks(chunks.skip(m), n - m - 1)) + chunks[n - 1]);
    }
}

/// The first-to-finish termination policy truncates: when the connection
/// ends at the client side's end-of-file, what the client received is
/// exactly the bytes of the tunnel chunks forwarded before the end; the
/// whole tunnel stream is that plus the still-pending bytes, which are
/// never delivered.
pub proof fn lemma_relay_truncation(tunnel_chunks: Seq<Seq<u8>>, r: RelayOutcome)
    requires
        r.ended_by == Some(Direction::Request),
        r.responses_forwarded <= tunnel_chunks.len(),
        r.to_client@ == concat_chunks(tunnel_chunks, r.responses_forwarded as int),
    ensures
        concat_chunks(tunnel_chunks, tunnel_chunks.len() as int) == r.to_client@ + concat_chunks(
            tunnel_chunks.skip(r.responses_forwarded as int),
            tunnel_chunks.len() - r.responses_forwarded,
        ),
{
    lemma_concat_chunks_split(
        tunnel_chunks,
        r.responses_forwarded as int,
        tunnel_chunks.len() as int,
    );
}

/// The accept loop's state: a process-wide interrupt stops it accepting
/// new connections, but never forcibly closes the connections already open;
/// the flag is observed only between accepts.
pub struct AcceptLoop {
    /// The identities of the connections currently open.
    pub open_connections: Vec<u64>,
    /// Whether the loop is still accepting.
    pub accepting: bool,
}

impl AcceptLoop {
    /// A fresh accept loop: accepting, with no connection yet.
    pub fn new() -> (r: AcceptLoop)
        ensures
            r.accepting,
            r.open_connections@.len() == 0,
    {
        AcceptLoop { open_connections: Vec::new(), accepting: true }
    }

    /// A process interrupt: the loop stops accepting new connections, and
    /// every connection already open stays open.
    pub fn interrupt(&mut self)
        ensures
            !final(self).accepting,
            final(self).open_connections == old(self).open_connections,
    {
        self.accepting = false;
    }

    /// One incoming connection: accepted and tracked only while the loop
    /// is still accepting.
    pub fn on_incoming(&mut self, id: u64) -> (accepted: bool)
        ensures
            accepted == old(self).accepting,
            final(self).accepting == old(self).accepting,
            accepted ==> final(self).open_connections@ == old(self).open_connections@.push(id),
            !accepted ==> final(self).open_connections == old(self).open_connections,
    {
        if self.accepting {
            self.open_connections.push(id);
            true
        } else {
            false
        }
    }

    /// One connection ended on its own: it alone leaves the open set.
    pub fn on_closed(&mut self, index: usize)
        requires
            index < old(self).open_connections@.len(),
        ensures
            final(self).accepting == old(self).accepting,
            final(self).open_connections@ == old(self).open_connections@.remove(index as int),
    {
        self.open_connections.remove(index);
    }
}

} // verus!
