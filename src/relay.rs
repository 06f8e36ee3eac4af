//! The relay engine's decisions once a candidate has connected: which adapters
//! wrap the outbound leg and in what order, and the bidirectional copy loop.
use vstd::prelude::*;

use crate::endpoint::{ConnectOpts, ProxyVersion};

verus! {

/// A direction of the copy loop.
#[derive(Clone, Copy, Debug, PartialEq, Eq, Structural)]
pub enum Direction {
    /// From the inbound client to the outbound remote.
    Upload,
    /// From the outbound remote back to the inbound client.
    Download,
}

/// Why a session ended in failure.
#[derive(Debug)]
pub enum SessionError {
    /// Every candidate failed to connect; their reasons, in the order tried.
    FailoverExhausted(Vec<String>),
    /// An I/O error ended the copy loop in the given direction.
    Copy(Direction, String),
    /// An adapter of the outbound leg failed before any payload flowed.
    Adapter(String),
}

/// A transform on the outbound leg.
#[derive(Clone, Copy, Debug, PartialEq, Eq, Structural)]
pub enum Adapter {
    /// Observes or vetoes the established plan before data flows.
    Hook,
    /// Wraps the outbound byte stream in its framing.
    Transport,
    /// Writes the proxy-protocol header ahead of any payload.
    Proxy(ProxyVersion),
}

/// The adapters that `o` enables, in the fixed pipeline order: hook, transport,
/// proxy header.
pub open spec fn adapter_plan(o: ConnectOpts) -> Seq<Adapter> {
    (if o.hook is Some { seq![Adapter::Hook] } else { Seq::empty() }) + (if o.transport is Some {
        seq![Adapter::Transport]
    } else {
        Seq::empty()
    }) + match o.proxy {
        Some(v) => seq![Adapter::Proxy(v)],
        None => Seq::empty(),
    }
}

/// The adapters to compose around the outbound stream, in the order applied.
/// None enabled means a pure pass-through leg.
pub fn adapters(opts: &ConnectOpts) -> (r: Vec<Adapter>)
    ensures
        r@ == adapter_plan(*opts),
{
    let mut r: Vec<Adapter> = Vec::new();
    if opts.hook.is_some() {
        r.push(Adapter::Hook);
    }
    if opts.transport.is_some() {
        r.push(Adapter::Transport);
    }
    if let Some(v) = opts.proxy {
        r.push(Adapter::Proxy(v));
    }
    assert(r@ =~= adapter_plan(*opts));
    r
}

/// What the copy loop observed on one direction.
#[derive(Debug)]
pub enum CopyEvent {
    /// Bytes read from the source side of the direction.
    Data(Direction, Vec<u8>),
    /// The source side of the direction reached end of stream.
    Eof(Direction),
    /// Reading or writing in the direction failed.
    Failed(Direction, String),
}

/// What the driver does next.
#[derive(Debug)]
pub enum CopyAction {
    /// Write these bytes to the sink side of the direction.
    Write(Direction, Vec<u8>),
    /// Close both sockets and end the session with this result.
    Close(Result<(), SessionError>),
}

/// Bytes written for `d` by a run of actions, in order.
pub open spec fn written(acts: Seq<CopyAction>, d: Direction) -> Seq<u8>
    decreases acts.len(),
{
    if acts.len() == 0 {
        Seq::empty()
    } else {
        let rest = written(acts.drop_last(), d);
        match acts.last() {
            CopyAction::Write(e, b) => if e == d {
                rest + b@
            } else {
                rest
            },
            _ => rest,
        }
    }
}

/// Bytes read for `d` by a run of events, in order.
pub open spec fn read(evs: Seq<CopyEvent>, d: Direction) -> Seq<u8>
    decreases evs.len(),
{
    if evs.len() == 0 {
        Seq::empty()
    } else {
        let rest = read(evs.drop_last(), d);
        match evs.last() {
            CopyEvent::Data(e, b) => if e == d {
                rest + b@
            } else {
                rest
            },
            _ => rest,
        }
    }
}

/// The copy loop's answer to one event: data is forwarded unchanged in its own
/// direction; the first end of stream closes both sides cleanly; the first
/// error closes both sides with a copy error tagged with its direction.
pub open spec fn copy_reply(ev: CopyEvent, act: CopyAction) -> bool {
    match ev {
        CopyEvent::Data(d, b) => (act matches CopyAction::Write(e, c) && e == d && c@ == b@),
        CopyEvent::Eof(_) => act matches CopyAction::Close(Ok(())),
        CopyEvent::Failed(d, m) => (act matches CopyAction::Close(Err(SessionError::Copy(e, n)))
            && e == d && n == m),
    }
}

/// The copy loop of one session: open until the first end of stream or error.
#[derive(Debug)]
pub struct CopyLoop {
    pub open: bool,
}

impl CopyLoop {
    /// A loop with both directions flowing.
    pub fn new() -> (r: CopyLoop)
        ensures
            r.open,
    {
        CopyLoop { open: true }
    }

    /// Answers one event; the loop stays open exactly while data flows.
    pub fn on_event(&mut self, ev: CopyEvent) -> (r: CopyAction)
        requires
            old(self).open,
        ensures
            copy_reply(ev, r),
            final(self).open <==> ev is Data,
    {
        match ev {
            CopyEvent::Data(d, b) => CopyAction::Write(d, b),
            CopyEvent::Eof(_) => {
                self.open = false;
                CopyAction::Close(Ok(()))
            },
            CopyEvent::Failed(d, m) => {
                self.open = false;
                CopyAction::Close(Err(SessionError::Copy(d, m)))
            },
        }
    }
}

/// Whatever data the loop relays reaches the far side of its own direction
/// byte for byte, in order, with nothing lost or repeated: if each action
/// answers its event, the bytes written for each direction are the bytes read
/// for it.
pub proof fn lemma_relay_preserves_bytes(evs: Seq<CopyEvent>, acts: Seq<CopyAction>, d: Direction)
    requires
        evs.len() == acts.len(),
        forall|t: int| 0 <= t < evs.len() ==> copy_reply(#[trigger] evs[t], acts[t]),
    ensures
        written(acts, d) == read(evs, d),
    decreases evs.len(),
{
    if evs.len() > 0 {
        let n = (evs.len() - 1) as int;
        assert forall|t: int| 0 <= t < n implies copy_reply(
            #[trigger] evs.drop_last()[t],
            acts.drop_last()[t],
        ) by {
            assert(copy_reply(evs[t], acts[t]));
        }
        lemma_relay_preserves_bytes(evs.drop_last(), acts.drop_last(), d);
        assert(copy_reply(evs[n], acts[n]));
    }
}

/// An end of stream on either side closes both sockets and ends the session,
/// cleanly, at the very event that reported it.
pub proof fn lemma_eof_closes_both(ev: CopyEvent, act: CopyAction)
    requires
        ev is Eof,
        copy_reply(ev, act),
    ensures
        act matches CopyAction::Close(Ok(())),
{
}

} // verus!
