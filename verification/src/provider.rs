//! Lazy, memoized provisioning of the shared delivery client: construction
//! happens at most once, and every caller shares the first result.

use vstd::prelude::*;

verus! {

/// The configuration a delivery client is constructed with. The
/// authenticated client itself is an opaque capability held by the runtime;
/// this handle is what the dispatch core knows of it, and two equal handles
/// stand for the same client.
#[derive(Debug, PartialEq, Eq)]
pub struct ClientHandle {
    /// The provider project the client sends on behalf of.
    pub project_id: String,
    /// Whether sends are validate-only (no real delivery).
    pub validate_only: bool,
    /// Per-call timeout handed to the client, in milliseconds.
    pub timeout_ms: u64,
}

impl Clone for ClientHandle {
    /// A clone is the same handle: it stands for the same client.
    fn clone(&self) -> (r: Self)
        ensures
            r == *self,
    {
        ClientHandle {
            project_id: self.project_id.clone(),
            validate_only: self.validate_only,
            timeout_ms: self.timeout_ms,
        }
    }
}

/// Serving one request against a memoized slot, stated directly: an empty
/// slot installs the candidate and hands it back; a filled slot ignores the
/// candidate and hands back what it already holds.
pub open spec fn serve_spec(slot: Option<ClientHandle>, candidate: ClientHandle) -> (
    Option<ClientHandle>,
    ClientHandle,
) {
    match slot {
        Some(existing) => (Some(existing), existing),
        None => (Some(candidate), candidate),
    }
}

/// Constructs and memoizes the delivery client. The first request installs
/// its candidate; every later request returns the memoized handle untouched,
/// so construction work is spent at most once per provider.
pub struct DeliveryClientProvider {
    client: Option<ClientHandle>,
    initializations: Ghost<nat>,
}

impl DeliveryClientProvider {
    /// The memoized client, if one was installed.
    pub closed spec fn client(&self) -> Option<ClientHandle> {
        self.client
    }

    /// How many times a client was constructed through this provider.
    pub closed spec fn initializations(&self) -> nat {
        self.initializations@
    }

    /// A client is held exactly when one construction happened, and
    /// construction never happens twice.
    pub open spec fn wf(&self) -> bool {
        &&& self.client() is Some <==> self.initializations() == 1
        &&& self.initializations() <= 1
    }

    /// A provider that has not constructed anything yet.
    pub fn new() -> (p: DeliveryClientProvider)
        ensures
            p.wf(),
            p.client() is None,
            p.initializations() == 0,
    {
        DeliveryClientProvider { client: None, initializations: Ghost(0) }
    }

    /// Whether the client still has to be constructed. The construction
    /// itself — reading credentials and performing the authentication
    /// handshake — is the runtime's work; a failure there is fatal at first
    /// use, since no delivery is possible without a client.
    pub fn needs_init(&self) -> (b: bool)
        ensures
            b == (self.client() is None),
    {
        self.client.is_none()
    }

    /// Hands back the shared client. The first call installs `candidate`,
    /// the client the runtime constructed; every later call returns the
    /// memoized handle and leaves the provider untouched, whatever its
    /// candidate — so all callers converge on the first construction.
    pub fn get_or_install(&mut self, candidate: ClientHandle) -> (c: ClientHandle)
        requires
            old(self).wf(),
        ensures
            final(self).wf(),
            (final(self).client(), c) == serve_spec(old(self).client(), candidate),
            old(self).client() is Some ==> final(self).initializations() == old(
                self,
            ).initializations(),
            old(self).client() is None ==> final(self).initializations() == old(
                self,
            ).initializations() + 1,
            final(self).client() == Some(c),
    {
        match &self.client {
            Some(existing) => existing.clone(),
            None => {
                self.client = Some(candidate.clone());
                proof {
                    self.initializations@ = self.initializations@ + 1;
                }
                candidate
            },
        }
    }
}

/// The handles a run of requests against one fresh provider hands out, in
/// order: request `i` offers candidate `candidates[i]`.
pub open spec fn served_handles(slot: Option<ClientHandle>, candidates: Seq<ClientHandle>) -> Seq<
    ClientHandle,
>
    decreases candidates.len(),
{
    if candidates.len() == 0 {
        Seq::empty()
    } else {
        let (next_slot, handed) = serve_spec(slot, candidates[0]);
        seq![handed] + served_handles(next_slot, candidates.drop_first())
    }
}

/// Single construction, shared by all: however many requests reach one
/// fresh provider, and whatever candidates they carry, every one of them
/// receives the first request's client.
pub proof fn lemma_single_construction(candidates: Seq<ClientHandle>)
    requires
        candidates.len() >= 1,
    ensures
        served_handles(None, candidates).len() == candidates.len(),
        forall|i: int|
            0 <= i < candidates.len() ==> served_handles(None, candidates)[i] == candidates[0],
{
    lemma_filled_slot_serves_itself(candidates[0], candidates.drop_first());
}

/// A provider that already holds a client hands that client to every
/// further request.
proof fn lemma_filled_slot_serves_itself(held: ClientHandle, candidates: Seq<ClientHandle>)
    ensures
        served_handles(Some(held), candidates).len() == candidates.len(),
        forall|i: int|
            0 <= i < candidates.len() ==> served_handles(Some(held), candidates)[i] == held,
    decreases candidates.len(),
{
    if candidates.len() > 0 {
        lemma_filled_slot_serves_itself(held, candidates.drop_first());
    }
}

} // verus!
