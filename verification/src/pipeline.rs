use vstd::prelude::*;
use vstd::string::StringExecFns;

verus! {

/// The request methods the route table distinguishes.
#[derive(Clone, Copy, PartialEq, Eq, Structural, Debug)]
pub enum Method {
    Get,
    Post,
}

/// The model of one client connection while a single request is handled:
/// whether a response has been initiated, its status code, the body bytes
/// written so far, and how many responses were initiated in all. The pipeline
/// guarantees that at most one response is ever initiated per request.
pub struct Connection {
    pub responses: u32,
    pub status: u16,
    pub body: String,
}

/// The observable response state of a connection.
pub ghost struct ConnState {
    pub responses: u32,
    pub status: u16,
    pub body: Seq<char>,
}

impl Connection {
    pub open spec fn state(self) -> ConnState {
        ConnState { responses: self.responses, status: self.status, body: self.body@ }
    }

    /// A connection on which nothing has been written yet.
    pub open spec fn fresh(self) -> bool {
        self.responses == 0 && self.status == 0 && self.body@ == Seq::<char>::empty()
    }

    pub fn new() -> (r: Connection)
        ensures
            r.fresh(),
    {
        Connection { responses: 0, status: 0, body: String::new() }
    }

    /// Whether a response has been initiated on this connection.
    pub fn is_response_initiated(&self) -> (r: bool)
        ensures
            r == (self.responses > 0),
    {
        self.responses > 0
    }

    /// Initiates the one response of the request: sets the status line and
    /// writes the body. A second initiation on the same connection is
    /// excluded by contract: no rollback of a sent response exists.
    pub fn start_response(&mut self, status: u16, body: &String)
        requires
            old(self).responses == 0,
        ensures
            final(self).responses == 1,
            final(self).status == status,
            final(self).body@ == body@,
    {
        self.responses = 1;
        self.status = status;
        self.body = body.clone();
    }
}

/// What the terminal handler of a route does with the connection. The three
/// shapes cover the whole request/error lifecycle: a full response, a failure
/// before any response bytes, and a failure after a partial write.
pub enum HandlerBehavior {
    Respond { status: u16, body: String },
    FailBeforeWrite { message: String },
    FailAfterWrite { status: u16, partial: String, message: String },
}

impl HandlerBehavior {
    pub open spec fn succeeds(self) -> bool {
        self is Respond
    }

    /// The error description the handler raises when it fails.
    pub open spec fn spec_message(self) -> Seq<char> {
        match self {
            HandlerBehavior::Respond { .. } => Seq::<char>::empty(),
            HandlerBehavior::FailBeforeWrite { message } => message@,
            HandlerBehavior::FailAfterWrite { message, .. } => message@,
        }
    }
}

/// The connection state the terminal handler alone leaves behind, started
/// from state `c0` with no response initiated.
pub open spec fn spec_handler_conn(b: HandlerBehavior, c0: ConnState) -> ConnState {
    match b {
        HandlerBehavior::Respond { status, body } => ConnState {
            responses: 1,
            status,
            body: body@,
        },
        HandlerBehavior::FailBeforeWrite { .. } => c0,
        HandlerBehavior::FailAfterWrite { status, partial, .. } => ConnState {
            responses: 1,
            status,
            body: partial@,
        },
    }
}

/// Executes the terminal handler: application logic writing a response, or
/// failing before or after the write.
pub fn run_handler(conn: &mut Connection, behavior: &HandlerBehavior) -> (r: Result<(), String>)
    requires
        old(conn).responses == 0,
    ensures
        r is Ok <==> behavior.succeeds(),
        r is Err ==> r->Err_0@ == behavior.spec_message(),
        final(conn).state() == spec_handler_conn(*behavior, old(conn).state()),
{
    match behavior {
        HandlerBehavior::Respond { status, body } => {
            conn.start_response(*status, body);
            Ok(())
        },
        HandlerBehavior::FailBeforeWrite { message } => Err(message.clone()),
        HandlerBehavior::FailAfterWrite { status, partial, message } => {
            conn.start_response(*status, partial);
            Err(message.clone())
        },
    }
}

/// The middleware shapes of the chain. A recovering layer converts an error
/// of the next link into a 500 response when no response has been initiated
/// yet; an observing layer only watches the outcome and passes it on.
#[derive(Clone, Copy, PartialEq, Eq, Structural, Debug)]
pub enum MiddlewareKind {
    Recovering,
    Observing,
}

/// One middleware layer's post-delegation observation: which layer observed,
/// and whether the next link's outcome it saw was success.
#[derive(Clone, Copy, PartialEq, Eq, Structural, Debug)]
pub struct Observation {
    pub layer: usize,
    pub saw_ok: bool,
}

/// The body a recovering layer writes for an error description.
pub open spec fn spec_error_body(m: Seq<char>) -> Seq<char> {
    "ERROR: "@ + m
}

/// The innermost (largest-index) recovering layer at or after `idx`, the one
/// layer responsible for default error presentation from there inward.
pub open spec fn innermost_recovering(chain: Seq<MiddlewareKind>, idx: int) -> Option<int>
    decreases chain.len() - idx,
{
    if idx >= chain.len() {
        None
    } else {
        let inner = innermost_recovering(chain, idx + 1);
        if inner is Some {
            inner
        } else if chain[idx] is Recovering {
            Some(idx)
        } else {
            None
        }
    }
}

/// Whether the run of the chain from layer `idx` inward returns success:
/// always when the handler succeeds, never when it fails after a partial
/// write, and exactly when some recovering layer from `idx` inward converts
/// the error when it fails before writing.
pub open spec fn run_ok_from(chain: Seq<MiddlewareKind>, idx: int, b: HandlerBehavior) -> bool {
    match b {
        HandlerBehavior::Respond { .. } => true,
        HandlerBehavior::FailBeforeWrite { .. } => innermost_recovering(chain, idx) is Some,
        HandlerBehavior::FailAfterWrite { .. } => false,
    }
}

/// The observations a run from layer `idx` appends to the log: the innermost
/// layer observes first, and layer `j` sees the outcome of the run from
/// `j + 1` inward.
pub open spec fn spec_observations(chain: Seq<MiddlewareKind>, idx: int, b: HandlerBehavior) -> Seq<
    Observation,
> {
    Seq::new(
        (chain.len() - idx) as nat,
        |k: int| Observation {
            layer: (chain.len() - 1 - k) as usize,
            saw_ok: run_ok_from(chain, chain.len() - k, b),
        },
    )
}

/// The connection state the run of the chain from layer `idx` leaves behind,
/// started from the fresh state `c0`.
pub open spec fn spec_chain_conn(
    chain: Seq<MiddlewareKind>,
    idx: int,
    b: HandlerBehavior,
    c0: ConnState,
) -> ConnState {
    match b {
        HandlerBehavior::FailBeforeWrite { message } => if innermost_recovering(chain, idx)
            is Some {
            ConnState { responses: 1, status: 500, body: spec_error_body(message@) }
        } else {
            c0
        },
        _ => spec_handler_conn(b, c0),
    }
}

/// Runs the middleware layers `idx..` of the chain around the terminal
/// handler, in onion order: layer `idx` is entered first and exited last.
/// Each layer observes the outcome of the next link after delegating; a
/// recovering layer additionally converts an error into a 500 response
/// carrying the error description, provided no response was initiated yet.
pub fn run_chain(
    chain: &Vec<MiddlewareKind>,
    idx: usize,
    behavior: &HandlerBehavior,
    conn: &mut Connection,
    log: &mut Vec<Observation>,
) -> (r: Result<(), String>)
    requires
        idx <= chain@.len(),
        old(conn).responses == 0,
    ensures
        r is Ok <==> run_ok_from(chain@, idx as int, *behavior),
        r is Err ==> r->Err_0@ == behavior.spec_message(),
        final(conn).state() == spec_chain_conn(chain@, idx as int, *behavior, old(conn).state()),
        final(log)@ == old(log)@ + spec_observations(chain@, idx as int, *behavior),
    decreases chain@.len() - idx,
{
    if idx == chain.len() {
        proof {
            assert(spec_observations(chain@, idx as int, *behavior) =~= Seq::<
                Observation,
            >::empty());
            assert(final(log)@ =~= old(log)@ + Seq::<Observation>::empty());
        }
        run_handler(conn, behavior)
    } else {
        let r = run_chain(chain, idx + 1, behavior, conn, log);
        log.push(Observation { layer: idx, saw_ok: r.is_ok() });
        proof {
            assert(spec_observations(chain@, idx as int, *behavior) =~= spec_observations(
                chain@,
                idx as int + 1,
                *behavior,
            ).push(
                Observation {
                    layer: idx,
                    saw_ok: run_ok_from(chain@, idx as int + 1, *behavior),
                },
            ));
            assert(old(log)@ + spec_observations(chain@, idx as int, *behavior) =~= (old(log)@
                + spec_observations(chain@, idx as int + 1, *behavior)).push(
                Observation {
                    layer: idx,
                    saw_ok: run_ok_from(chain@, idx as int + 1, *behavior),
                },
            ));
        }
        match &chain[idx] {
            MiddlewareKind::Observing => r,
            MiddlewareKind::Recovering => {
                match r {
                    Ok(u) => Ok(u),
                    Err(m) => {
                        if !conn.is_response_initiated() {
                            let body = String::from_str("ERROR: ").concat(m.as_str());
                            conn.start_response(500, &body);
                            Ok(())
                        } else {
                            Err(m)
                        }
                    },
                }
            },
        }
    }
}

/// Whether a route answers the given method and path; dispatch is exact
/// match only.
pub open spec fn route_matches(r: Route, m: Method, p: Seq<char>) -> bool {
    r.method == m && r.path@ == p
}

/// Whether two routes occupy the same (method, path) key.
pub open spec fn same_key(a: Route, b: Route) -> bool {
    a.method == b.method && a.path@ == b.path@
}

/// One route: an exact (method, path) key and the terminal handler behind it.
pub struct Route {
    pub method: Method,
    pub path: String,
    pub behavior: HandlerBehavior,
}

/// The mapping from (method, path) to handler. Keys are unique, so insertion
/// order is irrelevant to dispatch.
pub struct RouteTable {
    pub routes: Vec<Route>,
}

impl RouteTable {
    /// Key uniqueness.
    pub open spec fn wf(self) -> bool {
        forall|i: int, j: int|
            0 <= i < j < self.routes@.len() ==> !#[trigger] same_key(
                self.routes@[i],
                self.routes@[j],
            )
    }

    /// Finds the one route answering the method and path, if any.
    pub fn dispatch(&self, method: Method, path: &String) -> (r: Option<usize>)
        ensures
            match r {
                Some(i) => i < self.routes@.len() && route_matches(
                    self.routes@[i as int],
                    method,
                    path@,
                ),
                None => forall|i: int|
                    0 <= i < self.routes@.len() ==> !#[trigger] route_matches(
                        self.routes@[i],
                        method,
                        path@,
                    ),
            },
    {
        let mut i: usize = 0;
        while i < self.routes.len()
            invariant
                i <= self.routes@.len(),
                forall|j: int|
                    0 <= j < i ==> !#[trigger] route_matches(self.routes@[j], method, path@),
            decreases self.routes@.len() - i,
        {
            if self.routes[i].method == method && self.routes[i].path == *path {
                return Some(i);
            }
            i += 1;
        }
        None
    }
}

/// The HTTP listener surface: a route table and the ordered middleware chain
/// wrapped around every route's handler, outermost layer first.
pub struct ServicePipeline {
    pub routes: RouteTable,
    pub chain: Vec<MiddlewareKind>,
}

impl ServicePipeline {
    pub open spec fn wf(self) -> bool {
        self.routes.wf()
    }

    /// Handles one incoming request on a fresh connection: dispatches to the
    /// one matching route and runs the middleware chain around its handler.
    /// Returns `None` for an unmatched route, leaving connection and log
    /// untouched: the underlying listener's own not-found handling answers
    /// those.
    pub fn handle_request(
        &self,
        method: Method,
        path: &String,
        conn: &mut Connection,
        log: &mut Vec<Observation>,
    ) -> (r: Option<Result<(), String>>)
        requires
            self.wf(),
            old(conn).responses == 0,
        ensures
            r is None ==> {
                &&& forall|i: int|
                    0 <= i < self.routes.routes@.len() ==> !#[trigger] route_matches(
                        self.routes.routes@[i],
                        method,
                        path@,
                    )
                &&& final(conn).state() == old(conn).state()
                &&& final(log)@ == old(log)@
            },
            forall|i: int|
                0 <= i < self.routes.routes@.len() && #[trigger] route_matches(
                    self.routes.routes@[i],
                    method,
                    path@,
                ) ==> {
                    let b = self.routes.routes@[i].behavior;
                    &&& r is Some
                    &&& (r->0 is Ok <==> run_ok_from(self.chain@, 0, b))
                    &&& (r->0 is Err ==> r->0->Err_0@ == b.spec_message())
                    &&& final(conn).state() == spec_chain_conn(
                        self.chain@,
                        0,
                        b,
                        old(conn).state(),
                    )
                    &&& final(log)@ == old(log)@ + spec_observations(self.chain@, 0, b)
                },
    {
        match self.routes.dispatch(method, path) {
            None => None,
            Some(i) => {
                let behavior = &self.routes.routes[i].behavior;
                let r = run_chain(&self.chain, 0, behavior, conn, log);
                proof {
                    assert forall|j: int|
                        0 <= j < self.routes.routes@.len() && #[trigger] route_matches(
                            self.routes.routes@[j],
                            method,
                            path@,
                        ) implies self.routes.routes@[j].behavior
                        == self.routes.routes@[i as int].behavior by {
                        if j != i as int {
                            assert(same_key(
                                self.routes.routes@[if j < i as int {
                                    j
                                } else {
                                    i as int
                                }],
                                self.routes.routes@[if j < i as int {
                                    i as int
                                } else {
                                    j
                                }],
                            ));
                        }
                    }
                }
                Some(r)
            },
        }
    }
}

/// The pipeline this device serves: the fixed greeting at the root, the
/// permission refusal at `/bar`, wrapped in a recovering outer layer and an
/// observing inner layer.
pub fn demo_pipeline() -> (p: ServicePipeline)
    ensures
        p.wf(),
        p.chain@ =~= seq![MiddlewareKind::Recovering, MiddlewareKind::Observing],
        p.routes.routes@.len() == 2,
        p.routes.routes@[0].method == Method::Get,
        p.routes.routes@[0].path@ == "/"@,
        (p.routes.routes@[0].behavior matches HandlerBehavior::Respond { status, body } && status
            == 200 && body@ == "mSupply FTW!"@),
        p.routes.routes@[1].method == Method::Get,
        p.routes.routes@[1].path@ == "/bar"@,
        (p.routes.routes@[1].behavior matches HandlerBehavior::Respond { status, body } && status
            == 403 && body@ == "You have no permissions to access this page"@),
{
    let mut routes: Vec<Route> = Vec::new();
    routes.push(
        Route {
            method: Method::Get,
            path: String::from_str("/"),
            behavior: HandlerBehavior::Respond {
                status: 200,
                body: String::from_str("mSupply FTW!"),
            },
        },
    );
    routes.push(
        Route {
            method: Method::Get,
            path: String::from_str("/bar"),
            behavior: HandlerBehavior::Respond {
                status: 403,
                body: String::from_str("You have no permissions to access this page"),
            },
        },
    );
    let mut chain: Vec<MiddlewareKind> = Vec::new();
    chain.push(MiddlewareKind::Recovering);
    chain.push(MiddlewareKind::Observing);
    proof {
        reveal_strlit("/");
        reveal_strlit("/bar");
        assert(routes@.len() == 2);
        assert("/"@.len() == 1);
        assert("/bar"@.len() == 4);
        assert(!same_key(routes@[0], routes@[1]));
    }
    ServicePipeline { routes: RouteTable { routes }, chain }
}

/// Law: with a successful terminal handler, every middleware layer's
/// post-delegation observation sees success, and each layer observes exactly
/// once per request (the observed layers are pairwise distinct and cover the
/// whole chain).
pub proof fn lemma_success_observed_once(chain: Seq<MiddlewareKind>, b: HandlerBehavior)
    requires
        chain.len() >= 1,
        chain.len() <= usize::MAX,
        b is Respond,
    ensures
        spec_observations(chain, 0, b).len() == chain.len(),
        forall|k: int|
            0 <= k < chain.len() ==> #[trigger] spec_observations(chain, 0, b)[k] == (Observation {
                layer: (chain.len() - 1 - k) as usize,
                saw_ok: true,
            }),
{
}

/// Law: a terminal handler failure before any response bytes, inside a chain
/// holding at least one recovering layer, reaches the client as exactly one
/// response, with a 500 status and a body carrying the error description.
pub proof fn lemma_error_recovered_before_write(
    chain: Seq<MiddlewareKind>,
    b: HandlerBehavior,
    c0: ConnState,
)
    requires
        b is FailBeforeWrite,
        innermost_recovering(chain, 0) is Some,
        c0.responses == 0,
    ensures
        run_ok_from(chain, 0, b),
        spec_chain_conn(chain, 0, b, c0) == (ConnState {
            responses: 1,
            status: 500,
            body: spec_error_body(b.spec_message()),
        }),
{
}

/// Law: a terminal handler failure after response bytes were written is
/// propagated unconverted by every layer, and no additional response is
/// emitted: the at-most-one-response invariant holds on the failure path.
pub proof fn lemma_error_after_write_propagates(
    chain: Seq<MiddlewareKind>,
    b: HandlerBehavior,
    c0: ConnState,
)
    requires
        b is FailAfterWrite,
    ensures
        !run_ok_from(chain, 0, b),
        spec_chain_conn(chain, 0, b, c0).responses == 1,
        (b matches HandlerBehavior::FailAfterWrite { status, partial, .. } ==> spec_chain_conn(
            chain,
            0,
            b,
            c0,
        ) == (ConnState { responses: 1, status: status, body: partial@ })),
{
}

} // verus!
