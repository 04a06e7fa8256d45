//! The handler abstraction and the chain executor. A handler is invoked
//! with the request, the per-request store, the response and the
//! control-flow signal; the executor runs handlers in registration order
//! and stops as soon as the signal is set.

use vstd::prelude::*;
use crate::depot::Depot;
use crate::flow::FlowCtrl;
use crate::request::Request;
use crate::response::ResBody;
use crate::response::Response;

verus! {

/// Everything a handler can observe or change during one pass: the
/// request, the per-request store, the response, and the control-flow
/// signal.
pub ghost struct ChainState {
    pub req: Request,
    pub depot: Depot,
    pub res: Response,
    pub ctrl: FlowCtrl,
}

/// The chain state assembled from its four components.
pub open spec fn chain_state(req: Request, depot: Depot, res: Response, ctrl: FlowCtrl) -> ChainState {
    ChainState { req, depot, res, ctrl }
}

/// A unit of request processing.
///
/// The executor never invokes a handler once the control-flow signal is
/// set; the `requires` clause makes that chain invariant a checked
/// obligation of every verified caller.
pub trait Handler {
    /// What one pass of this handler may do: relates the state before a
    /// call of `handle` to the state after it.
    spec fn pass(&self, pre: ChainState, post: ChainState) -> bool;

    /// Processes one request. A handler may read and change the store
    /// and the response freely; it stops the rest of the chain solely
    /// by setting the control-flow signal.
    fn handle(&self, req: &mut Request, depot: &mut Depot, res: &mut Response, ctrl: &mut FlowCtrl)
        requires
            !old(ctrl).skip_rest,
        ensures
            self.pass(
                chain_state(*old(req), *old(depot), *old(res), *old(ctrl)),
                chain_state(*final(req), *final(depot), *final(res), *final(ctrl)),
            ),
    ;
}

/// One run of a chain: the state is left alone once the signal is set
/// or the chain is exhausted; otherwise the first handler makes a pass
/// and the remaining chain runs from where it left off.
pub open spec fn chain_steps(
    handlers: Seq<Box<dyn Handler>>,
    pre: ChainState,
    post: ChainState,
) -> bool
    decreases handlers.len(),
{
    if pre.ctrl.skip_rest || handlers.len() == 0 {
        post == pre
    } else {
        exists|mid: ChainState|
            #[trigger] handlers[0].pass(pre, mid) && chain_steps(handlers.drop_first(), mid, post)
    }
}

/// Chain short-circuit: a run of a non-empty chain starts with a pass
/// of its first handler, and whenever that pass sets the control-flow
/// signal the run ends in exactly the state the pass left — no later
/// handler observes or changes anything.
pub proof fn lemma_chain_short_circuit(
    handlers: Seq<Box<dyn Handler>>,
    pre: ChainState,
    post: ChainState,
)
    requires
        !pre.ctrl.skip_rest,
        handlers.len() > 0,
        chain_steps(handlers, pre, post),
    ensures
        exists|mid: ChainState|
            #[trigger] handlers[0].pass(pre, mid) && (mid.ctrl.skip_rest ==> post == mid),
{
    let mid = choose|mid: ChainState|
        #[trigger] handlers[0].pass(pre, mid) && chain_steps(handlers.drop_first(), mid, post);
    assert(handlers[0].pass(pre, mid) && (mid.ctrl.skip_rest ==> post == mid));
}

/// Runs each handler in registration order, skipping every remaining
/// handler once the control-flow signal is set: the states before and
/// after are related by one run of the chain. In particular a chain
/// whose signal is already set, or which holds no handler, changes
/// nothing.
pub fn run_chain(
    handlers: &Vec<Box<dyn Handler>>,
    req: &mut Request,
    depot: &mut Depot,
    res: &mut Response,
    ctrl: &mut FlowCtrl,
)
    ensures
        chain_steps(
            handlers@,
            chain_state(*old(req), *old(depot), *old(res), *old(ctrl)),
            chain_state(*final(req), *final(depot), *final(res), *final(ctrl)),
        ),
{
    let ghost pre_s = chain_state(*req, *depot, *res, *ctrl);
    proof {
        assert(handlers@.skip(0) =~= handlers@);
    }
    let mut i: usize = 0;
    while i < handlers.len()
        invariant
            i <= handlers@.len(),
            forall|q: ChainState|
                #[trigger] chain_steps(
                    handlers@.skip(i as int),
                    chain_state(*req, *depot, *res, *ctrl),
                    q,
                ) ==> chain_steps(handlers@, pre_s, q),
            pre_s == chain_state(*old(req), *old(depot), *old(res), *old(ctrl)),
        decreases handlers.len() - i,
    {
        if ctrl.skip_rest {
            proof {
                let cur_s = chain_state(*req, *depot, *res, *ctrl);
                assert(chain_steps(handlers@.skip(i as int), cur_s, cur_s));
            }
            return ;
        }
        let ghost cur_s = chain_state(*req, *depot, *res, *ctrl);
        handlers[i].handle(req, depot, res, ctrl);
        proof {
            let mid_s = chain_state(*req, *depot, *res, *ctrl);
            let rest = handlers@.skip(i as int);
            assert(rest[0] == handlers@[i as int]);
            assert(rest.drop_first() =~= handlers@.skip(i + 1));
            assert forall|q: ChainState|
                #[trigger] chain_steps(handlers@.skip(i + 1), mid_s, q) implies chain_steps(
                handlers@,
                pre_s,
                q,
            ) by {
                assert(rest[0].pass(cur_s, mid_s) && chain_steps(rest.drop_first(), mid_s, q));
                assert(chain_steps(rest, cur_s, q));
            }
        }
        i = i + 1;
    }
    proof {
        let cur_s = chain_state(*req, *depot, *res, *ctrl);
        assert(handlers@.skip(handlers@.len() as int).len() == 0);
        assert(chain_steps(handlers@.skip(handlers@.len() as int), cur_s, cur_s));
    }
}

/// A terminal handler that renders a fixed text body with a fixed
/// status code, the way a routed target endpoint would.
pub struct TextHandler {
    /// Status code this handler sets.
    pub status_code: u16,
    /// Body text this handler renders.
    pub text: String,
}

impl TextHandler {
    /// A handler that responds with `status_code` and `text`.
    pub fn new(status_code: u16, text: String) -> (r: TextHandler)
        ensures
            r.status_code == status_code,
            r.text == text,
    {
        TextHandler { status_code, text }
    }
}

impl Handler for TextHandler {
    /// One pass renders this handler's status and text into the
    /// response and touches nothing else.
    open spec fn pass(&self, pre: ChainState, post: ChainState) -> bool {
        &&& post.req == pre.req
        &&& post.depot == pre.depot
        &&& post.ctrl == pre.ctrl
        &&& post.res.status_code == Some(self.status_code)
        &&& post.res.body == ResBody::Text(self.text)
        &&& post.res.headers == pre.res.headers
    }

    fn handle(&self, req: &mut Request, depot: &mut Depot, res: &mut Response, ctrl: &mut FlowCtrl)
        ensures
            *final(req) == *old(req),
            *final(depot) == *old(depot),
            *final(ctrl) == *old(ctrl),
            final(res).status_code == Some(self.status_code),
            final(res).body == ResBody::Text(self.text),
            final(res).headers == old(res).headers,
    {
        res.set_status_code(self.status_code);
        res.set_body(ResBody::Text(self.text.clone()));
    }
}

} // verus!
