//! The broadcast dispatcher: one notification, pushed to every registered
//! connection, each push on its own.
//!
//! The transport is elsewhere. A `Dispatch` says which push comes next and
//! takes note of how each one went; a push that fails neither stops the
//! others nor is tried again.

use crate::sockets::connections::{Connection, StoreUnavailable};
use crate::sockets::messages::{wire_form, BroadcastMessage, EncodeError};
use vstd::prelude::*;

verus! {

/// One push: the bytes to send and the connection to send them to.
#[derive(Debug, Clone, PartialEq, Eq)]
pub struct Push {
    pub connection_id: String,
    pub data: Vec<u8>,
}

/// A push as contracts see it.
pub struct PushView {
    pub connection_id: Seq<char>,
    pub data: Seq<u8>,
}

impl View for Push {
    type V = PushView;

    open spec fn view(&self) -> PushView {
        PushView { connection_id: self.connection_id@, data: self.data@ }
    }
}

/// A broadcast under way as contracts see it: the connections to push to,
/// the bytes, and how the pushes made so far went, in the order of the
/// connections.
pub struct DispatchView {
    pub targets: Seq<Seq<char>>,
    pub data: Seq<u8>,
    pub outcomes: Seq<bool>,
}

/// A broadcast under way.
#[derive(Debug)]
pub struct Dispatch {
    targets: Vec<String>,
    data: Vec<u8>,
    outcomes: Vec<bool>,
}

/// The push that a broadcast makes next: to the first connection not yet
/// tried, or none when all were tried.
pub open spec fn next_of(d: DispatchView) -> Option<PushView> {
    if d.outcomes.len() < d.targets.len() {
        Some(PushView { connection_id: d.targets[d.outcomes.len() as int], data: d.data })
    } else {
        None
    }
}

/// The broadcast after a push went as `delivered` says: the outcome is
/// noted and the next connection is up, whether or not the push arrived.
/// Once all connections were tried, nothing changes.
pub open spec fn recorded(d: DispatchView, delivered: bool) -> DispatchView {
    if d.outcomes.len() < d.targets.len() {
        DispatchView { outcomes: d.outcomes.push(delivered), ..d }
    } else {
        d
    }
}

/// The broadcast after pushes went as `outcomes` say, one after the other.
pub open spec fn run(d: DispatchView, outcomes: Seq<bool>) -> DispatchView
    decreases outcomes.len(),
{
    if outcomes.len() == 0 {
        d
    } else {
        recorded(run(d, outcomes.drop_last()), outcomes.last())
    }
}

/// The pushes asked for while pushes went as `outcomes` say.
pub open spec fn pushes_during(d: DispatchView, outcomes: Seq<bool>) -> Seq<Option<PushView>>
    decreases outcomes.len(),
{
    if outcomes.len() == 0 {
        Seq::empty()
    } else {
        pushes_during(d, outcomes.drop_last()).push(next_of(run(d, outcomes.drop_last())))
    }
}

/// Among the first `upto` connections, those whose push went as `wanted`
/// says, in order.
pub open spec fn targets_with(d: DispatchView, wanted: bool, upto: int) -> Seq<Seq<char>>
    decreases upto,
{
    if upto <= 0 {
        Seq::empty()
    } else if d.outcomes[upto - 1] == wanted {
        targets_with(d, wanted, upto - 1).push(d.targets[upto - 1])
    } else {
        targets_with(d, wanted, upto - 1)
    }
}

/// The identifiers of a list of connections, in order.
pub open spec fn identifiers_of(connections: Seq<Connection>) -> Seq<Seq<char>> {
    Seq::new(connections.len(), |i: int| connections[i].connection_id@)
}

/// A broadcast of `data` to `targets` of which no push was made yet.
pub open spec fn fresh(targets: Seq<Seq<char>>, data: Seq<u8>) -> DispatchView {
    DispatchView { targets, data, outcomes: Seq::empty() }
}

impl View for Dispatch {
    type V = DispatchView;

    closed spec fn view(&self) -> DispatchView {
        DispatchView {
            targets: self.targets.deep_view(),
            data: self.data@,
            outcomes: self.outcomes@,
        }
    }
}

impl Dispatch {
    #[verifier::type_invariant]
    spec fn well_formed(self) -> bool {
        self.outcomes.len() <= self.targets.len()
    }

    /// Starts a broadcast of `data` to the connections `targets`.
    pub fn new(targets: Vec<String>, data: Vec<u8>) -> (dispatch: Dispatch)
        ensures
            dispatch@ == fresh(targets.deep_view(), data@),
    {
        Dispatch { targets, data, outcomes: Vec::new() }
    }

    /// How many connections the broadcast goes to.
    pub fn targets(&self) -> (count: usize)
        ensures
            count == self@.targets.len(),
    {
        self.targets.len()
    }

    /// How many pushes were made.
    pub fn attempted(&self) -> (count: usize)
        ensures
            count == self@.outcomes.len(),
            self@.outcomes.len() <= self@.targets.len(),
    {
        proof {
            use_type_invariant(self);
        }
        self.outcomes.len()
    }

    /// Whether every connection was tried.
    pub fn is_done(&self) -> (done: bool)
        ensures
            done == (next_of(self@) is None),
            done == (self@.outcomes.len() == self@.targets.len()),
    {
        proof {
            use_type_invariant(self);
        }
        self.outcomes.len() >= self.targets.len()
    }

    /// The push to make next, or `None` when every connection was tried.
    pub fn next_push(&self) -> (push: Option<Push>)
        ensures
            match push {
                Some(p) => next_of(self@) == Some(p@),
                None => next_of(self@) is None,
            },
    {
        let at = self.outcomes.len();
        if at < self.targets.len() {
            assert(self.targets.deep_view()[at as int] == self.targets@[at as int]@);
            Some(Push { connection_id: self.targets[at].clone(), data: self.data.clone() })
        } else {
            None
        }
    }

    /// Takes note of how the push last asked for went, and moves on to the
    /// next connection either way.
    pub fn record(self, delivered: bool) -> (after: Dispatch)
        ensures
            after@ == recorded(self@, delivered),
    {
        proof {
            use_type_invariant(&self);
        }
        if self.outcomes.len() < self.targets.len() {
            let mut outcomes = self.outcomes;
            outcomes.push(delivered);
            Dispatch { targets: self.targets, data: self.data, outcomes }
        } else {
            self
        }
    }

    /// The connections tried so far whose push went as `wanted` says.
    fn tried_with(&self, wanted: bool) -> (list: Vec<String>)
        ensures
            list.deep_view() == targets_with(self@, wanted, self@.outcomes.len() as int),
    {
        proof {
            use_type_invariant(self);
        }
        let mut list: Vec<String> = Vec::new();
        let mut i: usize = 0;
        while i < self.outcomes.len()
            invariant
                i <= self.outcomes.len(),
                self.outcomes.len() <= self.targets.len(),
                list.deep_view() == targets_with(self@, wanted, i as int),
            decreases self.outcomes.len() - i,
        {
            let ghost before = list.deep_view();
            if self.outcomes[i] == wanted {
                let target = self.targets[i].clone();
                list.push(target);
                assert(self.targets.deep_view()[i as int] == self.targets@[i as int]@);
                assert(list.deep_view() =~= before.push(target@));
            }
            i = i + 1;
        }
        list
    }

    /// The connections that the notification was delivered to, so far.
    pub fn delivered(&self) -> (list: Vec<String>)
        ensures
            list.deep_view() == targets_with(self@, true, self@.outcomes.len() as int),
    {
        self.tried_with(true)
    }

    /// The connections whose push failed, so far.
    pub fn failed(&self) -> (list: Vec<String>)
        ensures
            list.deep_view() == targets_with(self@, false, self@.outcomes.len() as int),
    {
        self.tried_with(false)
    }
}

/// Starts the broadcast of encoded bytes to the given connections, in the
/// order given.
pub fn dispatch_to(connections: &Vec<Connection>, data: Vec<u8>) -> (dispatch: Dispatch)
    ensures
        dispatch@ == fresh(identifiers_of(connections@), data@),
{
    let mut targets: Vec<String> = Vec::new();
    let mut i: usize = 0;
    while i < connections.len()
        invariant
            i <= connections.len(),
            targets.deep_view() == identifiers_of(connections@).take(i as int),
        decreases connections.len() - i,
    {
        let ghost before = targets.deep_view();
        let id = connections[i].connection_id.clone();
        targets.push(id);
        assert(targets.deep_view() =~= before.push(id@));
        assert(targets.deep_view() =~= identifiers_of(connections@).take(i + 1));
        i = i + 1;
    }
    assert(targets.deep_view() =~= identifiers_of(connections@));
    Dispatch::new(targets, data)
}

/// Why a broadcast did not start.
#[derive(Debug, Clone, Copy, PartialEq, Eq, Structural)]
pub enum BroadcastError {
    /// The registry could not be listed.
    RegistryUnavailable,
    /// The notification could not be encoded.
    Encoding(EncodeError),
}

/// Broadcasts a notification to every registered connection, given the
/// registry's listing or the failure to get one. Without a listing nothing
/// is pushed to anyone. With one, the notification is encoded once and a
/// broadcast of its wire form to all the connections listed starts; a
/// notification that the encoder rejects starts none.
pub fn _broadcast_to_all(
    listing: Result<&Vec<Connection>, StoreUnavailable>,
    message: &BroadcastMessage,
) -> (dispatch: Result<Dispatch, BroadcastError>)
    ensures
        match listing {
            Ok(connections) => match wire_form(message@) {
                Some(wire) => dispatch matches Ok(d) && d@ == fresh(
                    identifiers_of(connections@),
                    wire,
                ),
                None => dispatch matches Err(BroadcastError::Encoding(EncodeError::Rejected)),
            },
            Err(_) => dispatch matches Err(BroadcastError::RegistryUnavailable),
        },
{
    let connections = match listing {
        Ok(connections) => connections,
        Err(_) => {
            return Err(BroadcastError::RegistryUnavailable);
        },
    };
    match message.encode() {
        Ok(data) => Ok(dispatch_to(connections, data)),
        Err(e) => Err(BroadcastError::Encoding(e)),
    }
}

/// Broadcasts a notification to the connections named: the notification is
/// encoded once and a broadcast of its wire form to those connections, in
/// the order given, starts. A notification that the encoder rejects starts
/// none.
pub fn _broadcast_to_connections(connection_ids: Vec<String>, message: &BroadcastMessage) -> (dispatch:
    Result<Dispatch, EncodeError>)
    ensures
        match wire_form(message@) {
            Some(wire) => dispatch matches Ok(d) && d@ == fresh(connection_ids.deep_view(), wire),
            None => dispatch matches Err(EncodeError::Rejected),
        },
{
    match message.encode() {
        Ok(data) => Ok(Dispatch::new(connection_ids, data)),
        Err(e) => Err(e),
    }
}

/// Fan-out is isolated: however the pushes go, the broadcast asks for one
/// push to each connection, in order, with the same bytes, and notes each
/// outcome. A failure changes neither which pushes are asked for nor how
/// many.
pub proof fn lemma_fan_out(targets: Seq<Seq<char>>, data: Seq<u8>, outcomes: Seq<bool>)
    requires
        outcomes.len() <= targets.len(),
    ensures
        run(fresh(targets, data), outcomes) == (DispatchView { targets, data, outcomes }),
        pushes_during(fresh(targets, data), outcomes).len() == outcomes.len(),
        forall|i: int|
            0 <= i < outcomes.len() ==> #[trigger] pushes_during(fresh(targets, data), outcomes)[i]
                == Some(PushView { connection_id: targets[i], data }),
        outcomes.len() == targets.len() ==> next_of(run(fresh(targets, data), outcomes)) is None,
    decreases outcomes.len(),
{
    let start = fresh(targets, data);
    if outcomes.len() == 0 {
        assert(start.outcomes =~= outcomes);
    } else {
        let earlier = outcomes.drop_last();
        lemma_fan_out(targets, data, earlier);
        assert(earlier.push(outcomes.last()) =~= outcomes);
        assert forall|i: int| 0 <= i < outcomes.len() implies #[trigger] pushes_during(
            start,
            outcomes,
        )[i] == Some(PushView { connection_id: targets[i], data }) by {
            if i < earlier.len() {
                assert(pushes_during(start, outcomes)[i] == pushes_during(start, earlier)[i]);
            }
        }
    }
}

/// Every connection whose push went as `wanted` says is in the list of
/// those that did, and no other connection is: a failed push takes nothing
/// away from the deliveries to the others.
pub proof fn lemma_targets_with(d: DispatchView, wanted: bool, upto: int)
    requires
        0 <= upto <= d.outcomes.len() <= d.targets.len(),
    ensures
        forall|i: int|
            0 <= i < upto && d.outcomes[i] == wanted ==> targets_with(d, wanted, upto).contains(
                #[trigger] d.targets[i],
            ),
        forall|t: Seq<char>|
            targets_with(d, wanted, upto).contains(t) ==> exists|i: int|
                0 <= i < upto && d.outcomes[i] == wanted && #[trigger] d.targets[i] == t,
    decreases upto,
{
    if upto > 0 {
        lemma_targets_with(d, wanted, upto - 1);
        let shorter = targets_with(d, wanted, upto - 1);
        let all = targets_with(d, wanted, upto);
        if d.outcomes[upto - 1] == wanted {
            assert(all == shorter.push(d.targets[upto - 1]));
            assert(all[all.len() - 1] == d.targets[upto - 1]);
            assert forall|i: int| 0 <= i < upto && d.outcomes[i] == wanted implies all.contains(
                #[trigger] d.targets[i],
            ) by {
                if i < upto - 1 {
                    let at = choose|at: int| 0 <= at < shorter.len() && shorter[at] == d.targets[i];
                    assert(all[at] == d.targets[i]);
                }
            }
            assert forall|t: Seq<char>| all.contains(t) implies exists|i: int|
                0 <= i < upto && d.outcomes[i] == wanted && #[trigger] d.targets[i] == t by {
                let at = choose|at: int| 0 <= at < all.len() && all[at] == t;
                if at < shorter.len() {
                    assert(shorter[at] == t);
                    assert(shorter.contains(t));
                } else {
                    assert(d.targets[upto - 1] == t);
                }
            }
        }
    }
}

} // verus!
