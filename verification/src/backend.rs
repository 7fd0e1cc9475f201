use crate::error::ConfigError;
use crate::text::same_text;
use std::sync::atomic::AtomicUsize;
use vstd::prelude::*;

verus! {

/// The two groups of upstream servers that a request can be routed to.
#[derive(Clone, Copy, Debug, PartialEq, Eq, Structural)]
pub enum TrafficClass {
    /// Origins that are contacted in the clear.
    Plain,
    /// Origins that are contacted over TLS.
    TlsOrigin,
}

impl TrafficClass {
    /// The class that a forwarded-protocol indicator stands for: TLS origins
    /// for exactly `https`, plain origins for anything else or nothing.
    pub open spec fn of_forwarded_proto(proto: Option<Seq<char>>) -> TrafficClass {
        if proto == Some("https"@) {
            TrafficClass::TlsOrigin
        } else {
            TrafficClass::Plain
        }
    }

    /// Classifies a request by the forwarded-protocol indicator that the
    /// front-line terminator set, if any.
    pub fn from_forwarded_proto(proto: Option<&str>) -> (class: TrafficClass)
        ensures
            class == Self::of_forwarded_proto(proto.deep_view()),
    {
        match proto {
            Some(p) => {
                if same_text(p, "https") {
                    TrafficClass::TlsOrigin
                } else {
                    TrafficClass::Plain
                }
            },
            None => TrafficClass::Plain,
        }
    }

    /// Whether connections to backends of this class are encrypted.
    pub fn uses_tls(self) -> (tls: bool)
        ensures
            tls == (self == TrafficClass::TlsOrigin),
    {
        match self {
            TrafficClass::TlsOrigin => true,
            TrafficClass::Plain => false,
        }
    }
}

/// One upstream server.
#[derive(Debug, PartialEq, Eq)]
pub struct Backend {
    /// The host name or address that the server is reached at.
    pub host: String,
    /// The TCP port that it listens on.
    pub port: u16,
    /// The traffic class that it serves.
    pub class: TrafficClass,
}

/// What a [`Backend`] is in contracts.
pub ghost struct BackendView {
    pub host: Seq<char>,
    pub port: u16,
    pub class: TrafficClass,
}

impl View for Backend {
    type V = BackendView;

    open spec fn view(&self) -> BackendView {
        BackendView { host: self.host@, port: self.port, class: self.class }
    }
}

impl Clone for Backend {
    fn clone(&self) -> (copy: Self)
        ensures
            copy == *self,
    {
        Backend { host: self.host.clone(), port: self.port, class: self.class }
    }
}

/// The backends of `all` that belong to `class`, in their configured order.
pub open spec fn of_class(all: Seq<BackendView>, class: TrafficClass) -> Seq<BackendView> {
    all.filter(|b: BackendView| b.class == class)
}

/// The views of a list of backends.
pub open spec fn backend_views(list: Seq<Backend>) -> Seq<BackendView> {
    list.map_values(|b: Backend| b@)
}

/// The member that a ticket falls on: tickets walk the list round and round.
pub open spec fn pick_at<A>(members: Seq<A>, ticket: nat) -> A
    recommends
        members.len() > 0,
{
    members[(ticket % members.len()) as int]
}

/// The members that `count` consecutive tickets give, from ticket `start` on.
pub open spec fn picks<A>(members: Seq<A>, start: nat, count: nat) -> Seq<A> {
    Seq::new(count, |i: int| pick_at(members, (start + i) as nat))
}

proof fn lemma_picks_split<A>(members: Seq<A>, start: nat, first: nat, second: nat)
    ensures
        picks(members, start, first + second) == picks(members, start, first) + picks(
            members,
            start + first,
            second,
        ),
{
    assert(picks(members, start, first + second) =~= picks(members, start, first) + picks(
        members,
        start + first,
        second,
    ));
}

/// One round of consecutive tickets, wherever it begins, selects the members
/// of the configured list, each as often as the list names it.
pub proof fn lemma_one_round<A>(members: Seq<A>, start: nat)
    requires
        members.len() > 0,
    ensures
        picks(members, start, members.len()).to_multiset() == members.to_multiset(),
{
    let n = members.len() as int;
    let r = start as int % n;
    let rotated = members.skip(r) + members.take(r);
    assert forall|i: int| 0 <= i < n implies #[trigger] picks(members, start, members.len())[i]
        == rotated[i] by {
        assert((start + i) % n == (if r + i < n {
            r + i
        } else {
            r + i - n
        })) by (nonlinear_arith)
            requires
                r == start as int % n,
                0 <= i < n,
                0 <= start,
        ;
    }
    assert(picks(members, start, members.len()) =~= rotated);
    assert(members.take(r) + members.skip(r) =~= members);
    vstd::seq_lib::lemma_multiset_commutative(members.skip(r), members.take(r));
    vstd::seq_lib::lemma_multiset_commutative(members.take(r), members.skip(r));
}

/// Round-robin selection is weighted by repetition: over any whole number of
/// rounds of consecutive tickets, wherever they begin, each backend is
/// selected as often per round as the configured list names it. With the list
/// `[a, a, b]`, `a` is selected twice as often as `b`.
pub proof fn lemma_round_robin_shares<A>(members: Seq<A>, start: nat, rounds: nat, member: A)
    requires
        members.len() > 0,
    ensures
        picks(members, start, rounds * members.len()).to_multiset().count(member) == rounds
            * members.to_multiset().count(member),
    decreases rounds,
{
    let n = members.len();
    if rounds == 0 {
        broadcast use vstd::seq_lib::group_to_multiset_ensures;

        assert(picks(members, start, 0) =~= Seq::<A>::empty());
    } else {
        let done = ((rounds - 1) * n) as nat;
        assert(rounds * n == done + n) by (nonlinear_arith)
            requires
                done == (rounds - 1) * n,
                rounds > 0,
        ;
        lemma_round_robin_shares(members, start, (rounds - 1) as nat, member);
        lemma_picks_split(members, start, done, n);
        lemma_one_round(members, start + done);
        vstd::seq_lib::lemma_multiset_commutative(
            picks(members, start, done),
            picks(members, start + done, n),
        );
        assert(rounds * members.to_multiset().count(member) == (rounds - 1)
            * members.to_multiset().count(member) + members.to_multiset().count(member))
            by (nonlinear_arith)
            requires
                rounds > 0,
        ;
    }
}

/// The cursor after one step: one more, and zero after the largest.
pub open spec fn next_cursor(cursor: usize) -> usize {
    if cursor == usize::MAX {
        0
    } else {
        (cursor + 1) as usize
    }
}

/// The members that `count` successive steps give, each step taking the
/// cursor as its ticket and handing the next cursor on.
pub open spec fn steps<A>(members: Seq<A>, cursor: usize, count: nat) -> Seq<A>
    decreases count,
{
    if count == 0 {
        Seq::empty()
    } else {
        seq![pick_at(members, cursor as nat)] + steps(
            members,
            next_cursor(cursor),
            (count - 1) as nat,
        )
    }
}

/// Successive steps take consecutive tickets, as long as the cursor does not
/// pass its largest value on the way.
pub proof fn lemma_steps_take_consecutive_tickets<A>(members: Seq<A>, cursor: usize, count: nat)
    requires
        cursor + count <= usize::MAX + 1,
    ensures
        steps(members, cursor, count) == picks(members, cursor as nat, count),
    decreases count,
{
    if count > 0 {
        if count > 1 {
            lemma_steps_take_consecutive_tickets(members, next_cursor(cursor), (count - 1) as nat);
        }
        assert(steps(members, next_cursor(cursor), (count - 1) as nat) =~= picks(
            members,
            (cursor + 1) as nat,
            (count - 1) as nat,
        ));
        lemma_picks_split(members, cursor as nat, 1, (count - 1) as nat);
        assert(picks(members, cursor as nat, 1) =~= seq![pick_at(members, cursor as nat)]);
    } else {
        assert(picks(members, cursor as nat, 0) =~= Seq::<A>::empty());
    }
}

/// Successive steps of round robin are weighted by repetition: over any whole
/// number of rounds, from any cursor that does not pass its largest value on
/// the way, each backend is selected as often per round as the configured
/// list names it.
pub proof fn lemma_successive_steps_share<A>(
    members: Seq<A>,
    cursor: usize,
    rounds: nat,
    member: A,
)
    requires
        members.len() > 0,
        cursor + rounds * members.len() <= usize::MAX + 1,
    ensures
        steps(members, cursor, rounds * members.len()).to_multiset().count(member) == rounds
            * members.to_multiset().count(member),
{
    lemma_steps_take_consecutive_tickets(members, cursor, rounds * members.len());
    lemma_round_robin_shares(members, cursor as nat, rounds, member);
}

/// The upstream servers of both traffic classes, each class with the cursor
/// of its round-robin selection.
///
/// A backend that is listed several times is selected that many times per
/// round. The cursors are atomic counters, so that requests in flight at the
/// same time can select without a lock.
#[derive(Debug)]
pub struct BackendPool {
    plain: Vec<Backend>,
    tls: Vec<Backend>,
    plain_cursor: AtomicUsize,
    tls_cursor: AtomicUsize,
}

impl BackendPool {
    #[verifier::type_invariant]
    spec fn sorted_by_class(self) -> bool {
        &&& forall|i: int|
            0 <= i < self.plain@.len() ==> (#[trigger] self.plain@[i]).class == TrafficClass::Plain
        &&& forall|i: int|
            0 <= i < self.tls@.len() ==> (#[trigger] self.tls@[i]).class == TrafficClass::TlsOrigin
    }

    /// The backends of one class, in the order of selection.
    pub closed spec fn members(&self, class: TrafficClass) -> Seq<BackendView> {
        match class {
            TrafficClass::Plain => backend_views(self.plain@),
            TrafficClass::TlsOrigin => backend_views(self.tls@),
        }
    }

    /// Builds the pool from the configured backends, each going to the list
    /// of its class; the order within a class is the configured one.
    pub fn new(backends: Vec<Backend>) -> (pool: BackendPool)
        ensures
            pool.members(TrafficClass::Plain) == of_class(
                backend_views(backends@),
                TrafficClass::Plain,
            ),
            pool.members(TrafficClass::TlsOrigin) == of_class(
                backend_views(backends@),
                TrafficClass::TlsOrigin,
            ),
    {
        let mut plain: Vec<Backend> = Vec::new();
        let mut tls: Vec<Backend> = Vec::new();
        let ghost all = backend_views(backends@);
        let ghost is_plain = |b: BackendView| b.class == TrafficClass::Plain;
        let ghost is_tls = |b: BackendView| b.class == TrafficClass::TlsOrigin;
        let mut i: usize = 0;
        while i < backends.len()
            invariant
                0 <= i <= backends.len(),
                all == backend_views(backends@),
                is_plain == |b: BackendView| b.class == TrafficClass::Plain,
                is_tls == |b: BackendView| b.class == TrafficClass::TlsOrigin,
                backend_views(plain@) == all.take(i as int).filter(is_plain),
                backend_views(tls@) == all.take(i as int).filter(is_tls),
                forall|k: int|
                    0 <= k < plain@.len() ==> (#[trigger] plain@[k]).class == TrafficClass::Plain,
                forall|k: int|
                    0 <= k < tls@.len() ==> (#[trigger] tls@[k]).class == TrafficClass::TlsOrigin,
            decreases backends.len() - i,
        {
            let b = backends[i].clone();
            proof {
                let before = all.take(i as int);
                assert(all.take(i + 1) == before.push(b@));
                before.lemma_filter_push(b@, is_plain);
                before.lemma_filter_push(b@, is_tls);
            }
            match b.class {
                TrafficClass::Plain => {
                    plain.push(b);
                },
                TrafficClass::TlsOrigin => {
                    tls.push(b);
                },
            }
            i = i + 1;
        }
        assert(all.take(i as int) == all);
        BackendPool {
            plain,
            tls,
            plain_cursor: AtomicUsize::new(0),
            tls_cursor: AtomicUsize::new(0),
        }
    }

    fn list(&self, class: TrafficClass) -> (list: &Vec<Backend>)
        ensures
            backend_views(list@) == self.members(class),
            forall|i: int| 0 <= i < list@.len() ==> (#[trigger] list@[i]).class == class,
    {
        proof {
            use_type_invariant(self);
        }
        match class {
            TrafficClass::Plain => &self.plain,
            TrafficClass::TlsOrigin => &self.tls,
        }
    }

    /// How many backends one class has, counting each as often as it is listed.
    pub fn len(&self, class: TrafficClass) -> (n: usize)
        ensures
            n == self.members(class).len(),
    {
        self.list(class).len()
    }

    /// The backend that a ticket falls on.
    ///
    /// Fails only when the class has no backend.
    pub fn pick(&self, class: TrafficClass, ticket: usize) -> (r: Result<Backend, ConfigError>)
        ensures
            match r {
                Ok(b) => self.members(class).len() > 0 && b@ == pick_at(
                    self.members(class),
                    ticket as nat,
                ) && b.class == class,
                Err(e) => self.members(class).len() == 0 && e == ConfigError::EmptyPool(class),
            },
    {
        let list = self.list(class);
        if list.len() == 0 {
            Err(ConfigError::EmptyPool(class))
        } else {
            Ok(list[ticket % list.len()].clone())
        }
    }

    /// One step of round robin for a single owner: gives the backend that
    /// the cursor falls on and advances the cursor by one, wrapping at the
    /// top.
    ///
    /// Successive calls on one cursor give what [`steps`] gives, so they
    /// walk the list round and round: each backend is selected as often per
    /// round as the list names it (see [`lemma_successive_steps_share`]).
    /// Fails only when the class has no backend.
    pub fn pick_next(&self, class: TrafficClass, cursor: &mut usize) -> (r: Result<
        Backend,
        ConfigError,
    >)
        ensures
            *final(cursor) == next_cursor(*old(cursor)),
            match r {
                Ok(b) => self.members(class).len() > 0 && b@ == pick_at(
                    self.members(class),
                    *old(cursor) as nat,
                ) && b.class == class,
                Err(e) => self.members(class).len() == 0 && e == ConfigError::EmptyPool(class),
            },
    {
        let ticket = *cursor;
        *cursor = if ticket == usize::MAX {
            0
        } else {
            ticket + 1
        };
        self.pick(class, ticket)
    }

    /// Draws a ticket from the cursor of a class: the counter's value, which
    /// the same step advances by one, wrapping at the top.
    ///
    /// Nothing is promised of the ticket. The counter is shared by all
    /// requests in flight, so its value is not a function of this call's
    /// arguments, and every ticket is one that [`BackendPool::pick`] takes.
    fn next_ticket(&self, class: TrafficClass) -> usize {
        match class {
            TrafficClass::Plain => self.plain_cursor.fetch_add(
                1,
                std::sync::atomic::Ordering::Relaxed,
            ),
            TrafficClass::TlsOrigin => self.tls_cursor.fetch_add(
                1,
                std::sync::atomic::Ordering::Relaxed,
            ),
        }
    }

    /// Selects the next backend of a class and advances the class's cursor.
    ///
    /// The cursor is shared by all callers, so which member comes back is
    /// decided by the ticket drawn, and [`BackendPool::pick`] says which
    /// member each ticket gives. Fails only when the class has no backend.
    pub fn select(&self, class: TrafficClass) -> (r: Result<Backend, ConfigError>)
        ensures
            match r {
                Ok(b) => self.members(class).contains(b@) && b.class == class,
                Err(e) => self.members(class).len() == 0 && e == ConfigError::EmptyPool(class),
            },
    {
        let ticket = self.next_ticket(class);
        self.pick(class, ticket)
    }
}

} // verus!
